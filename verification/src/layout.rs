use vstd::prelude::*;
use vstd::bytes::spec_u16_from_le_bytes;
use vstd::bytes::spec_u16_to_le_bytes;
use vstd::bytes::spec_u32_from_le_bytes;
use vstd::bytes::spec_u32_to_le_bytes;
use vstd::bytes::spec_u64_from_le_bytes;
use vstd::bytes::spec_u64_to_le_bytes;
use vstd::bytes::lemma_auto_spec_u16_to_from_le_bytes;
use vstd::bytes::lemma_auto_spec_u32_to_from_le_bytes;
use vstd::bytes::lemma_auto_spec_u64_to_from_le_bytes;
use vstd::bytes::u16_from_le_bytes;
use vstd::bytes::u32_from_le_bytes;
use vstd::bytes::u64_from_le_bytes;
use vstd::bytes::u16_to_le_bytes;
use vstd::bytes::u32_to_le_bytes;
use vstd::bytes::u64_to_le_bytes;
use crate::states::Config;
use crate::states::InvoiceAccount;
use crate::states::InvoiceItem;
use crate::states::PaymentMetadata;

verus! {

// Each record persists under a fixed binary layout: its fields in declared
// order, integers fixed-width little-endian, addresses and digests as raw
// 32-byte strings, and the trailing bump byte. The host environment
// prefixes every stored record with its own 8-byte type discriminator,
// which is therefore not part of these encodings.

/// The number of bytes of an encoded configuration record.
pub const CONFIG_RECORD_LEN: usize = 45;

/// The number of bytes of an encoded invoice record.
pub const INVOICE_ACCOUNT_RECORD_LEN: usize = 145;

/// The number of bytes of an encoded invoice item record.
pub const INVOICE_ITEM_RECORD_LEN: usize = 101;

/// The number of bytes of an encoded payment receipt.
pub const PAYMENT_METADATA_RECORD_LEN: usize = 75;

/// The stored bytes of a configuration record.
pub open spec fn config_record_bytes(c: Config) -> Seq<u8> {
    spec_u64_to_le_bytes(c.seed) + c.admin@ + spec_u16_to_le_bytes(c.fee)
        + spec_u16_to_le_bytes(c.basis_points) + seq![c.bump]
}

/// The stored bytes of an invoice record.
pub open spec fn invoice_account_record_bytes(inv: InvoiceAccount) -> Seq<u8> {
    spec_u64_to_le_bytes(inv.seed) + inv.merchant@ + inv.mint@ + inv.vault@ + inv.fee_vault@
        + spec_u16_to_le_bytes(inv.fee) + spec_u16_to_le_bytes(inv.basis_points)
        + spec_u32_to_le_bytes(inv.invoice_account_sequence_number) + seq![inv.bump]
}

/// The stored bytes of an invoice item record.
pub open spec fn invoice_item_record_bytes(item: InvoiceItem) -> Seq<u8> {
    spec_u64_to_le_bytes(item.seed) + item.invoice_account@ + spec_u64_to_le_bytes(item.price)
        + item.product_id@ + spec_u64_to_le_bytes(item.creation_ts) + spec_u64_to_le_bytes(
        item.expiry_ts,
    ) + spec_u16_to_le_bytes(item.remaining) + spec_u16_to_le_bytes(item.count) + seq![item.bump]
}

/// The stored bytes of a payment receipt.
pub open spec fn payment_metadata_record_bytes(receipt: PaymentMetadata) -> Seq<u8> {
    receipt.invoice_item_account@ + spec_u64_to_le_bytes(receipt.price_paid)
        + spec_u16_to_le_bytes(receipt.item_seq_number) + receipt.buyer_metadata@ + seq![
        receipt.bump,
    ]
}

fn push_u16_le(buf: &mut Vec<u8>, x: u16)
    ensures
        final(buf)@ == old(buf)@ + spec_u16_to_le_bytes(x),
        final(buf)@.len() == old(buf)@.len() + 2,
{
    let mut bytes = u16_to_le_bytes(x);
    buf.append(&mut bytes);
}

fn push_u32_le(buf: &mut Vec<u8>, x: u32)
    ensures
        final(buf)@ == old(buf)@ + spec_u32_to_le_bytes(x),
        final(buf)@.len() == old(buf)@.len() + 4,
{
    let mut bytes = u32_to_le_bytes(x);
    buf.append(&mut bytes);
}

fn push_u64_le(buf: &mut Vec<u8>, x: u64)
    ensures
        final(buf)@ == old(buf)@ + spec_u64_to_le_bytes(x),
        final(buf)@.len() == old(buf)@.len() + 8,
{
    let mut bytes = u64_to_le_bytes(x);
    buf.append(&mut bytes);
}

fn push_bytes32(buf: &mut Vec<u8>, a: &[u8; 32])
    ensures
        final(buf)@ == old(buf)@ + a@,
{
    let ghost pre = buf@;
    let mut i: usize = 0;
    while i < 32
        invariant
            i <= 32,
            buf@ == pre + a@.take(i as int),
        decreases 32 - i,
    {
        buf.push(a[i]);
        proof {
            assert(buf@ =~= pre + a@.take(i + 1 as int));
        }
        i += 1;
    }
    proof {
        assert(a@.take(32) =~= a@);
    }
}

/// Encode a configuration record as it is stored.
pub fn config_to_bytes(c: &Config) -> (r: Vec<u8>)
    ensures
        r@ == config_record_bytes(*c),
        r@.len() == CONFIG_RECORD_LEN,
{
    let mut buf: Vec<u8> = Vec::new();
    push_u64_le(&mut buf, c.seed);
    push_bytes32(&mut buf, &c.admin);
    push_u16_le(&mut buf, c.fee);
    push_u16_le(&mut buf, c.basis_points);
    buf.push(c.bump);
    proof {
        assert(buf@ =~= config_record_bytes(*c));
    }
    buf
}

/// Encode an invoice record as it is stored.
pub fn invoice_account_to_bytes(inv: &InvoiceAccount) -> (r: Vec<u8>)
    ensures
        r@ == invoice_account_record_bytes(*inv),
        r@.len() == INVOICE_ACCOUNT_RECORD_LEN,
{
    let mut buf: Vec<u8> = Vec::new();
    push_u64_le(&mut buf, inv.seed);
    push_bytes32(&mut buf, &inv.merchant);
    push_bytes32(&mut buf, &inv.mint);
    push_bytes32(&mut buf, &inv.vault);
    push_bytes32(&mut buf, &inv.fee_vault);
    push_u16_le(&mut buf, inv.fee);
    push_u16_le(&mut buf, inv.basis_points);
    push_u32_le(&mut buf, inv.invoice_account_sequence_number);
    buf.push(inv.bump);
    proof {
        assert(buf@ =~= invoice_account_record_bytes(*inv));
    }
    buf
}

/// Encode an invoice item record as it is stored.
pub fn invoice_item_to_bytes(item: &InvoiceItem) -> (r: Vec<u8>)
    ensures
        r@ == invoice_item_record_bytes(*item),
        r@.len() == INVOICE_ITEM_RECORD_LEN,
{
    let mut buf: Vec<u8> = Vec::new();
    push_u64_le(&mut buf, item.seed);
    push_bytes32(&mut buf, &item.invoice_account);
    push_u64_le(&mut buf, item.price);
    push_bytes32(&mut buf, &item.product_id);
    push_u64_le(&mut buf, item.creation_ts);
    push_u64_le(&mut buf, item.expiry_ts);
    push_u16_le(&mut buf, item.remaining);
    push_u16_le(&mut buf, item.count);
    buf.push(item.bump);
    proof {
        assert(buf@ =~= invoice_item_record_bytes(*item));
    }
    buf
}

/// Encode a payment receipt as it is stored.
pub fn payment_metadata_to_bytes(receipt: &PaymentMetadata) -> (r: Vec<u8>)
    ensures
        r@ == payment_metadata_record_bytes(*receipt),
        r@.len() == PAYMENT_METADATA_RECORD_LEN,
{
    let mut buf: Vec<u8> = Vec::new();
    push_bytes32(&mut buf, &receipt.invoice_item_account);
    push_u64_le(&mut buf, receipt.price_paid);
    push_u16_le(&mut buf, receipt.item_seq_number);
    push_bytes32(&mut buf, &receipt.buyer_metadata);
    buf.push(receipt.bump);
    proof {
        assert(buf@ =~= payment_metadata_record_bytes(*receipt));
    }
    buf
}

fn read_bytes32(bytes: &Vec<u8>, offset: usize) -> (r: [u8; 32])
    requires
        offset + 32 <= bytes@.len(),
    ensures
        r@ == bytes@.subrange(offset as int, offset as int + 32),
{
    let n: usize = bytes.len();
    let mut r: [u8; 32] = [0u8; 32];
    let mut i: usize = 0;
    while i < 32
        invariant
            i <= 32,
            offset + 32 <= bytes@.len() <= usize::MAX,
            forall|j: int| 0 <= j < i ==> r@[j] == bytes@[offset + j],
        decreases 32 - i,
    {
        r[i] = bytes[offset + i];
        i += 1;
    }
    proof {
        assert(r@ =~= bytes@.subrange(offset as int, offset as int + 32));
    }
    r
}

fn read_u16_le(bytes: &Vec<u8>, offset: usize) -> (x: u16)
    requires
        offset + 2 <= bytes@.len(),
    ensures
        x == spec_u16_from_le_bytes(bytes@.subrange(offset as int, offset as int + 2)),
{
    let n: usize = bytes.len();
    u16_from_le_bytes(vstd::slice::slice_subrange(bytes.as_slice(), offset, offset + 2))
}

fn read_u32_le(bytes: &Vec<u8>, offset: usize) -> (x: u32)
    requires
        offset + 4 <= bytes@.len(),
    ensures
        x == spec_u32_from_le_bytes(bytes@.subrange(offset as int, offset as int + 4)),
{
    let n: usize = bytes.len();
    u32_from_le_bytes(vstd::slice::slice_subrange(bytes.as_slice(), offset, offset + 4))
}

fn read_u64_le(bytes: &Vec<u8>, offset: usize) -> (x: u64)
    requires
        offset + 8 <= bytes@.len(),
    ensures
        x == spec_u64_from_le_bytes(bytes@.subrange(offset as int, offset as int + 8)),
{
    let n: usize = bytes.len();
    u64_from_le_bytes(vstd::slice::slice_subrange(bytes.as_slice(), offset, offset + 8))
}

/// Decode a stored configuration record. Exactly the byte strings that
/// encode a record decode: the result, re-encoded, is the input.
pub fn config_from_bytes(bytes: &Vec<u8>) -> (r: Option<Config>)
    ensures
        bytes@.len() != CONFIG_RECORD_LEN ==> r is None,
        bytes@.len() == CONFIG_RECORD_LEN ==> (r matches Some(c) && config_record_bytes(c)
            == bytes@),
{
    if bytes.len() != CONFIG_RECORD_LEN {
        return None;
    }
    let c = Config {
        seed: read_u64_le(bytes, 0),
        admin: read_bytes32(bytes, 8),
        fee: read_u16_le(bytes, 40),
        basis_points: read_u16_le(bytes, 42),
        bump: bytes[44],
    };
    proof {
        lemma_auto_spec_u16_to_from_le_bytes();
        lemma_auto_spec_u64_to_from_le_bytes();
        assert(config_record_bytes(c) =~= bytes@);
    }
    Some(c)
}

/// Decode a stored invoice record. Exactly the byte strings that encode
/// a record decode: the result, re-encoded, is the input.
pub fn invoice_account_from_bytes(bytes: &Vec<u8>) -> (r: Option<InvoiceAccount>)
    ensures
        bytes@.len() != INVOICE_ACCOUNT_RECORD_LEN ==> r is None,
        bytes@.len() == INVOICE_ACCOUNT_RECORD_LEN ==> (r matches Some(inv)
            && invoice_account_record_bytes(inv) == bytes@),
{
    if bytes.len() != INVOICE_ACCOUNT_RECORD_LEN {
        return None;
    }
    let inv = InvoiceAccount {
        seed: read_u64_le(bytes, 0),
        merchant: read_bytes32(bytes, 8),
        mint: read_bytes32(bytes, 40),
        vault: read_bytes32(bytes, 72),
        fee_vault: read_bytes32(bytes, 104),
        fee: read_u16_le(bytes, 136),
        basis_points: read_u16_le(bytes, 138),
        invoice_account_sequence_number: read_u32_le(bytes, 140),
        bump: bytes[144],
    };
    proof {
        lemma_auto_spec_u16_to_from_le_bytes();
        lemma_auto_spec_u32_to_from_le_bytes();
        lemma_auto_spec_u64_to_from_le_bytes();
        assert(invoice_account_record_bytes(inv) =~= bytes@);
    }
    Some(inv)
}

/// Decode a stored invoice item record. Exactly the byte strings that
/// encode a record decode: the result, re-encoded, is the input.
pub fn invoice_item_from_bytes(bytes: &Vec<u8>) -> (r: Option<InvoiceItem>)
    ensures
        bytes@.len() != INVOICE_ITEM_RECORD_LEN ==> r is None,
        bytes@.len() == INVOICE_ITEM_RECORD_LEN ==> (r matches Some(item)
            && invoice_item_record_bytes(item) == bytes@),
{
    if bytes.len() != INVOICE_ITEM_RECORD_LEN {
        return None;
    }
    let item = InvoiceItem {
        seed: read_u64_le(bytes, 0),
        invoice_account: read_bytes32(bytes, 8),
        price: read_u64_le(bytes, 40),
        product_id: read_bytes32(bytes, 48),
        creation_ts: read_u64_le(bytes, 80),
        expiry_ts: read_u64_le(bytes, 88),
        remaining: read_u16_le(bytes, 96),
        count: read_u16_le(bytes, 98),
        bump: bytes[100],
    };
    proof {
        lemma_auto_spec_u16_to_from_le_bytes();
        lemma_auto_spec_u64_to_from_le_bytes();
        assert(invoice_item_record_bytes(item) =~= bytes@);
    }
    Some(item)
}

/// Decode a stored payment receipt. Exactly the byte strings that encode
/// a receipt decode: the result, re-encoded, is the input.
pub fn payment_metadata_from_bytes(bytes: &Vec<u8>) -> (r: Option<PaymentMetadata>)
    ensures
        bytes@.len() != PAYMENT_METADATA_RECORD_LEN ==> r is None,
        bytes@.len() == PAYMENT_METADATA_RECORD_LEN ==> (r matches Some(receipt)
            && payment_metadata_record_bytes(receipt) == bytes@),
{
    if bytes.len() != PAYMENT_METADATA_RECORD_LEN {
        return None;
    }
    let receipt = PaymentMetadata {
        invoice_item_account: read_bytes32(bytes, 0),
        price_paid: read_u64_le(bytes, 32),
        item_seq_number: read_u16_le(bytes, 40),
        buyer_metadata: read_bytes32(bytes, 42),
        bump: bytes[74],
    };
    proof {
        lemma_auto_spec_u16_to_from_le_bytes();
        lemma_auto_spec_u64_to_from_le_bytes();
        assert(payment_metadata_record_bytes(receipt) =~= bytes@);
    }
    Some(receipt)
}

/// The stored encoding is lossless: two configuration records with the
/// same bytes are the same record. With the decoders' contracts this
/// gives the round trip: a record read back from its stored bytes is the
/// record that was stored.
pub proof fn lemma_config_encoding_injective(c1: Config, c2: Config)
    requires
        config_record_bytes(c1) == config_record_bytes(c2),
    ensures
        c1 == c2,
{
    lemma_auto_spec_u16_to_from_le_bytes();
    lemma_auto_spec_u64_to_from_le_bytes();
    let b1 = config_record_bytes(c1);
    let b2 = config_record_bytes(c2);
    assert(spec_u64_to_le_bytes(c1.seed) =~= b1.subrange(0, 8));
    assert(spec_u64_to_le_bytes(c2.seed) =~= b2.subrange(0, 8));
    assert(c1.admin@ =~= b1.subrange(8, 40));
    assert(c2.admin@ =~= b2.subrange(8, 40));
    assert(c1.admin =~= c2.admin);
    assert(spec_u16_to_le_bytes(c1.fee) =~= b1.subrange(40, 42));
    assert(spec_u16_to_le_bytes(c2.fee) =~= b2.subrange(40, 42));
    assert(spec_u16_to_le_bytes(c1.basis_points) =~= b1.subrange(42, 44));
    assert(spec_u16_to_le_bytes(c2.basis_points) =~= b2.subrange(42, 44));
    assert(c1.bump == b1[44] && c2.bump == b2[44]);
}

/// The stored encoding of an invoice record is lossless.
pub proof fn lemma_invoice_account_encoding_injective(inv1: InvoiceAccount, inv2: InvoiceAccount)
    requires
        invoice_account_record_bytes(inv1) == invoice_account_record_bytes(inv2),
    ensures
        inv1 == inv2,
{
    lemma_auto_spec_u16_to_from_le_bytes();
    lemma_auto_spec_u32_to_from_le_bytes();
    lemma_auto_spec_u64_to_from_le_bytes();
    let b1 = invoice_account_record_bytes(inv1);
    let b2 = invoice_account_record_bytes(inv2);
    assert(spec_u64_to_le_bytes(inv1.seed) =~= b1.subrange(0, 8));
    assert(spec_u64_to_le_bytes(inv2.seed) =~= b2.subrange(0, 8));
    assert(inv1.merchant@ =~= b1.subrange(8, 40));
    assert(inv2.merchant@ =~= b2.subrange(8, 40));
    assert(inv1.merchant =~= inv2.merchant);
    assert(inv1.mint@ =~= b1.subrange(40, 72));
    assert(inv2.mint@ =~= b2.subrange(40, 72));
    assert(inv1.mint =~= inv2.mint);
    assert(inv1.vault@ =~= b1.subrange(72, 104));
    assert(inv2.vault@ =~= b2.subrange(72, 104));
    assert(inv1.vault =~= inv2.vault);
    assert(inv1.fee_vault@ =~= b1.subrange(104, 136));
    assert(inv2.fee_vault@ =~= b2.subrange(104, 136));
    assert(inv1.fee_vault =~= inv2.fee_vault);
    assert(spec_u16_to_le_bytes(inv1.fee) =~= b1.subrange(136, 138));
    assert(spec_u16_to_le_bytes(inv2.fee) =~= b2.subrange(136, 138));
    assert(spec_u16_to_le_bytes(inv1.basis_points) =~= b1.subrange(138, 140));
    assert(spec_u16_to_le_bytes(inv2.basis_points) =~= b2.subrange(138, 140));
    assert(spec_u32_to_le_bytes(inv1.invoice_account_sequence_number) =~= b1.subrange(140, 144));
    assert(spec_u32_to_le_bytes(inv2.invoice_account_sequence_number) =~= b2.subrange(140, 144));
    assert(inv1.bump == b1[144] && inv2.bump == b2[144]);
}

/// The stored encoding of an invoice item record is lossless.
pub proof fn lemma_invoice_item_encoding_injective(item1: InvoiceItem, item2: InvoiceItem)
    requires
        invoice_item_record_bytes(item1) == invoice_item_record_bytes(item2),
    ensures
        item1 == item2,
{
    lemma_auto_spec_u16_to_from_le_bytes();
    lemma_auto_spec_u64_to_from_le_bytes();
    let b1 = invoice_item_record_bytes(item1);
    let b2 = invoice_item_record_bytes(item2);
    assert(spec_u64_to_le_bytes(item1.seed) =~= b1.subrange(0, 8));
    assert(spec_u64_to_le_bytes(item2.seed) =~= b2.subrange(0, 8));
    assert(item1.invoice_account@ =~= b1.subrange(8, 40));
    assert(item2.invoice_account@ =~= b2.subrange(8, 40));
    assert(item1.invoice_account =~= item2.invoice_account);
    assert(spec_u64_to_le_bytes(item1.price) =~= b1.subrange(40, 48));
    assert(spec_u64_to_le_bytes(item2.price) =~= b2.subrange(40, 48));
    assert(item1.product_id@ =~= b1.subrange(48, 80));
    assert(item2.product_id@ =~= b2.subrange(48, 80));
    assert(item1.product_id =~= item2.product_id);
    assert(spec_u64_to_le_bytes(item1.creation_ts) =~= b1.subrange(80, 88));
    assert(spec_u64_to_le_bytes(item2.creation_ts) =~= b2.subrange(80, 88));
    assert(spec_u64_to_le_bytes(item1.expiry_ts) =~= b1.subrange(88, 96));
    assert(spec_u64_to_le_bytes(item2.expiry_ts) =~= b2.subrange(88, 96));
    assert(spec_u16_to_le_bytes(item1.remaining) =~= b1.subrange(96, 98));
    assert(spec_u16_to_le_bytes(item2.remaining) =~= b2.subrange(96, 98));
    assert(spec_u16_to_le_bytes(item1.count) =~= b1.subrange(98, 100));
    assert(spec_u16_to_le_bytes(item2.count) =~= b2.subrange(98, 100));
    assert(item1.bump == b1[100] && item2.bump == b2[100]);
}

/// The stored encoding of a payment receipt is lossless.
pub proof fn lemma_payment_metadata_encoding_injective(r1: PaymentMetadata, r2: PaymentMetadata)
    requires
        payment_metadata_record_bytes(r1) == payment_metadata_record_bytes(r2),
    ensures
        r1 == r2,
{
    lemma_auto_spec_u16_to_from_le_bytes();
    lemma_auto_spec_u64_to_from_le_bytes();
    let b1 = payment_metadata_record_bytes(r1);
    let b2 = payment_metadata_record_bytes(r2);
    assert(r1.invoice_item_account@ =~= b1.subrange(0, 32));
    assert(r2.invoice_item_account@ =~= b2.subrange(0, 32));
    assert(r1.invoice_item_account =~= r2.invoice_item_account);
    assert(spec_u64_to_le_bytes(r1.price_paid) =~= b1.subrange(32, 40));
    assert(spec_u64_to_le_bytes(r2.price_paid) =~= b2.subrange(32, 40));
    assert(spec_u16_to_le_bytes(r1.item_seq_number) =~= b1.subrange(40, 42));
    assert(spec_u16_to_le_bytes(r2.item_seq_number) =~= b2.subrange(40, 42));
    assert(r1.buyer_metadata@ =~= b1.subrange(42, 74));
    assert(r2.buyer_metadata@ =~= b2.subrange(42, 74));
    assert(r1.buyer_metadata =~= r2.buyer_metadata);
    assert(r1.bump == b1[74] && r2.bump == b2[74]);
}

} // verus!
