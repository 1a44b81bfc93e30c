use vstd::prelude::*;
use vstd::bytes::spec_u16_to_le_bytes;
use vstd::bytes::spec_u32_to_le_bytes;
use vstd::bytes::spec_u64_to_le_bytes;
use vstd::bytes::u16_to_le_bytes;
use vstd::bytes::u32_to_le_bytes;
use vstd::bytes::u64_to_le_bytes;

verus! {

// Every record of this system lives at an address computed from an ordered
// list of byte-string labels and binary values, plus a collision-avoidance
// bump byte. Any party can recompute the expected address from the same
// inputs and compare it to a presented record's address, which
// authenticates the record without a central registry.

/// The byte sequences of a list of seed buffers.
pub open spec fn views_of(seeds: Seq<Vec<u8>>) -> Seq<Seq<u8>> {
    seeds.map_values(|v: Vec<u8>| v@)
}

/// What the host's address derivation returns for a program and a seed
/// list: a 32-byte address and the bump byte, or nothing when the seed
/// list is beyond the host's limits or, in a statistically improbable
/// event, no bump avoids a collision with a valid signing identity. A
/// pure function of its inputs.
pub uninterp spec fn pda_of(program: Seq<u8>, seeds: Seq<Seq<u8>>) -> Option<(Seq<u8>, u8)>;

/// The byte-level value of a derived address result.
pub open spec fn pda_result(r: Option<([u8; 32], u8)>) -> Option<(Seq<u8>, u8)> {
    match r {
        Some(p) => Some((p.0@, p.1)),
        None => None,
    }
}

/// Relies on Pubkey::try_find_program_address: the derived address and
/// bump depend on the seed list and program id alone, `None` included.
#[verifier::external_body]
fn find_pda(program_id: &[u8; 32], seeds: &Vec<Vec<u8>>) -> (r: Option<([u8; 32], u8)>)
    ensures
        pda_result(r) == pda_of(program_id@, views_of(seeds@)),
{
    let refs: Vec<&[u8]> = seeds.iter().map(|s| s.as_slice()).collect();
    let program = anchor_lang::solana_program::pubkey::Pubkey::new_from_array(*program_id);
    anchor_lang::solana_program::pubkey::Pubkey::try_find_program_address(&refs, &program)
        .map(|(address, bump)| (address.to_bytes(), bump))
}

/// What the host's 32-byte digest function returns for a byte string: a
/// function of the data alone.
pub uninterp spec fn digest_of(data: Seq<u8>) -> Seq<u8>;

/// Relies on solana_sha256_hasher::hash: a 32-byte digest that depends on
/// the input bytes alone.
#[verifier::external_body]
fn digest32(data: &Vec<u8>) -> (r: [u8; 32])
    ensures
        r@ == digest_of(data@),
{
    solana_sha256_hasher::hash(data.as_slice()).to_bytes()
}

/// The bytes of the label "config".
pub open spec fn config_label() -> Seq<u8> {
    seq![0x63u8, 0x6f, 0x6e, 0x66, 0x69, 0x67]
}

fn config_label_bytes() -> (r: Vec<u8>)
    ensures
        r@ == config_label(),
{
    let r: Vec<u8> = vec![0x63, 0x6f, 0x6e, 0x66, 0x69, 0x67];
    proof {
        assert(r@ =~= config_label());
    }
    r
}

/// The bytes of the label "invoice_account".
pub open spec fn invoice_account_label() -> Seq<u8> {
    seq![0x69u8, 0x6e, 0x76, 0x6f, 0x69, 0x63, 0x65, 0x5f, 0x61, 0x63, 0x63, 0x6f, 0x75, 0x6e, 0x74]
}

fn invoice_account_label_bytes() -> (r: Vec<u8>)
    ensures
        r@ == invoice_account_label(),
{
    let r: Vec<u8> = vec![0x69, 0x6e, 0x76, 0x6f, 0x69, 0x63, 0x65, 0x5f, 0x61, 0x63, 0x63, 0x6f, 0x75, 0x6e, 0x74];
    proof {
        assert(r@ =~= invoice_account_label());
    }
    r
}

/// The bytes of the label "invoice_item".
pub open spec fn invoice_item_label() -> Seq<u8> {
    seq![0x69u8, 0x6e, 0x76, 0x6f, 0x69, 0x63, 0x65, 0x5f, 0x69, 0x74, 0x65, 0x6d]
}

fn invoice_item_label_bytes() -> (r: Vec<u8>)
    ensures
        r@ == invoice_item_label(),
{
    let r: Vec<u8> = vec![0x69, 0x6e, 0x76, 0x6f, 0x69, 0x63, 0x65, 0x5f, 0x69, 0x74, 0x65, 0x6d];
    proof {
        assert(r@ =~= invoice_item_label());
    }
    r
}

/// The bytes of the label "pay_invoice_item".
pub open spec fn payment_label() -> Seq<u8> {
    seq![0x70u8, 0x61, 0x79, 0x5f, 0x69, 0x6e, 0x76, 0x6f, 0x69, 0x63, 0x65, 0x5f, 0x69, 0x74, 0x65, 0x6d]
}

fn payment_label_bytes() -> (r: Vec<u8>)
    ensures
        r@ == payment_label(),
{
    let r: Vec<u8> = vec![0x70, 0x61, 0x79, 0x5f, 0x69, 0x6e, 0x76, 0x6f, 0x69, 0x63, 0x65, 0x5f, 0x69, 0x74, 0x65, 0x6d];
    proof {
        assert(r@ =~= payment_label());
    }
    r
}

/// Seed list of the configuration record: `["config", seed]`.
pub open spec fn config_seeds(seed: u64) -> Seq<Seq<u8>> {
    seq![config_label(), spec_u64_to_le_bytes(seed)]
}

/// Seed list of an invoice record:
/// `["invoice_account", merchant, mint, seed]`.
pub open spec fn invoice_account_seeds(merchant: Seq<u8>, mint: Seq<u8>, seed: u64) -> Seq<Seq<u8>> {
    seq![invoice_account_label(), merchant, mint, spec_u64_to_le_bytes(seed)]
}

/// Seed list of an invoice item record:
/// `["invoice_item", invoiceAccountAddress, seed]`.
pub open spec fn invoice_item_seeds(invoice_account: Seq<u8>, seed: u64) -> Seq<Seq<u8>> {
    seq![invoice_item_label(), invoice_account, spec_u64_to_le_bytes(seed)]
}

/// Seed list of a payment receipt:
/// `["pay_invoice_item", buyer, invoiceItemAddress, count]` with the
/// item's pre-increment sale counter, so each sale event has its own
/// address.
pub open spec fn payment_metadata_seeds(buyer: Seq<u8>, invoice_item: Seq<u8>, count: u16) -> Seq<Seq<u8>> {
    seq![payment_label(), buyer, invoice_item, spec_u16_to_le_bytes(count)]
}

/// Seed list of a token holding account under the associated-token
/// program: `[authority, tokenProgram, mint]`.
pub open spec fn associated_token_seeds(authority: Seq<u8>, token_program: Seq<u8>, mint: Seq<u8>) -> Seq<Seq<u8>> {
    seq![authority, token_program, mint]
}

/// The byte string an item's derived product id digests: the invoice's
/// current sequence number followed by the invoice's address.
pub open spec fn product_id_preimage(sequence_number: u32, invoice_account: Seq<u8>) -> Seq<u8> {
    spec_u32_to_le_bytes(sequence_number) + invoice_account
}

/// Derive the digest-based product id of a new item from the invoice's
/// current sequence number and the invoice's address.
pub fn derive_product_id(sequence_number: u32, invoice_account: &[u8; 32]) -> (r: [u8; 32])
    ensures
        r@ == digest_of(product_id_preimage(sequence_number, invoice_account@)),
{
    let mut data: Vec<u8> = u32_to_le_bytes(sequence_number);
    let mut i: usize = 0;
    while i < 32
        invariant
            i <= 32,
            data@ == spec_u32_to_le_bytes(sequence_number) + invoice_account@.take(i as int),
        decreases 32 - i,
    {
        data.push(invoice_account[i]);
        proof {
            assert(data@ =~= spec_u32_to_le_bytes(sequence_number)
                + invoice_account@.take(i + 1 as int));
        }
        i += 1;
    }
    proof {
        assert(invoice_account@.take(32) =~= invoice_account@);
    }
    digest32(&data)
}

/// Derive the configuration record's address and bump for a seed.
pub fn derive_config_address(program_id: &[u8; 32], seed: u64) -> (r: Option<([u8; 32], u8)>)
    ensures
        pda_result(r) == pda_of(program_id@, config_seeds(seed)),
{
    let mut seeds: Vec<Vec<u8>> = Vec::new();
    seeds.push(config_label_bytes());
    seeds.push(u64_to_le_bytes(seed));
    proof {
        assert(views_of(seeds@) =~= config_seeds(seed));
    }
    find_pda(program_id, &seeds)
}

/// Derive an invoice record's address and bump for a merchant, a payment
/// token and a seed.
pub fn derive_invoice_account_address(
    program_id: &[u8; 32],
    merchant: &[u8; 32],
    mint: &[u8; 32],
    seed: u64,
) -> (r: Option<([u8; 32], u8)>)
    ensures
        pda_result(r) == pda_of(program_id@, invoice_account_seeds(merchant@, mint@, seed)),
{
    let mut seeds: Vec<Vec<u8>> = Vec::new();
    seeds.push(invoice_account_label_bytes());
    seeds.push(bytes32_vec(merchant));
    seeds.push(bytes32_vec(mint));
    seeds.push(u64_to_le_bytes(seed));
    proof {
        assert(views_of(seeds@) =~= invoice_account_seeds(merchant@, mint@, seed));
    }
    find_pda(program_id, &seeds)
}

/// Derive an invoice item record's address and bump under an invoice.
pub fn derive_invoice_item_address(
    program_id: &[u8; 32],
    invoice_account: &[u8; 32],
    seed: u64,
) -> (r: Option<([u8; 32], u8)>)
    ensures
        pda_result(r) == pda_of(program_id@, invoice_item_seeds(invoice_account@, seed)),
{
    let mut seeds: Vec<Vec<u8>> = Vec::new();
    seeds.push(invoice_item_label_bytes());
    seeds.push(bytes32_vec(invoice_account));
    seeds.push(u64_to_le_bytes(seed));
    proof {
        assert(views_of(seeds@) =~= invoice_item_seeds(invoice_account@, seed));
    }
    find_pda(program_id, &seeds)
}

/// Derive a payment receipt's address and bump for a buyer, an item and
/// the item's pre-increment sale counter.
pub fn derive_payment_metadata_address(
    program_id: &[u8; 32],
    buyer: &[u8; 32],
    invoice_item: &[u8; 32],
    count: u16,
) -> (r: Option<([u8; 32], u8)>)
    ensures
        pda_result(r) == pda_of(program_id@, payment_metadata_seeds(buyer@, invoice_item@, count)),
{
    let mut seeds: Vec<Vec<u8>> = Vec::new();
    seeds.push(payment_label_bytes());
    seeds.push(bytes32_vec(buyer));
    seeds.push(bytes32_vec(invoice_item));
    seeds.push(u16_to_le_bytes(count));
    proof {
        assert(views_of(seeds@) =~= payment_metadata_seeds(buyer@, invoice_item@, count));
    }
    find_pda(program_id, &seeds)
}

/// Derive the address and bump of a token holding account owned by an
/// authority for a mint, under the associated-token program.
pub fn derive_associated_token_address(
    associated_token_program_id: &[u8; 32],
    authority: &[u8; 32],
    token_program_id: &[u8; 32],
    mint: &[u8; 32],
) -> (r: Option<([u8; 32], u8)>)
    ensures
        pda_result(r) == pda_of(
            associated_token_program_id@,
            associated_token_seeds(authority@, token_program_id@, mint@),
        ),
{
    let mut seeds: Vec<Vec<u8>> = Vec::new();
    seeds.push(bytes32_vec(authority));
    seeds.push(bytes32_vec(token_program_id));
    seeds.push(bytes32_vec(mint));
    proof {
        assert(views_of(seeds@) =~= associated_token_seeds(authority@, token_program_id@, mint@));
    }
    find_pda(associated_token_program_id, &seeds)
}

/// Copy a 32-byte address into a growable seed buffer.
fn bytes32_vec(a: &[u8; 32]) -> (r: Vec<u8>)
    ensures
        r@ == a@,
{
    let mut r: Vec<u8> = Vec::new();
    let mut i: usize = 0;
    while i < 32
        invariant
            i <= 32,
            r@ == a@.take(i as int),
        decreases 32 - i,
    {
        r.push(a[i]);
        proof {
            assert(r@ =~= a@.take(i + 1 as int));
        }
        i += 1;
    }
    proof {
        assert(a@.take(32) =~= a@);
    }
    r
}

} // verus!
