use vstd::prelude::*;

verus! {

/// The single protocol configuration record: one per admin and seed,
/// holding the fee rate `fee / basis_points` that later invoices snapshot.
#[derive(Clone, Copy, Debug)]
pub struct Config {
    pub seed: u64,
    /// The authority permitted to register payment tokens.
    pub admin: [u8; 32],
    /// Numerator of the protocol fee rate.
    pub fee: u16,
    /// Denominator of the protocol fee rate; positive in any valid record.
    pub basis_points: u16,
    pub bump: u8,
}

impl Config {
    /// Division safety: the fee denominator of a valid record is positive.
    pub open spec fn wf(self) -> bool {
        self.basis_points > 0
    }
}

/// A merchant's invoice record, bound to one payment token. The fee fields
/// are a snapshot of the configuration at creation time, not a live
/// reference.
#[derive(Clone, Copy, Debug)]
pub struct InvoiceAccount {
    pub seed: u64,
    pub merchant: [u8; 32],
    pub mint: [u8; 32],
    /// Holding account that receives the merchant's net amount.
    pub vault: [u8; 32],
    /// Holding account that receives the protocol fee.
    pub fee_vault: [u8; 32],
    pub fee: u16,
    pub basis_points: u16,
    pub invoice_account_sequence_number: u32,
    pub bump: u8,
}

impl InvoiceAccount {
    /// The snapshot keeps the configuration's division-safety invariant.
    pub open spec fn wf(self) -> bool {
        self.basis_points > 0
    }
}

/// A sellable item under an invoice: price, stock and expiry. Only the
/// settlement operation mutates it, and only by moving one unit from
/// `remaining` to `count`.
#[derive(Clone, Copy, Debug)]
pub struct InvoiceItem {
    pub seed: u64,
    pub invoice_account: [u8; 32],
    pub price: u64,
    pub product_id: [u8; 32],
    pub creation_ts: u64,
    pub expiry_ts: u64,
    /// Units still for sale; only ever decremented.
    pub remaining: u16,
    /// Units sold so far; only ever incremented.
    pub count: u16,
    pub bump: u8,
}

impl InvoiceItem {
    /// The conserved quantity: stock still for sale plus stock already
    /// sold. Fixed at creation and kept by every successful settlement.
    pub open spec fn stock_sum(self) -> int {
        self.remaining + self.count
    }
}

/// The durable receipt of one completed sale: created exactly once per
/// successful settlement and immutable thereafter.
#[derive(Clone, Copy, Debug)]
pub struct PaymentMetadata {
    pub invoice_item_account: [u8; 32],
    pub price_paid: u64,
    /// The item's pre-increment sale counter, making the receipt's
    /// derived address unique per sale event.
    pub item_seq_number: u16,
    /// Digest of the buyer-supplied delivery details.
    pub buyer_metadata: [u8; 32],
    pub bump: u8,
}

} // verus!
