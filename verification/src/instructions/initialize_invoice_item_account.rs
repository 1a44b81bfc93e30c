use vstd::prelude::*;
use crate::address::derive_invoice_item_address;
use crate::address::derive_product_id;
use crate::address::digest_of;
use crate::address::invoice_item_seeds;
use crate::address::pda_of;
use crate::address::product_id_preimage;
use crate::errors::EnvError;
use crate::errors::ErrorCode;
use crate::errors::OpError;
use crate::registry::AddressRegistry;
use crate::states::InvoiceAccount;
use crate::states::InvoiceItem;

verus! {

/// The inputs of item creation: the caller, and the invoice record the
/// item is listed under together with its address.
pub struct InitializeInvoiceItemAccount {
    pub program_id: [u8; 32],
    pub merchant: [u8; 32],
    pub invoice_account_address: [u8; 32],
    pub invoice_account: InvoiceAccount,
}

/// The derived address and bump of the new item record.
pub open spec fn item_pda(s: InitializeInvoiceItemAccount, seed: u64) -> Option<(Seq<u8>, u8)> {
    pda_of(s.program_id@, invoice_item_seeds(s.invoice_account_address@, seed))
}

/// Why item creation fails, given the records that already exist, or
/// `None` when it succeeds. The invoice must be a record of this system,
/// the caller must be the invoice's recorded merchant, the item's address
/// must be free, and the invoice's sequence number must have room to
/// advance.
pub open spec fn item_create_err(
    s: InitializeInvoiceItemAccount,
    existing: Set<Seq<u8>>,
    seed: u64,
) -> Option<OpError> {
    if !existing.contains(s.invoice_account_address@) {
        Some(OpError::Env(EnvError::MissingAccount))
    } else if s.invoice_account.merchant@ != s.merchant@ {
        Some(OpError::Env(EnvError::Unauthorized))
    } else if item_pda(s, seed) is None {
        Some(OpError::Env(EnvError::DerivationFailed))
    } else if existing.contains(item_pda(s, seed)->Some_0.0) {
        Some(OpError::Env(EnvError::AlreadyExists))
    } else if s.invoice_account.invoice_account_sequence_number == u32::MAX {
        Some(OpError::Code(ErrorCode::OverflowError))
    } else {
        None
    }
}

impl InitializeInvoiceItemAccount {
    /// List a new sellable item under the invoice, with its price, stock
    /// and expiry. Stock is fixed at creation: `remaining` starts at the
    /// full stock and `count` at zero. The product id is derived as a
    /// digest of the invoice's current sequence number and the invoice's
    /// address, and the sequence number then advances so the next item
    /// digests a fresh value. No expiry validation occurs here: an item
    /// may be created already past its sale window.
    pub fn initialize_invoice_item_account(
        &mut self,
        registry: &mut AddressRegistry,
        seed: u64,
        price: u64,
        expiry_ts: u64,
        items: u16,
        now: u64,
    ) -> (r: Result<InvoiceItem, OpError>)
        ensures
            r is Err ==> item_create_err(*old(self), old(registry)@, seed) == Some(r->Err_0)
                && *final(self) == *old(self) && final(registry)@ == old(registry)@,
            r is Ok ==> item_create_err(*old(self), old(registry)@, seed) is None && ({
                let item = r->Ok_0;
                &&& item.seed == seed
                &&& item.invoice_account@ == old(self).invoice_account_address@
                &&& item.price == price
                &&& item.product_id@ == digest_of(
                    product_id_preimage(
                        old(self).invoice_account.invoice_account_sequence_number,
                        old(self).invoice_account_address@,
                    ),
                )
                &&& item.creation_ts == now
                &&& item.expiry_ts == expiry_ts
                &&& item.remaining == items
                &&& item.count == 0
                &&& item.stock_sum() == items
                &&& item.bump == item_pda(*old(self), seed)->Some_0.1
            }) && ({
                let pre = *old(self);
                let advanced = InvoiceAccount {
                    invoice_account_sequence_number: (
                    pre.invoice_account.invoice_account_sequence_number + 1) as u32,
                    ..pre.invoice_account
                };
                *final(self) == (InitializeInvoiceItemAccount {
                    invoice_account: advanced,
                    ..pre
                })
            }) && final(registry)@ == old(registry)@.insert(item_pda(*old(self), seed)->Some_0.0),
    {
        if !registry.contains(&self.invoice_account_address) {
            return Err(OpError::Env(EnvError::MissingAccount));
        }
        if !crate::eq_bytes32(&self.invoice_account.merchant, &self.merchant) {
            return Err(OpError::Env(EnvError::Unauthorized));
        }
        let (item_address, bump) = match derive_invoice_item_address(
            &self.program_id,
            &self.invoice_account_address,
            seed,
        ) {
            None => { return Err(OpError::Env(EnvError::DerivationFailed)); },
            Some(p) => p,
        };
        if registry.contains(&item_address) {
            return Err(OpError::Env(EnvError::AlreadyExists));
        }
        let sequence_number = self.invoice_account.invoice_account_sequence_number;
        if sequence_number == u32::MAX {
            return Err(OpError::Code(ErrorCode::OverflowError));
        }
        let product_id = derive_product_id(sequence_number, &self.invoice_account_address);
        self.invoice_account.invoice_account_sequence_number = sequence_number + 1;
        match registry.claim(&item_address) {
            Err(e) => {
                proof {
                    assert(false);
                }
                Err(OpError::Env(e))
            },
            Ok(()) => Ok(
                InvoiceItem {
                    seed,
                    invoice_account: self.invoice_account_address,
                    price,
                    product_id,
                    creation_ts: now,
                    expiry_ts,
                    remaining: items,
                    count: 0,
                    bump,
                },
            ),
        }
    }
}

} // verus!
