use vstd::prelude::*;
use crate::address::associated_token_seeds;
use crate::address::derive_associated_token_address;
use crate::address::derive_payment_metadata_address;
use crate::address::payment_metadata_seeds;
use crate::address::pda_of;
use crate::errors::EnvError;
use crate::errors::ErrorCode;
use crate::errors::OpError;
use crate::fees::fee_split;
use crate::fees::spec_fee_amount;
use crate::registry::AddressRegistry;
use crate::states::InvoiceAccount;
use crate::states::InvoiceItem;
use crate::states::PaymentMetadata;

verus! {

/// The inputs of settlement: the buyer, the invoice and item records with
/// their addresses, the payment token and its decimal precision, and the
/// three token holding accounts the transfers touch.
pub struct PayInvoiceItem {
    pub program_id: [u8; 32],
    pub associated_token_program_id: [u8; 32],
    pub token_program_id: [u8; 32],
    pub user: [u8; 32],
    pub invoice_account_address: [u8; 32],
    pub invoice_account: InvoiceAccount,
    pub invoice_item_address: [u8; 32],
    pub invoice_item_account: InvoiceItem,
    pub mint: [u8; 32],
    pub mint_decimals: u8,
    pub user_ata: [u8; 32],
    pub merchant_vault: [u8; 32],
    pub fee_vault: [u8; 32],
}

/// The two value transfers a successful settlement instructs, both from
/// the buyer's holding account and both in the invoice's fixed token at
/// its declared decimal precision: the net amount to the merchant's vault
/// and the fee to the fee vault.
pub struct Settlement {
    pub source: [u8; 32],
    pub mint: [u8; 32],
    pub decimals: u8,
    pub net_to: [u8; 32],
    pub net_amount: u64,
    pub fee_to: [u8; 32],
    pub fee_amount: u64,
}

/// The derived address of the buyer's token holding account.
pub open spec fn user_ata_pda(s: PayInvoiceItem) -> Option<(Seq<u8>, u8)> {
    pda_of(
        s.associated_token_program_id@,
        associated_token_seeds(s.user@, s.token_program_id@, s.mint@),
    )
}

/// The derived address and bump of the receipt, unique per sale event
/// because the item's pre-increment counter is among the seeds.
pub open spec fn receipt_pda(s: PayInvoiceItem) -> Option<(Seq<u8>, u8)> {
    pda_of(
        s.program_id@,
        payment_metadata_seeds(s.user@, s.invoice_item_address@, s.invoice_item_account.count),
    )
}

/// One successful settlement's effect on an item: one unit moves from
/// `remaining` to `count` and nothing else changes, so their sum is
/// conserved.
pub open spec fn item_sold_once(pre: InvoiceItem, post: InvoiceItem) -> bool {
    &&& pre.remaining > 0
    &&& pre.count < u16::MAX
    &&& post == (InvoiceItem {
        remaining: (pre.remaining - 1) as u16,
        count: (pre.count + 1) as u16,
        ..pre
    })
}

/// Why settlement fails, given the records that already exist and the
/// current time, or `None` when it settles. Checks run in the order the
/// operation declares them, fail-fast: the account guards, the receipt
/// address, then the state machine of stock, counters and expiry. A
/// failed settlement persists nothing.
pub open spec fn pay_err(s: PayInvoiceItem, existing: Set<Seq<u8>>, now: u64) -> Option<OpError> {
    if !existing.contains(s.invoice_account_address@) {
        Some(OpError::Env(EnvError::MissingAccount))
    } else if !existing.contains(s.invoice_item_address@) {
        Some(OpError::Env(EnvError::MissingAccount))
    } else if s.invoice_item_account.invoice_account@ != s.invoice_account_address@ {
        Some(OpError::Env(EnvError::AddressMismatch))
    } else if s.mint@ != s.invoice_account.mint@ {
        Some(OpError::Env(EnvError::AddressMismatch))
    } else if user_ata_pda(s) is None {
        Some(OpError::Env(EnvError::DerivationFailed))
    } else if user_ata_pda(s)->Some_0.0 != s.user_ata@ {
        Some(OpError::Env(EnvError::AddressMismatch))
    } else if s.merchant_vault@ != s.invoice_account.vault@ {
        Some(OpError::Env(EnvError::AddressMismatch))
    } else if s.fee_vault@ != s.invoice_account.fee_vault@ {
        Some(OpError::Env(EnvError::AddressMismatch))
    } else if receipt_pda(s) is None {
        Some(OpError::Env(EnvError::DerivationFailed))
    } else if existing.contains(receipt_pda(s)->Some_0.0) {
        Some(OpError::Env(EnvError::AlreadyExists))
    } else if s.invoice_item_account.remaining == 0 {
        Some(OpError::Code(ErrorCode::ItemSoldOut))
    } else if s.invoice_item_account.count == u16::MAX {
        Some(OpError::Code(ErrorCode::OverflowError))
    } else if now > s.invoice_item_account.expiry_ts {
        Some(OpError::Code(ErrorCode::InvoiceExpired))
    } else {
        None
    }
}

impl PayInvoiceItem {
    /// Settle one sale of the item: validate the accounts, stock and
    /// expiry, persist the immutable receipt at its derived address, move
    /// one unit from `remaining` to `count`, and split the price into the
    /// merchant's net amount and the protocol fee from the invoice's
    /// snapshot. Every failure leaves every record unchanged, and a
    /// decrement below zero can never happen.
    pub fn pay_invoice_item(
        &mut self,
        registry: &mut AddressRegistry,
        buyer_metadata_hash: [u8; 32],
        now: u64,
    ) -> (r: Result<(PaymentMetadata, Settlement), OpError>)
        requires
            old(self).invoice_item_account.remaining > 0 && now <= old(
                self,
            ).invoice_item_account.expiry_ts ==> old(self).invoice_account.basis_points > 0 && old(
                self,
            ).invoice_account.fee <= old(self).invoice_account.basis_points && (old(
                self,
            ).invoice_item_account.price as int) * (old(self).invoice_account.fee as int)
                <= u64::MAX,
        ensures
            r is Err ==> pay_err(*old(self), old(registry)@, now) == Some(r->Err_0) && *final(self)
                == *old(self) && final(registry)@ == old(registry)@,
            r != Err::<(PaymentMetadata, Settlement), OpError>(
                OpError::Code(ErrorCode::UnderflowError),
            ),
            r is Ok ==> pay_err(*old(self), old(registry)@, now) is None && ({
                let (receipt, settlement) = r->Ok_0;
                let pre = old(self).invoice_item_account;
                let fee_amount = spec_fee_amount(
                    pre.price,
                    old(self).invoice_account.fee,
                    old(self).invoice_account.basis_points,
                );
                &&& receipt.invoice_item_account@ == old(self).invoice_item_address@
                &&& receipt.price_paid == pre.price
                &&& receipt.item_seq_number == pre.count
                &&& receipt.buyer_metadata@ == buyer_metadata_hash@
                &&& receipt.bump == receipt_pda(*old(self))->Some_0.1
                &&& settlement.source@ == old(self).user_ata@
                &&& settlement.mint@ == old(self).mint@
                &&& settlement.decimals == old(self).mint_decimals
                &&& settlement.net_to@ == old(self).invoice_account.vault@
                &&& settlement.fee_to@ == old(self).invoice_account.fee_vault@
                &&& settlement.fee_amount == fee_amount
                &&& settlement.net_amount == pre.price - fee_amount
                &&& settlement.net_amount + settlement.fee_amount == pre.price
                &&& item_sold_once(pre, final(self).invoice_item_account)
                &&& final(self).invoice_item_account.stock_sum() == pre.stock_sum()
                &&& *final(self) == (PayInvoiceItem {
                    invoice_item_account: final(self).invoice_item_account,
                    ..*old(self)
                })
                &&& final(registry)@ == old(registry)@.insert(receipt_pda(*old(self))->Some_0.0)
            }),
    {
        if !registry.contains(&self.invoice_account_address) {
            return Err(OpError::Env(EnvError::MissingAccount));
        }
        if !registry.contains(&self.invoice_item_address) {
            return Err(OpError::Env(EnvError::MissingAccount));
        }
        if !crate::eq_bytes32(&self.invoice_item_account.invoice_account, &self.invoice_account_address) {
            return Err(OpError::Env(EnvError::AddressMismatch));
        }
        if !crate::eq_bytes32(&self.mint, &self.invoice_account.mint) {
            return Err(OpError::Env(EnvError::AddressMismatch));
        }
        let (expected_user_ata, _user_ata_bump) = match derive_associated_token_address(
            &self.associated_token_program_id,
            &self.user,
            &self.token_program_id,
            &self.mint,
        ) {
            None => { return Err(OpError::Env(EnvError::DerivationFailed)); },
            Some(p) => p,
        };
        if !crate::eq_bytes32(&expected_user_ata, &self.user_ata) {
            return Err(OpError::Env(EnvError::AddressMismatch));
        }
        if !crate::eq_bytes32(&self.merchant_vault, &self.invoice_account.vault) {
            return Err(OpError::Env(EnvError::AddressMismatch));
        }
        if !crate::eq_bytes32(&self.fee_vault, &self.invoice_account.fee_vault) {
            return Err(OpError::Env(EnvError::AddressMismatch));
        }
        let (receipt_address, receipt_bump) = match derive_payment_metadata_address(
            &self.program_id,
            &self.user,
            &self.invoice_item_address,
            self.invoice_item_account.count,
        ) {
            None => { return Err(OpError::Env(EnvError::DerivationFailed)); },
            Some(p) => p,
        };
        if registry.contains(&receipt_address) {
            return Err(OpError::Env(EnvError::AlreadyExists));
        }
        if self.invoice_item_account.remaining == 0 {
            return Err(OpError::Code(ErrorCode::ItemSoldOut));
        }
        if self.invoice_item_account.count == u16::MAX {
            return Err(OpError::Code(ErrorCode::OverflowError));
        }
        if now > self.invoice_item_account.expiry_ts {
            return Err(OpError::Code(ErrorCode::InvoiceExpired));
        }
        let receipt = PaymentMetadata {
            invoice_item_account: self.invoice_item_address,
            price_paid: self.invoice_item_account.price,
            item_seq_number: self.invoice_item_account.count,
            buyer_metadata: buyer_metadata_hash,
            bump: receipt_bump,
        };
        let (fee_amount, net_amount) = fee_split(
            self.invoice_item_account.price,
            self.invoice_account.fee,
            self.invoice_account.basis_points,
        );
        let settlement = Settlement {
            source: self.user_ata,
            mint: self.mint,
            decimals: self.mint_decimals,
            net_to: self.invoice_account.vault,
            net_amount,
            fee_to: self.invoice_account.fee_vault,
            fee_amount,
        };
        self.invoice_item_account.remaining = self.invoice_item_account.remaining - 1;
        self.invoice_item_account.count = self.invoice_item_account.count + 1;
        match registry.claim(&receipt_address) {
            Err(e) => {
                proof {
                    assert(false);
                }
                Err(OpError::Env(e))
            },
            Ok(()) => Ok((receipt, settlement)),
        }
    }
}

/// Stock is conserved: across any run of successful settlements,
/// `remaining + count` of the item stays what it was at the start — the
/// stock fixed at creation.
pub proof fn lemma_stock_conserved(trace: Seq<InvoiceItem>)
    requires
        trace.len() >= 1,
        forall|i: int| 0 <= i < trace.len() - 1 ==> item_sold_once(#[trigger] trace[i], trace[i + 1]),
    ensures
        trace.last().stock_sum() == trace.first().stock_sum(),
    decreases trace.len(),
{
    if trace.len() > 1 {
        lemma_stock_conserved(trace.drop_last());
        assert(item_sold_once(trace[trace.len() - 2], trace[trace.len() - 1]));
    }
}

/// Against an item with a single unit left, two settlements cannot both
/// succeed: the first leaves no stock, so under the host's serialization
/// of conflicting writes the second fails — and by the settlement
/// contract it fails with `ItemSoldOut` and mutates nothing.
pub proof fn lemma_last_unit_single_success(pre: InvoiceItem, mid: InvoiceItem)
    requires
        pre.remaining == 1,
        item_sold_once(pre, mid),
    ensures
        mid.remaining == 0,
        forall|post: InvoiceItem| !item_sold_once(mid, post),
{
}

} // verus!
