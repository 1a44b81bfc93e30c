use vstd::prelude::*;
use crate::address::associated_token_seeds;
use crate::address::derive_associated_token_address;
use crate::address::derive_invoice_account_address;
use crate::address::invoice_account_seeds;
use crate::address::pda_of;
use crate::errors::EnvError;
use crate::registry::AddressRegistry;
use crate::states::Config;
use crate::states::InvoiceAccount;

verus! {

/// The inputs of invoice creation: the configuration record and its
/// address, the merchant calling, and the payment token the invoice is
/// bound to.
pub struct InitializeInvoiceAccount {
    pub program_id: [u8; 32],
    pub associated_token_program_id: [u8; 32],
    pub token_program_id: [u8; 32],
    pub config_address: [u8; 32],
    pub config: Config,
    pub merchant: [u8; 32],
    pub mint: [u8; 32],
}

/// The derived address and bump of the invoice record.
pub open spec fn invoice_pda(s: InitializeInvoiceAccount, seed: u64) -> Option<(Seq<u8>, u8)> {
    pda_of(s.program_id@, invoice_account_seeds(s.merchant@, s.mint@, seed))
}

/// The derived address and bump of the fee-holding account whose
/// existence proves the token is whitelisted.
pub open spec fn invoice_fee_vault_pda(s: InitializeInvoiceAccount) -> Option<(Seq<u8>, u8)> {
    pda_of(
        s.associated_token_program_id@,
        associated_token_seeds(s.config_address@, s.token_program_id@, s.mint@),
    )
}

/// The derived address and bump of the merchant vault the creation also
/// allocates, owned by the new invoice record.
pub open spec fn invoice_vault_pda(s: InitializeInvoiceAccount, seed: u64) -> Option<(Seq<u8>, u8)> {
    pda_of(
        s.associated_token_program_id@,
        associated_token_seeds(invoice_pda(s, seed)->Some_0.0, s.token_program_id@, s.mint@),
    )
}

/// Why invoice creation fails, given the records that already exist, or
/// `None` when it succeeds. The checks run in the order the operation
/// declares them: the configuration must exist, the invoice's address
/// must be free, the fee-holding account for the token must already exist
/// (the only proof of whitelisting: absence is a missing account, not a
/// domain error), and the new vault's address must be free.
pub open spec fn invoice_create_err(
    s: InitializeInvoiceAccount,
    existing: Set<Seq<u8>>,
    seed: u64,
) -> Option<EnvError> {
    if !existing.contains(s.config_address@) {
        Some(EnvError::MissingAccount)
    } else if invoice_pda(s, seed) is None {
        Some(EnvError::DerivationFailed)
    } else if existing.contains(invoice_pda(s, seed)->Some_0.0) {
        Some(EnvError::AlreadyExists)
    } else if invoice_fee_vault_pda(s) is None {
        Some(EnvError::DerivationFailed)
    } else if !existing.contains(invoice_fee_vault_pda(s)->Some_0.0) {
        Some(EnvError::MissingAccount)
    } else if invoice_vault_pda(s, seed) is None {
        Some(EnvError::DerivationFailed)
    } else if existing.insert(invoice_pda(s, seed)->Some_0.0).contains(
        invoice_vault_pda(s, seed)->Some_0.0,
    ) {
        Some(EnvError::AlreadyExists)
    } else {
        None
    }
}

/// The record addresses after a successful invoice creation: the invoice
/// itself and its vault have been added.
pub open spec fn invoice_post_registry(
    s: InitializeInvoiceAccount,
    existing: Set<Seq<u8>>,
    seed: u64,
) -> Set<Seq<u8>> {
    existing.insert(invoice_pda(s, seed)->Some_0.0).insert(invoice_vault_pda(s, seed)->Some_0.0)
}

impl InitializeInvoiceAccount {
    /// Create a merchant's invoice record for one payment token,
    /// snapshotting the configuration's current fee rate, and allocate
    /// the invoice's vault. Later configuration changes do not affect the
    /// snapshot.
    pub fn initialize_invoice_account(&self, registry: &mut AddressRegistry, seed: u64) -> (r:
        Result<InvoiceAccount, EnvError>)
        requires
            self.config.wf(),
        ensures
            r is Err ==> invoice_create_err(*self, old(registry)@, seed) == Some(r->Err_0)
                && final(registry)@ == old(registry)@,
            r is Ok ==> invoice_create_err(*self, old(registry)@, seed) is None && ({
                let inv = r->Ok_0;
                &&& inv.seed == seed
                &&& inv.merchant@ == self.merchant@
                &&& inv.mint@ == self.mint@
                &&& inv.vault@ == invoice_vault_pda(*self, seed)->Some_0.0
                &&& inv.fee_vault@ == invoice_fee_vault_pda(*self)->Some_0.0
                &&& inv.fee == self.config.fee
                &&& inv.basis_points == self.config.basis_points
                &&& inv.invoice_account_sequence_number == 0
                &&& inv.bump == invoice_pda(*self, seed)->Some_0.1
                &&& inv.wf()
            }) && final(registry)@ == invoice_post_registry(*self, old(registry)@, seed),
    {
        if !registry.contains(&self.config_address) {
            return Err(EnvError::MissingAccount);
        }
        let (invoice_address, bump) = match derive_invoice_account_address(
            &self.program_id,
            &self.merchant,
            &self.mint,
            seed,
        ) {
            None => { return Err(EnvError::DerivationFailed); },
            Some(p) => p,
        };
        if registry.contains(&invoice_address) {
            return Err(EnvError::AlreadyExists);
        }
        let (fee_vault_address, _fee_vault_bump) = match derive_associated_token_address(
            &self.associated_token_program_id,
            &self.config_address,
            &self.token_program_id,
            &self.mint,
        ) {
            None => { return Err(EnvError::DerivationFailed); },
            Some(p) => p,
        };
        if !registry.contains(&fee_vault_address) {
            return Err(EnvError::MissingAccount);
        }
        let (vault_address, _vault_bump) = match derive_associated_token_address(
            &self.associated_token_program_id,
            &invoice_address,
            &self.token_program_id,
            &self.mint,
        ) {
            None => { return Err(EnvError::DerivationFailed); },
            Some(p) => p,
        };
        if registry.contains(&vault_address) || crate::eq_bytes32(&vault_address, &invoice_address) {
            return Err(EnvError::AlreadyExists);
        }
        match registry.claim(&invoice_address) {
            Err(e) => {
                proof {
                    assert(false);
                }
                Err(e)
            },
            Ok(()) => {
                match registry.claim(&vault_address) {
                    Err(e) => {
                        proof {
                            assert(false);
                        }
                        Err(e)
                    },
                    Ok(()) => Ok(
                        InvoiceAccount {
                            seed,
                            merchant: self.merchant,
                            mint: self.mint,
                            vault: vault_address,
                            fee_vault: fee_vault_address,
                            fee: self.config.fee,
                            basis_points: self.config.basis_points,
                            invoice_account_sequence_number: 0,
                            bump,
                        },
                    ),
                }
            },
        }
    }
}

/// An invoice is created at most once per (merchant, mint, seed). Record
/// creation only ever adds addresses, and a later attempt with the same
/// triple derives the same address, which now holds a record, so the
/// attempt cannot succeed; when it passes its configuration check, it
/// fails with precisely `AlreadyExists`.
pub proof fn lemma_invoice_created_at_most_once(
    s1: InitializeInvoiceAccount,
    existing: Set<Seq<u8>>,
    seed: u64,
    s2: InitializeInvoiceAccount,
    later: Set<Seq<u8>>,
)
    requires
        invoice_create_err(s1, existing, seed) is None,
        invoice_post_registry(s1, existing, seed).subset_of(later),
        s2.program_id@ == s1.program_id@,
        s2.merchant@ == s1.merchant@,
        s2.mint@ == s1.mint@,
    ensures
        invoice_create_err(s2, later, seed) is Some,
        later.contains(s2.config_address@) ==> invoice_create_err(s2, later, seed) == Some(
            EnvError::AlreadyExists,
        ),
{
    assert(invoice_account_seeds(s2.merchant@, s2.mint@, seed) =~~= invoice_account_seeds(
        s1.merchant@,
        s1.mint@,
        seed,
    ));
    let p = invoice_pda(s1, seed)->Some_0;
    assert(invoice_post_registry(s1, existing, seed).contains(p.0));
    assert(later.contains(p.0));
}

} // verus!
