use vstd::prelude::*;
use crate::address::associated_token_seeds;
use crate::address::derive_associated_token_address;
use crate::address::pda_of;
use crate::errors::EnvError;
use crate::registry::AddressRegistry;
use crate::states::Config;

verus! {

/// The inputs of payment-token registration: the configuration record and
/// its address, the caller, the token to whitelist, and the programs that
/// govern token holding accounts.
pub struct SetMintAsPayment {
    pub associated_token_program_id: [u8; 32],
    pub token_program_id: [u8; 32],
    pub admin: [u8; 32],
    pub config_address: [u8; 32],
    pub config: Config,
    pub mint: [u8; 32],
}

/// The derived address and bump of the fee-holding account for this mint
/// under the configuration's authority.
pub open spec fn fee_vault_pda(s: SetMintAsPayment) -> Option<(Seq<u8>, u8)> {
    pda_of(
        s.associated_token_program_id@,
        associated_token_seeds(s.config_address@, s.token_program_id@, s.mint@),
    )
}

/// What token registration returns, given the records that already exist:
/// the byte-level address and bump of the new fee-holding account, or the
/// reason none was created.
pub open spec fn set_mint_outcome(s: SetMintAsPayment, existing: Set<Seq<u8>>) -> Result<
    (Seq<u8>, u8),
    EnvError,
> {
    if !existing.contains(s.config_address@) {
        Err(EnvError::MissingAccount)
    } else if s.admin@ != s.config.admin@ {
        Err(EnvError::Unauthorized)
    } else {
        match fee_vault_pda(s) {
            None => Err(EnvError::DerivationFailed),
            Some(p) => if existing.contains(p.0) {
                Err(EnvError::AlreadyExists)
            } else {
                Ok(p)
            },
        }
    }
}

impl SetMintAsPayment {
    /// Whitelist a payment token by creating the fee-holding account for
    /// it under the configuration's authority. No other state is written:
    /// the holding account's existence is itself the proof of
    /// registration that invoice creation later demands.
    pub fn set_mint_as_payment(&self, registry: &mut AddressRegistry) -> (r: Result<
        ([u8; 32], u8),
        EnvError,
    >)
        ensures
            match r {
                Ok(v) => set_mint_outcome(*self, old(registry)@) == Ok::<_, EnvError>(
                    (v.0@, v.1),
                ) && final(registry)@ == old(registry)@.insert(v.0@),
                Err(e) => set_mint_outcome(*self, old(registry)@) == Err::<(Seq<u8>, u8), _>(e)
                    && final(registry)@ == old(registry)@,
            },
    {
        if !registry.contains(&self.config_address) {
            return Err(EnvError::MissingAccount);
        }
        if !crate::eq_bytes32(&self.admin, &self.config.admin) {
            return Err(EnvError::Unauthorized);
        }
        match derive_associated_token_address(
            &self.associated_token_program_id,
            &self.config_address,
            &self.token_program_id,
            &self.mint,
        ) {
            None => Err(EnvError::DerivationFailed),
            Some((address, bump)) => {
                match registry.claim(&address) {
                    Err(e) => Err(e),
                    Ok(()) => Ok((address, bump)),
                }
            },
        }
    }
}

} // verus!
