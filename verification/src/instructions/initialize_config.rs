use vstd::prelude::*;
use crate::address::config_seeds;
use crate::address::derive_config_address;
use crate::address::pda_of;
use crate::errors::EnvError;
use crate::registry::AddressRegistry;
use crate::states::Config;

verus! {

/// The inputs of configuration creation: the program's own identity and
/// the caller, who becomes the configuration's admin.
pub struct InitializeConfig {
    pub program_id: [u8; 32],
    pub admin: [u8; 32],
}

/// The derived address and bump of the configuration record.
pub open spec fn config_pda(s: InitializeConfig, seed: u64) -> Option<(Seq<u8>, u8)> {
    pda_of(s.program_id@, config_seeds(seed))
}

/// What configuration creation returns, given the records that already
/// exist: the new record, or the reason none was created.
pub open spec fn config_outcome(
    s: InitializeConfig,
    existing: Set<Seq<u8>>,
    seed: u64,
    fee: u16,
    basis_points: u16,
) -> Result<Config, EnvError> {
    match config_pda(s, seed) {
        None => Err(EnvError::DerivationFailed),
        Some(p) => if existing.contains(p.0) {
            Err(EnvError::AlreadyExists)
        } else {
            Ok(
                Config {
                    seed,
                    admin: s.admin,
                    fee,
                    basis_points,
                    bump: p.1,
                },
            )
        },
    }
}

impl InitializeConfig {
    /// Create the protocol configuration record at its derived address,
    /// with the caller as admin. Succeeds exactly once per seed: a second
    /// creation at the same address fails with `AlreadyExists`.
    pub fn initialize_config(
        &self,
        registry: &mut AddressRegistry,
        seed: u64,
        fee: u16,
        basis_points: u16,
    ) -> (r: Result<Config, EnvError>)
        requires
            basis_points > 0,
        ensures
            r == config_outcome(*self, old(registry)@, seed, fee, basis_points),
            r is Ok ==> r->Ok_0.wf() && final(registry)@ == old(registry)@.insert(
                config_pda(*self, seed)->Some_0.0,
            ),
            r is Err ==> final(registry)@ == old(registry)@,
    {
        match derive_config_address(&self.program_id, seed) {
            None => Err(EnvError::DerivationFailed),
            Some((address, bump)) => {
                match registry.claim(&address) {
                    Err(e) => Err(e),
                    Ok(()) => Ok(
                        Config {
                            seed,
                            admin: self.admin,
                            fee,
                            basis_points,
                            bump,
                        },
                    ),
                }
            },
        }
    }
}

} // verus!
