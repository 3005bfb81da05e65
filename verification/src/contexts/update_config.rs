use vstd::prelude::*;
use crate::errors::ErrorCode;
use crate::identity::Identity;
use crate::state::config::ConfigState;

verus! {

/// What a change of the accepted stable-coin works on: who asks for it, the
/// configuration, and the stable-coin to accept from now on.
pub struct UpdateConfig {
    /// The caller.
    pub admin: Identity,
    pub config: ConfigState,
    pub new_usdc_mint: Identity,
}

impl UpdateConfig {
    /// Makes `new_usdc_mint` the accepted stable-coin, if the caller is the
    /// configured authority; the authority stays. Anyone else is refused
    /// with `NotAdmin`, and nothing changes.
    pub fn update_config(&mut self) -> (r: Result<(), ErrorCode>)
        ensures
            final(self).admin == old(self).admin,
            final(self).new_usdc_mint == old(self).new_usdc_mint,
            old(self).admin == old(self).config.authority ==> r == Ok::<(), ErrorCode>(())
                && final(self).config == (ConfigState {
                usdc_mint: old(self).new_usdc_mint,
                authority: old(self).config.authority,
            }),
            old(self).admin != old(self).config.authority ==> r == Err::<(), ErrorCode>(
                ErrorCode::NotAdmin,
            ) && final(self).config == old(self).config,
    {
        let signer = self.admin;
        self.check_is_admin(signer)?;
        self.config.usdc_mint = self.new_usdc_mint;
        Ok(())
    }

    /// Only the configured authority passes.
    pub fn check_is_admin(&self, signer_key: Identity) -> (r: Result<(), ErrorCode>)
        ensures
            signer_key == self.config.authority ==> r == Ok::<(), ErrorCode>(()),
            signer_key != self.config.authority ==> r == Err::<(), ErrorCode>(
                ErrorCode::NotAdmin,
            ),
    {
        if signer_key != self.config.authority {
            return Err(ErrorCode::NotAdmin);
        }
        Ok(())
    }
}

} // verus!
