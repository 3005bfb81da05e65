use vstd::prelude::*;
use crate::identity::Identity;
use crate::state::config::ConfigState;

verus! {

/// What the first configuration works on: the administrator who sets it up,
/// the configuration to fill, and the stable-coin to accept.
pub struct InitConfig {
    /// The caller.
    pub admin: Identity,
    pub config: ConfigState,
    pub usdc_mint: Identity,
}

impl InitConfig {
    /// Fills the configuration: the given stable-coin is the accepted one,
    /// and the caller is the authority over it from now on.
    pub fn init_config(&mut self)
        ensures
            final(self).config == (ConfigState {
                usdc_mint: old(self).usdc_mint,
                authority: old(self).admin,
            }),
            final(self).admin == old(self).admin,
            final(self).usdc_mint == old(self).usdc_mint,
    {
        self.config.usdc_mint = self.usdc_mint;
        self.config.authority = self.admin;
    }
}

} // verus!
