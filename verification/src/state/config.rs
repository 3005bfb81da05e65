use vstd::prelude::*;
use crate::identity::Identity;

verus! {

/// The protocol's configuration: which stable-coin it accepts, and who may
/// change that.
#[derive(Clone, Copy, Debug, PartialEq, Eq, Structural)]
pub struct ConfigState {
    /// The accepted stable-coin.
    pub usdc_mint: Identity,
    /// The only party that may change the accepted stable-coin.
    pub authority: Identity,
}

} // verus!
