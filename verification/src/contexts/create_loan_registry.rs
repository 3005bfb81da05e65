use vstd::prelude::*;
use crate::identity::{Identity, LoanKey};
use crate::state::loan_registry::LoanRegistryState;

verus! {

/// What the setting up of the registry works on: the administrator who asks
/// for it, and the registry to start.
pub struct CreateLoanRegistry {
    /// The caller.
    pub admin: Identity,
    pub loan_registry: LoanRegistryState,
}

impl CreateLoanRegistry {
    /// Starts the registry anew: no page, no loan.
    pub fn create_loan_registry(&mut self)
        ensures
            final(self).admin == old(self).admin,
            final(self).loan_registry.wf(),
            final(self).loan_registry@ == Seq::<Seq<LoanKey>>::empty(),
            final(self).loan_registry.spec_total_loans() == 0,
            final(self).loan_registry.spec_first_page() is None,
    {
        self.loan_registry = LoanRegistryState::new();
    }
}

} // verus!
