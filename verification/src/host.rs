use crate::account::AccountId;
use vstd::prelude::*;

verus! {

/// What the host environment tells the contract about the current call: who
/// made it, which account the contract itself runs under, and whether
/// persistent contract state already exists for that account. The surrounding
/// runtime reads these from the host and hands them in; the contract only
/// inspects them.
pub struct HostContext {
    /// The immediate caller of the current invocation.
    pub predecessor_account_id: AccountId,
    /// The account under which this contract is deployed.
    pub current_account_id: AccountId,
    /// Whether persistent contract state already exists for this account.
    /// The surrounding runtime must report this truthfully and must persist
    /// the state a successful initializer returns: together with the
    /// platform's transactional calls, that makes initialization run at most
    /// once per account, on storage where nothing was yet written.
    pub state_exists: bool,
}

impl HostContext {
    /// The owner guard: the call originates from the contract's own account.
    pub open spec fn caller_is_contract(&self) -> bool {
        self.predecessor_account_id@ == self.current_account_id@
    }

    /// Evaluates the owner guard for the current call.
    pub fn check_caller_is_contract(&self) -> (r: bool)
        ensures
            r == self.caller_is_contract(),
    {
        self.predecessor_account_id.same_as(&self.current_account_id)
    }
}

} // verus!
