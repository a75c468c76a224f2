use vstd::prelude::*;

pub mod authority;
pub mod errors;
pub mod exchange;
pub mod identity;
pub mod ledger;

use crate::errors::SwapErrors;
use crate::exchange::Swap;

verus! {

/// The single inbound operation: destroy `quantity` of the source asset from
/// the source holder and issue the same quantity of the destination asset to
/// the destination holder, or reject the whole exchange. The two `accepted`
/// flags are the external ledger's answers to the destroy and the issue
/// call, handed in by the host that performs the calls.
pub fn swap(
    accounts: &mut Swap,
    quantity: u64,
    destroy_accepted: bool,
    issue_accepted: bool,
) -> (r: Result<(), SwapErrors>)
    ensures
        r == exchange::spec_swap_result(*old(accounts), quantity, destroy_accepted, issue_accepted),
        *final(accounts) == exchange::spec_swap_state(
            *old(accounts),
            quantity,
            destroy_accepted,
            issue_accepted,
        ),
{
    exchange::swap(accounts, quantity, destroy_accepted, issue_accepted)
}

} // verus!
