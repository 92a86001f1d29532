//! Advisory notifications the escrow emits; observers read them, the
//! state machine never does.

use vstd::prelude::*;

verus! {

/// One notification of the escrow.
#[derive(Clone, Copy, PartialEq, Eq, Debug)]
pub enum CrowdfundEvent {
    /// The escrow account's balance changed to `total`.
    PledgedAmountChanged { total: i128 },
    /// The funding target was first reached, carrying the pledged total
    /// and the target.
    TargetReached { pledged: i128, target: i128 },
}

/// Records that the pledged total changed.
pub fn pledged_amount_changed(log: &mut Vec<CrowdfundEvent>, total_amount: i128)
    ensures
        final(log)@ == old(log)@.push(
            CrowdfundEvent::PledgedAmountChanged { total: total_amount },
        ),
{
    log.push(CrowdfundEvent::PledgedAmountChanged { total: total_amount });
}

/// Records that the funding target was reached.
pub fn target_reached(log: &mut Vec<CrowdfundEvent>, pledged: i128, target: i128)
    ensures
        final(log)@ == old(log)@.push(CrowdfundEvent::TargetReached { pledged, target }),
{
    log.push(CrowdfundEvent::TargetReached { pledged, target });
}

} // verus!
