//! The fee distributor: splits an extracted fee between the two recipients.

use vstd::prelude::*;

verus! {

/// The two transfer amounts a fee split produces. The host pays `half` to
/// the protocol's authority fee recipient and `remainder` to the dev
/// recipient, both out of the market's escrow under the market's own
/// signing authority.
#[derive(Clone, Copy, Debug, PartialEq, Eq, Structural)]
pub struct FeeSplit {
    /// Share of the authority's fee recipient: the fee halved, rounded down.
    pub half: u64,
    /// Share of the dev recipient: the rest, carrying any odd unit.
    pub remainder: u64,
}

/// Split `total_fee` between the two fee recipients: `half` is the fee
/// halved rounding down, `remainder` is the rest, so the two always sum to
/// the whole fee and differ by at most the odd unit, which goes to the dev
/// recipient. A zero fee splits into two zero transfers, which the host
/// skips.
pub fn distribute_fees(total_fee: u64) -> (r: FeeSplit)
    ensures
        r.half + r.remainder == total_fee,
        r.half == total_fee / 2,
        r.remainder - r.half == if total_fee % 2 == 0 { 0int } else { 1int },
        total_fee == 0 ==> r.half == 0 && r.remainder == 0,
{
    let half: u64 = total_fee / 2;
    let remainder: u64 = total_fee - half;
    FeeSplit { half, remainder }
}

} // verus!
