use vstd::prelude::*;
use crate::action::STATUS_SPECIAL_S;

verus! {

/// The side special becomes cancellable into an airdodge once its animation
/// has played past this frame.
pub const RAZORLEAF_ADC_FRAME: u64 = 24;

/// Once-per-frame rule for the leaf side special: the airdodge-cancel window
/// is open exactly while the entity sits in the side-special status past the
/// cancel frame. The host performs the actual cancel check when this answers
/// true.
pub fn razorleaf_adc(status_kind: i32, frame: u64) -> (check_cancel: bool)
    ensures
        check_cancel == (status_kind == STATUS_SPECIAL_S && frame > RAZORLEAF_ADC_FRAME),
{
    status_kind == STATUS_SPECIAL_S && frame > RAZORLEAF_ADC_FRAME
}

/// The character's per-frame moveset pass, run every tick after the common
/// per-frame work: currently the one rule above. `frame` is the current
/// animation frame the host reports.
pub fn moveset(status_kind: i32, frame: u64) -> (check_airdodge_cancel: bool)
    ensures
        check_airdodge_cancel == (status_kind == STATUS_SPECIAL_S && frame > RAZORLEAF_ADC_FRAME),
{
    razorleaf_adc(status_kind, frame)
}

} // verus!
