//! Conversion of absolute frame counts into disc-time fields.
//!
//! A CD frame is 1/75th of a second. A position on the disc is written as
//! `MM:SS:FF`: whole minutes, seconds within the minute, and frames within
//! the second. Minutes do not roll over into hours.

use vstd::arithmetic::div_mod::lemma_fundamental_div_mod;
use vstd::prelude::*;

verus! {

/// Minutes field of the timecode for an absolute frame count.
pub open spec fn tc_minutes(f: nat) -> nat {
    (f / 75) / 60
}

/// Seconds field of the timecode for an absolute frame count.
pub open spec fn tc_seconds(f: nat) -> nat {
    (f / 75) % 60
}

/// Frames field of the timecode for an absolute frame count.
pub open spec fn tc_frames(f: nat) -> nat {
    f % 75
}

/// The three timecode fields of any frame count recombine exactly to it:
/// `minutes * 60 * 75 + seconds * 75 + frames == f`, with the seconds below
/// 60 and the frames below 75. Minutes are unbounded: there is no hour
/// rollover to lose information to.
pub proof fn lemma_timecode_fields_recombine(f: nat)
    ensures
        tc_minutes(f) * 60 * 75 + tc_seconds(f) * 75 + tc_frames(f) == f,
        tc_seconds(f) < 60,
        tc_frames(f) < 75,
{
    lemma_fundamental_div_mod(f as int, 75);
    lemma_fundamental_div_mod((f / 75) as int, 60);
}

/// Splits an absolute frame count into `(minutes, seconds, frames)`.
///
/// The three fields recombine exactly to the input: for every `f`,
/// `minutes * 60 * 75 + seconds * 75 + frames == f`, with
/// `seconds < 60` and `frames < 75`. Minutes are unbounded.
pub fn to_timecode(f: u64) -> (r: (u64, u64, u64))
    ensures
        r.0 == tc_minutes(f as nat),
        r.1 == tc_seconds(f as nat),
        r.2 == tc_frames(f as nat),
        r.0 * 60 * 75 + r.1 * 75 + r.2 == f,
        r.1 < 60,
        r.2 < 75,
{
    let total_seconds = f / 75;
    let minutes = total_seconds / 60;
    let seconds = total_seconds % 60;
    let frames = f % 75;
    proof {
        lemma_timecode_fields_recombine(f as nat);
    }
    (minutes, seconds, frames)
}

} // verus!
