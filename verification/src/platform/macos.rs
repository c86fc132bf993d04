//! What the macOS adapter decides without touching the MediaPlayer
//! framework: the controls it does not drive, each refused without being
//! attempted.

use vstd::prelude::*;

verus! {

/// The MediaPlayer framework offers no record operation: the command is
/// unsupported and never attempted.
pub fn try_record() -> (ok: bool)
    ensures
        !ok,
{
    false
}

/// The framework's only forward-seek interface is a begin/end pair that
/// this adapter does not drive, so the command is refused rather than
/// claimed.
pub fn try_fast_forward() -> (ok: bool)
    ensures
        !ok,
{
    false
}

/// The framework's only backward-seek interface is a begin/end pair that
/// this adapter does not drive, so the command is refused rather than
/// claimed.
pub fn try_rewind() -> (ok: bool)
    ensures
        !ok,
{
    false
}

/// The framework offers no channel operation: the command is unsupported
/// and never attempted.
pub fn try_change_channel_up() -> (ok: bool)
    ensures
        !ok,
{
    false
}

/// The framework offers no channel operation: the command is unsupported
/// and never attempted.
pub fn try_change_channel_down() -> (ok: bool)
    ensures
        !ok,
{
    false
}

} // verus!
