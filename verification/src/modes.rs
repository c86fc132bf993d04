//! Closed-variant playback modes and the fixed cycling tables for the
//! `repeat` and `shuffle` commands.

use vstd::prelude::*;

verus! {

/// What the session reports the player to be doing right now.
///
/// The three boolean flags of [`crate::PlaybackState`] are derived from this
/// single closed-variant status at the interface boundary.
#[derive(Clone, Copy, PartialEq, Eq, Structural, Debug)]
pub enum PlaybackStatus {
    Playing,
    Paused,
    Stopped,
    /// The session reported something else (opening, seeking, interrupted, ...).
    Unknown,
}

/// The repeat mode of the session, as a closed three-state cycle.
#[derive(Clone, Copy, PartialEq, Eq, Structural, Debug)]
pub enum RepeatMode {
    /// No repetition.
    Off,
    /// The current track repeats.
    Track,
    /// The whole playlist repeats.
    Playlist,
}

/// The shuffle mode of the session, as a closed three-state cycle.
#[derive(Clone, Copy, PartialEq, Eq, Structural, Debug)]
pub enum ShuffleMode {
    /// Tracks play in order.
    Off,
    /// Individual songs are shuffled.
    Songs,
    /// Whole albums are shuffled.
    Albums,
}

/// The successor in the fixed repeat cycle off → track → playlist → off.
pub open spec fn spec_next_repeat(mode: RepeatMode) -> RepeatMode {
    match mode {
        RepeatMode::Off => RepeatMode::Track,
        RepeatMode::Track => RepeatMode::Playlist,
        RepeatMode::Playlist => RepeatMode::Off,
    }
}

/// The successor in the fixed shuffle cycle off → songs → albums → off.
pub open spec fn spec_next_shuffle(mode: ShuffleMode) -> ShuffleMode {
    match mode {
        ShuffleMode::Off => ShuffleMode::Songs,
        ShuffleMode::Songs => ShuffleMode::Albums,
        ShuffleMode::Albums => ShuffleMode::Off,
    }
}

/// Advance the repeat mode one step along its cycle.
pub fn next_repeat(mode: RepeatMode) -> (next: RepeatMode)
    ensures
        next == spec_next_repeat(mode),
{
    match mode {
        RepeatMode::Off => RepeatMode::Track,
        RepeatMode::Track => RepeatMode::Playlist,
        RepeatMode::Playlist => RepeatMode::Off,
    }
}

/// Advance the shuffle mode one step along its cycle.
pub fn next_shuffle(mode: ShuffleMode) -> (next: ShuffleMode)
    ensures
        next == spec_next_shuffle(mode),
{
    match mode {
        ShuffleMode::Off => ShuffleMode::Songs,
        ShuffleMode::Songs => ShuffleMode::Albums,
        ShuffleMode::Albums => ShuffleMode::Off,
    }
}

/// The repeat cycle closes: three advances return every mode to itself.
/// In particular, starting from `Off` the cycle visits `Track`, then
/// `Playlist`, and comes back to `Off`.
pub proof fn lemma_repeat_cycle_closes(mode: RepeatMode)
    ensures
        spec_next_repeat(spec_next_repeat(spec_next_repeat(mode))) == mode,
{
}

/// The shuffle cycle closes: three advances return every mode to itself.
/// In particular, starting from `Off` the cycle visits `Songs`, then
/// `Albums`, and comes back to `Off`.
pub proof fn lemma_shuffle_cycle_closes(mode: ShuffleMode)
    ensures
        spec_next_shuffle(spec_next_shuffle(spec_next_shuffle(mode))) == mode,
{
}

} // verus!
