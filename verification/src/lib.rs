//! A uniform interface for reading the currently playing media's metadata
//! and playback state, and for issuing playback-control commands, against a
//! snapshot of the operating system's media session.
//!
//! The operating-system adapters (MPRIS on Linux, the MediaPlayer framework
//! on macOS, the transport controls on Windows) live outside this crate:
//! they fill a [`MediaSession`] snapshot with plain values, let the
//! functions here decide, and perform the native calls those decisions call
//! for. Everything in this crate is verified: the sentinel records returned
//! when no session is active, the mode-cycling tables, the delimited string
//! encodings, and the guarantee that every command reports failure and
//! changes nothing when no player is available or the OS reports the
//! control unusable.

mod modes;
pub mod platform;
mod records;
mod session;
mod text;

pub use modes::PlaybackStatus;
pub use modes::RepeatMode;
pub use modes::ShuffleMode;
pub use modes::lemma_repeat_cycle_closes;
pub use modes::lemma_shuffle_cycle_closes;
pub use modes::next_repeat;
pub use modes::next_shuffle;
pub use modes::spec_next_repeat;
pub use modes::spec_next_shuffle;
pub use records::MediaInfo;
pub use records::PlaybackState;
pub use records::lemma_playback_state_field_count;
pub use records::spec_media_info_string;
pub use records::spec_playback_state_string;
pub use records::spec_unavailable_text;
pub use session::MediaSession;
pub use session::SessionControls;
pub use session::lemma_repeat_step_cycle;
pub use session::spec_playback_state_of;
pub use session::spec_repeat_step;
pub use session::spec_toggled_status;
pub use session::spec_with_position;
pub use session::spec_with_repeat;
pub use session::spec_with_shuffle;
pub use session::spec_with_status;
pub use text::count_commas;
pub use text::spec_comma_count;

use vstd::prelude::*;

verus! {

/// Whether the session snapshot reports an active media player.
pub fn player_available(s: &MediaSession) -> (r: bool)
    ensures
        r == s.available,
{
    s.available
}

/// The metadata of the currently playing track: the session's fields when a
/// player is available, the sentinel record (every field `Unavailable`)
/// when none is.
pub fn get_media_info(s: &MediaSession) -> (info: MediaInfo)
    ensures
        s.available ==> info.title@ == s.title@ && info.artist@ == s.artist@ && info.album@
            == s.album@ && info.album_art@ == s.album_art@,
        !s.available ==> info.title@ == spec_unavailable_text() && info.artist@
            == spec_unavailable_text() && info.album@ == spec_unavailable_text()
            && info.album_art@ == spec_unavailable_text(),
{
    if s.available {
        MediaInfo::new(
            s.title.clone(),
            s.artist.clone(),
            s.album.clone(),
            s.album_art.clone(),
        )
    } else {
        MediaInfo::empty()
    }
}

/// The playback snapshot of the session: status and modes flattened to
/// booleans, times passed through, control flags copied. The shuffle and
/// repeat booleans read false whenever the matching control is unusable.
/// When no player is available, the sentinel snapshot with `-1` time
/// fields and every flag false.
pub fn get_playback_state(s: &MediaSession) -> (ps: PlaybackState)
    ensures
        s.available ==> ps == spec_playback_state_of(*s),
        !s.available ==> ps == PlaybackState::spec_empty(),
{
    if s.available {
        PlaybackState::new(
            matches!(s.status, PlaybackStatus::Playing),
            matches!(s.status, PlaybackStatus::Paused),
            matches!(s.status, PlaybackStatus::Stopped),
            s.controls.shuffle_enabled && !matches!(s.shuffle, ShuffleMode::Off),
            s.controls.repeat_enabled && matches!(s.repeat, RepeatMode::Track),
            s.controls.repeat_enabled && matches!(s.repeat, RepeatMode::Playlist),
            s.position,
            s.duration,
            s.controls.play_enabled,
            s.controls.pause_enabled,
            s.controls.stop_enabled,
            s.controls.record_enabled,
            s.controls.fast_forward_enabled,
            s.controls.rewind_enabled,
            s.controls.next_enabled,
            s.controls.previous_enabled,
            s.controls.channel_up_enabled,
            s.controls.channel_down_enabled,
            s.controls.play_pause_toggle_enabled,
            s.controls.shuffle_enabled,
            s.controls.repeat_enabled,
            s.controls.playback_rate_enabled,
            s.controls.playback_position_enabled,
        )
    } else {
        PlaybackState::empty()
    }
}

/// Start playback. Succeeds exactly when a player is available and reports
/// the play control usable; the session is then playing. A refused command
/// changes nothing.
pub fn play(s: &mut MediaSession) -> (ok: bool)
    ensures
        ok == (old(s).available && old(s).controls.play_enabled),
        ok ==> *final(s) == spec_with_status(*old(s), PlaybackStatus::Playing),
        !ok ==> *final(s) == *old(s),
{
    if s.available && s.controls.play_enabled {
        s.status = PlaybackStatus::Playing;
        true
    } else {
        false
    }
}

/// Pause playback. Succeeds exactly when a player is available and reports
/// the pause control usable; the session is then paused. A refused command
/// changes nothing.
pub fn pause(s: &mut MediaSession) -> (ok: bool)
    ensures
        ok == (old(s).available && old(s).controls.pause_enabled),
        ok ==> *final(s) == spec_with_status(*old(s), PlaybackStatus::Paused),
        !ok ==> *final(s) == *old(s),
{
    if s.available && s.controls.pause_enabled {
        s.status = PlaybackStatus::Paused;
        true
    } else {
        false
    }
}

/// Stop playback. Succeeds exactly when a player is available and reports
/// the stop control usable; the session is then stopped. A refused command
/// changes nothing.
pub fn stop(s: &mut MediaSession) -> (ok: bool)
    ensures
        ok == (old(s).available && old(s).controls.stop_enabled),
        ok ==> *final(s) == spec_with_status(*old(s), PlaybackStatus::Stopped),
        !ok ==> *final(s) == *old(s),
{
    if s.available && s.controls.stop_enabled {
        s.status = PlaybackStatus::Stopped;
        true
    } else {
        false
    }
}

/// Ask the session to record. Succeeds exactly when a player is available
/// and reports the record control usable; the modeled session state does
/// not change.
pub fn record(s: &MediaSession) -> (ok: bool)
    ensures
        ok == (s.available && s.controls.record_enabled),
{
    s.available && s.controls.record_enabled
}

/// Fast-forward. Succeeds exactly when a player is available and reports
/// the fast-forward control usable; the modeled session state does not
/// change.
pub fn fast_forward(s: &MediaSession) -> (ok: bool)
    ensures
        ok == (s.available && s.controls.fast_forward_enabled),
{
    s.available && s.controls.fast_forward_enabled
}

/// Rewind. Succeeds exactly when a player is available and reports the
/// rewind control usable; the modeled session state does not change.
pub fn rewind(s: &MediaSession) -> (ok: bool)
    ensures
        ok == (s.available && s.controls.rewind_enabled),
{
    s.available && s.controls.rewind_enabled
}

/// Skip to the next track. Succeeds exactly when a player is available and
/// reports the next control usable. Which track the OS loads next is not
/// part of the modeled session state.
pub fn next(s: &MediaSession) -> (ok: bool)
    ensures
        ok == (s.available && s.controls.next_enabled),
{
    s.available && s.controls.next_enabled
}

/// Skip to the previous track. Succeeds exactly when a player is available
/// and reports the previous control usable. Which track the OS loads is not
/// part of the modeled session state.
pub fn previous(s: &MediaSession) -> (ok: bool)
    ensures
        ok == (s.available && s.controls.previous_enabled),
{
    s.available && s.controls.previous_enabled
}

/// Change the channel upward. Succeeds exactly when a player is available
/// and reports the channel-up control usable; the modeled session state
/// does not change.
pub fn channel_up(s: &MediaSession) -> (ok: bool)
    ensures
        ok == (s.available && s.controls.channel_up_enabled),
{
    s.available && s.controls.channel_up_enabled
}

/// Change the channel downward. Succeeds exactly when a player is available
/// and reports the channel-down control usable; the modeled session state
/// does not change.
pub fn channel_down(s: &MediaSession) -> (ok: bool)
    ensures
        ok == (s.available && s.controls.channel_down_enabled),
{
    s.available && s.controls.channel_down_enabled
}

/// Toggle between playing and paused. Succeeds exactly when a player is
/// available and reports the toggle control usable; a playing session then
/// pauses, a paused one resumes, and any other status stays. A refused
/// command changes nothing.
pub fn toggle_play_pause(s: &mut MediaSession) -> (ok: bool)
    ensures
        ok == (old(s).available && old(s).controls.play_pause_toggle_enabled),
        ok ==> *final(s) == spec_with_status(*old(s), spec_toggled_status(old(s).status)),
        !ok ==> *final(s) == *old(s),
{
    if s.available && s.controls.play_pause_toggle_enabled {
        if matches!(s.status, PlaybackStatus::Playing) {
            s.status = PlaybackStatus::Paused;
        } else if matches!(s.status, PlaybackStatus::Paused) {
            s.status = PlaybackStatus::Playing;
        }
        true
    } else {
        false
    }
}

/// Set shuffling on or off. Succeeds exactly when a player is available and
/// reports the shuffle control usable; the session's shuffle mode is then
/// `Songs` when enabled and `Off` when disabled. A refused command changes
/// nothing. (An adapter for a platform whose API only exposes toggle-style
/// shuffle advances the mode with [`next_shuffle`] instead of taking the
/// flag.)
pub fn shuffle(s: &mut MediaSession, enable: bool) -> (ok: bool)
    ensures
        ok == (old(s).available && old(s).controls.shuffle_enabled),
        ok && enable ==> *final(s) == spec_with_shuffle(*old(s), ShuffleMode::Songs),
        ok && !enable ==> *final(s) == spec_with_shuffle(*old(s), ShuffleMode::Off),
        !ok ==> *final(s) == *old(s),
{
    if s.available && s.controls.shuffle_enabled {
        if enable {
            s.shuffle = ShuffleMode::Songs;
        } else {
            s.shuffle = ShuffleMode::Off;
        }
        true
    } else {
        false
    }
}

/// Advance the repeat mode one step along the fixed cycle off → track →
/// playlist → off. Succeeds exactly when a player is available and reports
/// the repeat control usable. A refused command changes nothing.
pub fn repeat(s: &mut MediaSession) -> (ok: bool)
    ensures
        ok == (old(s).available && old(s).controls.repeat_enabled),
        ok ==> *final(s) == spec_repeat_step(*old(s)),
        !ok ==> *final(s) == *old(s),
{
    if s.available && s.controls.repeat_enabled {
        s.repeat = next_repeat(s.repeat);
        true
    } else {
        false
    }
}

/// Whether the rate command may be issued: a player is available and it
/// reports the rate control usable. The rate itself is a floating
/// multiplier, which stays outside the verified library; an adapter
/// consults this gate and then makes the native call with the rate value.
pub fn playback_rate_allowed(s: &MediaSession) -> (ok: bool)
    ensures
        ok == (s.available && s.controls.playback_rate_enabled),
{
    s.available && s.controls.playback_rate_enabled
}

/// Seek to an absolute position, in the same time units as the duration
/// field. Succeeds exactly when a player is available and reports the
/// position control usable; the session then reports that position. A
/// refused command changes nothing.
pub fn playback_position(s: &mut MediaSession, position: i64) -> (ok: bool)
    ensures
        ok == (old(s).available && old(s).controls.playback_position_enabled),
        ok ==> *final(s) == spec_with_position(*old(s), position),
        !ok ==> *final(s) == *old(s),
{
    if s.available && s.controls.playback_position_enabled {
        s.position = position;
        true
    } else {
        false
    }
}

} // verus!
