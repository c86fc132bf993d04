//! The model of the operating system's media session that every query and
//! command works against.
//!
//! A platform adapter outside this crate reads the OS's current-session
//! singleton and fills a [`MediaSession`] with plain values; a command
//! function here decides from that snapshot whether the native call may be
//! issued and what the session looks like afterwards. Keeping the session an
//! explicit argument, rather than ambient global state, is what lets every
//! operation be specified and checked.

use vstd::prelude::*;

use crate::modes::PlaybackStatus;
use crate::modes::RepeatMode;
use crate::modes::ShuffleMode;
use crate::modes::spec_next_repeat;
use crate::records::PlaybackState;

verus! {

/// The control-enabled flags of the session: one boolean per command,
/// mirroring whatever the OS reports as currently usable.
pub struct SessionControls {
    pub play_enabled: bool,
    pub pause_enabled: bool,
    pub stop_enabled: bool,
    pub record_enabled: bool,
    pub fast_forward_enabled: bool,
    pub rewind_enabled: bool,
    pub next_enabled: bool,
    pub previous_enabled: bool,
    pub channel_up_enabled: bool,
    pub channel_down_enabled: bool,
    pub play_pause_toggle_enabled: bool,
    pub shuffle_enabled: bool,
    pub repeat_enabled: bool,
    pub playback_rate_enabled: bool,
    pub playback_position_enabled: bool,
}

impl SessionControls {
    /// Controls as the sentinel snapshot reports them: nothing is usable.
    pub open spec fn spec_none_enabled() -> SessionControls {
        SessionControls {
            play_enabled: false,
            pause_enabled: false,
            stop_enabled: false,
            record_enabled: false,
            fast_forward_enabled: false,
            rewind_enabled: false,
            next_enabled: false,
            previous_enabled: false,
            channel_up_enabled: false,
            channel_down_enabled: false,
            play_pause_toggle_enabled: false,
            shuffle_enabled: false,
            repeat_enabled: false,
            playback_rate_enabled: false,
            playback_position_enabled: false,
        }
    }

    /// A snapshot of controls with every command unusable.
    pub fn none_enabled() -> (c: SessionControls)
        ensures
            c == SessionControls::spec_none_enabled(),
    {
        SessionControls {
            play_enabled: false,
            pause_enabled: false,
            stop_enabled: false,
            record_enabled: false,
            fast_forward_enabled: false,
            rewind_enabled: false,
            next_enabled: false,
            previous_enabled: false,
            channel_up_enabled: false,
            channel_down_enabled: false,
            play_pause_toggle_enabled: false,
            shuffle_enabled: false,
            repeat_enabled: false,
            playback_rate_enabled: false,
            playback_position_enabled: false,
        }
    }
}

/// A snapshot of the OS media session, handed in by the platform adapter.
///
/// `available` is false when the OS reports no active session; the other
/// fields then carry no meaning and every query returns its sentinel record.
/// The time fields are integer time units as the session reports them, with
/// `-1` for "unknown".
pub struct MediaSession {
    pub available: bool,
    pub title: String,
    pub artist: String,
    pub album: String,
    pub album_art: String,
    pub status: PlaybackStatus,
    pub shuffle: ShuffleMode,
    pub repeat: RepeatMode,
    pub position: i64,
    pub duration: i64,
    pub controls: SessionControls,
}

impl MediaSession {
    /// The snapshot an adapter hands in when the OS reports no active
    /// session: unavailable, with empty text fields, unknown status, both
    /// time fields at the `-1` sentinel, and no control usable.
    pub fn unavailable() -> (s: MediaSession)
        ensures
            !s.available,
            s.title@ == Seq::<char>::empty(),
            s.artist@ == Seq::<char>::empty(),
            s.album@ == Seq::<char>::empty(),
            s.album_art@ == Seq::<char>::empty(),
            s.status == PlaybackStatus::Unknown,
            s.shuffle == ShuffleMode::Off,
            s.repeat == RepeatMode::Off,
            s.position == -1,
            s.duration == -1,
            s.controls == SessionControls::spec_none_enabled(),
    {
        MediaSession {
            available: false,
            title: String::new(),
            artist: String::new(),
            album: String::new(),
            album_art: String::new(),
            status: PlaybackStatus::Unknown,
            shuffle: ShuffleMode::Off,
            repeat: RepeatMode::Off,
            position: -1i64,
            duration: -1i64,
            controls: SessionControls::none_enabled(),
        }
    }
}

/// The same session with another playback status.
pub open spec fn spec_with_status(s: MediaSession, status: PlaybackStatus) -> MediaSession {
    MediaSession { status, ..s }
}

/// The same session with another shuffle mode.
pub open spec fn spec_with_shuffle(s: MediaSession, shuffle: ShuffleMode) -> MediaSession {
    MediaSession { shuffle, ..s }
}

/// The same session with another repeat mode.
pub open spec fn spec_with_repeat(s: MediaSession, repeat: RepeatMode) -> MediaSession {
    MediaSession { repeat, ..s }
}

/// The same session at another playback position.
pub open spec fn spec_with_position(s: MediaSession, position: i64) -> MediaSession {
    MediaSession { position, ..s }
}

/// What one accepted repeat command does to the session: the repeat mode
/// advances one step along the fixed cycle off → track → playlist → off and
/// nothing else changes.
pub open spec fn spec_repeat_step(s: MediaSession) -> MediaSession {
    spec_with_repeat(s, spec_next_repeat(s.repeat))
}

/// Three accepted repeat commands return the session to exactly the state
/// it started in: the repeat cycle closes after three steps, from every
/// starting mode. In particular a session whose repeat is off comes back to
/// off through track and playlist.
pub proof fn lemma_repeat_step_cycle(s: MediaSession)
    ensures
        spec_repeat_step(spec_repeat_step(spec_repeat_step(s))) == s,
{
}

/// What the play/pause toggle does to the status: a playing session pauses,
/// a paused one resumes, any other status stays as it is.
pub open spec fn spec_toggled_status(status: PlaybackStatus) -> PlaybackStatus {
    match status {
        PlaybackStatus::Playing => PlaybackStatus::Paused,
        PlaybackStatus::Paused => PlaybackStatus::Playing,
        PlaybackStatus::Stopped => PlaybackStatus::Stopped,
        PlaybackStatus::Unknown => PlaybackStatus::Unknown,
    }
}

/// The playback snapshot an available session yields: the closed-variant
/// status and modes flattened to booleans, the two time fields passed
/// through, and the control flags copied. The shuffle and repeat booleans
/// are reported false whenever the matching control is unusable, whatever
/// mode the session carries: a mode behind a disabled control is not
/// surfaced.
pub open spec fn spec_playback_state_of(s: MediaSession) -> PlaybackState {
    PlaybackState {
        is_playing: s.status == PlaybackStatus::Playing,
        is_pausing: s.status == PlaybackStatus::Paused,
        is_stopped: s.status == PlaybackStatus::Stopped,
        is_shuffling: s.controls.shuffle_enabled && s.shuffle != ShuffleMode::Off,
        is_repeating_track: s.controls.repeat_enabled && s.repeat == RepeatMode::Track,
        is_repeating_playlist: s.controls.repeat_enabled && s.repeat == RepeatMode::Playlist,
        current_time: s.position,
        max_time: s.duration,
        play_enabled: s.controls.play_enabled,
        pause_enabled: s.controls.pause_enabled,
        stop_enabled: s.controls.stop_enabled,
        record_enabled: s.controls.record_enabled,
        fast_forward_enabled: s.controls.fast_forward_enabled,
        rewind_enabled: s.controls.rewind_enabled,
        next_enabled: s.controls.next_enabled,
        previous_enabled: s.controls.previous_enabled,
        channel_up_enabled: s.controls.channel_up_enabled,
        channel_down_enabled: s.controls.channel_down_enabled,
        play_pause_toggle_enabled: s.controls.play_pause_toggle_enabled,
        shuffle_enabled: s.controls.shuffle_enabled,
        repeat_enabled: s.controls.repeat_enabled,
        playback_rate_enabled: s.controls.playback_rate_enabled,
        playback_position_enabled: s.controls.playback_position_enabled,
    }
}

} // verus!
