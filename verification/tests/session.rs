use media_session::{
    channel_down, channel_up, fast_forward, get_media_info, get_playback_state, next, pause,
    play, playback_position, player_available, previous, record, repeat, rewind, shuffle, stop,
    toggle_play_pause, MediaSession, PlaybackStatus, RepeatMode, SessionControls, ShuffleMode,
};

fn all_controls() -> SessionControls {
    SessionControls {
        play_enabled: true,
        pause_enabled: true,
        stop_enabled: true,
        record_enabled: true,
        fast_forward_enabled: true,
        rewind_enabled: true,
        next_enabled: true,
        previous_enabled: true,
        channel_up_enabled: true,
        channel_down_enabled: true,
        play_pause_toggle_enabled: true,
        shuffle_enabled: true,
        repeat_enabled: true,
        playback_rate_enabled: true,
        playback_position_enabled: true,
    }
}

fn no_controls() -> SessionControls {
    SessionControls {
        play_enabled: false,
        pause_enabled: false,
        stop_enabled: false,
        record_enabled: false,
        fast_forward_enabled: false,
        rewind_enabled: false,
        next_enabled: false,
        previous_enabled: false,
        channel_up_enabled: false,
        channel_down_enabled: false,
        play_pause_toggle_enabled: false,
        shuffle_enabled: false,
        repeat_enabled: false,
        playback_rate_enabled: false,
        playback_position_enabled: false,
    }
}

fn active_session() -> MediaSession {
    MediaSession {
        available: true,
        title: "Song".to_string(),
        artist: "Artist".to_string(),
        album: "Album".to_string(),
        album_art: "art://cover".to_string(),
        status: PlaybackStatus::Paused,
        shuffle: ShuffleMode::Off,
        repeat: RepeatMode::Off,
        position: 45000,
        duration: 180000,
        controls: all_controls(),
    }
}

fn absent_session() -> MediaSession {
    MediaSession {
        available: false,
        title: String::new(),
        artist: String::new(),
        album: String::new(),
        album_art: String::new(),
        status: PlaybackStatus::Unknown,
        shuffle: ShuffleMode::Off,
        repeat: RepeatMode::Off,
        position: 0,
        duration: 0,
        controls: no_controls(),
    }
}

#[test]
fn no_session_yields_sentinel_records() {
    let s = absent_session();
    assert!(!player_available(&s));

    let info = get_media_info(&s);
    assert_eq!(info.title, "Unavailable");
    assert_eq!(info.artist, "Unavailable");
    assert_eq!(info.album, "Unavailable");
    assert_eq!(info.album_art, "Unavailable");

    let ps = get_playback_state(&s);
    assert_eq!(ps.current_time, -1);
    assert_eq!(ps.max_time, -1);
    assert!(!ps.is_playing && !ps.is_pausing && !ps.is_stopped);
    assert!(!ps.is_shuffling && !ps.is_repeating_track && !ps.is_repeating_playlist);
    assert!(!ps.play_enabled && !ps.pause_enabled && !ps.stop_enabled);
    assert!(!ps.record_enabled && !ps.fast_forward_enabled && !ps.rewind_enabled);
    assert!(!ps.next_enabled && !ps.previous_enabled);
    assert!(!ps.channel_up_enabled && !ps.channel_down_enabled);
    assert!(!ps.play_pause_toggle_enabled && !ps.shuffle_enabled && !ps.repeat_enabled);
    assert!(!ps.playback_rate_enabled && !ps.playback_position_enabled);
}

#[test]
fn available_session_reports_metadata() {
    let s = active_session();
    let info = get_media_info(&s);
    assert_eq!(info.title, "Song");
    assert_eq!(info.artist, "Artist");
    assert_eq!(info.album, "Album");
    assert_eq!(info.album_art, "art://cover");
}

#[test]
fn reported_times_pass_through() {
    let s = active_session();
    let ps = get_playback_state(&s);
    assert_eq!(ps.max_time, 180000);
    assert_eq!(ps.current_time, 45000);
}

#[test]
fn status_and_modes_flatten_to_flags() {
    let mut s = active_session();
    s.status = PlaybackStatus::Playing;
    s.shuffle = ShuffleMode::Albums;
    s.repeat = RepeatMode::Playlist;
    let ps = get_playback_state(&s);
    assert!(ps.is_playing && !ps.is_pausing && !ps.is_stopped);
    assert!(ps.is_shuffling);
    assert!(!ps.is_repeating_track && ps.is_repeating_playlist);
    assert!(ps.play_enabled && ps.repeat_enabled && ps.playback_position_enabled);
}

#[test]
fn disabled_controls_mask_the_mode_flags() {
    let mut s = active_session();
    s.shuffle = ShuffleMode::Songs;
    s.repeat = RepeatMode::Track;
    s.controls.shuffle_enabled = false;
    s.controls.repeat_enabled = false;
    let ps = get_playback_state(&s);
    assert!(!ps.is_shuffling);
    assert!(!ps.is_repeating_track && !ps.is_repeating_playlist);
    s.controls.shuffle_enabled = true;
    s.controls.repeat_enabled = true;
    let ps = get_playback_state(&s);
    assert!(ps.is_shuffling);
    assert!(ps.is_repeating_track && !ps.is_repeating_playlist);
}

#[test]
fn rate_command_gate_follows_availability_and_flag() {
    let mut s = active_session();
    assert!(media_session::playback_rate_allowed(&s));
    s.controls.playback_rate_enabled = false;
    assert!(!media_session::playback_rate_allowed(&s));
    s.controls.playback_rate_enabled = true;
    s.available = false;
    assert!(!media_session::playback_rate_allowed(&s));
}

#[test]
fn every_command_fails_without_a_player() {
    let mut s = absent_session();
    assert!(!play(&mut s));
    assert!(!pause(&mut s));
    assert!(!stop(&mut s));
    assert!(!record(&s));
    assert!(!fast_forward(&s));
    assert!(!rewind(&s));
    assert!(!next(&s));
    assert!(!previous(&s));
    assert!(!channel_up(&s));
    assert!(!channel_down(&s));
    assert!(!toggle_play_pause(&mut s));
    assert!(!shuffle(&mut s, true));
    assert!(!repeat(&mut s));
    assert!(!playback_position(&mut s, 1000));
    assert!(!media_session::playback_rate_allowed(&s));
    assert!(matches!(s.status, PlaybackStatus::Unknown));
    assert!(matches!(s.shuffle, ShuffleMode::Off));
    assert!(matches!(s.repeat, RepeatMode::Off));
    assert_eq!(s.position, 0);
}

#[test]
fn commands_fail_when_controls_are_unusable() {
    let mut s = active_session();
    s.controls = no_controls();
    assert!(player_available(&s));
    assert!(!play(&mut s));
    assert!(!repeat(&mut s));
    assert!(!shuffle(&mut s, true));
    assert!(!playback_position(&mut s, 9));
    assert!(matches!(s.status, PlaybackStatus::Paused));
    assert_eq!(s.position, 45000);
}

#[test]
fn transport_commands_move_the_status() {
    let mut s = active_session();
    assert!(play(&mut s));
    assert!(matches!(s.status, PlaybackStatus::Playing));
    assert!(pause(&mut s));
    assert!(matches!(s.status, PlaybackStatus::Paused));
    assert!(stop(&mut s));
    assert!(matches!(s.status, PlaybackStatus::Stopped));
}

#[test]
fn toggle_switches_between_playing_and_paused() {
    let mut s = active_session();
    s.status = PlaybackStatus::Playing;
    assert!(toggle_play_pause(&mut s));
    assert!(matches!(s.status, PlaybackStatus::Paused));
    assert!(toggle_play_pause(&mut s));
    assert!(matches!(s.status, PlaybackStatus::Playing));
    s.status = PlaybackStatus::Stopped;
    assert!(toggle_play_pause(&mut s));
    assert!(matches!(s.status, PlaybackStatus::Stopped));
}

#[test]
fn shuffle_sets_the_mode_from_the_flag() {
    let mut s = active_session();
    assert!(shuffle(&mut s, true));
    assert!(matches!(s.shuffle, ShuffleMode::Songs));
    assert!(shuffle(&mut s, false));
    assert!(matches!(s.shuffle, ShuffleMode::Off));
}

#[test]
fn repeat_command_cycles_back_after_three_steps() {
    let mut s = active_session();
    assert!(matches!(s.repeat, RepeatMode::Off));
    assert!(repeat(&mut s));
    assert!(matches!(s.repeat, RepeatMode::Track));
    assert!(repeat(&mut s));
    assert!(matches!(s.repeat, RepeatMode::Playlist));
    assert!(repeat(&mut s));
    assert!(matches!(s.repeat, RepeatMode::Off));
}

#[test]
fn seeking_moves_the_position() {
    let mut s = active_session();
    assert!(playback_position(&mut s, 90000));
    assert_eq!(s.position, 90000);
    assert!(playback_position(&mut s, 0));
    assert_eq!(s.position, 0);
}

#[test]
fn acceptance_follows_each_control_flag() {
    let mut s = active_session();
    s.controls.record_enabled = false;
    s.controls.next_enabled = true;
    assert!(!record(&s));
    assert!(next(&s));
    s.controls.next_enabled = false;
    assert!(!next(&s));
    assert!(previous(&s));
    assert!(fast_forward(&s) && rewind(&s));
    assert!(channel_up(&s) && channel_down(&s));
}
