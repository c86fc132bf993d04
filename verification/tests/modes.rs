use media_session::{next_repeat, next_shuffle, RepeatMode, ShuffleMode};

#[test]
fn repeat_cycle_returns_to_start() {
    let start = RepeatMode::Off;
    let once = next_repeat(start);
    assert!(matches!(once, RepeatMode::Track));
    let twice = next_repeat(once);
    assert!(matches!(twice, RepeatMode::Playlist));
    let thrice = next_repeat(twice);
    assert!(matches!(thrice, RepeatMode::Off));
}

#[test]
fn shuffle_cycle_returns_to_start() {
    let start = ShuffleMode::Off;
    let once = next_shuffle(start);
    assert!(matches!(once, ShuffleMode::Songs));
    let twice = next_shuffle(once);
    assert!(matches!(twice, ShuffleMode::Albums));
    let thrice = next_shuffle(twice);
    assert!(matches!(thrice, ShuffleMode::Off));
}

#[test]
fn repeat_cycle_closes_from_every_mode() {
    for mode in [RepeatMode::Off, RepeatMode::Track, RepeatMode::Playlist] {
        let back = next_repeat(next_repeat(next_repeat(mode)));
        assert_eq!(back, mode);
    }
}

#[test]
fn shuffle_cycle_closes_from_every_mode() {
    for mode in [ShuffleMode::Off, ShuffleMode::Songs, ShuffleMode::Albums] {
        let back = next_shuffle(next_shuffle(next_shuffle(mode)));
        assert_eq!(back, mode);
    }
}
