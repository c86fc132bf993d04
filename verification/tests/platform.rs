use media_session::platform::{linux, macos, windows};

#[test]
fn linux_has_no_hardware_controls() {
    assert!(!linux::try_record());
    assert!(!linux::try_fast_forward());
    assert!(!linux::try_rewind());
    assert!(!linux::try_change_channel_up());
    assert!(!linux::try_change_channel_down());
}

#[test]
fn macos_refuses_undriven_controls() {
    assert!(!macos::try_record());
    assert!(!macos::try_fast_forward());
    assert!(!macos::try_rewind());
    assert!(!macos::try_change_channel_up());
    assert!(!macos::try_change_channel_down());
}

#[test]
fn artist_lists_join_with_comma_space() {
    assert_eq!(linux::vec_to_str(vec![]), "");
    assert_eq!(linux::vec_to_str(vec!["Solo"]), "Solo");
    assert_eq!(linux::vec_to_str(vec!["A", "B", "C"]), "A, B, C");
}

#[test]
fn thumbnail_names_strip_slashes() {
    assert_eq!(
        windows::thumbnail_cache_file_name("AC/DC", "Back in Black"),
        "thumbnail_cache_ACDC_Back in Black.jpg"
    );
    assert_eq!(
        windows::thumbnail_cache_file_name("Song", "Album"),
        "thumbnail_cache_Song_Album.jpg"
    );
    assert_eq!(
        windows::thumbnail_cache_file_name("", ""),
        "thumbnail_cache__.jpg"
    );
}
