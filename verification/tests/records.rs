use media_session::{count_commas, MediaInfo, PlaybackState};

fn full_state(current_time: i64, max_time: i64) -> PlaybackState {
    PlaybackState::new(
        true, false, false, true, false, true, current_time, max_time, true, true, true, false,
        false, false, true, true, false, false, true, true, true, true, true,
    )
}

#[test]
fn empty_info_text() {
    println!("{}", MediaInfo::empty().to_string());
    println!("{}", PlaybackState::empty().to_string())
}

#[test]
fn empty_media_info_encoding() {
    let info = MediaInfo::empty();
    assert_eq!(
        info.to_string(),
        "Unavailable,Unavailable,Unavailable,Unavailable"
    );
}

#[test]
fn media_info_encoding_order() {
    let info = MediaInfo::new(
        "Song".to_string(),
        "Artist One, Artist Two".to_string(),
        "Album".to_string(),
        "/tmp/art.jpg".to_string(),
    );
    assert_eq!(
        info.to_string(),
        "Song,Artist One, Artist Two,Album,/tmp/art.jpg"
    );
}

#[test]
fn empty_playback_state_encoding() {
    let s = PlaybackState::empty();
    assert_eq!(
        s.to_string(),
        "false,false,false,false,false,false,-1,-1,false,false,false,false,false,false,false,\
         false,false,false,false,false,false,false,false,"
    );
}

#[test]
fn full_playback_state_encoding() {
    let s = full_state(45000, 180000);
    assert_eq!(
        s.to_string(),
        "true,false,false,true,false,true,45000,180000,true,true,true,false,false,false,true,\
         true,false,false,true,true,true,true,true,"
    );
}

#[test]
fn playback_state_field_count_is_23() {
    assert_eq!(count_commas(&PlaybackState::empty().to_string()), 23);
    assert_eq!(count_commas(&full_state(0, i64::MAX).to_string()), 23);
    assert_eq!(count_commas(&full_state(-1, 7).to_string()), 23);
}

#[test]
fn time_fields_render_as_decimal() {
    let s = full_state(i64::MIN, i64::MAX);
    let text = s.to_string();
    assert!(text.contains(",-9223372036854775808,9223372036854775807,"));
    let zero = full_state(0, 10);
    assert!(zero.to_string().contains(",0,10,"));
}

#[test]
fn comma_counting_is_exact() {
    assert_eq!(count_commas(""), 0);
    assert_eq!(count_commas("no delimiters here"), 0);
    assert_eq!(count_commas(",,,"), 3);
    assert_eq!(count_commas("a,b,c"), 2);
}
