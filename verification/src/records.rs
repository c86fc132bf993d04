//! The two value records a session query produces: the track metadata and
//! the playback snapshot, with their comma-delimited string encodings.

use vstd::prelude::*;

use vstd::seq_lib::lemma_concat_associative;

use crate::text::lemma_bool_string_comma_free;
use crate::text::lemma_comma_count_append;
use crate::text::lemma_int_string_comma_free;
use crate::text::bool_to_string;
use crate::text::i64_to_string;
use crate::text::spec_bool_string;
use crate::text::spec_comma_count;
use crate::text::spec_int_string;

verus! {

/// The text that stands in for every metadata field when no media session
/// is active.
pub open spec fn spec_unavailable_text() -> Seq<char> {
    seq!['U', 'n', 'a', 'v', 'a', 'i', 'l', 'a', 'b', 'l', 'e']
}

/// A snapshot of the currently playing track's metadata.
///
/// Every field is plain text; when no session is active each field holds
/// the sentinel text `Unavailable`.
pub struct MediaInfo {
    pub title: String,
    pub artist: String,
    pub album: String,
    pub album_art: String,
}

/// The metadata encoding: the four fields joined by commas, in the fixed
/// order title, artist, album, artwork reference.
pub open spec fn spec_media_info_string(info: MediaInfo) -> Seq<char> {
    info.title@ + seq![','] + info.artist@ + seq![','] + info.album@ + seq![','] + info.album_art@
}

impl MediaInfo {
    /// A metadata record with the given fields.
    pub fn new(title: String, artist: String, album: String, album_art: String) -> (info:
        MediaInfo)
        ensures
            info.title == title,
            info.artist == artist,
            info.album == album,
            info.album_art == album_art,
    {
        MediaInfo { title, artist, album, album_art }
    }

    /// The sentinel record returned when no media session is active: every
    /// field reads `Unavailable`.
    pub fn empty() -> (info: MediaInfo)
        ensures
            info.title@ == spec_unavailable_text(),
            info.artist@ == spec_unavailable_text(),
            info.album@ == spec_unavailable_text(),
            info.album_art@ == spec_unavailable_text(),
    {
        proof {
            reveal_strlit("Unavailable");
            assert("Unavailable"@ =~= spec_unavailable_text());
        }
        MediaInfo {
            title: String::from_str("Unavailable"),
            artist: String::from_str("Unavailable"),
            album: String::from_str("Unavailable"),
            album_art: String::from_str("Unavailable"),
        }
    }

    /// The comma-delimited encoding of the record, for a caller that cannot
    /// consume the structure itself.
    pub fn to_string(&self) -> (r: String)
        ensures
            r@ == spec_media_info_string(*self),
    {
        proof {
            reveal_strlit(",");
        }
        let mut r = String::from_str(self.title.as_str());
        r.append(",");
        r.append(self.artist.as_str());
        r.append(",");
        r.append(self.album.as_str());
        r.append(",");
        r.append(self.album_art.as_str());
        proof {
            assert(r@ =~= spec_media_info_string(*self));
        }
        r
    }
}

/// A snapshot of the session's playback state: what the player is doing,
/// where it is in the track, and which controls the session currently
/// reports as usable.
///
/// The time fields are integer time units as the session reports them; the
/// sentinel `-1` means "unknown". The three status flags and the two repeat
/// flags are flattened from the closed-variant modes at this boundary.
pub struct PlaybackState {
    pub is_playing: bool,
    pub is_pausing: bool,
    pub is_stopped: bool,
    pub is_shuffling: bool,
    pub is_repeating_track: bool,
    pub is_repeating_playlist: bool,
    pub current_time: i64,
    pub max_time: i64,
    pub play_enabled: bool,
    pub pause_enabled: bool,
    pub stop_enabled: bool,
    pub record_enabled: bool,
    pub fast_forward_enabled: bool,
    pub rewind_enabled: bool,
    pub next_enabled: bool,
    pub previous_enabled: bool,
    pub channel_up_enabled: bool,
    pub channel_down_enabled: bool,
    pub play_pause_toggle_enabled: bool,
    pub shuffle_enabled: bool,
    pub repeat_enabled: bool,
    pub playback_rate_enabled: bool,
    pub playback_position_enabled: bool,
}

/// One field of the playback-state encoding: its text followed by the
/// closing comma. Every field of that encoding ends with a comma, the last
/// one included.
#[verifier::opaque]
pub open spec fn spec_field(t: Seq<char>) -> Seq<char> {
    t + seq![',']
}

/// Fields 1 to 8 of the playback-state encoding: the three status flags,
/// the shuffle flag, the two repeat flags, and the two time fields, each
/// followed by its closing comma.
#[verifier::opaque]
pub open spec fn spec_playback_part1(s: PlaybackState) -> Seq<char> {
    spec_field(spec_bool_string(s.is_playing)) + spec_field(spec_bool_string(s.is_pausing))
        + spec_field(spec_bool_string(s.is_stopped)) + spec_field(
        spec_bool_string(s.is_shuffling),
    ) + spec_field(spec_bool_string(s.is_repeating_track)) + spec_field(
        spec_bool_string(s.is_repeating_playlist),
    ) + spec_field(spec_int_string(s.current_time as int)) + spec_field(
        spec_int_string(s.max_time as int),
    )
}

/// Fields 9 to 16 of the playback-state encoding: the first eight
/// control-enabled flags, each followed by its closing comma.
#[verifier::opaque]
pub open spec fn spec_playback_part2(s: PlaybackState) -> Seq<char> {
    spec_field(spec_bool_string(s.play_enabled)) + spec_field(spec_bool_string(s.pause_enabled))
        + spec_field(spec_bool_string(s.stop_enabled)) + spec_field(
        spec_bool_string(s.record_enabled),
    ) + spec_field(spec_bool_string(s.fast_forward_enabled)) + spec_field(
        spec_bool_string(s.rewind_enabled),
    ) + spec_field(spec_bool_string(s.next_enabled)) + spec_field(
        spec_bool_string(s.previous_enabled),
    )
}

/// Fields 17 to 23 of the playback-state encoding: the remaining seven
/// control-enabled flags, each followed by its closing comma.
#[verifier::opaque]
pub open spec fn spec_playback_part3(s: PlaybackState) -> Seq<char> {
    spec_field(spec_bool_string(s.channel_up_enabled)) + spec_field(
        spec_bool_string(s.channel_down_enabled),
    ) + spec_field(spec_bool_string(s.play_pause_toggle_enabled)) + spec_field(
        spec_bool_string(s.shuffle_enabled),
    ) + spec_field(spec_bool_string(s.repeat_enabled)) + spec_field(
        spec_bool_string(s.playback_rate_enabled),
    ) + spec_field(spec_bool_string(s.playback_position_enabled))
}

/// The playback-state encoding: the 23 fields in the documented order, each
/// followed by its closing comma, the trailing comma included.
pub open spec fn spec_playback_state_string(s: PlaybackState) -> Seq<char> {
    spec_playback_part1(s) + spec_playback_part2(s) + spec_playback_part3(s)
}

/// A comma-free text followed by its closing comma holds exactly one comma.
pub proof fn lemma_field_comma_count(t: Seq<char>)
    requires
        spec_comma_count(t) == 0,
    ensures
        spec_comma_count(spec_field(t)) == 1,
{
    reveal(spec_field);
    reveal_with_fuel(spec_comma_count, 2);
    lemma_comma_count_append(t, seq![',']);
    assert(seq![','].drop_last() =~= Seq::<char>::empty());
}

/// Appending one boolean field to the encoding adds exactly one comma.
proof fn lemma_extend_bool(a: Seq<char>, b: bool)
    ensures
        spec_comma_count(a + spec_field(spec_bool_string(b))) == spec_comma_count(a) + 1,
{
    lemma_bool_string_comma_free(b);
    lemma_field_comma_count(spec_bool_string(b));
    lemma_comma_count_append(a, spec_field(spec_bool_string(b)));
}

/// Appending one signed time field to the encoding adds exactly one comma.
proof fn lemma_extend_i64(a: Seq<char>, v: i64)
    ensures
        spec_comma_count(a + spec_field(spec_int_string(v as int))) == spec_comma_count(a) + 1,
{
    lemma_int_string_comma_free(v as int);
    lemma_field_comma_count(spec_int_string(v as int));
    lemma_comma_count_append(a, spec_field(spec_int_string(v as int)));
}

/// Fields 1 to 8 of the encoding hold exactly 8 commas.
proof fn lemma_part1_comma_count(s: PlaybackState)
    ensures
        spec_comma_count(spec_playback_part1(s)) == 8,
{
    reveal(spec_playback_part1);
    let p1 = spec_field(spec_bool_string(s.is_playing));
    lemma_bool_string_comma_free(s.is_playing);
    lemma_field_comma_count(spec_bool_string(s.is_playing));
    let p2 = p1 + spec_field(spec_bool_string(s.is_pausing));
    lemma_extend_bool(p1, s.is_pausing);
    let p3 = p2 + spec_field(spec_bool_string(s.is_stopped));
    lemma_extend_bool(p2, s.is_stopped);
    let p4 = p3 + spec_field(spec_bool_string(s.is_shuffling));
    lemma_extend_bool(p3, s.is_shuffling);
    let p5 = p4 + spec_field(spec_bool_string(s.is_repeating_track));
    lemma_extend_bool(p4, s.is_repeating_track);
    let p6 = p5 + spec_field(spec_bool_string(s.is_repeating_playlist));
    lemma_extend_bool(p5, s.is_repeating_playlist);
    let p7 = p6 + spec_field(spec_int_string(s.current_time as int));
    lemma_extend_i64(p6, s.current_time);
    let p8 = p7 + spec_field(spec_int_string(s.max_time as int));
    lemma_extend_i64(p7, s.max_time);
    assert(p8 == spec_playback_part1(s));
}

/// Fields 9 to 16 of the encoding hold exactly 8 commas.
proof fn lemma_part2_comma_count(s: PlaybackState)
    ensures
        spec_comma_count(spec_playback_part2(s)) == 8,
{
    reveal(spec_playback_part2);
    let p1 = spec_field(spec_bool_string(s.play_enabled));
    lemma_bool_string_comma_free(s.play_enabled);
    lemma_field_comma_count(spec_bool_string(s.play_enabled));
    let p2 = p1 + spec_field(spec_bool_string(s.pause_enabled));
    lemma_extend_bool(p1, s.pause_enabled);
    let p3 = p2 + spec_field(spec_bool_string(s.stop_enabled));
    lemma_extend_bool(p2, s.stop_enabled);
    let p4 = p3 + spec_field(spec_bool_string(s.record_enabled));
    lemma_extend_bool(p3, s.record_enabled);
    let p5 = p4 + spec_field(spec_bool_string(s.fast_forward_enabled));
    lemma_extend_bool(p4, s.fast_forward_enabled);
    let p6 = p5 + spec_field(spec_bool_string(s.rewind_enabled));
    lemma_extend_bool(p5, s.rewind_enabled);
    let p7 = p6 + spec_field(spec_bool_string(s.next_enabled));
    lemma_extend_bool(p6, s.next_enabled);
    let p8 = p7 + spec_field(spec_bool_string(s.previous_enabled));
    lemma_extend_bool(p7, s.previous_enabled);
    assert(p8 == spec_playback_part2(s));
}

/// Fields 17 to 23 of the encoding hold exactly 7 commas.
proof fn lemma_part3_comma_count(s: PlaybackState)
    ensures
        spec_comma_count(spec_playback_part3(s)) == 7,
{
    reveal(spec_playback_part3);
    let p1 = spec_field(spec_bool_string(s.channel_up_enabled));
    lemma_bool_string_comma_free(s.channel_up_enabled);
    lemma_field_comma_count(spec_bool_string(s.channel_up_enabled));
    let p2 = p1 + spec_field(spec_bool_string(s.channel_down_enabled));
    lemma_extend_bool(p1, s.channel_down_enabled);
    let p3 = p2 + spec_field(spec_bool_string(s.play_pause_toggle_enabled));
    lemma_extend_bool(p2, s.play_pause_toggle_enabled);
    let p4 = p3 + spec_field(spec_bool_string(s.shuffle_enabled));
    lemma_extend_bool(p3, s.shuffle_enabled);
    let p5 = p4 + spec_field(spec_bool_string(s.repeat_enabled));
    lemma_extend_bool(p4, s.repeat_enabled);
    let p6 = p5 + spec_field(spec_bool_string(s.playback_rate_enabled));
    lemma_extend_bool(p5, s.playback_rate_enabled);
    let p7 = p6 + spec_field(spec_bool_string(s.playback_position_enabled));
    lemma_extend_bool(p6, s.playback_position_enabled);
    assert(p7 == spec_playback_part3(s));
}

/// The playback-state encoding holds exactly 23 commas: one closing each of
/// its 23 fields, in the documented order. Counting the commas of the
/// encoded snapshot therefore counts its fields.
pub proof fn lemma_playback_state_field_count(s: PlaybackState)
    ensures
        spec_comma_count(spec_playback_state_string(s)) == 23,
{
    lemma_part1_comma_count(s);
    lemma_part2_comma_count(s);
    lemma_part3_comma_count(s);
    lemma_comma_count_append(spec_playback_part1(s), spec_playback_part2(s));
    lemma_comma_count_append(
        spec_playback_part1(s) + spec_playback_part2(s),
        spec_playback_part3(s),
    );
}

/// Append fields 1 to 8 of the encoding.
fn append_part1(r: &mut String, s: &PlaybackState)
    ensures
        final(r)@ == old(r)@ + spec_playback_part1(*s),
{
    push_bool_field(r, s.is_playing);
    push_bool_field(r, s.is_pausing);
    push_bool_field(r, s.is_stopped);
    push_bool_field(r, s.is_shuffling);
    push_bool_field(r, s.is_repeating_track);
    push_bool_field(r, s.is_repeating_playlist);
    push_i64_field(r, s.current_time);
    push_i64_field(r, s.max_time);
    proof {
        reveal(spec_playback_part1);
        let o = old(r)@;
        let f1 = spec_field(spec_bool_string(s.is_playing));
        let f2 = spec_field(spec_bool_string(s.is_pausing));
        let f3 = spec_field(spec_bool_string(s.is_stopped));
        let f4 = spec_field(spec_bool_string(s.is_shuffling));
        let f5 = spec_field(spec_bool_string(s.is_repeating_track));
        let f6 = spec_field(spec_bool_string(s.is_repeating_playlist));
        let f7 = spec_field(spec_int_string(s.current_time as int));
        let f8 = spec_field(spec_int_string(s.max_time as int));
        lemma_concat_associative(o, f1, f2);
        lemma_concat_associative(o, f1 + f2, f3);
        lemma_concat_associative(o, f1 + f2 + f3, f4);
        lemma_concat_associative(o, f1 + f2 + f3 + f4, f5);
        lemma_concat_associative(o, f1 + f2 + f3 + f4 + f5, f6);
        lemma_concat_associative(o, f1 + f2 + f3 + f4 + f5 + f6, f7);
        lemma_concat_associative(o, f1 + f2 + f3 + f4 + f5 + f6 + f7, f8);
        assert(r@ == o + spec_playback_part1(*s));
    }
}

/// Append fields 9 to 16 of the encoding.
fn append_part2(r: &mut String, s: &PlaybackState)
    ensures
        final(r)@ == old(r)@ + spec_playback_part2(*s),
{
    push_bool_field(r, s.play_enabled);
    push_bool_field(r, s.pause_enabled);
    push_bool_field(r, s.stop_enabled);
    push_bool_field(r, s.record_enabled);
    push_bool_field(r, s.fast_forward_enabled);
    push_bool_field(r, s.rewind_enabled);
    push_bool_field(r, s.next_enabled);
    push_bool_field(r, s.previous_enabled);
    proof {
        reveal(spec_playback_part2);
        let o = old(r)@;
        let f1 = spec_field(spec_bool_string(s.play_enabled));
        let f2 = spec_field(spec_bool_string(s.pause_enabled));
        let f3 = spec_field(spec_bool_string(s.stop_enabled));
        let f4 = spec_field(spec_bool_string(s.record_enabled));
        let f5 = spec_field(spec_bool_string(s.fast_forward_enabled));
        let f6 = spec_field(spec_bool_string(s.rewind_enabled));
        let f7 = spec_field(spec_bool_string(s.next_enabled));
        let f8 = spec_field(spec_bool_string(s.previous_enabled));
        lemma_concat_associative(o, f1, f2);
        lemma_concat_associative(o, f1 + f2, f3);
        lemma_concat_associative(o, f1 + f2 + f3, f4);
        lemma_concat_associative(o, f1 + f2 + f3 + f4, f5);
        lemma_concat_associative(o, f1 + f2 + f3 + f4 + f5, f6);
        lemma_concat_associative(o, f1 + f2 + f3 + f4 + f5 + f6, f7);
        lemma_concat_associative(o, f1 + f2 + f3 + f4 + f5 + f6 + f7, f8);
        assert(r@ == o + spec_playback_part2(*s));
    }
}

/// Append fields 17 to 23 of the encoding.
fn append_part3(r: &mut String, s: &PlaybackState)
    ensures
        final(r)@ == old(r)@ + spec_playback_part3(*s),
{
    push_bool_field(r, s.channel_up_enabled);
    push_bool_field(r, s.channel_down_enabled);
    push_bool_field(r, s.play_pause_toggle_enabled);
    push_bool_field(r, s.shuffle_enabled);
    push_bool_field(r, s.repeat_enabled);
    push_bool_field(r, s.playback_rate_enabled);
    push_bool_field(r, s.playback_position_enabled);
    proof {
        reveal(spec_playback_part3);
        let o = old(r)@;
        let f1 = spec_field(spec_bool_string(s.channel_up_enabled));
        let f2 = spec_field(spec_bool_string(s.channel_down_enabled));
        let f3 = spec_field(spec_bool_string(s.play_pause_toggle_enabled));
        let f4 = spec_field(spec_bool_string(s.shuffle_enabled));
        let f5 = spec_field(spec_bool_string(s.repeat_enabled));
        let f6 = spec_field(spec_bool_string(s.playback_rate_enabled));
        let f7 = spec_field(spec_bool_string(s.playback_position_enabled));
        lemma_concat_associative(o, f1, f2);
        lemma_concat_associative(o, f1 + f2, f3);
        lemma_concat_associative(o, f1 + f2 + f3, f4);
        lemma_concat_associative(o, f1 + f2 + f3 + f4, f5);
        lemma_concat_associative(o, f1 + f2 + f3 + f4 + f5, f6);
        lemma_concat_associative(o, f1 + f2 + f3 + f4 + f5 + f6, f7);
        assert(r@ == o + spec_playback_part3(*s));
    }
}

/// Append one boolean field and its closing comma to the encoding.
fn push_bool_field(r: &mut String, b: bool)
    ensures
        final(r)@ == old(r)@ + spec_field(spec_bool_string(b)),
{
    let t = bool_to_string(b);
    r.append(t.as_str());
    r.append(",");
    proof {
        reveal(spec_field);
        reveal_strlit(",");
        assert(r@ =~= old(r)@ + spec_field(spec_bool_string(b)));
    }
}

/// Append one signed time field and its closing comma to the encoding.
fn push_i64_field(r: &mut String, v: i64)
    ensures
        final(r)@ == old(r)@ + spec_field(spec_int_string(v as int)),
{
    let t = i64_to_string(v);
    r.append(t.as_str());
    r.append(",");
    proof {
        reveal(spec_field);
        reveal_strlit(",");
        assert(r@ =~= old(r)@ + spec_field(spec_int_string(v as int)));
    }
}

impl PlaybackState {
    /// A playback snapshot with the given fields.
    pub fn new(
        is_playing: bool,
        is_pausing: bool,
        is_stopped: bool,
        is_shuffling: bool,
        is_repeating_track: bool,
        is_repeating_playlist: bool,
        current_time: i64,
        max_time: i64,
        play_enabled: bool,
        pause_enabled: bool,
        stop_enabled: bool,
        record_enabled: bool,
        fast_forward_enabled: bool,
        rewind_enabled: bool,
        next_enabled: bool,
        previous_enabled: bool,
        channel_up_enabled: bool,
        channel_down_enabled: bool,
        play_pause_toggle_enabled: bool,
        shuffle_enabled: bool,
        repeat_enabled: bool,
        playback_rate_enabled: bool,
        playback_position_enabled: bool,
    ) -> (s: PlaybackState)
        ensures
            s == (PlaybackState {
                is_playing,
                is_pausing,
                is_stopped,
                is_shuffling,
                is_repeating_track,
                is_repeating_playlist,
                current_time,
                max_time,
                play_enabled,
                pause_enabled,
                stop_enabled,
                record_enabled,
                fast_forward_enabled,
                rewind_enabled,
                next_enabled,
                previous_enabled,
                channel_up_enabled,
                channel_down_enabled,
                play_pause_toggle_enabled,
                shuffle_enabled,
                repeat_enabled,
                playback_rate_enabled,
                playback_position_enabled,
            }),
    {
        PlaybackState {
            is_playing,
            is_pausing,
            is_stopped,
            is_shuffling,
            is_repeating_track,
            is_repeating_playlist,
            current_time,
            max_time,
            play_enabled,
            pause_enabled,
            stop_enabled,
            record_enabled,
            fast_forward_enabled,
            rewind_enabled,
            next_enabled,
            previous_enabled,
            channel_up_enabled,
            channel_down_enabled,
            play_pause_toggle_enabled,
            shuffle_enabled,
            repeat_enabled,
            playback_rate_enabled,
            playback_position_enabled,
        }
    }

    /// The sentinel snapshot for the playback state when no session is
    /// active.
    pub open spec fn spec_empty() -> PlaybackState {
        PlaybackState {
            is_playing: false,
            is_pausing: false,
            is_stopped: false,
            is_shuffling: false,
            is_repeating_track: false,
            is_repeating_playlist: false,
            current_time: -1i64,
            max_time: -1i64,
            play_enabled: false,
            pause_enabled: false,
            stop_enabled: false,
            record_enabled: false,
            fast_forward_enabled: false,
            rewind_enabled: false,
            next_enabled: false,
            previous_enabled: false,
            channel_up_enabled: false,
            channel_down_enabled: false,
            play_pause_toggle_enabled: false,
            shuffle_enabled: false,
            repeat_enabled: false,
            playback_rate_enabled: false,
            playback_position_enabled: false,
        }
    }

    /// The sentinel snapshot returned when no media session is active: both
    /// time fields hold `-1` and every flag is false.
    pub fn empty() -> (s: PlaybackState)
        ensures
            s == PlaybackState::spec_empty(),
    {
        PlaybackState {
            is_playing: false,
            is_pausing: false,
            is_stopped: false,
            is_shuffling: false,
            is_repeating_track: false,
            is_repeating_playlist: false,
            current_time: -1i64,
            max_time: -1i64,
            play_enabled: false,
            pause_enabled: false,
            stop_enabled: false,
            record_enabled: false,
            fast_forward_enabled: false,
            rewind_enabled: false,
            next_enabled: false,
            previous_enabled: false,
            channel_up_enabled: false,
            channel_down_enabled: false,
            play_pause_toggle_enabled: false,
            shuffle_enabled: false,
            repeat_enabled: false,
            playback_rate_enabled: false,
            playback_position_enabled: false,
        }
    }
    /// The comma-delimited encoding of the snapshot: 23 fields in the
    /// documented order, every field followed by a comma.
    pub fn to_string(&self) -> (r: String)
        ensures
            r@ == spec_playback_state_string(*self),
    {
        let mut r = String::new();
        append_part1(&mut r, self);
        proof {
            assert(Seq::<char>::empty() + spec_playback_part1(*self) =~= (
            spec_playback_part1(*self)));
        }
        append_part2(&mut r, self);
        append_part3(&mut r, self);
        proof {
            assert(r@ == spec_playback_state_string(*self));
        }
        r
    }
}

} // verus!
