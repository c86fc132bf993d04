//! What the Windows adapter decides without touching the transport
//! controls: the name under which it caches the current track's artwork in
//! the temporary directory.

use vstd::prelude::*;

use crate::text::remove_slashes;
use crate::text::spec_without_slashes;

verus! {

/// The artwork cache file name for a track: the title and album joined by
/// an underscore, every slash stripped so the name stays a single path
/// component, between the fixed prefix and the `.jpg` extension.
pub open spec fn spec_thumbnail_file_name(title: Seq<char>, album: Seq<char>) -> Seq<char> {
    seq!['t', 'h', 'u', 'm', 'b', 'n', 'a', 'i', 'l', '_', 'c', 'a', 'c', 'h', 'e', '_']
        + spec_without_slashes(title + seq!['_'] + album) + seq!['.', 'j', 'p', 'g']
}

/// The file name under which the adapter caches the current track's
/// artwork image in the system's temporary directory.
pub fn thumbnail_cache_file_name(title: &str, album: &str) -> (r: String)
    ensures
        r@ == spec_thumbnail_file_name(title@, album@),
{
    let mut name = String::from_str(title);
    name.append("_");
    name.append(album);
    proof {
        reveal_strlit("_");
        assert(name@ =~= title@ + seq!['_'] + album@);
    }
    let stripped = remove_slashes(name.as_str());
    let mut r = String::from_str("thumbnail_cache_");
    r.append(stripped.as_str());
    r.append(".jpg");
    proof {
        reveal_strlit("thumbnail_cache_");
        reveal_strlit(".jpg");
        assert(r@ =~= spec_thumbnail_file_name(title@, album@));
    }
    r
}

} // verus!
