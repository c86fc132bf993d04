//! What the Linux adapter decides without touching the MPRIS bus: the
//! controls D-Bus does not offer, and the flattening of the artist list to
//! a single text field.

use vstd::prelude::*;

use crate::text::spec_join;

verus! {

/// MPRIS exposes no record control: the command is unsupported and never
/// attempted.
pub fn try_record() -> (ok: bool)
    ensures
        !ok,
{
    false
}

/// MPRIS exposes no fast-forward control: the command is unsupported and
/// never attempted.
pub fn try_fast_forward() -> (ok: bool)
    ensures
        !ok,
{
    false
}

/// MPRIS exposes no rewind control: the command is unsupported and never
/// attempted.
pub fn try_rewind() -> (ok: bool)
    ensures
        !ok,
{
    false
}

/// MPRIS exposes no channel control: the command is unsupported and never
/// attempted.
pub fn try_change_channel_up() -> (ok: bool)
    ensures
        !ok,
{
    false
}

/// MPRIS exposes no channel control: the command is unsupported and never
/// attempted.
pub fn try_change_channel_down() -> (ok: bool)
    ensures
        !ok,
{
    false
}

/// Flatten the artist list the session reports to one text field, the
/// names joined by `", "`.
pub fn vec_to_str(items: Vec<&str>) -> (r: String)
    ensures
        r@ == spec_join(items@.map_values(|s: &str| s@), seq![',', ' ']),
{
    let ghost parts = items@.map_values(|s: &str| s@);
    let mut r = String::new();
    let mut i: usize = 0;
    while i < items.len()
        invariant
            i <= items.len(),
            parts == items@.map_values(|s: &str| s@),
            parts.len() == items@.len(),
            r@ == spec_join(parts.take(i as int), seq![',', ' ']),
        decreases items.len() - i,
    {
        proof {
            reveal_strlit(", ");
        }
        if i > 0 {
            r.append(", ");
        }
        r.append(items[i]);
        proof {
            assert(parts.take(i as int + 1).drop_last() =~= parts.take(i as int));
            assert(parts.take(i as int + 1).last() == parts[i as int]);
            assert(r@ =~= spec_join(parts.take(i as int + 1), seq![',', ' ']));
        }
        i = i + 1;
    }
    proof {
        assert(parts.take(items@.len() as int) =~= parts);
    }
    r
}

} // verus!
