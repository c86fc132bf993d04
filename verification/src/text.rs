//! Verified text helpers for the delimited string encodings: decimal
//! rendering of the time fields, `true`/`false` rendering of the flags,
//! list joining, delimiter counting, and slash stripping.

use vstd::prelude::*;

verus! {

/// The decimal digit character for a value below ten.
pub open spec fn digit_char(d: nat) -> char {
    if d == 0 {
        '0'
    } else if d == 1 {
        '1'
    } else if d == 2 {
        '2'
    } else if d == 3 {
        '3'
    } else if d == 4 {
        '4'
    } else if d == 5 {
        '5'
    } else if d == 6 {
        '6'
    } else if d == 7 {
        '7'
    } else if d == 8 {
        '8'
    } else {
        '9'
    }
}

/// The decimal digits of `n`, most significant first, with no sign and no
/// leading zero except for `n == 0` itself.
pub open spec fn spec_decimal_digits(n: nat) -> Seq<char>
    decreases n,
{
    if n < 10 {
        seq![digit_char(n)]
    } else {
        spec_decimal_digits(n / 10).push(digit_char(n % 10))
    }
}

/// The decimal rendering of a signed value: a minus sign before the digits
/// of the magnitude when the value is negative.
pub open spec fn spec_int_string(v: int) -> Seq<char> {
    if v < 0 {
        seq!['-'] + spec_decimal_digits((-v) as nat)
    } else {
        spec_decimal_digits(v as nat)
    }
}

/// The rendering of a boolean flag, as std's `Display` for `bool` writes it.
pub open spec fn spec_bool_string(b: bool) -> Seq<char> {
    if b {
        seq!['t', 'r', 'u', 'e']
    } else {
        seq!['f', 'a', 'l', 's', 'e']
    }
}

/// Relies on String::push: it appends the given character to the end of the
/// string and changes nothing else.
#[verifier::external_body]
fn push_char(s: &mut String, c: char)
    ensures
        final(s)@ == old(s)@.push(c),
{
    s.push(c);
}

/// Append the digit character for `d` to `s`.
fn push_digit(s: &mut String, d: u64)
    requires
        d < 10,
    ensures
        final(s)@ == old(s)@.push(digit_char(d as nat)),
{
    let c: char = if d == 0 {
        '0'
    } else if d == 1 {
        '1'
    } else if d == 2 {
        '2'
    } else if d == 3 {
        '3'
    } else if d == 4 {
        '4'
    } else if d == 5 {
        '5'
    } else if d == 6 {
        '6'
    } else if d == 7 {
        '7'
    } else if d == 8 {
        '8'
    } else {
        '9'
    };
    push_char(s, c);
}

/// The decimal rendering of an unsigned value.
pub fn u64_to_string(n: u64) -> (s: String)
    ensures
        s@ == spec_decimal_digits(n as nat),
    decreases n,
{
    if n < 10 {
        let mut s = String::new();
        push_digit(&mut s, n);
        proof {
            assert(s@ =~= spec_decimal_digits(n as nat));
        }
        s
    } else {
        proof {
            assert(n / 10 < n) by (nonlinear_arith)
                requires
                    10 <= n,
            ;
        }
        let mut s = u64_to_string(n / 10);
        push_digit(&mut s, n % 10);
        proof {
            assert(s@ =~= spec_decimal_digits(n as nat));
        }
        s
    }
}

/// The decimal rendering of a signed value, a leading minus sign included.
pub fn i64_to_string(v: i64) -> (s: String)
    ensures
        s@ == spec_int_string(v as int),
{
    if v >= 0 {
        let s = u64_to_string(v as u64);
        s
    } else {
        let mag: u64 = ((-(v + 1)) as u64) + 1;
        proof {
            assert(mag as int == -(v as int));
        }
        let mut s = String::from_str("-");
        let digits = u64_to_string(mag);
        s.append(digits.as_str());
        proof {
            reveal_strlit("-");
            assert(s@ =~= spec_int_string(v as int));
        }
        s
    }
}

/// The rendering of a boolean flag.
pub fn bool_to_string(b: bool) -> (s: String)
    ensures
        s@ == spec_bool_string(b),
{
    proof {
        reveal_strlit("true");
        reveal_strlit("false");
    }
    if b {
        let s = String::from_str("true");
        proof {
            assert(s@ =~= spec_bool_string(b));
        }
        s
    } else {
        let s = String::from_str("false");
        proof {
            assert(s@ =~= spec_bool_string(b));
        }
        s
    }
}

/// How many commas a character sequence holds. The delimited encodings end
/// every field with a comma, so this is also their field count.
pub open spec fn spec_comma_count(s: Seq<char>) -> nat
    decreases s.len(),
{
    if s.len() == 0 {
        0
    } else {
        spec_comma_count(s.drop_last()) + (if s.last() == ',' {
            1nat
        } else {
            0nat
        })
    }
}

/// Comma counting distributes over concatenation.
pub proof fn lemma_comma_count_append(a: Seq<char>, b: Seq<char>)
    ensures
        spec_comma_count(a + b) == spec_comma_count(a) + spec_comma_count(b),
    decreases b.len(),
{
    if b.len() == 0 {
        assert(a + b =~= a);
    } else {
        lemma_comma_count_append(a, b.drop_last());
        assert((a + b).drop_last() =~= a + b.drop_last());
        assert((a + b).last() == b.last());
    }
}

/// A decimal digit string holds no comma.
pub proof fn lemma_decimal_digits_comma_free(n: nat)
    ensures
        spec_comma_count(spec_decimal_digits(n)) == 0,
    decreases n,
{
    reveal_with_fuel(spec_comma_count, 2);
    if n < 10 {
        assert(spec_decimal_digits(n).drop_last() =~= Seq::<char>::empty());
    } else {
        lemma_decimal_digits_comma_free(n / 10);
        assert(spec_decimal_digits(n).drop_last() =~= spec_decimal_digits(n / 10));
    }
}

/// The rendering of a signed value holds no comma.
pub proof fn lemma_int_string_comma_free(v: int)
    ensures
        spec_comma_count(spec_int_string(v)) == 0,
{
    reveal_with_fuel(spec_comma_count, 2);
    if v < 0 {
        lemma_decimal_digits_comma_free((-v) as nat);
        lemma_comma_count_append(seq!['-'], spec_decimal_digits((-v) as nat));
        assert(seq!['-'].drop_last() =~= Seq::<char>::empty());
    } else {
        lemma_decimal_digits_comma_free(v as nat);
    }
}

/// The rendering of a boolean holds no comma.
pub proof fn lemma_bool_string_comma_free(b: bool)
    ensures
        spec_comma_count(spec_bool_string(b)) == 0,
{
    reveal_with_fuel(spec_comma_count, 6);
    if b {
        assert(seq!['t', 'r', 'u', 'e'].drop_last() =~= seq!['t', 'r', 'u']);
        assert(seq!['t', 'r', 'u'].drop_last() =~= seq!['t', 'r']);
        assert(seq!['t', 'r'].drop_last() =~= seq!['t']);
        assert(seq!['t'].drop_last() =~= Seq::<char>::empty());
    } else {
        assert(seq!['f', 'a', 'l', 's', 'e'].drop_last() =~= seq!['f', 'a', 'l', 's']);
        assert(seq!['f', 'a', 'l', 's'].drop_last() =~= seq!['f', 'a', 'l']);
        assert(seq!['f', 'a', 'l'].drop_last() =~= seq!['f', 'a']);
        assert(seq!['f', 'a'].drop_last() =~= seq!['f']);
        assert(seq!['f'].drop_last() =~= Seq::<char>::empty());
    }
}

/// Count the commas of a string: the field count of the delimited encodings,
/// whose every field ends with a comma.
pub fn count_commas(s: &str) -> (n: usize)
    ensures
        n as nat == spec_comma_count(s@),
{
    let len = s.unicode_len();
    let mut n: usize = 0;
    let mut i: usize = 0;
    while i < len
        invariant
            i <= len,
            len == s@.len(),
            n <= i,
            n as nat == spec_comma_count(s@.subrange(0, i as int)),
        decreases len - i,
    {
        let c = s.get_char(i);
        proof {
            assert(s@.subrange(0, i as int + 1).drop_last() =~= s@.subrange(0, i as int));
            assert(s@.subrange(0, i as int + 1).last() == s@[i as int]);
        }
        if c == ',' {
            n = n + 1;
        }
        i = i + 1;
    }
    proof {
        assert(s@.subrange(0, len as int) =~= s@);
    }
    n
}

/// The parts joined by the separator, in order, with the separator between
/// neighbouring parts only.
pub open spec fn spec_join(parts: Seq<Seq<char>>, sep: Seq<char>) -> Seq<char>
    decreases parts.len(),
{
    if parts.len() == 0 {
        Seq::empty()
    } else if parts.len() == 1 {
        parts.last()
    } else {
        spec_join(parts.drop_last(), sep) + sep + parts.last()
    }
}

/// The sequence with every `'/'` removed and everything else kept in order.
pub open spec fn spec_without_slashes(s: Seq<char>) -> Seq<char>
    decreases s.len(),
{
    if s.len() == 0 {
        Seq::empty()
    } else if s.last() == '/' {
        spec_without_slashes(s.drop_last())
    } else {
        spec_without_slashes(s.drop_last()).push(s.last())
    }
}

/// Copy a string, leaving every `'/'` out.
pub fn remove_slashes(s: &str) -> (r: String)
    ensures
        r@ == spec_without_slashes(s@),
{
    let len = s.unicode_len();
    let mut r = String::new();
    let mut i: usize = 0;
    while i < len
        invariant
            i <= len,
            len == s@.len(),
            r@ == spec_without_slashes(s@.subrange(0, i as int)),
        decreases len - i,
    {
        let c = s.get_char(i);
        proof {
            assert(s@.subrange(0, i as int + 1).drop_last() =~= s@.subrange(0, i as int));
            assert(s@.subrange(0, i as int + 1).last() == s@[i as int]);
        }
        if c != '/' {
            push_char(&mut r, c);
        }
        i = i + 1;
    }
    proof {
        assert(s@.subrange(0, len as int) =~= s@);
    }
    r
}

} // verus!
