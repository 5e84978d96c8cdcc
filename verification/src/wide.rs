//! The wide-string codec: text library names become the native wide,
//! null-terminated encoding that the dynamic loader expects.
//!
//! The buffer has the platform's fixed path capacity of 260 units, so at
//! most 259 code units of the name are kept, and unit 259 is always the
//! terminator.

use vstd::prelude::*;
use vstd::utf8::char_is_scalar;

verus! {

/// The platform's fixed path capacity, in wide units.
pub const WIDE_PATH_CAPACITY: usize = 260;

/// The UTF-16 code units of one character: one unit below 0x10000, and a
/// surrogate pair above it.
pub open spec fn utf16_units_of_char(c: char) -> Seq<u16> {
    let v = c as u32;
    if v < 0x10000 {
        seq![v as u16]
    } else {
        seq![
            (0xD800 + (v - 0x10000) / 0x400) as u16,
            (0xDC00 + (v - 0x10000) % 0x400) as u16,
        ]
    }
}

/// The UTF-16 code units of a whole string.
pub open spec fn utf16_units(s: Seq<char>) -> Seq<u16>
    decreases s.len(),
{
    if s.len() == 0 {
        Seq::empty()
    } else {
        utf16_units_of_char(s[0]) + utf16_units(s.drop_first())
    }
}

/// The encoded buffer: the string's UTF-16 units, cut off after 259 units,
/// padded with zero units to exactly 260.
pub open spec fn wide_null_spec(s: Seq<char>) -> Seq<u16> {
    let units = utf16_units(s);
    let kept = if units.len() <= 259 {
        units
    } else {
        units.subrange(0, 259)
    };
    kept + Seq::new((260 - kept.len()) as nat, |i: int| 0u16)
}

proof fn lemma_utf16_units_push(s: Seq<char>, c: char)
    ensures
        utf16_units(s.push(c)) == utf16_units(s) + utf16_units_of_char(c),
    decreases s.len(),
{
    assert(utf16_units(s.push(c)) == utf16_units_of_char(s.push(c)[0]) + utf16_units(
        s.push(c).drop_first(),
    ));
    if s.len() == 0 {
        assert(s.push(c).drop_first() =~= Seq::<char>::empty());
        assert(s.push(c)[0] == c);
        assert(utf16_units(s.push(c).drop_first()) =~= Seq::<u16>::empty());
        assert(utf16_units_of_char(c) + Seq::<u16>::empty() =~= utf16_units_of_char(c));
        assert(utf16_units(s) =~= Seq::<u16>::empty());
        assert(utf16_units(s) + utf16_units_of_char(c) =~= utf16_units_of_char(c));
    } else {
        assert(s.push(c)[0] == s[0]);
        assert(s.push(c).drop_first() =~= s.drop_first().push(c));
        lemma_utf16_units_push(s.drop_first(), c);
        assert(utf16_units(s.push(c)) == utf16_units_of_char(s[0]) + (utf16_units(s.drop_first())
            + utf16_units_of_char(c)));
        assert(utf16_units_of_char(s[0]) + (utf16_units(s.drop_first()) + utf16_units_of_char(c))
            =~= (utf16_units_of_char(s[0]) + utf16_units(s.drop_first())) + utf16_units_of_char(c));
        assert(utf16_units(s) == utf16_units_of_char(s[0]) + utf16_units(s.drop_first()));
    }
}

/// Converts a text library name into the native wide, null-terminated
/// encoding: the name's UTF-16 units, cut off after 259 units, then zero
/// units up to the fixed capacity of 260.
pub fn wide_null(s: &str) -> (out: Vec<u16>)
    ensures
        out@ == wide_null_spec(s@),
        out@.len() == 260,
{
    let n: usize = s.unicode_len();
    let mut units: Vec<u16> = Vec::new();
    let mut i: usize = 0;
    while i < n
        invariant
            i <= n,
            n == s@.len(),
            units@ == utf16_units(s@.subrange(0, i as int)),
        decreases n - i,
    {
        let c: char = s.get_char(i);
        proof {
            char_is_scalar(c);
            assert(s@.subrange(0, i as int + 1) =~= s@.subrange(0, i as int).push(s@[i as int]));
            lemma_utf16_units_push(s@.subrange(0, i as int), s@[i as int]);
        }
        let v: u32 = c as u32;
        if v < 0x10000 {
            units.push(v as u16);
            assert(units@ =~= utf16_units(s@.subrange(0, i as int + 1)));
        } else {
            let rest: u32 = v - 0x10000;
            units.push((0xD800 + rest / 0x400) as u16);
            units.push(0xDC00 + (rest % 0x400) as u16);
            assert(units@ =~= utf16_units(s@.subrange(0, i as int + 1)));
        }
        i = i + 1;
    }
    proof {
        assert(s@.subrange(0, n as int) =~= s@);
    }
    let keep: usize = if units.len() <= 259 {
        units.len()
    } else {
        259
    };
    let mut out: Vec<u16> = Vec::new();
    let mut j: usize = 0;
    while j < keep
        invariant
            j <= keep,
            keep <= units@.len(),
            keep <= 259,
            out@ == units@.subrange(0, j as int),
        decreases keep - j,
    {
        out.push(units[j]);
        proof {
            assert(out@ =~= units@.subrange(0, j as int + 1));
        }
        j = j + 1;
    }
    proof {
        assert(forall|k: int| 0 <= k < keep ==> out@[k] == units@[k]);
    }
    while out.len() < 260
        invariant
            keep <= out@.len() <= 260,
            keep <= units@.len(),
            keep <= 259,
            forall|k: int| 0 <= k < keep ==> out@[k] == units@[k],
            forall|k: int| keep <= k < out@.len() ==> out@[k] == 0u16,
        decreases 260 - out@.len(),
    {
        out.push(0);
    }
    proof {
        let spec_out = wide_null_spec(s@);
        assert(units@ == utf16_units(s@));
        assert(spec_out.len() == 260);
        assert forall|k: int| 0 <= k < 260 implies out@[k] == spec_out[k] by {
            if k < keep {
                assert(out@[k] == units@[k]);
            }
        }
        assert(out@ =~= spec_out);
    }
    out
}

} // verus!
