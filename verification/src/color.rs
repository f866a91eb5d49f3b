//! Deterministic color derivation.
//!
//! A string is hashed with a fixed shift-xor hash and the hash picks one of
//! twelve (background, foreground) pairs from the palette the destination
//! platform supports. The derivation depends on the characters of the input
//! alone, so the same project or host name is styled the same way on every
//! request and across restarts.

use vstd::prelude::*;

verus! {

/// Number of (background, foreground) pairs in the palette.
pub const PALETTE_LEN: u64 = 12;

/// One hashing step: fold character `c` into accumulator `h`.
pub open spec fn spec_hash_step(h: u64, c: char) -> u64 {
    (h << 5) ^ (h >> 59) ^ (c as u64)
}

/// Hash of a whole character sequence, folded left to right from a fixed seed.
pub open spec fn spec_hash64(s: Seq<char>) -> u64
    decreases s.len(),
{
    if s.len() == 0 {
        0x9e3779b97f4a7c15
    } else {
        spec_hash_step(spec_hash64(s.drop_last()), s.last())
    }
}

/// Palette index chosen for a string.
pub open spec fn spec_color_index(s: Seq<char>) -> int {
    spec_hash64(s) as int % PALETTE_LEN as int
}

/// Background style at palette index `i`.
pub open spec fn spec_palette_bg(i: int) -> Seq<char> {
    if i == 0 {
        "red-50"@
    } else if i == 1 {
        "orange-50"@
    } else if i == 2 {
        "yellow-50"@
    } else if i == 3 {
        "green-50"@
    } else if i == 4 {
        "blue-50"@
    } else if i == 5 {
        "purple-50"@
    } else if i == 6 {
        "carmine-50"@
    } else if i == 7 {
        "violet-50"@
    } else if i == 8 {
        "indigo-50"@
    } else if i == 9 {
        "wathet-50"@
    } else if i == 10 {
        "turquoise-50"@
    } else {
        "lime-50"@
    }
}

/// Foreground color at palette index `i`.
pub open spec fn spec_palette_fg(i: int) -> Seq<char> {
    if i == 0 {
        "red"@
    } else if i == 1 {
        "orange"@
    } else if i == 2 {
        "yellow"@
    } else if i == 3 {
        "green"@
    } else if i == 4 {
        "blue"@
    } else if i == 5 {
        "purple"@
    } else if i == 6 {
        "carmine"@
    } else if i == 7 {
        "violet"@
    } else if i == 8 {
        "indigo"@
    } else if i == 9 {
        "wathet"@
    } else if i == 10 {
        "turquoise"@
    } else {
        "lime"@
    }
}

/// The (background, foreground) pair derived for a string.
pub open spec fn spec_color_for(s: Seq<char>) -> (Seq<char>, Seq<char>) {
    (spec_palette_bg(spec_color_index(s)), spec_palette_fg(spec_color_index(s)))
}

/// Background style of the palette entry `i`; callers pass `i < 12`.
fn palette_bg(i: u64) -> (r: &'static str)
    requires
        0 <= i < PALETTE_LEN,
    ensures
        r@ == spec_palette_bg(i as int),
{
    if i == 0 {
        "red-50"
    } else if i == 1 {
        "orange-50"
    } else if i == 2 {
        "yellow-50"
    } else if i == 3 {
        "green-50"
    } else if i == 4 {
        "blue-50"
    } else if i == 5 {
        "purple-50"
    } else if i == 6 {
        "carmine-50"
    } else if i == 7 {
        "violet-50"
    } else if i == 8 {
        "indigo-50"
    } else if i == 9 {
        "wathet-50"
    } else if i == 10 {
        "turquoise-50"
    } else {
        "lime-50"
    }
}

/// Foreground color of the palette entry `i`; callers pass `i < 12`.
fn palette_fg(i: u64) -> (r: &'static str)
    requires
        0 <= i < PALETTE_LEN,
    ensures
        r@ == spec_palette_fg(i as int),
{
    if i == 0 {
        "red"
    } else if i == 1 {
        "orange"
    } else if i == 2 {
        "yellow"
    } else if i == 3 {
        "green"
    } else if i == 4 {
        "blue"
    } else if i == 5 {
        "purple"
    } else if i == 6 {
        "carmine"
    } else if i == 7 {
        "violet"
    } else if i == 8 {
        "indigo"
    } else if i == 9 {
        "wathet"
    } else if i == 10 {
        "turquoise"
    } else {
        "lime"
    }
}

/// Hash the characters of `text` left to right.
pub fn hash64(text: &str) -> (h: u64)
    ensures
        h == spec_hash64(text@),
{
    let len = text.unicode_len();
    let mut h: u64 = 0x9e3779b97f4a7c15;
    assert(text@.subrange(0, 0) =~= Seq::<char>::empty());
    for i in 0..len
        invariant
            len == text@.len(),
            h == spec_hash64(text@.subrange(0, i as int)),
    {
        let c = text.get_char(i);
        proof {
            let pre = text@.subrange(0, i + 1);
            assert(pre.drop_last() =~= text@.subrange(0, i as int));
            assert(pre.last() == text@[i as int]);
        }
        h = (h << 5u64) ^ (h >> 59u64) ^ (c as u64);
    }
    proof {
        assert(text@.subrange(0, text@.len() as int) =~= text@);
    }
    h
}

/// Derive the (background, foreground) style pair for a string.
///
/// The pair is a function of the characters of `text` alone: no time,
/// process identity or randomness enters, so repeated calls agree.
pub fn hash_to_color(text: &str) -> (r: (String, String))
    ensures
        r.0@ == spec_color_for(text@).0,
        r.1@ == spec_color_for(text@).1,
{
    let h = hash64(text);
    let i = h % PALETTE_LEN;
    (String::from_str(palette_bg(i)), String::from_str(palette_fg(i)))
}

/// Color derivation is pure: the pair derived for a string is a single
/// well-defined value, drawn from the twelve-entry palette, for every input
/// including the empty string.
pub proof fn lemma_color_for_pure(s: Seq<char>)
    ensures
        spec_color_for(s) == spec_color_for(s),
        exists|i: int|
            0 <= i < PALETTE_LEN && spec_color_for(s) == (
                spec_palette_bg(i),
                spec_palette_fg(i),
            ),
{
    let i = spec_color_index(s);
    assert(0 <= i < PALETTE_LEN as int);
    assert(spec_color_for(s) == (spec_palette_bg(i), spec_palette_fg(i)));
}

} // verus!
