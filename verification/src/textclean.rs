//! The downstream text-cleanup stage: pure string transformations applied
//! in fixed order to recognized text.
//!
//! First every run of whitespace collapses to a single space (so a line
//! break survives as one space), then isolated vertical-bar glyphs — a
//! common recognition artifact — are stripped, and last a word broken by a
//! trailing hyphen and the following (collapsed) line break is rejoined.

use vstd::prelude::*;
use crate::strutil::{chars_to_string, is_space, is_space_char, str_chars};

verus! {

/// An ASCII letter or digit: what can continue a hyphen-broken word.
pub open spec fn is_word_char(c: char) -> bool {
    (97 <= c as u32 && c as u32 <= 122) || (65 <= c as u32 && c as u32 <= 90) || (48 <= c as u32
        && c as u32 <= 57)
}

/// Whether `c` is an ASCII letter or digit.
pub fn word_char(c: char) -> (r: bool)
    ensures
        r == is_word_char(c),
{
    let code = c as u32;
    (97 <= code && code <= 122) || (65 <= code && code <= 90) || (48 <= code && code <= 57)
}

/// The rest of the whitespace collapse from position `i` on, where
/// `prev_space` says whether the character last emitted was the space of a
/// whitespace run.
pub open spec fn collapse_from(s: Seq<char>, i: int, prev_space: bool) -> Seq<char>
    decreases s.len() - i,
{
    if i < 0 || i >= s.len() {
        Seq::empty()
    } else if is_space_char(s[i]) {
        if prev_space {
            collapse_from(s, i + 1, true)
        } else {
            seq![' '] + collapse_from(s, i + 1, true)
        }
    } else {
        seq![s[i]] + collapse_from(s, i + 1, false)
    }
}

/// Every run of whitespace collapsed to a single space.
pub open spec fn spec_collapse(s: Seq<char>) -> Seq<char> {
    collapse_from(s, 0, false)
}

/// A vertical bar standing alone: at a run boundary on both sides.
pub open spec fn isolated_bar(s: Seq<char>, i: int) -> bool {
    &&& s[i] == '|'
    &&& (i == 0 || s[i - 1] == ' ')
    &&& (i + 1 == s.len() || s[i + 1] == ' ')
}

/// The rest of the bar strip from position `i` on: an isolated bar is
/// dropped together with the space that follows it, so no double space is
/// left behind.
pub open spec fn strip_from(s: Seq<char>, i: int) -> Seq<char>
    decreases s.len() - i,
{
    if i < 0 || i >= s.len() {
        Seq::empty()
    } else if isolated_bar(s, i) {
        if i + 1 < s.len() && s[i + 1] == ' ' {
            strip_from(s, i + 2)
        } else {
            strip_from(s, i + 1)
        }
    } else {
        seq![s[i]] + strip_from(s, i + 1)
    }
}

/// Isolated vertical-bar glyphs stripped.
pub open spec fn spec_strip_bars(s: Seq<char>) -> Seq<char> {
    strip_from(s, 0)
}

/// A hyphen that breaks a word across a (collapsed) line break: a word
/// character before it, a single space after it, and the word's
/// continuation after that.
pub open spec fn broken_word_hyphen(s: Seq<char>, i: int) -> bool {
    &&& s[i] == '-'
    &&& i > 0
    &&& is_word_char(s[i - 1])
    &&& i + 2 < s.len()
    &&& s[i + 1] == ' '
    &&& is_word_char(s[i + 2])
}

/// The rest of the hyphen rejoin from position `i` on: the hyphen and the
/// space after it are dropped, fusing the word's two halves.
pub open spec fn rejoin_from(s: Seq<char>, i: int) -> Seq<char>
    decreases s.len() - i,
{
    if i < 0 || i >= s.len() {
        Seq::empty()
    } else if broken_word_hyphen(s, i) {
        rejoin_from(s, i + 2)
    } else {
        seq![s[i]] + rejoin_from(s, i + 1)
    }
}

/// Hyphen-broken words rejoined.
pub open spec fn spec_rejoin_hyphens(s: Seq<char>) -> Seq<char> {
    rejoin_from(s, 0)
}

/// The default cleanup: collapse whitespace runs, strip isolated vertical
/// bars, rejoin hyphen-broken words, in that order.
pub open spec fn spec_clean_text(s: Seq<char>) -> Seq<char> {
    spec_rejoin_hyphens(spec_strip_bars(spec_collapse(s)))
}

/// Collapses every run of whitespace to a single space.
pub fn collapse_whitespace(v: &Vec<char>) -> (r: Vec<char>)
    ensures
        r@ == spec_collapse(v@),
{
    let n = v.len();
    let mut out: Vec<char> = Vec::new();
    let mut prev_space = false;
    let mut i: usize = 0;
    while i < n
        invariant
            i <= n,
            n == v@.len(),
            spec_collapse(v@) == out@ + collapse_from(v@, i as int, prev_space),
        decreases n - i,
    {
        let c = v[i];
        if is_space(c) {
            if !prev_space {
                out.push(' ');
                assert(out@ + collapse_from(v@, i + 1, true) =~= out@.drop_last() + (seq![' ']
                    + collapse_from(v@, i + 1, true)));
            }
            prev_space = true;
        } else {
            out.push(c);
            assert(out@ + collapse_from(v@, i + 1, false) =~= out@.drop_last() + (seq![v@[i as int]]
                + collapse_from(v@, i + 1, false)));
            prev_space = false;
        }
        i = i + 1;
    }
    assert(collapse_from(v@, i as int, prev_space) =~= Seq::empty());
    assert(out@ + Seq::<char>::empty() =~= out@);
    out
}

/// Strips isolated vertical-bar glyphs, each with the space that follows
/// it.
pub fn strip_bars(v: &Vec<char>) -> (r: Vec<char>)
    ensures
        r@ == spec_strip_bars(v@),
{
    let n = v.len();
    let mut out: Vec<char> = Vec::new();
    let mut i: usize = 0;
    while i < n
        invariant
            i <= n,
            n == v@.len(),
            spec_strip_bars(v@) == out@ + strip_from(v@, i as int),
        decreases n - i,
    {
        let c = v[i];
        let alone = c == '|' && (i == 0 || v[i - 1] == ' ') && (i + 1 == n || v[i + 1] == ' ');
        if alone {
            assert(isolated_bar(v@, i as int));
            if i + 1 < n && v[i + 1] == ' ' {
                i = i + 2;
            } else {
                i = i + 1;
            }
        } else {
            assert(!isolated_bar(v@, i as int));
            out.push(c);
            assert(out@ + strip_from(v@, i + 1) =~= out@.drop_last() + (seq![v@[i as int]]
                + strip_from(v@, i + 1)));
            i = i + 1;
        }
    }
    assert(strip_from(v@, i as int) =~= Seq::empty());
    assert(out@ + Seq::<char>::empty() =~= out@);
    out
}

/// Rejoins words broken by a trailing hyphen and a collapsed line break.
pub fn rejoin_hyphens(v: &Vec<char>) -> (r: Vec<char>)
    ensures
        r@ == spec_rejoin_hyphens(v@),
{
    let n = v.len();
    let mut out: Vec<char> = Vec::new();
    let mut i: usize = 0;
    while i < n
        invariant
            i <= n,
            n == v@.len(),
            spec_rejoin_hyphens(v@) == out@ + rejoin_from(v@, i as int),
        decreases n - i,
    {
        let c = v[i];
        let broken = c == '-' && i > 0 && word_char(v[i - 1]) && n - i > 2 && v[i + 1] == ' '
            && word_char(v[i + 2]);
        if broken {
            assert(broken_word_hyphen(v@, i as int));
            i = i + 2;
        } else {
            assert(!broken_word_hyphen(v@, i as int));
            out.push(c);
            assert(out@ + rejoin_from(v@, i + 1) =~= out@.drop_last() + (seq![v@[i as int]]
                + rejoin_from(v@, i + 1)));
            i = i + 1;
        }
    }
    assert(rejoin_from(v@, i as int) =~= Seq::empty());
    assert(out@ + Seq::<char>::empty() =~= out@);
    out
}

/// Applies the default cleanup rules to recognized text: whitespace runs
/// collapse to single spaces, isolated vertical bars are stripped, and
/// hyphen-broken words are rejoined, in that order.
pub fn clean_text(s: &str) -> (r: String)
    ensures
        r@ == spec_clean_text(s@),
{
    let chars = str_chars(s);
    let collapsed = collapse_whitespace(&chars);
    let stripped = strip_bars(&collapsed);
    let rejoined = rejoin_hyphens(&stripped);
    chars_to_string(&rejoined)
}

} // verus!
