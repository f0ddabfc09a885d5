//! The order texts and the seats built from them compare by: character by character, by code
//! point, a text before every text it is a prefix of — the order `str` compares in, since UTF-8
//! keeps code-point order — and an absent seat before a present one.
use vstd::prelude::*;
use core::cmp::Ordering;
use crate::text::chars_of;

verus! {

/// The order of two texts: the first differing character decides, by code point, and where one
/// text runs out first it comes first.
pub open spec fn text_order(a: Seq<char>, b: Seq<char>) -> Ordering
    decreases a.len(),
{
    if a.len() == 0 {
        if b.len() == 0 {
            Ordering::Equal
        } else {
            Ordering::Less
        }
    } else if b.len() == 0 {
        Ordering::Greater
    } else if a[0] < b[0] {
        Ordering::Less
    } else if b[0] < a[0] {
        Ordering::Greater
    } else {
        text_order(a.drop_first(), b.drop_first())
    }
}

/// The order of two optional texts: absent before present, two present ones by [`text_order`].
pub open spec fn seat_order(a: Option<Seq<char>>, b: Option<Seq<char>>) -> Ordering {
    match (a, b) {
        (None, None) => Ordering::Equal,
        (None, Some(_)) => Ordering::Less,
        (Some(_), None) => Ordering::Greater,
        (Some(x), Some(y)) => text_order(x, y),
    }
}

/// The first order, unless it calls the two equal, and then the second.
pub open spec fn lexicographic(first: Ordering, second: Ordering) -> Ordering {
    match first {
        Ordering::Equal => second,
        _ => first,
    }
}

/// What is left of `s` from position `i` on.
pub open spec fn suffix(s: Seq<char>, i: usize) -> Seq<char> {
    s.subrange(i as int, s.len() as int)
}

/// The character of `s` at position `i`.
pub open spec fn char_at(s: Seq<char>, i: usize) -> char {
    s[i as int]
}

/// A suffix that is not empty opens with the character at its position, and what follows it is
/// the next suffix.
proof fn lemma_suffix_step(s: Seq<char>, i: usize)
    requires
        i < s.len(),
        i + 1 <= usize::MAX,
    ensures
        suffix(s, i).len() > 0,
        suffix(s, i)[0] == char_at(s, i),
        suffix(s, i).drop_first() == suffix(s, (i + 1) as usize),
{
    assert(suffix(s, i).drop_first() =~= suffix(s, (i + 1) as usize));
}

/// The whole of `s` is its suffix from position zero.
proof fn lemma_suffix_whole(s: Seq<char>)
    ensures
        suffix(s, 0) == s,
{
    assert(suffix(s, 0) =~= s);
}

/// Compares two texts in [`text_order`].
pub fn compare_text(a: &str, b: &str) -> (r: Ordering)
    ensures
        r == text_order(a@, b@),
{
    let x = chars_of(a);
    let y = chars_of(b);
    let mut i: usize = 0;
    proof {
        lemma_suffix_whole(x@);
        lemma_suffix_whole(y@);
    }
    while i < x.len() && i < y.len()
        invariant
            i <= x@.len(),
            i <= y@.len(),
            x@ == a@,
            y@ == b@,
            text_order(a@, b@) == text_order(suffix(x@, i), suffix(y@, i)),
        decreases x@.len() - i,
    {
        proof {
            lemma_suffix_step(x@, i);
            lemma_suffix_step(y@, i);
        }
        if x[i] < y[i] {
            return Ordering::Less;
        }
        if y[i] < x[i] {
            return Ordering::Greater;
        }
        i = i + 1;
    }
    if i < x.len() {
        Ordering::Greater
    } else if i < y.len() {
        Ordering::Less
    } else {
        Ordering::Equal
    }
}

/// Compares two optional texts in [`seat_order`].
pub fn compare_seat(a: Option<&str>, b: Option<&str>) -> (r: Ordering)
    ensures
        r == seat_order(
            match a {
                Some(x) => Some(x@),
                None => None,
            },
            match b {
                Some(y) => Some(y@),
                None => None,
            },
        ),
{
    match (a, b) {
        (None, None) => Ordering::Equal,
        (None, Some(_)) => Ordering::Less,
        (Some(_), None) => Ordering::Greater,
        (Some(x), Some(y)) => compare_text(x, y),
    }
}

/// Combines two orders as [`lexicographic`] does.
pub fn lexicographic_exec(first: Ordering, second: Ordering) -> (r: Ordering)
    ensures
        r == lexicographic(first, second),
{
    match first {
        Ordering::Equal => second,
        _ => first,
    }
}

} // verus!
