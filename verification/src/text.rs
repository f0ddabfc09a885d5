//! Character-level text handling shared by every parse and rendering in the crate: ASCII classes
//! and case maps, decimal rendering and parsing in the shape `core::str::FromStr` gives the integer
//! types, and the few conversions between `&str`, `String` and a `Vec<char>` the rest builds on.
//!
//! Everything is stated over `Seq<char>`, the view of a `str`.
use vstd::prelude::*;
use vstd::std_specs::iter::IteratorSpec;

verus! {

// ---------------------------------------------------------------------------------------------
// ASCII classes and case maps
// ---------------------------------------------------------------------------------------------
/// An ASCII capital letter.
pub open spec fn is_upper(c: char) -> bool {
    'A' <= c && c <= 'Z'
}

/// An ASCII small letter.
pub open spec fn is_lower(c: char) -> bool {
    'a' <= c && c <= 'z'
}

/// An ASCII letter of either case.
pub open spec fn is_letter(c: char) -> bool {
    is_upper(c) || is_lower(c)
}

/// An ASCII decimal digit.
pub open spec fn is_digit(c: char) -> bool {
    '0' <= c && c <= '9'
}

/// An ASCII letter or digit.
pub open spec fn is_alnum(c: char) -> bool {
    is_letter(c) || is_digit(c)
}

/// The ASCII lower case of `c`; every other character maps to itself.
pub open spec fn lower_char(c: char) -> char {
    if is_upper(c) {
        ((c as u32) + 32) as char
    } else {
        c
    }
}

/// The ASCII upper case of `c`; every other character maps to itself.
pub open spec fn upper_char(c: char) -> char {
    if is_lower(c) {
        ((c as u32) - 32) as char
    } else {
        c
    }
}

/// `s` with every ASCII capital lowered and every other character left alone.
pub open spec fn lower(s: Seq<char>) -> Seq<char> {
    Seq::new(s.len(), |i: int| lower_char(s[i]))
}

/// Does `s` open with `p`?
pub open spec fn begins_with(s: Seq<char>, p: Seq<char>) -> bool {
    p.len() <= s.len() && s.subrange(0, p.len() as int) == p
}

/// `s` with every ASCII small letter raised and every other character left alone.
pub open spec fn upper(s: Seq<char>) -> Seq<char> {
    Seq::new(s.len(), |i: int| upper_char(s[i]))
}

/// Every character of `s` is an ASCII letter.
pub open spec fn all_letters(s: Seq<char>) -> bool {
    forall|i: int| 0 <= i < s.len() ==> is_letter(#[trigger] s[i])
}

/// Every character of `s` is an ASCII digit.
pub open spec fn all_digits(s: Seq<char>) -> bool {
    forall|i: int| 0 <= i < s.len() ==> is_digit(#[trigger] s[i])
}

/// Every character of `s` is an ASCII letter or digit.
pub open spec fn all_alnum(s: Seq<char>) -> bool {
    forall|i: int| 0 <= i < s.len() ==> is_alnum(#[trigger] s[i])
}

/// The position of the first character of `s` that does not satisfy `keep`, if there is one.
pub open spec fn first_outside(s: Seq<char>, keep: spec_fn(char) -> bool) -> Option<int>
    decreases s.len(),
{
    if s.len() == 0 {
        None
    } else if !keep(s[0]) {
        Some(0)
    } else {
        match first_outside(s.drop_first(), keep) {
            Some(i) => Some(i + 1),
            None => None,
        }
    }
}

/// The position of the first occurrence of `c` in `s`, if there is one.
pub open spec fn first_index(s: Seq<char>, c: char) -> Option<int>
    decreases s.len(),
{
    if s.len() == 0 {
        None
    } else if s[0] == c {
        Some(0)
    } else {
        match first_index(s.drop_first(), c) {
            Some(i) => Some(i + 1),
            None => None,
        }
    }
}

pub proof fn lemma_first_outside(s: Seq<char>, keep: spec_fn(char) -> bool)
    ensures
        match first_outside(s, keep) {
            Some(i) => 0 <= i < s.len() && !keep(s[i]) && forall|j: int|
                0 <= j < i ==> keep(#[trigger] s[j]),
            None => forall|j: int| 0 <= j < s.len() ==> keep(#[trigger] s[j]),
        },
    decreases s.len(),
{
    if s.len() > 0 {
        lemma_first_outside(s.drop_first(), keep);
        if keep(s[0]) {
            match first_outside(s.drop_first(), keep) {
                Some(i) => {
                    assert forall|j: int| 0 <= j < i + 1 implies keep(#[trigger] s[j]) by {
                        if j > 0 {
                            assert(s[j] == s.drop_first()[j - 1]);
                        }
                    }
                },
                None => {
                    assert forall|j: int| 0 <= j < s.len() implies keep(#[trigger] s[j]) by {
                        if j > 0 {
                            assert(s[j] == s.drop_first()[j - 1]);
                        }
                    }
                },
            }
        }
    }
}

pub proof fn lemma_first_index(s: Seq<char>, c: char)
    ensures
        match first_index(s, c) {
            Some(i) => 0 <= i < s.len() && s[i] == c && forall|j: int|
                0 <= j < i ==> #[trigger] s[j] != c,
            None => forall|j: int| 0 <= j < s.len() ==> #[trigger] s[j] != c,
        },
    decreases s.len(),
{
    if s.len() > 0 {
        lemma_first_index(s.drop_first(), c);
        if s[0] != c {
            match first_index(s.drop_first(), c) {
                Some(i) => {
                    assert forall|j: int| 0 <= j < i + 1 implies #[trigger] s[j] != c by {
                        if j > 0 {
                            assert(s[j] == s.drop_first()[j - 1]);
                        }
                    }
                },
                None => {
                    assert forall|j: int| 0 <= j < s.len() implies #[trigger] s[j] != c by {
                        if j > 0 {
                            assert(s[j] == s.drop_first()[j - 1]);
                        }
                    }
                },
            }
        }
    }
}

/// A position is the first occurrence exactly when everything before it differs.
pub proof fn lemma_first_index_is(s: Seq<char>, c: char, i: int)
    requires
        0 <= i < s.len(),
        s[i] == c,
        forall|j: int| 0 <= j < i ==> #[trigger] s[j] != c,
    ensures
        first_index(s, c) == Some(i),
{
    lemma_first_index(s, c);
}

/// `s` split at the first `c`: the text before it and the text after it.
pub open spec fn split_once(s: Seq<char>, c: char) -> Option<(Seq<char>, Seq<char>)> {
    match first_index(s, c) {
        Some(i) => Some((s.subrange(0, i), s.subrange(i + 1, s.len() as int))),
        None => None,
    }
}

// ---------------------------------------------------------------------------------------------
// Executable text primitives
// ---------------------------------------------------------------------------------------------
/// The characters of `s`, in order.
pub fn chars_of(s: &str) -> (r: Vec<char>)
    ensures
        r@ == s@,
{
    broadcast use vstd::string::group_string_axioms;

    let mut out: Vec<char> = Vec::new();
    let mut it = s.chars();
    loop
        invariant
            it.remaining() == s@.subrange(out@.len() as int, s@.len() as int),
            out@ == s@.subrange(0, out@.len() as int),
            out@.len() <= s@.len(),
            it.decrease() is Some,
        decreases it.decrease()->0,
    {
        let ghost before = it.remaining();
        match it.next() {
            Some(c) => {
                assert(before.len() > 0);
                out.push(c);
                assert(out@ =~= s@.subrange(0, out@.len() as int));
                assert(it.remaining() =~= s@.subrange(out@.len() as int, s@.len() as int));
            },
            None => {
                assert(out@ =~= s@);
                return out;
            },
        }
    }
}

/// Appends one character to `s`.
///
/// Wraps `String::push`, whose documentation says it appends the given `char` to the end of the
/// string; the contract states exactly that over the character view.
#[verifier::external_body]
pub(crate) fn push_char(s: &mut String, c: char)
    ensures
        final(s)@ == old(s)@.push(c),
{
    s.push(c);
}

/// Appends `t` to `s`.
pub fn push_str(s: &mut String, t: &str)
    ensures
        final(s)@ == old(s)@ + t@,
{
    s.append(t);
}

/// The text holding exactly the characters `cs`.
pub fn string_of(cs: &[char]) -> (r: String)
    ensures
        r@ == cs@,
{
    let mut out = String::new();
    let mut i: usize = 0;
    while i < cs.len()
        invariant
            i <= cs@.len(),
            out@ == cs@.subrange(0, i as int),
        decreases cs@.len() - i,
    {
        push_char(&mut out, cs[i]);
        i = i + 1;
        assert(out@ =~= cs@.subrange(0, i as int));
    }
    assert(out@ =~= cs@);
    out
}

/// Do two character sequences hold the same text?
pub fn chars_equal(a: &[char], b: &[char]) -> (r: bool)
    ensures
        r == (a@ == b@),
{
    if a.len() != b.len() {
        return false;
    }
    let mut i: usize = 0;
    while i < a.len()
        invariant
            a@.len() == b@.len(),
            i <= a@.len(),
            forall|j: int| 0 <= j < i ==> a@[j] == b@[j],
        decreases a@.len() - i,
    {
        if a[i] != b[i] {
            return false;
        }
        i = i + 1;
    }
    assert(a@ =~= b@);
    true
}

/// Do two byte sequences hold the same bytes?
pub fn bytes_equal(a: &[u8], b: &[u8]) -> (r: bool)
    ensures
        r == (a@ == b@),
{
    if a.len() != b.len() {
        return false;
    }
    let mut i: usize = 0;
    while i < a.len()
        invariant
            a@.len() == b@.len(),
            i <= a@.len(),
            forall|j: int| 0 <= j < i ==> a@[j] == b@[j],
        decreases a@.len() - i,
    {
        if a[i] != b[i] {
            return false;
        }
        i = i + 1;
    }
    assert(a@ =~= b@);
    true
}

/// Does the text `a` equal the text `b`? Compared on the UTF-8 bytes, which decide the text.
pub fn str_equal(a: &str, b: &str) -> (r: bool)
    ensures
        r == (a@ == b@),
{
    let r = bytes_equal(a.as_bytes(), b.as_bytes());
    proof {
        vstd::utf8::encode_utf8_decode_utf8(a@);
        vstd::utf8::encode_utf8_decode_utf8(b@);
    }
    r
}

/// `a` sorts no later than `b` byte by byte, a prefix sorting first.
pub open spec fn bytes_le(a: Seq<u8>, b: Seq<u8>) -> bool
    decreases a.len(),
{
    if a.len() == 0 {
        true
    } else if b.len() == 0 {
        false
    } else if a[0] != b[0] {
        a[0] < b[0]
    } else {
        bytes_le(a.drop_first(), b.drop_first())
    }
}

/// Byte-wise `a <= b`, the order `str`'s comparison uses.
pub fn bytes_at_most(a: &[u8], b: &[u8]) -> (r: bool)
    ensures
        r == bytes_le(a@, b@),
{
    let mut i: usize = 0;
    assert(a@.subrange(0, a@.len() as int) =~= a@);
    assert(b@.subrange(0, b@.len() as int) =~= b@);
    while i < a.len() && i < b.len()
        invariant
            i <= a@.len(),
            i <= b@.len(),
            bytes_le(a@, b@) == bytes_le(a@.subrange(i as int, a@.len() as int), b@.subrange(i as int, b@.len() as int)),
        decreases a@.len() - i,
    {
        if a[i] != b[i] {
            proof {
                let x = a@.subrange(i as int, a@.len() as int);
                let y = b@.subrange(i as int, b@.len() as int);
                assert(x[0] == a@[i as int]);
                assert(y[0] == b@[i as int]);
            }
            return a[i] < b[i];
        }
        proof {
            let x = a@.subrange(i as int, a@.len() as int);
            let y = b@.subrange(i as int, b@.len() as int);
            assert(x.drop_first() =~= a@.subrange(i + 1, a@.len() as int));
            assert(y.drop_first() =~= b@.subrange(i + 1, b@.len() as int));
            assert(x[0] == a@[i as int]);
            assert(y[0] == b@[i as int]);
        }
        i = i + 1;
    }
    proof {
        let x = a@.subrange(i as int, a@.len() as int);
        let y = b@.subrange(i as int, b@.len() as int);
        assert(x.len() == 0 || y.len() == 0);
    }
    i == a.len()
}

/// Does the character sequence `a` spell the text `b`?
pub fn chars_equal_str(a: &[char], b: &str) -> (r: bool)
    ensures
        r == (a@ == b@),
{
    let y = chars_of(b);
    chars_equal(a, y.as_slice())
}

/// `cs` with every ASCII capital lowered.
pub fn lower_chars(cs: &[char]) -> (r: Vec<char>)
    ensures
        r@ == lower(cs@),
{
    let mut out: Vec<char> = Vec::new();
    let mut i: usize = 0;
    while i < cs.len()
        invariant
            i <= cs@.len(),
            out@ == lower(cs@.subrange(0, i as int)),
        decreases cs@.len() - i,
    {
        let c = cs[i];
        let l = if 'A' <= c && c <= 'Z' {
            ((c as u8) + 32) as char
        } else {
            c
        };
        assert(l == lower_char(c)) by {
            if 'A' <= c && c <= 'Z' {
                assert((c as u8) as u32 == c as u32);
            }
        }
        out.push(l);
        i = i + 1;
        assert(out@ =~= lower(cs@.subrange(0, i as int)));
    }
    assert(cs@.subrange(0, cs@.len() as int) =~= cs@);
    out
}

/// `s` with its first character raised and every other lowered — Titlecase.
pub open spec fn title(s: Seq<char>) -> Seq<char> {
    Seq::new(
        s.len(),
        |i: int|
            if i == 0 {
                upper_char(s[i])
            } else {
                lower_char(s[i])
            },
    )
}

fn lower_one(c: char) -> (r: char)
    ensures
        r == lower_char(c),
{
    if 'A' <= c && c <= 'Z' {
        let r = ((c as u8) + 32) as char;
        assert((c as u8) as u32 == c as u32);
        r
    } else {
        c
    }
}

fn upper_one(c: char) -> (r: char)
    ensures
        r == upper_char(c),
{
    if 'a' <= c && c <= 'z' {
        let r = ((c as u8) - 32) as char;
        assert((c as u8) as u32 == c as u32);
        r
    } else {
        c
    }
}

/// `cs` with every ASCII small letter raised.
pub fn upper_chars(cs: &[char]) -> (r: Vec<char>)
    ensures
        r@ == upper(cs@),
{
    let mut out: Vec<char> = Vec::new();
    let mut i: usize = 0;
    while i < cs.len()
        invariant
            i <= cs@.len(),
            out@ == upper(cs@.subrange(0, i as int)),
        decreases cs@.len() - i,
    {
        out.push(upper_one(cs[i]));
        i = i + 1;
        assert(out@ =~= upper(cs@.subrange(0, i as int)));
    }
    assert(cs@.subrange(0, cs@.len() as int) =~= cs@);
    out
}

/// `cs` in Titlecase: the first character raised, the rest lowered.
pub fn title_chars(cs: &[char]) -> (r: Vec<char>)
    ensures
        r@ == title(cs@),
{
    let mut out: Vec<char> = Vec::new();
    let mut i: usize = 0;
    while i < cs.len()
        invariant
            i <= cs@.len(),
            out@ == title(cs@.subrange(0, i as int)),
        decreases cs@.len() - i,
    {
        let c = if i == 0 {
            upper_one(cs[i])
        } else {
            lower_one(cs[i])
        };
        out.push(c);
        i = i + 1;
        assert(out@ =~= title(cs@.subrange(0, i as int)));
    }
    assert(cs@.subrange(0, cs@.len() as int) =~= cs@);
    out
}

/// The position of the first character of `cs` outside `keep`, matching [`first_outside`].
fn find_outside(cs: &[char], Ghost(keep): Ghost<spec_fn(char) -> bool>, test: impl Fn(char) -> bool) -> (r: Option<usize>)
    requires
        forall|c: char| #[trigger] test.requires((c,)),
        forall|c: char, b: bool| test.ensures((c,), b) ==> b == keep(c),
    ensures
        match r {
            Some(i) => i < cs@.len() && first_outside(cs@, keep) == Some(i as int),
            None => first_outside(cs@, keep) is None,
        },
{
    proof {
        lemma_first_outside(cs@, keep);
    }
    let mut i: usize = 0;
    while i < cs.len()
        invariant
            i <= cs@.len(),
            forall|c: char| #[trigger] test.requires((c,)),
            forall|c: char, b: bool| test.ensures((c,), b) ==> b == keep(c),
            forall|j: int| 0 <= j < i ==> keep(#[trigger] cs@[j]),
        decreases cs@.len() - i,
    {
        if !test(cs[i]) {
            proof {
                lemma_first_outside(cs@, keep);
                match first_outside(cs@, keep) {
                    Some(k) => {
                        if k < i {
                            assert(keep(cs@[k]));
                        }
                    },
                    None => {},
                }
            }
            return Some(i);
        }
        i = i + 1;
    }
    None
}

/// The ASCII-letter test as a value, for [`first_outside`].
pub open spec fn letter_test() -> spec_fn(char) -> bool {
    |c: char| is_letter(c)
}

/// The ASCII-letter-or-digit test as a value, for [`first_outside`].
pub open spec fn alnum_test() -> spec_fn(char) -> bool {
    |c: char| is_alnum(c)
}

/// The first character of `s` that is not an ASCII letter.
pub open spec fn first_non_letter(s: Seq<char>) -> Option<char> {
    match first_outside(s, letter_test()) {
        Some(i) => Some(s[i]),
        None => None,
    }
}

/// The first character of `s` that is neither an ASCII letter nor an ASCII digit.
pub open spec fn first_non_alnum(s: Seq<char>) -> Option<char> {
    match first_outside(s, alnum_test()) {
        Some(i) => Some(s[i]),
        None => None,
    }
}

/// The first character of `cs` that is not an ASCII letter, or [`None`] where every one is.
pub fn non_alphabetic(cs: &[char]) -> (r: Option<char>)
    ensures
        r == first_non_letter(cs@),
        r is None <==> all_letters(cs@),
{
    proof {
        lemma_first_outside(cs@, letter_test());
    }
    match find_outside(cs, Ghost(letter_test()), is_letter_exec) {
        Some(i) => Some(cs[i]),
        None => None,
    }
}

/// The first character of `cs` that is neither an ASCII letter nor an ASCII digit, or [`None`]
/// where every one is.
pub fn non_alphanumeric(cs: &[char]) -> (r: Option<char>)
    ensures
        r == first_non_alnum(cs@),
        r is None <==> all_alnum(cs@),
{
    proof {
        lemma_first_outside(cs@, alnum_test());
    }
    match find_outside(cs, Ghost(alnum_test()), is_alnum_exec) {
        Some(i) => Some(cs[i]),
        None => None,
    }
}

/// Is every character of `cs` an ASCII digit?
pub fn all_digits_exec(cs: &[char]) -> (r: bool)
    ensures
        r == all_digits(cs@),
{
    let mut i: usize = 0;
    while i < cs.len()
        invariant
            i <= cs@.len(),
            forall|j: int| 0 <= j < i ==> is_digit(#[trigger] cs@[j]),
        decreases cs@.len() - i,
    {
        if !is_digit_exec(cs[i]) {
            return false;
        }
        i = i + 1;
    }
    true
}

/// Is `c` an ASCII letter?
pub fn is_letter_exec(c: char) -> (r: bool)
    ensures
        r == is_letter(c),
{
    ('A' <= c && c <= 'Z') || ('a' <= c && c <= 'z')
}

/// Is `c` an ASCII digit?
pub fn is_digit_exec(c: char) -> (r: bool)
    ensures
        r == is_digit(c),
{
    '0' <= c && c <= '9'
}

/// Is `c` an ASCII letter or digit?
pub fn is_alnum_exec(c: char) -> (r: bool)
    ensures
        r == is_alnum(c),
{
    is_letter_exec(c) || is_digit_exec(c)
}

/// The first position of `c` in `cs`, matching [`first_index`].
pub fn find_char(cs: &[char], c: char) -> (r: Option<usize>)
    ensures
        match r {
            Some(i) => i < cs@.len() && cs@[i as int] == c && first_index(cs@, c) == Some(i as int),
            None => first_index(cs@, c) is None,
        },
{
    proof {
        lemma_first_index(cs@, c);
    }
    let mut i: usize = 0;
    while i < cs.len()
        invariant
            i <= cs@.len(),
            forall|j: int| 0 <= j < i ==> #[trigger] cs@[j] != c,
        decreases cs@.len() - i,
    {
        if cs[i] == c {
            proof {
                lemma_first_index_is(cs@, c, i as int);
            }
            return Some(i);
        }
        i = i + 1;
    }
    None
}

/// The characters of `cs` from `from` up to `to`.
pub fn sub_chars(cs: &[char], from: usize, to: usize) -> (r: Vec<char>)
    requires
        from <= to <= cs@.len(),
    ensures
        r@ == cs@.subrange(from as int, to as int),
{
    let mut out: Vec<char> = Vec::new();
    let mut i: usize = from;
    while i < to
        invariant
            from <= i <= to <= cs@.len(),
            out@ == cs@.subrange(from as int, i as int),
        decreases to - i,
    {
        out.push(cs[i]);
        i = i + 1;
        assert(out@ =~= cs@.subrange(from as int, i as int));
    }
    out
}

// ---------------------------------------------------------------------------------------------
// Decimal numerals
// ---------------------------------------------------------------------------------------------
/// The digit character for `d < 10`.
pub open spec fn digit_char(d: nat) -> char {
    ((d + 48) as u32) as char
}

/// The value of a digit character.
pub open spec fn digit_value(c: char) -> nat {
    ((c as u32) - 48) as nat
}

/// The shortest decimal numeral for `n`: no sign and no leading zero, and `"0"` for zero.
pub open spec fn decimal(n: nat) -> Seq<char>
    decreases n,
{
    if n < 10 {
        seq![digit_char(n)]
    } else {
        decimal(n / 10).push(digit_char(n % 10))
    }
}

/// The decimal numeral for a signed `n`: `-` before the magnitude when `n` is negative.
pub open spec fn signed_decimal(n: int) -> Seq<char> {
    if n < 0 {
        seq!['-'] + decimal((-n) as nat)
    } else {
        decimal(n as nat)
    }
}

/// The value of a string of digits, read most significant first.
pub open spec fn digits_value(s: Seq<char>) -> nat
    decreases s.len(),
{
    if s.len() == 0 {
        0
    } else {
        digits_value(s.drop_last()) * 10 + digit_value(s.last())
    }
}

/// What `u32::from_str` and `i64::from_str` read as the magnitude: one or more ASCII digits.
pub open spec fn numeral(s: Seq<char>) -> Option<nat> {
    if s.len() > 0 && all_digits(s) {
        Some(digits_value(s))
    } else {
        None
    }
}

/// What `core::str::FromStr` yields for an unsigned integer type whose largest value is `max`: an
/// optional `+`, then digits, and a value that fits.
pub open spec fn parse_unsigned(s: Seq<char>, max: nat) -> Option<nat> {
    let body = if s.len() > 0 && s[0] == '+' {
        s.drop_first()
    } else {
        s
    };
    match numeral(body) {
        Some(v) => if v <= max {
            Some(v)
        } else {
            None
        },
        None => None,
    }
}

/// What `core::str::FromStr` yields for `i64`: an optional `+` or `-`, then digits, and a value
/// inside `i64`'s range.
pub open spec fn parse_i64(s: Seq<char>) -> Option<int> {
    if s.len() > 0 && s[0] == '-' {
        match numeral(s.drop_first()) {
            Some(v) => if v <= 9223372036854775808 {
                Some(-v)
            } else {
                None
            },
            None => None,
        }
    } else {
        match parse_unsigned(s, 9223372036854775807) {
            Some(v) => Some(v as int),
            None => None,
        }
    }
}

pub proof fn lemma_digit_char(k: nat)
    requires
        k < 10,
    ensures
        digit_value(digit_char(k)) == k,
        is_digit(digit_char(k)),
{
}

pub proof fn lemma_decimal_digits(n: nat)
    ensures
        decimal(n).len() > 0,
        all_digits(decimal(n)),
        digits_value(decimal(n)) == n,
        decimal(n)[0] != '+',
        decimal(n)[0] != '-',
    decreases n,
{
    lemma_digit_char(n % 10);
    if n < 10 {
        let e = seq![digit_char(n)];
        assert(e.drop_last() =~= Seq::<char>::empty());
        assert(digits_value(Seq::<char>::empty()) == 0);
        assert(e.last() == digit_char(n));
        assert(n % 10 == n);
        assert(decimal(n) == e);
    } else {
        lemma_decimal_digits(n / 10);
        let d = decimal(n / 10);
        let e = d.push(digit_char(n % 10));
        assert((n / 10) * 10 + n % 10 == n) by (nonlinear_arith);
        assert(e.drop_last() =~= d);
        assert(e.last() == digit_char(n % 10));
        assert(digits_value(e) == digits_value(d) * 10 + n % 10);
        assert(e[0] == d[0]);
        assert forall|i: int| 0 <= i < e.len() implies is_digit(#[trigger] e[i]) by {
            if i < d.len() {
                assert(e[i] == d[i]);
            }
        }
    }
}

/// A numeral's value only grows as digits are appended.
pub proof fn lemma_digits_value_prefix(s: Seq<char>, k: int)
    requires
        0 <= k <= s.len(),
    ensures
        digits_value(s.subrange(0, k)) <= digits_value(s),
    decreases s.len() - k,
{
    if k < s.len() {
        lemma_digits_value_prefix(s, k + 1);
        let p = s.subrange(0, k + 1);
        assert(p.drop_last() =~= s.subrange(0, k));
    } else {
        assert(s.subrange(0, k) =~= s);
    }
}

/// Appends the characters of `decimal(n)` to `s`.
pub fn push_decimal(s: &mut String, n: u64)
    ensures
        final(s)@ == old(s)@ + decimal(n as nat),
    decreases n,
{
    if n >= 10 {
        push_decimal(s, n / 10);
    }
    let d = n % 10;
    let c = ((d as u8) + 48) as char;
    assert(c == digit_char(d as nat));
    push_char(s, c);
    assert(s@ =~= old(s)@ + decimal(n as nat));
}

/// Appends the signed decimal numeral for `n`.
pub fn push_signed_decimal(s: &mut String, n: i64)
    ensures
        final(s)@ == old(s)@ + signed_decimal(n as int),
{
    if n < 0 {
        push_char(s, '-');
        let magnitude: u64 = if n == i64::MIN {
            9223372036854775808u64
        } else {
            (-n) as u64
        };
        push_decimal(s, magnitude);
        assert(s@ =~= old(s)@ + signed_decimal(n as int));
    } else {
        push_decimal(s, n as u64);
    }
}

/// Reads one or more ASCII digits as a value no greater than `max`; [`None`] for anything else or
/// for a value past `max`.
fn read_bounded(cs: &[char], max: u64) -> (r: Option<u64>)
    requires
        max >= 9,
    ensures
        match r {
            Some(v) => numeral(cs@) == Some(v as nat) && v <= max,
            None => numeral(cs@) is None || numeral(cs@)->0 > max,
        },
{
    if cs.len() == 0 {
        return None;
    }
    let mut acc: u64 = 0;
    let mut i: usize = 0;
    while i < cs.len()
        invariant
            i <= cs@.len(),
            max >= 9,
            acc <= max,
            acc == digits_value(cs@.subrange(0, i as int)),
            all_digits(cs@.subrange(0, i as int)),
        decreases cs@.len() - i,
    {
        let c = cs[i];
        if !('0' <= c && c <= '9') {
            return None;
        }
        assert(48 <= c as u32 <= 57);
        let d: u64 = (c as u32 - 48) as u64;
        assert(d <= 9);
        proof {
            let p = cs@.subrange(0, i as int + 1);
            assert(p.drop_last() =~= cs@.subrange(0, i as int));
            assert(p.last() == c);
        }
        if acc > (max - d) / 10 {
            proof {
                let p = cs@.subrange(0, i as int + 1);
                assert(digits_value(p) == acc * 10 + d);
                assert(acc * 10 + d > max) by (nonlinear_arith)
                    requires
                        acc > (max - d) / 10,
                        d <= 9,
                        d <= max || true,
                ;
                lemma_digits_value_prefix(cs@, i as int + 1);
            }
            return None;
        }
        assert(acc * 10 + d <= max) by (nonlinear_arith)
            requires
                acc <= (max - d) / 10,
                d <= max,
        ;
        acc = acc * 10 + d;
        i = i + 1;
        proof {
            let p = cs@.subrange(0, i as int);
            assert forall|j: int| 0 <= j < p.len() implies is_digit(#[trigger] p[j]) by {
                if j < i - 1 {
                    assert(p[j] == cs@.subrange(0, i - 1)[j]);
                }
            }
        }
    }
    assert(cs@.subrange(0, cs@.len() as int) =~= cs@);
    Some(acc)
}

/// `u32::from_str` on a character sequence.
pub fn parse_u32_chars(cs: &[char]) -> (r: Option<u32>)
    ensures
        match r {
            Some(v) => parse_unsigned(cs@, 4294967295) == Some(v as nat),
            None => parse_unsigned(cs@, 4294967295) is None,
        },
{
    let body = if cs.len() > 0 && cs[0] == '+' {
        slice_tail(cs)
    } else {
        cs
    };
    assert(cs.len() > 0 && cs@[0] == '+' ==> body@ =~= cs@.drop_first());
    match read_bounded(body, 4294967295) {
        Some(v) => Some(v as u32),
        None => None,
    }
}

/// `i64::from_str` on a character sequence.
pub fn parse_i64_chars(cs: &[char]) -> (r: Option<i64>)
    ensures
        match r {
            Some(v) => parse_i64(cs@) == Some(v as int),
            None => parse_i64(cs@) is None,
        },
{
    if cs.len() > 0 && cs[0] == '-' {
        let body = slice_tail(cs);
        assert(body@ =~= cs@.drop_first());
        match read_bounded(body, 9223372036854775808) {
            Some(v) => {
                if v == 9223372036854775808 {
                    Some(i64::MIN)
                } else {
                    Some(-(v as i64))
                }
            },
            None => None,
        }
    } else {
        let body = if cs.len() > 0 && cs[0] == '+' {
            slice_tail(cs)
        } else {
            cs
        };
        assert(cs.len() > 0 && cs@[0] == '+' ==> body@ =~= cs@.drop_first());
        match read_bounded(body, 9223372036854775807) {
            Some(v) => Some(v as i64),
            None => None,
        }
    }
}

/// All of `cs` after its first character.
fn slice_tail(cs: &[char]) -> (r: &[char])
    requires
        cs@.len() > 0,
    ensures
        r@ == cs@.drop_first(),
{
    let r = vstd::slice::slice_subrange(cs, 1, cs.len());
    assert(r@ =~= cs@.drop_first());
    r
}

/// A rendered unsigned numeral reads back as the value it renders.
pub proof fn lemma_parse_decimal(n: nat, max: nat)
    requires
        n <= max,
    ensures
        parse_unsigned(decimal(n), max) == Some(n),
{
    lemma_decimal_digits(n);
}

/// A rendered signed numeral reads back as the value it renders.
pub proof fn lemma_parse_signed_decimal(n: int)
    requires
        -9223372036854775808 <= n <= 9223372036854775807,
    ensures
        parse_i64(signed_decimal(n)) == Some(n),
{
    if n < 0 {
        lemma_decimal_digits((-n) as nat);
        assert((seq!['-'] + decimal((-n) as nat)).drop_first() =~= decimal((-n) as nat));
    } else {
        lemma_decimal_digits(n as nat);
    }
}

} // verus!
