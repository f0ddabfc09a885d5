//! The shared parse error of the crate's closed vocabulary and geometry types, the case axis every
//! vocabulary parse declares, and the ASCII case fold the insensitive half of that axis matches
//! through.
//!
//! Folding is ASCII-only: these are FFmpeg / H.273 / file-extension identifiers, and Unicode case
//! folding is locale-sensitive in ways a wire vocabulary must not be.
//!
//! The vocabularies' own parse tables are modelled here too, as a [`Term`]: a value is either the
//! roster member at some index, or a name the roster does not carry, held in its folded spelling.
use vstd::prelude::*;
use vstd::string::StringSliceAdditionalSpecFns;
use crate::text::{lower, upper, is_upper, is_lower, chars_of, lower_chars, chars_equal_str};

verus! {

/// Why a spelling was refused. The three reasons are a diagnostic detail rather than a
/// classification callers branch on.
#[derive(Debug, Clone, Copy, PartialEq, Eq, Hash, Structural)]
pub enum Kind {
    /// Not one of the vocabulary's canonical slugs.
    Unrecognised,
    /// Not the type's textual shape at all.
    Malformed,
    /// Parsed structurally, but outside the type's invariant.
    OutOfRange,
}

impl Kind {
    /// The words the rendering of a refusal uses for this reason.
    pub open spec fn spec_words(self) -> Seq<char> {
        match self {
            Kind::Unrecognised => "unrecognised value"@,
            Kind::Malformed => "malformed"@,
            Kind::OutOfRange => "value out of range"@,
        }
    }

    /// The words the rendering of a refusal uses for this reason.
    pub fn words(&self) -> (r: &'static str)
        ensures
            r@ == self.spec_words(),
    {
        match self {
            Kind::Unrecognised => "unrecognised value",
            Kind::Malformed => "malformed",
            Kind::OutOfRange => "value out of range",
        }
    }
}

/// Error returned when a string is not a valid spelling of a vocabulary or geometry value.
///
/// Carries the name of the type that rejected the input — enough to tell two failures apart in a
/// log line — but not the input itself.
#[derive(Debug, Clone, Copy, PartialEq, Eq, Hash)]
pub struct ParseError {
    ty: &'static str,
    kind: Kind,
}

impl ParseError {
    /// Two values are equal exactly when their fields are.
    pub proof fn lemma_fields_decide(a: Self, b: Self)
        ensures
            (a == b) <==> (a.spec_type_label() == b.spec_type_label() && a.spec_kind() == b.spec_kind()),
    {
    }

    /// The name of the type that refused.
    pub closed spec fn spec_type_label(&self) -> &'static str {
        self.ty
    }

    /// Why it refused.
    pub closed spec fn spec_kind(&self) -> Kind {
        self.kind
    }

    /// The name of the type that rejected the input (`"PixelFormat"`, …).
    ///
    /// Called `type_label`: the shorter name is the one std gives its compile-time type-name
    /// intrinsic in `core::any`, a word this crate's source may not spell.
    pub fn type_label(&self) -> (r: &'static str)
        ensures
            r == self.spec_type_label(),
    {
        self.ty
    }

    /// Why the input was rejected.
    pub fn kind(&self) -> (r: Kind)
        ensures
            r == self.spec_kind(),
    {
        self.kind
    }

    /// The input is not one of this vocabulary's canonical slugs.
    pub fn unrecognised(ty: &'static str) -> (r: Self)
        ensures
            r.spec_type_label() == ty,
            r.spec_kind() == Kind::Unrecognised,
    {
        ParseError { ty, kind: Kind::Unrecognised }
    }

    /// The input does not have this type's textual shape at all (missing separator, non-numeric
    /// component, trailing text).
    pub fn malformed(ty: &'static str) -> (r: Self)
        ensures
            r.spec_type_label() == ty,
            r.spec_kind() == Kind::Malformed,
    {
        ParseError { ty, kind: Kind::Malformed }
    }

    /// The input parsed structurally but violates the type's invariant.
    pub fn out_of_range(ty: &'static str) -> (r: Self)
        ensures
            r.spec_type_label() == ty,
            r.spec_kind() == Kind::OutOfRange,
    {
        ParseError { ty, kind: Kind::OutOfRange }
    }

    /// The rendering: `invalid <type>: <reason>`, naming the type and never the input.
    pub open spec fn spec_text(&self) -> Seq<char> {
        "invalid "@ + self.spec_type_label()@ + ": "@ + self.spec_kind().spec_words()
    }

    /// The rendering: `invalid <type>: <reason>`, naming the type and never the input.
    pub fn to_string(&self) -> (r: String)
        ensures
            r@ == self.spec_text(),
    {
        let mut out = String::from_str("invalid ");
        out.append(self.ty);
        out.append(": ");
        out.append(self.kind.words());
        out
    }
}

/// Capacity of the stack buffer [`fold`] folds into. The longest canonical slug in the crate is
/// well under it, so an input that does not fit cannot name a variant either.
pub const FOLD_CAP: usize = 64;

/// The ASCII lower case of one byte; every byte outside `A..=Z` maps to itself.
pub open spec fn lower_byte(b: u8) -> u8 {
    if 65 <= b && b <= 90 {
        (b + 32) as u8
    } else {
        b
    }
}

/// Every byte of `bs` through [`lower_byte`].
pub open spec fn lower_bytes(bs: Seq<u8>) -> Seq<u8> {
    Seq::new(bs.len(), |i: int| lower_byte(bs[i]))
}

/// ASCII-fold `s` into `buf`, returning the lowercase bytes, or [`None`] when `s` is longer than
/// [`FOLD_CAP`] bytes.
///
/// Bytes outside `A..=Z` — every byte of a multi-byte character among them — are copied through
/// unchanged, so there is no locale-dependent mapping.
pub fn fold<'b>(s: &str, buf: &'b mut [u8; 64]) -> (r: Option<&'b [u8]>)
    ensures
        match r {
            Some(bytes) => s.spec_bytes().len() <= FOLD_CAP && bytes@ == lower_bytes(
                s.spec_bytes(),
            ),
            None => s.spec_bytes().len() > FOLD_CAP,
        },
{
    let bytes = s.as_bytes();
    let n = bytes.len();
    if n > FOLD_CAP {
        return None;
    }
    let mut i: usize = 0;
    while i < n
        invariant
            n == bytes@.len(),
            n <= 64,
            i <= n,
            bytes@ == s.spec_bytes(),
            forall|j: int| 0 <= j < i ==> buf@[j] == lower_byte(#[trigger] bytes@[j]),
        decreases n - i,
    {
        let b = bytes[i];
        let l = if 65 <= b && b <= 90 {
            b + 32
        } else {
            b
        };
        buf[i] = l;
        i = i + 1;
    }
    let view: &'b [u8; 64] = buf;
    let out = vstd::slice::slice_subrange(view.as_slice(), 0, n);
    assert(out@ =~= lower_bytes(s.spec_bytes()));
    Some(out)
}

/// The two case-matching strategies a vocabulary's parse table can declare.
///
/// Deliberately has no `Default`: naming the strategy is a required argument of [`lookup`].
#[derive(Debug, Clone, Copy, PartialEq, Eq, Hash, Structural)]
pub enum Case {
    /// Match through [`fold`] — any-case spelling of a roster name resolves to that name.
    Insensitive,
    /// Match on exact bytes, unfolded.
    Sensitive,
}

/// Resolve `s` to the byte key a match table compares against, under `case`'s strategy.
///
/// [`Case::Insensitive`] folds through [`fold`], falling back to the unfolded text past
/// [`FOLD_CAP`]; [`Case::Sensitive`] takes the bytes verbatim and leaves `buf` alone.
pub fn lookup<'b>(case: Case, s: &'b str, buf: &'b mut [u8; 64]) -> (r: &'b [u8])
    ensures
        r@ == (match case {
            Case::Insensitive => if s.spec_bytes().len() <= FOLD_CAP {
                lower_bytes(s.spec_bytes())
            } else {
                s.spec_bytes()
            },
            Case::Sensitive => s.spec_bytes(),
        }),
{
    match case {
        Case::Insensitive => match fold(s, buf) {
            Some(bytes) => bytes,
            None => s.as_bytes(),
        },
        Case::Sensitive => s.as_bytes(),
    }
}

// ---------------------------------------------------------------------------------------------
// The vocabulary model
// ---------------------------------------------------------------------------------------------
/// What a vocabulary value means: the roster member at an index, or a name the roster does not
/// carry.
pub enum Term {
    /// The roster member at this index.
    Named(nat),
    /// A name this build does not enumerate, as held.
    Other(Seq<char>),
}

/// The wire id of a vocabulary value: its roster position, and nothing for an unnamed name.
pub open spec fn term_code(t: Term) -> Option<u32> {
    match t {
        Term::Named(i) => Some(i as u32),
        Term::Other(_) => None,
    }
}

/// The value a wire id names in a roster of `n` members.
pub open spec fn code_term(v: nat, n: nat) -> Option<Term> {
    if v < n {
        Some(Term::Named(v))
    } else {
        None
    }
}

/// The value of the character at `k` in a key, counting the end of the text as zero.
pub open spec fn key_digit(s: Seq<char>, k: int) -> int {
    if k < s.len() {
        s[k] as int + 1
    } else {
        0
    }
}

/// A number standing for a text of at most sixteen ASCII characters: its characters as base-256
/// digits, least significant first. Two such texts with different keys are different texts.
pub open spec fn text_key(s: Seq<char>) -> int {
    key_digit(s, 0) + 256 * (key_digit(s, 1) + 256 * (key_digit(s, 2) + 256 * (key_digit(s, 3) + 256 * (key_digit(s, 4) + 256 * (key_digit(s, 5) + 256 * (key_digit(s, 6) + 256 * (key_digit(s, 7) + 256 * (key_digit(s, 8) + 256 * (key_digit(s, 9) + 256 * (key_digit(s, 10) + 256 * (key_digit(s, 11) + 256 * (key_digit(s, 12) + 256 * (key_digit(s, 13) + 256 * (key_digit(s, 14) + 256 * (key_digit(s, 15))))))))))))))))
}

/// The first roster index whose slug is `key`, if any.
pub open spec fn slug_index(slugs: Seq<Seq<char>>, key: Seq<char>) -> Option<nat>
    decreases slugs.len(),
{
    if slugs.len() == 0 {
        None
    } else if slugs[0] == key {
        Some(0)
    } else {
        match slug_index(slugs.drop_first(), key) {
            Some(i) => Some(i + 1),
            None => None,
        }
    }
}

/// What an open vocabulary's ignore-case parse makes of `text`: the roster member whose slug is
/// the text's ASCII lower case, or else that lower case held as an unnamed name.
pub open spec fn parse_term(slugs: Seq<Seq<char>>, text: Seq<char>) -> Term {
    match slug_index(slugs, lower(text)) {
        Some(i) => Term::Named(i),
        None => Term::Other(lower(text)),
    }
}

/// The text a vocabulary value renders.
pub open spec fn term_text(slugs: Seq<Seq<char>>, t: Term) -> Seq<char> {
    match t {
        Term::Named(i) => slugs[i as int],
        Term::Other(s) => s,
    }
}

/// Every slug is ASCII lower case already, and no two are spelled alike.
pub open spec fn well_formed_roster(slugs: Seq<Seq<char>>) -> bool {
    &&& forall|i: int| 0 <= i < slugs.len() ==> lower(#[trigger] slugs[i]) == slugs[i]
    &&& forall|i: int, j: int|
        0 <= i < j < slugs.len() ==> #[trigger] slugs[i] != #[trigger] slugs[j]
}

pub proof fn lemma_slug_index(slugs: Seq<Seq<char>>, key: Seq<char>)
    ensures
        match slug_index(slugs, key) {
            Some(i) => i < slugs.len() && slugs[i as int] == key && forall|j: int|
                0 <= j < i ==> #[trigger] slugs[j] != key,
            None => forall|j: int| 0 <= j < slugs.len() ==> #[trigger] slugs[j] != key,
        },
    decreases slugs.len(),
{
    if slugs.len() > 0 {
        lemma_slug_index(slugs.drop_first(), key);
        assert forall|j: int| 0 < j < slugs.len() implies slugs[j] == #[trigger] slugs.drop_first()[j - 1] by {}
        if slugs[0] != key {
            match slug_index(slugs.drop_first(), key) {
                Some(i) => {
                    assert forall|j: int| 0 <= j < i + 1 implies #[trigger] slugs[j] != key by {
                        if j > 0 {
                            assert(slugs[j] == slugs.drop_first()[j - 1]);
                        }
                    }
                },
                None => {
                    assert forall|j: int| 0 <= j < slugs.len() implies #[trigger] slugs[j] != key by {
                        if j > 0 {
                            assert(slugs[j] == slugs.drop_first()[j - 1]);
                        }
                    }
                },
            }
        }
    }
}

pub proof fn lemma_slug_index_unique(slugs: Seq<Seq<char>>, i: int)
    requires
        well_formed_roster(slugs),
        0 <= i < slugs.len(),
    ensures
        slug_index(slugs, slugs[i]) == Some(i as nat),
{
    lemma_slug_index(slugs, slugs[i]);
}

/// ASCII lower case is idempotent.
pub proof fn lemma_lower_idempotent(s: Seq<char>)
    ensures
        lower(lower(s)) == lower(s),
{
    assert(lower(lower(s)) =~= lower(s));
}

/// Raising then lowering gives back what lowering alone gives.
pub proof fn lemma_lower_upper(s: Seq<char>)
    ensures
        lower(upper(s)) == lower(s),
{
    assert forall|i: int| 0 <= i < s.len() implies #[trigger] lower(upper(s))[i] == lower(s)[i] by {
        let c = s[i];
        if is_lower(c) {
            assert(((c as u32 - 32) as char) as u32 == c as u32 - 32);
        }
        if is_upper(c) {
            assert(((c as u32 + 32) as char) as u32 == c as u32 + 32);
        }
    }
    assert(lower(upper(s)) =~= lower(s));
}

/// **A named value reads back as itself**, in its own spelling or any other ASCII case of it.
pub proof fn lemma_named_round_trip(slugs: Seq<Seq<char>>, i: int)
    requires
        well_formed_roster(slugs),
        0 <= i < slugs.len(),
    ensures
        parse_term(slugs, slugs[i]) == Term::Named(i as nat),
        parse_term(slugs, upper(slugs[i])) == Term::Named(i as nat),
{
    lemma_slug_index_unique(slugs, i);
    lemma_lower_upper(slugs[i]);
}

/// **Parsing is idempotent through the text form**: the text a parsed value renders parses back
/// as that same value.
pub proof fn lemma_parse_render_parse(slugs: Seq<Seq<char>>, text: Seq<char>)
    requires
        well_formed_roster(slugs),
    ensures
        parse_term(slugs, term_text(slugs, parse_term(slugs, text))) == parse_term(slugs, text),
{
    lemma_slug_index(slugs, lower(text));
    lemma_lower_idempotent(text);
    match slug_index(slugs, lower(text)) {
        Some(i) => lemma_slug_index_unique(slugs, i as int),
        None => {},
    }
}

/// The roster index the first spelling equal to `key` stands for, if any — for a vocabulary whose
/// members answer to more than one spelling.
pub open spec fn spelling_index(spellings: Seq<(&'static str, usize)>, key: Seq<char>) -> Option<nat>
    decreases spellings.len(),
{
    if spellings.len() == 0 {
        None
    } else if spellings[0].0@ == key {
        Some(spellings[0].1 as nat)
    } else {
        spelling_index(spellings.drop_first(), key)
    }
}

/// What an open vocabulary with alias spellings makes of `text`: the member one of whose spellings
/// is the text's ASCII lower case, or else that lower case held as an unnamed name.
pub open spec fn parse_spelled(spellings: Seq<(&'static str, usize)>, text: Seq<char>) -> Term {
    match spelling_index(spellings, lower(text)) {
        Some(i) => Term::Named(i),
        None => Term::Other(lower(text)),
    }
}

pub proof fn lemma_spelling_index(spellings: Seq<(&'static str, usize)>, key: Seq<char>)
    ensures
        match spelling_index(spellings, key) {
            Some(i) => exists|j: int|
                0 <= j < spellings.len() && #[trigger] spellings[j].0@ == key && spellings[j].1
                    == i && forall|k: int| 0 <= k < j ==> (#[trigger] spellings[k]).0@ != key,
            None => forall|j: int| 0 <= j < spellings.len() ==> (#[trigger] spellings[j]).0@ != key,
        },
    decreases spellings.len(),
{
    if spellings.len() > 0 {
        lemma_spelling_index(spellings.drop_first(), key);
        if spellings[0].0@ == key {
            assert(spellings[0].0@ == key);
        } else {
            match spelling_index(spellings.drop_first(), key) {
                Some(i) => {
                    let j = choose|j: int|
                        0 <= j < spellings.drop_first().len() && #[trigger] spellings.drop_first()[j].0@
                            == key && spellings.drop_first()[j].1 == i && forall|k: int|
                            0 <= k < j ==> (#[trigger] spellings.drop_first()[k]).0@ != key;
                    assert(spellings[j + 1] == spellings.drop_first()[j]);
                    assert forall|k: int| 0 <= k < j + 1 implies (#[trigger] spellings[k]).0@ != key by {
                        if k > 0 {
                            assert(spellings[k] == spellings.drop_first()[k - 1]);
                        }
                    }
                },
                None => {
                    assert forall|j: int| 0 <= j < spellings.len() implies (#[trigger] spellings[j]).0@
                        != key by {
                        if j > 0 {
                            assert(spellings[j] == spellings.drop_first()[j - 1]);
                        }
                    }
                },
            }
        }
    }
}

/// A spelling table that opens with a well-formed roster's names, each standing for its own
/// position, reads every name — in any ASCII case — back as its member.
pub proof fn lemma_spelled_named(spellings: Seq<(&'static str, usize)>, names: Seq<Seq<char>>, i: int)
    requires
        well_formed_roster(names),
        spellings.len() >= names.len(),
        forall|k: int| 0 <= k < names.len() ==> (#[trigger] spellings[k]).0@ == names[k] && spellings[k].1 == k,
        0 <= i < names.len(),
    ensures
        parse_spelled(spellings, names[i]) == Term::Named(i as nat),
        parse_spelled(spellings, upper(names[i])) == Term::Named(i as nat),
        lower(names[i]) == names[i],
{
    lemma_lower_upper(names[i]);
    lemma_spelling_index(spellings, names[i]);
    assert(spellings[i].0@ == names[i]);
    match spelling_index(spellings, names[i]) {
        Some(v) => {
            let j = choose|j: int|
                0 <= j < spellings.len() && #[trigger] spellings[j].0@ == names[i] && spellings[j].1
                    == v && forall|k: int| 0 <= k < j ==> (#[trigger] spellings[k]).0@ != names[i];
            if j < i {
                assert(spellings[j].0@ == names[j]);
            } else if j > i {
                assert(spellings[i].0@ != names[i]);
            }
        },
        None => {},
    }
}

/// The alias parse is idempotent through the text form, when every spelling stands for a member
/// and the table opens with the well-formed roster's names.
pub proof fn lemma_spelled_idempotent(spellings: Seq<(&'static str, usize)>, names: Seq<Seq<char>>, text: Seq<char>)
    requires
        well_formed_roster(names),
        spellings.len() >= names.len(),
        forall|k: int| 0 <= k < names.len() ==> (#[trigger] spellings[k]).0@ == names[k] && spellings[k].1 == k,
        forall|k: int| 0 <= k < spellings.len() ==> (#[trigger] spellings[k]).1 < names.len(),
    ensures
        parse_spelled(spellings, term_text(names, parse_spelled(spellings, text))) == parse_spelled(
            spellings,
            text,
        ),
{
    lemma_lower_idempotent(text);
    lemma_spelling_index(spellings, lower(text));
    match spelling_index(spellings, lower(text)) {
        Some(v) => {
            let j = choose|j: int|
                0 <= j < spellings.len() && #[trigger] spellings[j].0@ == lower(text) && spellings[j].1
                    == v && forall|k: int| 0 <= k < j ==> (#[trigger] spellings[k]).0@ != lower(text);
            assert(spellings[j].1 < names.len());
            lemma_spelled_named(spellings, names, v as int);
        },
        None => {},
    }
}

/// Finds the member the first spelling equal to `key` stands for.
pub fn find_spelling(spellings: &[(&'static str, usize)], key: &[char]) -> (r: Option<usize>)
    ensures
        match r {
            Some(i) => spelling_index(spellings@, key@) == Some(i as nat),
            None => spelling_index(spellings@, key@) is None,
        },
{
    let mut i: usize = 0;
    assert(spellings@.subrange(0, spellings@.len() as int) =~= spellings@);
    while i < spellings.len()
        invariant
            i <= spellings@.len(),
            spelling_index(spellings@, key@) == spelling_index(
                spellings@.subrange(i as int, spellings@.len() as int),
                key@,
            ),
        decreases spellings@.len() - i,
    {
        let row = spellings[i];
        let ghost rest = spellings@.subrange(i as int, spellings@.len() as int);
        assert(rest[0] == row);
        if chars_equal_str(key, row.0) {
            return Some(row.1);
        }
        assert(rest.drop_first() =~= spellings@.subrange(i + 1, spellings@.len() as int));
        i = i + 1;
    }
    None
}

/// The ignore-case parse of an open vocabulary with alias spellings, answering with the member's
/// roster index or the folded name.
pub fn parse_spelling(spellings: &[(&'static str, usize)], text: &str) -> (r: Result<usize, String>)
    ensures
        match r {
            Ok(i) => parse_spelled(spellings@, text@) == Term::Named(i as nat),
            Err(name) => parse_spelled(spellings@, text@) == Term::Other(name@),
        },
{
    let cs = chars_of(text);
    let folded = lower_chars(cs.as_slice());
    match find_spelling(spellings, folded.as_slice()) {
        Some(i) => Ok(i),
        None => Err(crate::text::string_of(folded.as_slice())),
    }
}

/// A name held in its ASCII lower case — the one construction path for an unnamed name, so the
/// whole value space stays lowercase-canonical.
pub fn fold_owned(s: &str) -> (r: String)
    ensures
        r@ == lower(s@),
{
    let cs = chars_of(s);
    crate::text::string_of(lower_chars(cs.as_slice()).as_slice())
}

/// Finds the roster index whose slug is `key`, scanning in roster order.
pub fn find_slug(slugs: &[&'static str], key: &[char]) -> (r: Option<usize>)
    ensures
        match r {
            Some(i) => i < slugs@.len() && slug_index(slugs@.map_values(|s: &'static str| s@), key@)
                == Some(i as nat),
            None => slug_index(slugs@.map_values(|s: &'static str| s@), key@) is None,
        },
{
    let ghost names = slugs@.map_values(|s: &'static str| s@);
    proof {
        lemma_slug_index(names, key@);
    }
    let mut i: usize = 0;
    while i < slugs.len()
        invariant
            i <= slugs@.len(),
            names == slugs@.map_values(|s: &'static str| s@),
            forall|j: int| 0 <= j < i ==> #[trigger] names[j] != key@,
        decreases slugs@.len() - i,
    {
        if chars_equal_str(key, slugs[i]) {
            proof {
                assert(names[i as int] == slugs@[i as int]@);
                lemma_slug_index(names, key@);
            }
            return Some(i);
        }
        i = i + 1;
    }
    None
}

/// The ignore-case parse of an open vocabulary, answering with the roster index or the folded
/// name.
pub fn parse_slug(slugs: &[&'static str], text: &str) -> (r: Result<usize, String>)
    ensures
        match r {
            Ok(i) => i < slugs@.len() && parse_term(slugs@.map_values(|s: &'static str| s@), text@)
                == Term::Named(i as nat),
            Err(name) => parse_term(slugs@.map_values(|s: &'static str| s@), text@)
                == Term::Other(name@),
        },
{
    let cs = chars_of(text);
    let folded = lower_chars(cs.as_slice());
    match find_slug(slugs, folded.as_slice()) {
        Some(i) => Ok(i),
        None => Err(crate::text::string_of(folded.as_slice())),
    }
}

} // verus!
