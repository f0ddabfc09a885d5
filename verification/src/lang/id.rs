//! The [`LanguageId`] composite: the four seats, and the composition rules that fill them.
use vstd::prelude::*;
use vstd::std_specs::cmp::{PartialEqSpecImpl, PartialOrdSpecImpl};
use core::cmp::Ordering;
use crate::order::{
    compare_seat, compare_text, lexicographic, lexicographic_exec, seat_order, text_order,
};
use vstd::std_specs::convert::FromSpecImpl;
use vstd::utf8::{encode_utf8, encode_scalar, has_width_1_encoding, has_width_2_encoding, has_width_3_encoding};
use super::language::{Language, ParseLanguageError, language_refusal, language_canonical};
use super::script::{ScriptSubtag, ParseScriptSubtagError, script_refusal};
use super::region::{Region, ParseRegionError, region_refusal, region_canonical};
use super::registry::{self, paired};
use super::registry::table::{GRANDFATHERED, LANGUAGE_SUPPRESS_SCRIPT, MAX_GRANDFATHERED_HOPS};
use crate::text::{
    chars_of, lower, lower_chars, title, all_letters, all_digits, first_index, lemma_first_index,
    lemma_first_index_is, first_non_alnum, non_alphabetic, non_alphanumeric, all_digits_exec,
    string_of, str_equal, push_char, push_str,
};

verus! {

// ---------------------------------------------------------------------------------------------
// The model
// ---------------------------------------------------------------------------------------------
/// The subtags of a tag, split at every `-`; a tag with no `-` is one subtag.
pub open spec fn subtags(t: Seq<char>) -> Seq<Seq<char>>
    decreases t.len(),
{
    match first_index(t, '-') {
        None => seq![t],
        Some(i) => {
            proof {
                lemma_first_index(t, '-');
            }
            seq![t.subrange(0, i)] + subtags(t.subrange(i + 1, t.len() as int))
        },
    }
}

/// Subtags joined back with `-` between each two.
pub open spec fn joined(ps: Seq<Seq<char>>) -> Seq<char>
    decreases ps.len(),
{
    if ps.len() == 0 {
        seq![]
    } else if ps.len() == 1 {
        ps[0]
    } else {
        joined(ps.drop_last()) + seq!['-'] + ps.last()
    }
}

/// Exactly four ASCII letters — the shape of the script position.
pub open spec fn script_shaped(p: Seq<char>) -> bool {
    p.len() == 4 && all_letters(p)
}

/// Two ASCII letters, or three ASCII digits — the shape of the region position.
pub open spec fn region_shaped(p: Seq<char>) -> bool {
    (p.len() == 2 && all_letters(p)) || (p.len() == 3 && all_digits(p))
}

/// The widest subtag a tail may hold, in bytes.
pub const TAIL_SUBTAG_MAX: usize = 8;

/// What the tail's envelope refuses, subtag by subtag in order: an empty subtag, one wider than
/// eight bytes, or one holding a character outside the ASCII letters and digits (the first one).
pub open spec fn tail_refusal(ps: Seq<Seq<char>>) -> Option<ParseLanguageIdError>
    decreases ps.len(),
{
    if ps.len() == 0 {
        None
    } else if ps[0].len() == 0 {
        Some(ParseLanguageIdError::EmptySubtag)
    } else if encode_utf8(ps[0]).len() > 8 {
        Some(ParseLanguageIdError::TailWidth)
    } else {
        match first_non_alnum(ps[0]) {
            Some(c) => Some(ParseLanguageIdError::Tail(c)),
            None => tail_refusal(ps.drop_first()),
        }
    }
}

/// The four seats of an identity, as text.
pub struct IdModel {
    /// The language, always present.
    pub language: Seq<char>,
    /// The script, where one was declared and the language does not imply it.
    pub script: Option<Seq<char>>,
    /// The region, where one was declared.
    pub region: Option<Seq<char>>,
    /// Everything past the region, verbatim.
    pub rest: Option<Seq<char>>,
}

/// Would a reparse of the text with the script dropped read the tail's first subtag as the script?
pub open spec fn tail_opens_in_the_script_slot(rest: Option<Seq<char>>) -> bool {
    match rest {
        Some(t) => script_shaped(subtags(t)[0]),
        None => false,
    }
}

/// Four seats with the `Suppress-Script` fold applied: a declared script the language already
/// implies is dropped — unless the tail would then climb into the vacated script slot.
pub open spec fn compose(
    language: Seq<char>,
    script: Option<Seq<char>>,
    region: Option<Seq<char>>,
    rest: Option<Seq<char>>,
) -> IdModel {
    let kept = match (script, paired(LANGUAGE_SUPPRESS_SCRIPT@, language)) {
        (Some(declared), Some(implied)) => if declared == implied@
            && !tail_opens_in_the_script_slot(rest) {
            None
        } else {
            script
        },
        _ => script,
    };
    IdModel { language, script: kept, region, rest }
}

/// Is any of these subtags empty?
pub open spec fn has_empty_subtag(ps: Seq<Seq<char>>) -> bool {
    exists|i: int| 0 <= i < ps.len() && (#[trigger] ps[i]).len() == 0
}

/// The three seats and the tail, read positionally out of a tag whose separator is `-`.
pub open spec fn composed(tag: Seq<char>) -> Result<IdModel, ParseLanguageIdError> {
    let ps = subtags(tag);
    if has_empty_subtag(ps) {
        Err(ParseLanguageIdError::EmptySubtag)
    } else {
        match language_refusal(ps[0]) {
            Some(e) => Err(ParseLanguageIdError::Language(e)),
            None => {
                let has_script = ps.len() > 1 && script_shaped(ps[1]);
                let at1: int = if has_script {
                    2
                } else {
                    1
                };
                let has_region = ps.len() > at1 && region_shaped(ps[at1]);
                let at2: int = if has_region {
                    at1 + 1
                } else {
                    at1
                };
                let script = if has_script {
                    Some(title(ps[1]))
                } else {
                    None
                };
                let region = if has_region {
                    Some(region_canonical(ps[at1]))
                } else {
                    None
                };
                let tail = ps.subrange(at2, ps.len() as int);
                if tail.len() == 0 {
                    Ok(compose(language_canonical(ps[0]), script, region, None))
                } else {
                    match tail_refusal(tail) {
                        Some(e) => Err(e),
                        None => Ok(
                            compose(language_canonical(ps[0]), script, region, Some(joined(tail))),
                        ),
                    }
                }
            },
        }
    }
}

/// The canonical spelling: the filled seats, in order, joined by `-`.
pub open spec fn rendering(m: IdModel) -> Seq<char> {
    let a = m.language;
    let b = match m.script {
        Some(s) => a + seq!['-'] + s,
        None => a,
    };
    let c = match m.region {
        Some(r) => b + seq!['-'] + r,
        None => b,
    };
    match m.rest {
        Some(t) => c + seq!['-'] + t,
        None => c,
    }
}

/// The replacement the grandfathered table names for this identity's own text, if any.
pub open spec fn folds_onto(m: IdModel) -> Option<&'static str> {
    paired(GRANDFATHERED@, lower(rendering(m)))
}

/// The whole-tag fold applied up to `hops` more times, stopping at the first value it leaves alone.
pub open spec fn canonicalized(m: IdModel, hops: nat) -> Result<IdModel, ParseLanguageIdError>
    decreases hops,
{
    if hops == 0 {
        Ok(m)
    } else {
        match folds_onto(m) {
            None => Ok(m),
            Some(p) => match composed(p@) {
                Err(e) => Err(e),
                Ok(next) => canonicalized(next, (hops - 1) as nat),
            },
        }
    }
}

/// `_` read as `-`, which is what a filename-safe tag uses.
pub open spec fn dashed(t: Seq<char>) -> Seq<char> {
    Seq::new(
        t.len(),
        |i: int|
            if t[i] == '_' {
                '-'
            } else {
                t[i]
            },
    )
}

/// What the door makes of a text: the separator fold, the grandfathered table over the whole
/// tag, the positional seats with their own folds and the suppression, and then the whole-tag
/// fold until the rendering stops moving.
pub open spec fn language_id(text: Seq<char>) -> Result<IdModel, ParseLanguageIdError> {
    if text.len() == 0 {
        Err(ParseLanguageIdError::Empty)
    } else {
        let tag = dashed(text);
        let first = match paired(GRANDFATHERED@, lower(tag)) {
            Some(p) => composed(p@),
            None => composed(tag),
        };
        match first {
            Err(e) => Err(e),
            Ok(m) => canonicalized(m, MAX_GRANDFATHERED_HOPS as nat),
        }
    }
}

// ---------------------------------------------------------------------------------------------
// The type
// ---------------------------------------------------------------------------------------------
/// A whole language identity: `de`, `zh-Hans`, `en-US`, `sr-Cyrl-RS`, `en-US-x-lorem`.
///
/// Four seats: the language, always present; the script, absent where none was declared or where
/// the language implies it; the region; and everything past the region — variants, extensions,
/// private use — held verbatim, so the type is lossless.
///
/// Equality is the four seats, so two spellings of one identity are one value: `GER-latn-de` and
/// `de-DE` hold the same seats. Ordering is the four seats in order, each alphabetically, absent
/// before present.
#[derive(Debug, Eq, Hash, Ord)]
pub struct LanguageId {
    language: Language,
    script: Option<ScriptSubtag>,
    region: Option<Region>,
    rest: Option<String>,
}

impl View for LanguageId {
    type V = IdModel;

    closed spec fn view(&self) -> IdModel {
        IdModel {
            language: self.language@,
            script: match self.script {
                Some(s) => Some(s@),
                None => None,
            },
            region: match self.region {
                Some(r) => Some(r@),
                None => None,
            },
            rest: match self.rest {
                Some(t) => Some(t@),
                None => None,
            },
        }
    }
}

/// Is `c` a scalar that UTF-8 writes in one, two, three or four bytes — how many?
fn utf8_width(c: char) -> (r: usize)
    ensures
        r == encode_scalar(c as u32).len(),
{
    let v = c as u32;
    if v <= 0x7F {
        1
    } else if v <= 0x7FF {
        2
    } else if v <= 0xFFFF && !(0xD800 <= v && v <= 0xDFFF) {
        3
    } else {
        4
    }
}

/// Is the UTF-8 encoding of `cs` wider than `limit` bytes?
fn wider_than(cs: &[char], limit: usize) -> (r: bool)
    requires
        limit <= 8,
    ensures
        r == (encode_utf8(cs@).len() > limit),
{
    let mut acc: usize = 0;
    let mut i: usize = 0;
    assert(cs@.subrange(0, cs@.len() as int) =~= cs@);
    while i < cs.len()
        invariant
            i <= cs@.len(),
            acc <= limit,
            limit <= 8,
            encode_utf8(cs@).len() == acc + encode_utf8(cs@.subrange(i as int, cs@.len() as int)).len(),
        decreases cs@.len() - i,
    {
        let ghost s = cs@.subrange(i as int, cs@.len() as int);
        assert(s[0] == cs@[i as int]);
        assert(s.drop_first() =~= cs@.subrange(i + 1, cs@.len() as int));
        let w = utf8_width(cs[i]);
        if acc + w > limit {
            return true;
        }
        acc = acc + w;
        i = i + 1;
    }
    false
}

pub(crate) proof fn lemma_subtags_no_dash(c: Seq<char>)
    requires
        forall|j: int| 0 <= j < c.len() ==> #[trigger] c[j] != '-',
    ensures
        subtags(c) == seq![c],
{
    lemma_first_index(c, '-');
}

pub(crate) proof fn lemma_subtags_dash(c: Seq<char>, s: Seq<char>)
    requires
        forall|j: int| 0 <= j < c.len() ==> #[trigger] c[j] != '-',
        s.len() > 0,
        s[0] == '-',
    ensures
        subtags(c + s) == seq![c] + subtags(s.drop_first()),
{
    let t = c + s;
    assert forall|j: int| 0 <= j < c.len() implies #[trigger] t[j] != '-' by {
        assert(t[j] == c[j]);
    }
    assert(t[c.len() as int] == '-');
    lemma_first_index_is(t, '-', c.len() as int);
    assert(t.subrange(0, c.len() as int) =~= c);
    assert(t.subrange(c.len() as int + 1, t.len() as int) =~= s.drop_first());
}

/// The subtags of `cs`, split at every `-`.
fn split_subtags(cs: &[char]) -> (r: Vec<Vec<char>>)
    ensures
        r@.len() == subtags(cs@).len(),
        forall|i: int| 0 <= i < r@.len() ==> (#[trigger] r@[i])@ == subtags(cs@)[i],
{
    let mut out: Vec<Vec<char>> = Vec::new();
    let mut cur: Vec<char> = Vec::new();
    let mut i: usize = 0;
    let ghost mut done: Seq<Seq<char>> = seq![];
    assert(cs@.subrange(0, cs@.len() as int) =~= cs@);
    assert(cur@ + cs@ =~= cs@);
    while i < cs.len()
        invariant
            i <= cs@.len(),
            out@.len() == done.len(),
            forall|k: int| 0 <= k < out@.len() ==> (#[trigger] out@[k])@ == done[k],
            forall|j: int| 0 <= j < cur@.len() ==> #[trigger] cur@[j] != '-',
            done + subtags(cur@ + cs@.subrange(i as int, cs@.len() as int)) == subtags(cs@),
        decreases cs@.len() - i,
    {
        let ghost s = cs@.subrange(i as int, cs@.len() as int);
        assert(s[0] == cs@[i as int]);
        assert(s.drop_first() =~= cs@.subrange(i + 1, cs@.len() as int));
        if cs[i] == '-' {
            proof {
                lemma_subtags_dash(cur@, s);
                assert(done + (seq![cur@] + subtags(s.drop_first())) =~= done.push(cur@) + subtags(
                    s.drop_first(),
                ));
                assert(Seq::<char>::empty() + s.drop_first() =~= s.drop_first());
            }
            let finished = cur;
            cur = Vec::new();
            out.push(finished);
            proof {
                done = done.push(finished@);
            }
        } else {
            proof {
                assert(cur@ + s =~= cur@.push(cs@[i as int]) + s.drop_first());
            }
            cur.push(cs[i]);
        }
        i = i + 1;
    }
    proof {
        assert(cur@ + cs@.subrange(cs@.len() as int, cs@.len() as int) =~= cur@);
        lemma_subtags_no_dash(cur@);
    }
    let ghost last = cur@;
    out.push(cur);
    proof {
        done = done.push(last);
        assert(done =~= subtags(cs@));
    }
    out
}

/// The subtags in `ps`, joined with `-`.
fn join_subtags(ps: &[Vec<char>]) -> (r: String)
    ensures
        r@ == joined(Seq::new(ps@.len(), |i: int| ps@[i]@)),
{
    let mut out = String::new();
    let mut i: usize = 0;
    while i < ps.len()
        invariant
            i <= ps@.len(),
            out@ == joined(Seq::new(i as nat, |k: int| ps@[k]@)),
        decreases ps@.len() - i,
    {
        let ghost before = Seq::new(i as nat, |k: int| ps@[k]@);
        let ghost after = Seq::new((i + 1) as nat, |k: int| ps@[k]@);
        assert(after.drop_last() =~= before);
        if i > 0 {
            push_char(&mut out, '-');
        }
        let part = string_of(ps[i].as_slice());
        push_str(&mut out, part.as_str());
        i = i + 1;
        proof {
            if i == 1 {
                assert(out@ =~= after[0]);
            } else {
                assert(out@ =~= joined(before) + seq!['-'] + after.last());
            }
        }
    }
    assert(Seq::new(ps@.len(), |k: int| ps@[k]@) =~= Seq::new(i as nat, |k: int| ps@[k]@));
    out
}

/// One tail through its envelope.
fn tail_check(ps: &[Vec<char>]) -> (r: Option<ParseLanguageIdError>)
    ensures
        r == tail_refusal(Seq::new(ps@.len(), |i: int| ps@[i]@)),
{
    let ghost all = Seq::new(ps@.len(), |i: int| ps@[i]@);
    let mut i: usize = 0;
    assert(all.subrange(0, all.len() as int) =~= all);
    while i < ps.len()
        invariant
            i <= ps@.len(),
            all == Seq::new(ps@.len(), |i: int| ps@[i]@),
            tail_refusal(all) == tail_refusal(all.subrange(i as int, all.len() as int)),
        decreases ps@.len() - i,
    {
        let ghost s = all.subrange(i as int, all.len() as int);
        assert(s[0] == ps@[i as int]@);
        assert(s.drop_first() =~= all.subrange(i + 1, all.len() as int));
        let part = ps[i].as_slice();
        if part.len() == 0 {
            return Some(ParseLanguageIdError::EmptySubtag);
        }
        if wider_than(part, TAIL_SUBTAG_MAX) {
            return Some(ParseLanguageIdError::TailWidth);
        }
        if let Some(outside) = non_alphanumeric(part) {
            return Some(ParseLanguageIdError::Tail(outside));
        }
        i = i + 1;
    }
    None
}

fn is_script_shaped(p: &[char]) -> (r: bool)
    ensures
        r == script_shaped(p@),
{
    p.len() == 4 && non_alphabetic(p).is_none()
}

fn is_region_shaped(p: &[char]) -> (r: bool)
    ensures
        r == region_shaped(p@),
{
    (p.len() == 2 && non_alphabetic(p).is_none()) || (p.len() == 3 && all_digits_exec(p))
}

pub(crate) proof fn lemma_shaped_admitted(p: Seq<char>)
    ensures
        script_shaped(p) ==> script_refusal(p) is None,
        region_shaped(p) ==> region_refusal(p) is None,
{
    crate::text::lemma_first_outside(p, crate::text::letter_test());
}

impl LanguageId {
    /// Four seats from their parts, the suppression applied.
    fn compose_parts(
        language: Language,
        script: Option<ScriptSubtag>,
        region: Option<Region>,
        rest: Option<String>,
    ) -> (r: Self)
        ensures
            r@ == compose(
                language@,
                match script {
                    Some(s) => Some(s@),
                    None => None,
                },
                match region {
                    Some(g) => Some(g@),
                    None => None,
                },
                match rest {
                    Some(t) => Some(t@),
                    None => None,
                },
            ),
    {
        let opens = match &rest {
            Some(t) => {
                let cs = chars_of(t.as_str());
                let parts = split_subtags(cs.as_slice());
                proof {
                    lemma_subtags_nonempty(cs@);
                }
                is_script_shaped(parts[0].as_slice())
            },
            None => false,
        };
        let kept = match (&script, language.suppressed_script()) {
            (Some(declared), Some(implied)) => {
                if str_equal(declared.as_str(), implied) && !opens {
                    None
                } else {
                    script
                }
            },
            _ => script,
        };
        LanguageId { language, script: kept, region, rest }
    }

    /// The three seats and the tail, read positionally out of a tag whose separator is `-`.
    fn composed(tag: &[char]) -> (r: Result<Self, ParseLanguageIdError>)
        ensures
            match composed(tag@) {
                Ok(m) => r matches Ok(v) && v@ == m,
                Err(e) => r == Err::<LanguageId, ParseLanguageIdError>(e),
            },
    {
        let parts = split_subtags(tag);
        let ghost ps = subtags(tag@);
        proof {
            lemma_subtags_nonempty(tag@);
        }
        let mut k: usize = 0;
        while k < parts.len()
            invariant
                k <= parts@.len(),
                ps == subtags(tag@),
                parts@.len() == ps.len(),
                forall|i: int| 0 <= i < parts@.len() ==> (#[trigger] parts@[i])@ == ps[i],
                forall|i: int| 0 <= i < k ==> (#[trigger] ps[i]).len() > 0,
            decreases parts@.len() - k,
        {
            if parts[k].len() == 0 {
                assert(ps[k as int].len() == 0);
                assert(has_empty_subtag(ps));
                return Err(ParseLanguageIdError::EmptySubtag);
            }
            k = k + 1;
        }
        assert(!has_empty_subtag(ps));
        let first = string_of(parts[0].as_slice());
        let language = match Language::new(first.as_str()) {
            Ok(v) => v,
            Err(e) => return Err(ParseLanguageIdError::Language(e)),
        };
        let mut at: usize = 1;
        let script = if parts.len() > 1 && is_script_shaped(parts[1].as_slice()) {
            at = 2;
            let text = string_of(parts[1].as_slice());
            proof {
                lemma_shaped_admitted(ps[1]);
            }
            match ScriptSubtag::new(text.as_str()) {
                Ok(v) => Some(v),
                Err(e) => return Err(ParseLanguageIdError::ScriptSubtag(e)),
            }
        } else {
            None
        };
        let region = if parts.len() > at && is_region_shaped(parts[at].as_slice()) {
            let text = string_of(parts[at].as_slice());
            proof {
                lemma_shaped_admitted(ps[at as int]);
            }
            at = at + 1;
            match Region::new(text.as_str()) {
                Ok(v) => Some(v),
                Err(e) => return Err(ParseLanguageIdError::Region(e)),
            }
        } else {
            None
        };
        let tail = vstd::slice::slice_subrange(parts.as_slice(), at, parts.len());
        let ghost tail_model = ps.subrange(at as int, ps.len() as int);
        assert(Seq::new(tail@.len(), |i: int| tail@[i]@) =~= tail_model);
        let rest = if tail.len() == 0 {
            None
        } else {
            match tail_check(tail) {
                Some(e) => return Err(e),
                None => Some(join_subtags(tail)),
            }
        };
        Ok(LanguageId::compose_parts(language, script, region, rest))
    }

    /// The canonical text, lower-cased, if it is no wider than the widest grandfathered tag.
    fn folds_onto_exec(&self) -> (r: Option<&'static str>)
        ensures
            r == folds_onto(self@),
    {
        let text = self.to_string();
        let lowered = lower_chars(chars_of(text.as_str()).as_slice());
        if lowered.len() > GRANDFATHERED_MAX {
            proof {
                lemma_grandfathered_keys_fit(lower(rendering(self@)));
            }
            return None;
        }
        registry::grandfathered_preferred(string_of(lowered.as_slice()).as_str())
    }

    /// Read a whole tag, wide — any case, `_` or `-`, grandfathered or composed.
    ///
    /// The rules fire in order: `_` becomes `-`; the grandfathered table is asked about the whole
    /// tag, case-folded; the seats are filled positionally, each through its own door, and a
    /// declared script the language implies is dropped; and then the whole-tag fold is asked again
    /// of what the composition produced, until the rendering stops moving.
    ///
    /// # Errors
    ///
    /// [`ParseLanguageIdError`], naming the seat that refused and carrying its own error.
    pub fn new(text: &str) -> (r: Result<Self, ParseLanguageIdError>)
        ensures
            match language_id(text@) {
                Ok(m) => r matches Ok(v) && v@ == m,
                Err(e) => r == Err::<LanguageId, ParseLanguageIdError>(e),
            },
    {
        let cs = chars_of(text);
        if cs.len() == 0 {
            return Err(ParseLanguageIdError::Empty);
        }
        let mut tag: Vec<char> = Vec::new();
        let mut i: usize = 0;
        while i < cs.len()
            invariant
                i <= cs@.len(),
                tag@ == dashed(cs@.subrange(0, i as int)),
            decreases cs@.len() - i,
        {
            let c = if cs[i] == '_' {
                '-'
            } else {
                cs[i]
            };
            tag.push(c);
            i = i + 1;
            assert(tag@ =~= dashed(cs@.subrange(0, i as int)));
        }
        assert(cs@.subrange(0, cs@.len() as int) =~= cs@);
        let lowered = lower_chars(tag.as_slice());
        let preferred = if lowered.len() > GRANDFATHERED_MAX {
            proof {
                lemma_grandfathered_keys_fit(lowered@);
            }
            None
        } else {
            registry::grandfathered_preferred(string_of(lowered.as_slice()).as_str())
        };
        let first = match preferred {
            Some(p) => LanguageId::composed(chars_of(p).as_slice()),
            None => LanguageId::composed(tag.as_slice()),
        };
        let mut current = match first {
            Ok(v) => v,
            Err(e) => return Err(e),
        };
        let mut hops: usize = 0;
        while hops < MAX_GRANDFATHERED_HOPS
            invariant
                hops <= MAX_GRANDFATHERED_HOPS,
                language_id(text@) == canonicalized(
                    current@,
                    (MAX_GRANDFATHERED_HOPS - hops) as nat,
                ),
            decreases MAX_GRANDFATHERED_HOPS - hops,
        {
            match current.folds_onto_exec() {
                None => return Ok(current),
                Some(p) => {
                    current = match LanguageId::composed(chars_of(p).as_slice()) {
                        Ok(v) => v,
                        Err(e) => return Err(e),
                    };
                },
            }
            hops = hops + 1;
        }
        Ok(current)
    }

    /// The language, which every identity has.
    pub fn language(&self) -> (r: Language)
        ensures
            r@ == self@.language,
    {
        self.language.clone()
    }

    /// The script, where one was declared and the language does not already imply it.
    pub fn script(&self) -> (r: Option<ScriptSubtag>)
        ensures
            match r {
                Some(s) => self@.script == Some(s@),
                None => self@.script is None,
            },
    {
        match &self.script {
            Some(s) => Some(s.clone()),
            None => None,
        }
    }

    /// The region, where one was declared.
    pub fn region(&self) -> (r: Option<Region>)
        ensures
            match r {
                Some(g) => self@.region == Some(g@),
                None => self@.region is None,
            },
    {
        match &self.region {
            Some(g) => Some(g.clone()),
            None => None,
        }
    }

    /// Everything past the region, verbatim — variants, extensions and the private-use sequence.
    pub fn rest(&self) -> (r: Option<&str>)
        ensures
            match r {
                Some(t) => self@.rest == Some(t@),
                None => self@.rest is None,
            },
    {
        match &self.rest {
            Some(t) => Some(t.as_str()),
            None => None,
        }
    }

    /// The canonical spelling: the filled seats, in order, joined by `-`.
    pub fn to_string(&self) -> (r: String)
        ensures
            r@ == rendering(self@),
    {
        let mut out = String::new();
        push_str(&mut out, self.language.as_str());
        if let Some(s) = &self.script {
            push_char(&mut out, '-');
            push_str(&mut out, s.as_str());
        }
        if let Some(g) = &self.region {
            push_char(&mut out, '-');
            push_str(&mut out, g.as_str());
        }
        if let Some(t) = &self.rest {
            push_char(&mut out, '-');
            push_str(&mut out, t.as_str());
        }
        assert(out@ =~= rendering(self@));
        out
    }

    /// The identity with only a language seat filled.
    pub closed spec fn bare(language: Language) -> LanguageId {
        LanguageId { language, script: None, region: None, rest: None }
    }
}

/// The subtags of any tag are at least one.
pub(crate) proof fn lemma_subtags_nonempty(t: Seq<char>)
    ensures
        subtags(t).len() >= 1,
    decreases t.len(),
{
    lemma_first_index(t, '-');
    match first_index(t, '-') {
        None => {},
        Some(i) => {
            lemma_subtags_nonempty(t.subrange(i + 1, t.len() as int));
        },
    }
}

/// The widest whole tag the registry grandfathered, in characters.
pub const GRANDFATHERED_MAX: usize = 16;

/// No grandfathered tag is wider than [`GRANDFATHERED_MAX`], so a wider text is in no row.
proof fn lemma_grandfathered_keys_fit(key: Seq<char>)
    requires
        key.len() > GRANDFATHERED_MAX,
    ensures
        paired(GRANDFATHERED@, key) is None,
{
    reveal_strlit("art-lojban");
    reveal_strlit("en-gb-oed");
    reveal_strlit("i-ami");
    reveal_strlit("i-bnn");
    reveal_strlit("i-hak");
    reveal_strlit("i-klingon");
    reveal_strlit("i-lux");
    reveal_strlit("i-navajo");
    reveal_strlit("i-pwn");
    reveal_strlit("i-tao");
    reveal_strlit("i-tay");
    reveal_strlit("i-tsu");
    reveal_strlit("no-bok");
    reveal_strlit("no-nyn");
    reveal_strlit("sgn-be-fr");
    reveal_strlit("sgn-be-nl");
    reveal_strlit("sgn-ch-de");
    reveal_strlit("zh-guoyu");
    reveal_strlit("zh-hakka");
    reveal_strlit("zh-min-nan");
    reveal_strlit("zh-xiang");
    registry::lemma_paired(GRANDFATHERED@, key);
    assert forall|i: int| 0 <= i < GRANDFATHERED@.len() implies (#[trigger] GRANDFATHERED@[i]).0@.len()
        <= 16 by {
        if i == 0 {} else if i == 1 {} else if i == 2 {} else if i == 3 {} else if i == 4 {
        } else if i == 5 {} else if i == 6 {} else if i == 7 {} else if i == 8 {} else if i == 9 {
        } else if i == 10 {} else if i == 11 {} else if i == 12 {} else if i == 13 {
        } else if i == 14 {} else if i == 15 {} else if i == 16 {} else if i == 17 {
        } else if i == 18 {} else if i == 19 {} else {}
    }
}

impl Clone for LanguageId {
    fn clone(&self) -> (r: Self)
        ensures
            r@ == self@,
    {
        LanguageId {
            language: self.language.clone(),
            script: match &self.script {
                Some(s) => Some(s.clone()),
                None => None,
            },
            region: match &self.region {
                Some(g) => Some(g.clone()),
                None => None,
            },
            rest: match &self.rest {
                Some(t) => Some(t.clone()),
                None => None,
            },
        }
    }
}

impl PartialEq for LanguageId {
    fn eq(&self, other: &Self) -> (r: bool) {
        let scripts = match (&self.script, &other.script) {
            (Some(a), Some(b)) => a == b,
            (None, None) => true,
            _ => false,
        };
        let regions = match (&self.region, &other.region) {
            (Some(a), Some(b)) => a == b,
            (None, None) => true,
            _ => false,
        };
        let rests = match (&self.rest, &other.rest) {
            (Some(a), Some(b)) => str_equal(a.as_str(), b.as_str()),
            (None, None) => true,
            _ => false,
        };
        self.language == other.language && scripts && regions && rests
    }
}

impl PartialEqSpecImpl for LanguageId {
    open spec fn obeys_eq_spec() -> bool {
        true
    }

    open spec fn eq_spec(&self, other: &Self) -> bool {
        self@ == other@
    }
}

/// The order of two identities: the four seats in turn, the language first, each alphabetically
/// over its canonical spelling, an absent seat before a present one.
pub open spec fn id_order(a: IdModel, b: IdModel) -> Ordering {
    lexicographic(
        text_order(a.language, b.language),
        lexicographic(
            seat_order(a.script, b.script),
            lexicographic(seat_order(a.region, b.region), seat_order(a.rest, b.rest)),
        ),
    )
}

impl PartialOrd for LanguageId {
    fn partial_cmp(&self, other: &Self) -> (r: Option<Ordering>) {
        let language = compare_text(self.language.as_str(), other.language.as_str());
        let mine_script: Option<&str> = match &self.script {
            Some(x) => Some(x.as_str()),
            None => None,
        };
        let their_script: Option<&str> = match &other.script {
            Some(x) => Some(x.as_str()),
            None => None,
        };
        let mine_region: Option<&str> = match &self.region {
            Some(x) => Some(x.as_str()),
            None => None,
        };
        let their_region: Option<&str> = match &other.region {
            Some(x) => Some(x.as_str()),
            None => None,
        };
        let mine_rest: Option<&str> = match &self.rest {
            Some(x) => Some(x.as_str()),
            None => None,
        };
        let their_rest: Option<&str> = match &other.rest {
            Some(x) => Some(x.as_str()),
            None => None,
        };
        let script = compare_seat(mine_script, their_script);
        let region = compare_seat(mine_region, their_region);
        let rest = compare_seat(mine_rest, their_rest);
        Some(lexicographic_exec(language, lexicographic_exec(script, lexicographic_exec(region, rest))))
    }
}

impl PartialOrdSpecImpl for LanguageId {
    open spec fn obeys_partial_cmp_spec() -> bool {
        true
    }

    /// The four seats in turn, each alphabetically, absent before present.
    open spec fn partial_cmp_spec(&self, other: &Self) -> Option<Ordering> {
        Some(id_order(self@, other@))
    }
}

impl Default for LanguageId {
    /// The undetermined tag, `und` — a value, and not the absence of a tag.
    fn default() -> (r: Self)
        ensures
            r@ == (IdModel { language: "und"@, script: None, region: None, rest: None }),
    {
        LanguageId::from(Language::und())
    }
}

impl From<Language> for LanguageId {
    /// A tag with no other seat filled.
    fn from(language: Language) -> (r: Self) {
        LanguageId { language, script: None, region: None, rest: None }
    }
}

impl FromSpecImpl<Language> for LanguageId {
    open spec fn obeys_from_spec() -> bool {
        true
    }

    open spec fn from_spec(language: Language) -> LanguageId {
        LanguageId::bare(language)
    }
}

impl core::str::FromStr for LanguageId {
    type Err = ParseLanguageIdError;

    fn from_str(text: &str) -> Result<Self, Self::Err> {
        LanguageId::new(text)
    }
}

/// A string does not name a language identity. The seat variants carry the seat's own error.
#[derive(Debug, Clone, Copy, PartialEq, Eq, Hash, Structural)]
pub enum ParseLanguageIdError {
    /// Nothing was sent.
    Empty,
    /// A subtag between two separators is empty.
    EmptySubtag,
    /// The first subtag is not a language.
    Language(ParseLanguageError),
    /// A subtag in the script position is not a script.
    ScriptSubtag(ParseScriptSubtagError),
    /// A subtag in the region position is not a region.
    Region(ParseRegionError),
    /// A tail subtag holds a character that is neither an ASCII letter nor an ASCII digit.
    Tail(char),
    /// A tail subtag is more than eight bytes wide.
    TailWidth,
}

impl ParseLanguageIdError {
    /// The sentence this refusal renders.
    pub open spec fn spec_text(self) -> Seq<char> {
        match self {
            ParseLanguageIdError::Empty => "a language tag opens with a language subtag, and nothing was sent"@,
            ParseLanguageIdError::EmptySubtag => "a language tag has no empty subtag between its separators"@,
            ParseLanguageIdError::Language(e) => "the tag's language subtag is not one: "@ + e.spec_text(),
            ParseLanguageIdError::ScriptSubtag(e) => "the tag's script subtag is not one: "@ + e.spec_text(),
            ParseLanguageIdError::Region(e) => "the tag's region subtag is not one: "@ + e.spec_text(),
            ParseLanguageIdError::Tail(c) => "a variant, extension or private-use subtag is letters and digits, so `"@
                + seq![c] + "` is not one of its characters"@,
            ParseLanguageIdError::TailWidth => "a variant, extension or private-use subtag is at most eight characters"@,
        }
    }

    /// The sentence this refusal renders.
    pub fn to_string(&self) -> (r: String)
        ensures
            r@ == self.spec_text(),
    {
        match self {
            ParseLanguageIdError::Empty => String::from_str(
                "a language tag opens with a language subtag, and nothing was sent",
            ),
            ParseLanguageIdError::EmptySubtag => String::from_str(
                "a language tag has no empty subtag between its separators",
            ),
            ParseLanguageIdError::Language(e) => {
                let mut out = String::from_str("the tag's language subtag is not one: ");
                let inner = e.to_string();
                out.append(inner.as_str());
                out
            },
            ParseLanguageIdError::ScriptSubtag(e) => {
                let mut out = String::from_str("the tag's script subtag is not one: ");
                let inner = e.to_string();
                out.append(inner.as_str());
                out
            },
            ParseLanguageIdError::Region(e) => {
                let mut out = String::from_str("the tag's region subtag is not one: ");
                let inner = e.to_string();
                out.append(inner.as_str());
                out
            },
            ParseLanguageIdError::Tail(c) => {
                let mut out = String::from_str(
                    "a variant, extension or private-use subtag is letters and digits, so `",
                );
                push_char(&mut out, *c);
                out.append("` is not one of its characters");
                out
            },
            ParseLanguageIdError::TailWidth => String::from_str(
                "a variant, extension or private-use subtag is at most eight characters",
            ),
        }
    }

    /// The seat's own refusal, rendered, where this refusal carries one.
    pub fn source_text(&self) -> (r: Option<String>)
        ensures
            match self {
                ParseLanguageIdError::Language(e) => r matches Some(t) && t@ == e.spec_text(),
                ParseLanguageIdError::ScriptSubtag(e) => r matches Some(t) && t@ == e.spec_text(),
                ParseLanguageIdError::Region(e) => r matches Some(t) && t@ == e.spec_text(),
                _ => r is None,
            },
    {
        match self {
            ParseLanguageIdError::Language(e) => Some(e.to_string()),
            ParseLanguageIdError::ScriptSubtag(e) => Some(e.to_string()),
            ParseLanguageIdError::Region(e) => Some(e.to_string()),
            _ => None,
        }
    }
}

} // verus!
