//! The [`Language`] primitive: a primary language subtag in the shortest spelling BCP 47 has for
//! it, and the error its door refuses with.
use vstd::prelude::*;
use vstd::std_specs::cmp::{PartialEqSpecImpl, PartialOrdSpecImpl};
use core::cmp::Ordering;
use crate::order::{compare_text, text_order};
use super::registry::{
    self, paired, listed, within, lemma_paired, lemma_alpha3_rows, lemma_preferred_rows,
    LANGUAGE_PRIVATE_USE,
};
use super::registry::table::{ALPHA3, LANGUAGE_PREFERRED, LANGUAGE_DEPRECATED, LANGUAGE_SUPPRESS_SCRIPT, languages_table};
use crate::text::{
    chars_of, lower, lower_chars, non_alphabetic, first_non_letter, string_of, str_equal,
    push_char, all_letters, lemma_first_outside, letter_test, is_lower, is_upper,
};

verus! {

/// What the door refuses `text` for, if anything: nothing sent; a character that is not an ASCII
/// letter (the first one, tested before the length); fewer than two letters; more than eight.
pub open spec fn language_refusal(text: Seq<char>) -> Option<ParseLanguageError> {
    if text.len() == 0 {
        Some(ParseLanguageError::Empty)
    } else {
        match first_non_letter(text) {
            Some(c) => Some(ParseLanguageError::NotAlphabetic(c)),
            None => if text.len() < 2 {
                Some(ParseLanguageError::TooShort)
            } else if text.len() > 8 {
                Some(ParseLanguageError::TooLong)
            } else {
                None
            },
        }
    }
}

/// The ISO 639-2 fold: the shortest BCP 47 spelling of an alpha-3 code, or the text itself.
pub open spec fn alpha3_fold(text: Seq<char>) -> Seq<char> {
    match paired(ALPHA3@, text) {
        Some(v) => v@,
        None => text,
    }
}

/// The `Preferred-Value` fold: the subtag the registry names instead, or the text itself.
pub open spec fn preferred_fold(text: Seq<char>) -> Seq<char> {
    match paired(LANGUAGE_PREFERRED@, text) {
        Some(v) => v@,
        None => text,
    }
}

/// The canonical spelling of an admitted language subtag: lower case, then the alpha-3 fold, then
/// the `Preferred-Value` fold — each once, in that order.
pub open spec fn language_canonical(text: Seq<char>) -> Seq<char> {
    preferred_fold(alpha3_fold(lower(text)))
}

/// A primary language subtag, in the shortest spelling BCP 47 has for it: `de`, `zh`, `yue`, `und`.
///
/// Wide in, strict out: any ASCII case is read, an ISO 639-2 bibliographic or terminological code
/// folds onto the two-letter spelling (`ger` and `deu` are both `de`), and a deprecated subtag folds
/// onto its `Preferred-Value` (`iw` is `he`). A structurally valid subtag the registry does not
/// carry is admitted; [`is_registered`](Self::is_registered) says so.
///
/// Equality is the canonical subtag, so the folds are what make it useful. Ordering is alphabetical
/// over the canonical spelling.
#[derive(Debug, Eq, Hash, Ord)]
pub struct Language(String);

impl View for Language {
    type V = Seq<char>;

    closed spec fn view(&self) -> Seq<char> {
        self.0@
    }
}

impl Language {
    /// Read a language subtag, wide — any case, and either ISO 639-2 alphabet.
    ///
    /// # Errors
    ///
    /// [`ParseLanguageError`], naming the rule that refused. Being unregistered is not one of them.
    pub fn new(text: &str) -> (r: Result<Self, ParseLanguageError>)
        ensures
            match language_refusal(text@) {
                Some(e) => r == Err::<Language, ParseLanguageError>(e),
                None => r matches Ok(v) && v@ == language_canonical(text@),
            },
    {
        let cs = chars_of(text);
        if cs.len() == 0 {
            return Err(ParseLanguageError::Empty);
        }
        if let Some(outside) = non_alphabetic(cs.as_slice()) {
            return Err(ParseLanguageError::NotAlphabetic(outside));
        }
        if cs.len() < 2 {
            return Err(ParseLanguageError::TooShort);
        }
        if cs.len() > 8 {
            return Err(ParseLanguageError::TooLong);
        }
        let lowered = string_of(lower_chars(cs.as_slice()).as_slice());
        let shortest: &str = match registry::alpha3(lowered.as_str()) {
            Some(v) => v,
            None => lowered.as_str(),
        };
        let preferred: &str = match registry::language_preferred(shortest) {
            Some(v) => v,
            None => shortest,
        };
        Ok(Language(String::from_str(preferred)))
    }

    /// The undetermined language, `und` — the value a muxer writes when it looked and could not
    /// tell. A value, and not the absence of one.
    pub fn und() -> (r: Self)
        ensures
            r@ == "und"@,
    {
        Language(String::from_str("und"))
    }

    /// Is this the undetermined language?
    pub fn is_undetermined(&self) -> (r: bool)
        ensures
            r == (self@ == "und"@),
    {
        str_equal(self.0.as_str(), "und")
    }

    /// The canonical subtag, as text.
    pub fn as_str(&self) -> (r: &str)
        ensures
            r@ == self@,
    {
        self.0.as_str()
    }

    /// The canonical subtag, owned.
    pub fn to_string(&self) -> (r: String)
        ensures
            r@ == self@,
    {
        self.0.clone()
    }

    /// The registry's first `Description` for this language, or [`None`] where it registers none.
    pub fn name(&self) -> (r: Option<&'static str>)
        ensures
            r == paired(languages_table(), self@),
    {
        registry::language_name(self.0.as_str())
    }

    /// Does the vendored registry carry this subtag?
    pub fn is_registered(&self) -> (r: bool)
        ensures
            r == paired(languages_table(), self@) is Some,
    {
        self.name().is_some()
    }

    /// Has the registry deprecated this subtag? A canonical value can still be: a deprecated
    /// subtag that names no replacement stays itself.
    pub fn is_deprecated(&self) -> (r: bool)
        ensures
            r == listed(LANGUAGE_DEPRECATED@, self@),
    {
        registry::language_is_deprecated(self.0.as_str())
    }

    /// Does this subtag fall in the range reserved for private use, `qaa` to `qtz`?
    pub fn is_private_use(&self) -> (r: bool)
        ensures
            r == within(LANGUAGE_PRIVATE_USE, self@),
    {
        registry::language_is_private_use(self.0.as_str())
    }

    /// The script this language implies (`Suppress-Script`), where the registry says it implies
    /// one — `Latn` for `en`, and nothing for `zh`.
    pub fn suppressed_script(&self) -> (r: Option<&'static str>)
        ensures
            r == paired(LANGUAGE_SUPPRESS_SCRIPT@, self@),
    {
        registry::language_suppress_script(self.0.as_str())
    }
}

impl Clone for Language {
    fn clone(&self) -> (r: Self)
        ensures
            r@ == self@,
    {
        Language(self.0.clone())
    }
}

impl PartialEq for Language {
    fn eq(&self, other: &Self) -> (r: bool) {
        str_equal(self.0.as_str(), other.0.as_str())
    }
}

impl PartialEqSpecImpl for Language {
    open spec fn obeys_eq_spec() -> bool {
        true
    }

    open spec fn eq_spec(&self, other: &Self) -> bool {
        self@ == other@
    }
}

impl PartialOrd for Language {
    fn partial_cmp(&self, other: &Self) -> (r: Option<Ordering>) {
        Some(compare_text(self.0.as_str(), other.0.as_str()))
    }
}

impl PartialOrdSpecImpl for Language {
    open spec fn obeys_partial_cmp_spec() -> bool {
        true
    }

    /// Alphabetical over the canonical spelling.
    open spec fn partial_cmp_spec(&self, other: &Self) -> Option<Ordering> {
        Some(text_order(self@, other@))
    }
}

impl core::str::FromStr for Language {
    type Err = ParseLanguageError;

    fn from_str(text: &str) -> Result<Self, Self::Err> {
        Language::new(text)
    }
}

impl AsRef<str> for Language {
    fn as_ref(&self) -> &str {
        self.0.as_str()
    }
}

/// A string does not name a language subtag — one variant per way the grammar can fail.
#[derive(Debug, Clone, Copy, PartialEq, Eq, Hash, Structural)]
pub enum ParseLanguageError {
    /// Nothing was sent.
    Empty,
    /// One letter; there is no one-letter language subtag.
    TooShort,
    /// More than eight letters.
    TooLong,
    /// A character that is not an ASCII letter, the first one found.
    NotAlphabetic(char),
}

impl ParseLanguageError {
    /// The sentence this refusal renders.
    pub open spec fn spec_text(self) -> Seq<char> {
        match self {
            ParseLanguageError::Empty => "a language subtag is two to eight letters, and nothing was sent"@,
            ParseLanguageError::TooShort => "a language subtag is at least two letters"@,
            ParseLanguageError::TooLong => "a language subtag is at most eight letters"@,
            ParseLanguageError::NotAlphabetic(c) => "a language subtag is letters, so `"@ + seq![c]
                + "` is not one of its characters"@,
        }
    }

    /// The sentence this refusal renders.
    pub fn to_string(&self) -> (r: String)
        ensures
            r@ == self.spec_text(),
    {
        match self {
            ParseLanguageError::Empty => String::from_str(
                "a language subtag is two to eight letters, and nothing was sent",
            ),
            ParseLanguageError::TooShort => String::from_str(
                "a language subtag is at least two letters",
            ),
            ParseLanguageError::TooLong => String::from_str(
                "a language subtag is at most eight letters",
            ),
            ParseLanguageError::NotAlphabetic(c) => {
                let mut out = String::from_str("a language subtag is letters, so `");
                push_char(&mut out, *c);
                out.append("` is not one of its characters");
                out
            },
        }
    }
}

/// **The language door is idempotent**: the canonical subtag of an admitted text is admitted again
/// and reads back as itself — a stored value never changes meaning on its way back in, and the
/// alpha-3 and `Preferred-Value` folds leave nothing for a second pass to do.
pub proof fn law_language_door_is_idempotent(text: Seq<char>)
    requires
        language_refusal(text) is None,
    ensures
        language_refusal(language_canonical(text)) is None,
        language_canonical(language_canonical(text)) == language_canonical(text),
{
    lemma_alpha3_rows();
    lemma_preferred_rows();
    lemma_first_outside(text, letter_test());
    let lt = lower(text);
    assert forall|k: int| 0 <= k < lt.len() implies is_lower(#[trigger] lt[k]) by {
        let c = text[k];
        assert(letter_test()(c));
        if is_upper(c) {
            assert(((c as u32 + 32) as char) as u32 == c as u32 + 32);
        }
    }
    let a = alpha3_fold(lt);
    lemma_paired(ALPHA3@, lt);
    match paired(ALPHA3@, lt) {
        Some(v) => {
            let i = choose|i: int| 0 <= i < ALPHA3@.len() && #[trigger] ALPHA3@[i].0@ == lt && ALPHA3@[i].1 == v;
            assert(ALPHA3@[i].1@.len() == 2);
            assert forall|k: int| 0 <= k < a.len() implies is_lower(#[trigger] a[k]) by {
                assert(ALPHA3@[i].1@[k] == a[k]);
            }
        },
        None => {},
    }
    assert(2 <= a.len() <= 8);
    lemma_paired(ALPHA3@, a);
    if let Some(v) = paired(ALPHA3@, a) {
        let j = choose|j: int| 0 <= j < ALPHA3@.len() && #[trigger] ALPHA3@[j].0@ == a && ALPHA3@[j].1 == v;
        assert(ALPHA3@[j].0@.len() == 3);
    }
    let c = preferred_fold(a);
    lemma_paired(LANGUAGE_PREFERRED@, a);
    match paired(LANGUAGE_PREFERRED@, a) {
        Some(v) => {
            let i = choose|i: int| 0 <= i < LANGUAGE_PREFERRED@.len() && #[trigger] LANGUAGE_PREFERRED@[i].0@ == a
                && LANGUAGE_PREFERRED@[i].1 == v;
            assert(LANGUAGE_PREFERRED@[i].1@ == c);
        },
        None => {},
    }
    assert(2 <= c.len() <= 8);
    assert(forall|k: int| 0 <= k < c.len() ==> is_lower(#[trigger] c[k]));
    assert(paired(ALPHA3@, c) is None);
    assert(paired(LANGUAGE_PREFERRED@, c) is None);
    assert(lower(c) =~= c);
    assert(language_canonical(text) == c);
    assert(language_canonical(c) == c);
    assert forall|k: int| 0 <= k < c.len() implies letter_test()(#[trigger] c[k]) by {
        assert(is_lower(c[k]));
    }
    lemma_first_outside(c, letter_test());
}

} // verus!

