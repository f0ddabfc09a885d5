//! The [`Region`] primitive: an ISO 3166-1 country code or a UN M.49 area code, and the error its
//! door refuses with.
use vstd::prelude::*;
use vstd::std_specs::cmp::{PartialEqSpecImpl, PartialOrdSpecImpl};
use core::cmp::Ordering;
use crate::order::{compare_text, text_order};
use super::registry::{
    self, paired, listed, within, lemma_paired, REGION_PRIVATE_USE, REGION_PRIVATE_USE_SUBTAGS,
};
use super::registry::table::{REGIONS, REGION_PREFERRED, REGION_DEPRECATED};
use crate::text::{
    chars_of, upper, upper_chars, non_alphabetic, non_alphanumeric, first_non_alnum, all_letters,
    all_digits, all_digits_exec, string_of, str_equal, push_char, is_upper, is_lower, is_letter,
};

verus! {

/// What the door refuses `text` for, if anything. The character class is read first and the width
/// second: letters that are not two long, digits that are not three long, a character outside the
/// alphanumerics (the first one), or a mixture of letters and digits.
pub open spec fn region_refusal(text: Seq<char>) -> Option<ParseRegionError> {
    if text.len() == 0 {
        Some(ParseRegionError::Empty)
    } else if all_letters(text) {
        if text.len() == 2 {
            None
        } else {
            Some(ParseRegionError::WrongLetterWidth)
        }
    } else if all_digits(text) {
        if text.len() == 3 {
            None
        } else {
            Some(ParseRegionError::WrongDigitWidth)
        }
    } else {
        match first_non_alnum(text) {
            Some(c) => Some(ParseRegionError::NotAlphanumeric(c)),
            None => Some(ParseRegionError::Mixed),
        }
    }
}

/// The canonical spelling of an admitted region subtag: letters upper-cased (digits have no case,
/// and a leading zero is part of the code), then the `Preferred-Value` fold, once.
pub open spec fn region_canonical(text: Seq<char>) -> Seq<char> {
    let cased = if all_letters(text) {
        upper(text)
    } else {
        text
    };
    match paired(REGION_PREFERRED@, cased) {
        Some(v) => v@,
        None => cased,
    }
}

/// A region subtag: an ISO 3166-1 country code (`DE`, `MM`) or a UN M.49 area code (`150`, `419`).
///
/// Read in either grammar and any case; a deprecated region with a single successor folds onto it
/// (`BU` is `MM`). An unregistered subtag of either shape is admitted.
#[derive(Debug, Eq, Hash, Ord)]
pub struct Region(String);

impl View for Region {
    type V = Seq<char>;

    closed spec fn view(&self) -> Seq<char> {
        self.0@
    }
}

impl Region {
    /// Read a region subtag, wide — either grammar, and any case.
    ///
    /// # Errors
    ///
    /// [`ParseRegionError`], naming the rule that refused.
    pub fn new(text: &str) -> (r: Result<Self, ParseRegionError>)
        ensures
            match region_refusal(text@) {
                Some(e) => r == Err::<Region, ParseRegionError>(e),
                None => r matches Ok(v) && v@ == region_canonical(text@),
            },
    {
        let cs = chars_of(text);
        if cs.len() == 0 {
            return Err(ParseRegionError::Empty);
        }
        let letters = non_alphabetic(cs.as_slice()).is_none();
        let digits = all_digits_exec(cs.as_slice());
        let canonical = if letters {
            if cs.len() == 2 {
                string_of(upper_chars(cs.as_slice()).as_slice())
            } else {
                return Err(ParseRegionError::WrongLetterWidth);
            }
        } else if digits {
            if cs.len() == 3 {
                string_of(cs.as_slice())
            } else {
                return Err(ParseRegionError::WrongDigitWidth);
            }
        } else {
            match non_alphanumeric(cs.as_slice()) {
                Some(outside) => return Err(ParseRegionError::NotAlphanumeric(outside)),
                None => return Err(ParseRegionError::Mixed),
            }
        };
        match registry::region_preferred(canonical.as_str()) {
            Some(preferred) => Ok(Region(String::from_str(preferred))),
            None => Ok(Region(canonical)),
        }
    }

    /// The region subtag a muxer writes when it has none to give — `ZZ`.
    pub fn zz() -> (r: Self)
        ensures
            r@ == "ZZ"@,
    {
        Region(String::from_str("ZZ"))
    }

    /// Is this `ZZ`?
    pub fn is_zz(&self) -> (r: bool)
        ensures
            r == (self@ == "ZZ"@),
    {
        str_equal(self.0.as_str(), "ZZ")
    }

    /// The canonical subtag, as text.
    pub fn as_str(&self) -> (r: &str)
        ensures
            r@ == self@,
    {
        self.0.as_str()
    }

    /// The canonical subtag, owned.
    pub fn to_string(&self) -> (r: String)
        ensures
            r@ == self@,
    {
        self.0.clone()
    }

    /// Is this an M.49 area code — three characters — rather than an ISO 3166 country code?
    pub fn is_area(&self) -> (r: bool)
        ensures
            r == (self@.len() == 3),
    {
        chars_of(self.0.as_str()).len() == 3
    }

    /// The registry's own name for this region, or [`None`] where it registers no such subtag.
    pub fn name(&self) -> (r: Option<&'static str>)
        ensures
            r == paired(REGIONS@, self@),
    {
        registry::region_name(self.0.as_str())
    }

    /// Does the vendored registry carry this subtag? Unlike the other two subtag kinds this can be
    /// `true` together with [`is_private_use`](Self::is_private_use): `AA` and `ZZ` are both.
    pub fn is_registered(&self) -> (r: bool)
        ensures
            r == paired(REGIONS@, self@) is Some,
    {
        self.name().is_some()
    }

    /// Has the registry deprecated this subtag?
    pub fn is_deprecated(&self) -> (r: bool)
        ensures
            r == listed(REGION_DEPRECATED@, self@),
    {
        registry::region_is_deprecated(self.0.as_str())
    }

    /// Is this subtag reserved for private use — `QM`..`QZ`, `XA`..`XZ`, `AA` or `ZZ`?
    pub fn is_private_use(&self) -> (r: bool)
        ensures
            r == (listed(REGION_PRIVATE_USE_SUBTAGS@, self@) || exists|i: int|
                0 <= i < REGION_PRIVATE_USE@.len() && within(
                    #[trigger] REGION_PRIVATE_USE@[i],
                    self@,
                )),
    {
        registry::region_is_private_use(self.0.as_str())
    }
}

impl Clone for Region {
    fn clone(&self) -> (r: Self)
        ensures
            r@ == self@,
    {
        Region(self.0.clone())
    }
}

impl PartialEq for Region {
    fn eq(&self, other: &Self) -> (r: bool) {
        str_equal(self.0.as_str(), other.0.as_str())
    }
}

impl PartialEqSpecImpl for Region {
    open spec fn obeys_eq_spec() -> bool {
        true
    }

    open spec fn eq_spec(&self, other: &Self) -> bool {
        self@ == other@
    }
}

impl PartialOrd for Region {
    fn partial_cmp(&self, other: &Self) -> (r: Option<Ordering>) {
        Some(compare_text(self.0.as_str(), other.0.as_str()))
    }
}

impl PartialOrdSpecImpl for Region {
    open spec fn obeys_partial_cmp_spec() -> bool {
        true
    }

    /// Alphabetical over the canonical spelling.
    open spec fn partial_cmp_spec(&self, other: &Self) -> Option<Ordering> {
        Some(text_order(self@, other@))
    }
}

impl core::str::FromStr for Region {
    type Err = ParseRegionError;

    fn from_str(text: &str) -> Result<Self, Self::Err> {
        Region::new(text)
    }
}

impl AsRef<str> for Region {
    fn as_ref(&self) -> &str {
        self.0.as_str()
    }
}

/// A string does not name a region subtag.
#[derive(Debug, Clone, Copy, PartialEq, Eq, Hash, Structural)]
pub enum ParseRegionError {
    /// Nothing was sent.
    Empty,
    /// Letters, but not exactly two.
    WrongLetterWidth,
    /// Digits, but not exactly three.
    WrongDigitWidth,
    /// A character that is neither an ASCII letter nor an ASCII digit, the first one found.
    NotAlphanumeric(char),
    /// Letters and digits together, which is neither grammar.
    Mixed,
}

impl ParseRegionError {
    /// The sentence this refusal renders.
    pub open spec fn spec_text(self) -> Seq<char> {
        match self {
            ParseRegionError::Empty => "a region subtag is two letters or three digits, and nothing was sent"@,
            ParseRegionError::WrongLetterWidth => "a region subtag written in letters is exactly two"@,
            ParseRegionError::WrongDigitWidth => "a region subtag written in digits is exactly three"@,
            ParseRegionError::NotAlphanumeric(c) => "a region subtag is letters or digits, so `"@
                + seq![c] + "` is not one of its characters"@,
            ParseRegionError::Mixed => "a region subtag is two letters or three digits, and never a mixture"@,
        }
    }

    /// The sentence this refusal renders.
    pub fn to_string(&self) -> (r: String)
        ensures
            r@ == self.spec_text(),
    {
        match self {
            ParseRegionError::Empty => String::from_str(
                "a region subtag is two letters or three digits, and nothing was sent",
            ),
            ParseRegionError::WrongLetterWidth => String::from_str(
                "a region subtag written in letters is exactly two",
            ),
            ParseRegionError::WrongDigitWidth => String::from_str(
                "a region subtag written in digits is exactly three",
            ),
            ParseRegionError::NotAlphanumeric(c) => {
                let mut out = String::from_str("a region subtag is letters or digits, so `");
                push_char(&mut out, *c);
                out.append("` is not one of its characters");
                out
            },
            ParseRegionError::Mixed => String::from_str(
                "a region subtag is two letters or three digits, and never a mixture",
            ),
        }
    }
}

/// The six `Preferred-Value` rows: two capitals each side, and no replacement is itself replaced.
pub proof fn lemma_region_preferred_rows()
    ensures
        forall|i: int| 0 <= i < REGION_PREFERRED@.len() ==> {
            let row = #[trigger] REGION_PREFERRED@[i];
            &&& row.0@.len() == 2
            &&& row.1@.len() == 2
            &&& forall|k: int| 0 <= k < 2 ==> is_upper(#[trigger] row.1@[k])
            &&& paired(REGION_PREFERRED@, row.1@) is None
        },
{
    reveal_strlit("BU");
    reveal_strlit("MM");
    reveal_strlit("DD");
    reveal_strlit("DE");
    reveal_strlit("FX");
    reveal_strlit("FR");
    reveal_strlit("TP");
    reveal_strlit("TL");
    reveal_strlit("YD");
    reveal_strlit("YE");
    reveal_strlit("ZR");
    reveal_strlit("CD");
    let t = REGION_PREFERRED@;
    assert(t.len() == 6);
    assert forall|i: int| 0 <= i < t.len() implies paired(t, #[trigger] t[i].1@) is None by {
        lemma_paired(t, t[i].1@);
        if let Some(v) = paired(t, t[i].1@) {
            let j = choose|j: int| 0 <= j < t.len() && #[trigger] t[j].0@ == t[i].1@ && t[j].1 == v;
            assert(t[j].0@[0] == t[i].1@[0] && t[j].0@[1] == t[i].1@[1]);
        }
    }
}

/// **The region door is idempotent**: the canonical text of an admitted region subtag is admitted
/// again, and reads back as itself — in either grammar, and after the `Preferred-Value` fold.
pub proof fn law_region_door_is_idempotent(text: Seq<char>)
    requires
        region_refusal(text) is None,
    ensures
        region_refusal(region_canonical(text)) is None,
        region_canonical(region_canonical(text)) == region_canonical(text),
{
    lemma_region_preferred_rows();
    let t = REGION_PREFERRED@;
    if all_letters(text) {
        let cased = upper(text);
        assert forall|i: int| 0 <= i < cased.len() implies is_upper(#[trigger] cased[i]) by {
            let c = text[i];
            if is_lower(c) {
                assert(((c as u32 - 32) as char) as u32 == c as u32 - 32);
            }
        }
        lemma_paired(t, cased);
        match paired(t, cased) {
            Some(v) => {
                let j = choose|j: int| 0 <= j < t.len() && #[trigger] t[j].0@ == cased && t[j].1 == v;
                let w = t[j].1@;
                assert(is_upper(w[0]) && is_upper(w[1]));
                assert(all_letters(w));
                assert(upper(w) =~= w);
            },
            None => {
                assert(all_letters(cased));
                assert(upper(cased) =~= cased);
            },
        }
    } else {
        assert(all_digits(text) && text.len() == 3);
        lemma_paired(t, text);
        assert(paired(t, text) is None);
        assert(text.len() > 0 && !is_letter(text[0]));
    }
}

} // verus!

