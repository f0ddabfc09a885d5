//! The [`ScriptSubtag`] primitive: an ISO 15924 script subtag in Titlecase, and the error its door
//! refuses with.
use vstd::prelude::*;
use vstd::std_specs::cmp::{PartialEqSpecImpl, PartialOrdSpecImpl};
use core::cmp::Ordering;
use crate::order::{compare_text, text_order};
use super::registry::{self, paired, within, SCRIPT_PRIVATE_USE};
use super::registry::table::SCRIPTS;
use crate::text::{
    chars_of, title, title_chars, non_alphabetic, first_non_letter, string_of, str_equal, push_char,
    lemma_first_outside, letter_test, is_letter, is_upper, is_lower,
};

verus! {

/// What the door refuses `text` for, if anything: nothing sent; a character that is not an ASCII
/// letter (the first one, tested before the width); anything but exactly four letters.
pub open spec fn script_refusal(text: Seq<char>) -> Option<ParseScriptSubtagError> {
    if text.len() == 0 {
        Some(ParseScriptSubtagError::Empty)
    } else {
        match first_non_letter(text) {
            Some(c) => Some(ParseScriptSubtagError::NotAlphabetic(c)),
            None => if text.len() != 4 {
                Some(ParseScriptSubtagError::WrongWidth)
            } else {
                None
            },
        }
    }
}

/// A script subtag as ISO 15924 and the registry spell it: `Latn`, `Hans`, `Zxxx`.
///
/// Read in any case and folded onto Titlecase — the one fold a script has. An unregistered subtag
/// of the right shape is admitted; [`is_registered`](Self::is_registered) says so.
#[derive(Debug, Eq, Hash, Ord)]
pub struct ScriptSubtag(String);

impl View for ScriptSubtag {
    type V = Seq<char>;

    closed spec fn view(&self) -> Seq<char> {
        self.0@
    }
}

impl ScriptSubtag {
    /// Read a script subtag, wide — any case.
    ///
    /// # Errors
    ///
    /// [`ParseScriptSubtagError`], naming the rule that refused.
    pub fn new(text: &str) -> (r: Result<Self, ParseScriptSubtagError>)
        ensures
            match script_refusal(text@) {
                Some(e) => r == Err::<ScriptSubtag, ParseScriptSubtagError>(e),
                None => r matches Ok(v) && v@ == title(text@),
            },
    {
        let cs = chars_of(text);
        if cs.len() == 0 {
            return Err(ParseScriptSubtagError::Empty);
        }
        if let Some(outside) = non_alphabetic(cs.as_slice()) {
            return Err(ParseScriptSubtagError::NotAlphabetic(outside));
        }
        if cs.len() != 4 {
            return Err(ParseScriptSubtagError::WrongWidth);
        }
        Ok(ScriptSubtag(string_of(title_chars(cs.as_slice()).as_slice())))
    }

    /// The script subtag for a document with no writing in it — `Zxxx`.
    pub fn zxxx() -> (r: Self)
        ensures
            r@ == "Zxxx"@,
    {
        ScriptSubtag(String::from_str("Zxxx"))
    }

    /// The script subtag for writing nobody could place — `Zzzz`.
    pub fn zzzz() -> (r: Self)
        ensures
            r@ == "Zzzz"@,
    {
        ScriptSubtag(String::from_str("Zzzz"))
    }

    /// Is this the unwritten-document script, `Zxxx`?
    pub fn is_unwritten(&self) -> (r: bool)
        ensures
            r == (self@ == "Zxxx"@),
    {
        str_equal(self.0.as_str(), "Zxxx")
    }

    /// Is this the uncoded script, `Zzzz`?
    pub fn is_uncoded(&self) -> (r: bool)
        ensures
            r == (self@ == "Zzzz"@),
    {
        str_equal(self.0.as_str(), "Zzzz")
    }

    /// The canonical subtag, as text.
    pub fn as_str(&self) -> (r: &str)
        ensures
            r@ == self@,
    {
        self.0.as_str()
    }

    /// The canonical subtag, owned.
    pub fn to_string(&self) -> (r: String)
        ensures
            r@ == self@,
    {
        self.0.clone()
    }

    /// The registry's own name for this script, or [`None`] where it registers no such subtag.
    pub fn name(&self) -> (r: Option<&'static str>)
        ensures
            r == paired(SCRIPTS@, self@),
    {
        registry::script_name(self.0.as_str())
    }

    /// Does the vendored registry carry this subtag?
    pub fn is_registered(&self) -> (r: bool)
        ensures
            r == paired(SCRIPTS@, self@) is Some,
    {
        self.name().is_some()
    }

    /// Does this subtag fall in the range reserved for private use, `Qaaa` to `Qabx`?
    pub fn is_private_use(&self) -> (r: bool)
        ensures
            r == within(SCRIPT_PRIVATE_USE, self@),
    {
        registry::script_is_private_use(self.0.as_str())
    }
}

impl Clone for ScriptSubtag {
    fn clone(&self) -> (r: Self)
        ensures
            r@ == self@,
    {
        ScriptSubtag(self.0.clone())
    }
}

impl PartialEq for ScriptSubtag {
    fn eq(&self, other: &Self) -> (r: bool) {
        str_equal(self.0.as_str(), other.0.as_str())
    }
}

impl PartialEqSpecImpl for ScriptSubtag {
    open spec fn obeys_eq_spec() -> bool {
        true
    }

    open spec fn eq_spec(&self, other: &Self) -> bool {
        self@ == other@
    }
}

impl PartialOrd for ScriptSubtag {
    fn partial_cmp(&self, other: &Self) -> (r: Option<Ordering>) {
        Some(compare_text(self.0.as_str(), other.0.as_str()))
    }
}

impl PartialOrdSpecImpl for ScriptSubtag {
    open spec fn obeys_partial_cmp_spec() -> bool {
        true
    }

    /// Alphabetical over the canonical spelling.
    open spec fn partial_cmp_spec(&self, other: &Self) -> Option<Ordering> {
        Some(text_order(self@, other@))
    }
}

impl core::str::FromStr for ScriptSubtag {
    type Err = ParseScriptSubtagError;

    fn from_str(text: &str) -> Result<Self, Self::Err> {
        ScriptSubtag::new(text)
    }
}

impl AsRef<str> for ScriptSubtag {
    fn as_ref(&self) -> &str {
        self.0.as_str()
    }
}

/// A string does not name a script subtag.
#[derive(Debug, Clone, Copy, PartialEq, Eq, Hash, Structural)]
pub enum ParseScriptSubtagError {
    /// Nothing was sent.
    Empty,
    /// Not exactly four letters.
    WrongWidth,
    /// A character that is not an ASCII letter, the first one found.
    NotAlphabetic(char),
}

impl ParseScriptSubtagError {
    /// The sentence this refusal renders.
    pub open spec fn spec_text(self) -> Seq<char> {
        match self {
            ParseScriptSubtagError::Empty => "a script subtag is four letters, and nothing was sent"@,
            ParseScriptSubtagError::WrongWidth => "a script subtag is exactly four letters"@,
            ParseScriptSubtagError::NotAlphabetic(c) => "a script subtag is letters, so `"@ + seq![c]
                + "` is not one of its characters"@,
        }
    }

    /// The sentence this refusal renders.
    pub fn to_string(&self) -> (r: String)
        ensures
            r@ == self.spec_text(),
    {
        match self {
            ParseScriptSubtagError::Empty => String::from_str(
                "a script subtag is four letters, and nothing was sent",
            ),
            ParseScriptSubtagError::WrongWidth => String::from_str(
                "a script subtag is exactly four letters",
            ),
            ParseScriptSubtagError::NotAlphabetic(c) => {
                let mut out = String::from_str("a script subtag is letters, so `");
                push_char(&mut out, *c);
                out.append("` is not one of its characters");
                out
            },
        }
    }
}

/// **The script door is idempotent**: the Titlecase text of an admitted script subtag is admitted
/// again, and reads back as itself — so a stored subtag never changes meaning on its way back in.
pub proof fn law_script_door_is_idempotent(text: Seq<char>)
    requires
        script_refusal(text) is None,
    ensures
        script_refusal(title(text)) is None,
        title(title(text)) == title(text),
{
    lemma_first_outside(text, letter_test());
    let t = title(text);
    assert forall|i: int| 0 <= i < t.len() implies is_letter(#[trigger] t[i]) && (i == 0 ==> is_upper(t[i]))
        && (i > 0 ==> is_lower(t[i])) by {
        let c = text[i];
        assert(letter_test()(c));
        if is_lower(c) {
            assert(((c as u32 - 32) as char) as u32 == c as u32 - 32);
        }
        if is_upper(c) {
            assert(((c as u32 + 32) as char) as u32 == c as u32 + 32);
        }
    }
    lemma_first_outside(t, letter_test());
    assert(title(t) =~= t);
}

} // verus!

