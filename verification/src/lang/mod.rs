//! Language identity: the three validated subtag types — [`Language`], [`ScriptSubtag`] and
//! [`Region`] — and the lossless whole tag that composes them, [`LanguageId`], read against the
//! vendored registries in [`registry`].
//!
//! Every canonicalisation happens once, when a value is constructed: two spellings of one identity
//! become one value before anything compares them.
use vstd::prelude::*;

pub mod id;
pub mod language;
pub mod region;
pub mod registry;
pub mod reparse;
pub mod script;

pub use id::{LanguageId, ParseLanguageIdError, GRANDFATHERED_MAX};
pub use language::{Language, ParseLanguageError};
pub use region::{ParseRegionError, Region};
pub use script::{ParseScriptSubtagError, ScriptSubtag};

verus! {

} // verus!
