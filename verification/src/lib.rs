//! Frame primitives, vocabularies and language identity for media descriptors.
use vstd::prelude::*;

pub mod frame;
pub mod image;
pub mod lang;
pub mod order;
pub mod parse;
pub mod pixel_format;
pub mod text;

verus! {

} // verus!
