//! The vendored registries, as questions rather than arrays: is this subtag registered, what is it
//! called, what does it fold onto, what script does it imply.
//!
//! [`table`] is the data; this module holds no language knowledge of its own — only the three
//! shapes every lookup is one of: the second half of the row whose first half is the key, whether
//! a list holds the key, and whether the key falls inside an inclusive range of same-width
//! subtags.
//!
//! Every lookup takes the registry's own case and folds nothing: a language is spelled lower, a
//! script Titlecase and a region UPPER, and each subtag type folds a wide spelling onto that case
//! once, in its own constructor.
use vstd::prelude::*;
use vstd::string::StringSliceAdditionalSpecFns;
use vstd::utf8::encode_utf8;
use crate::text::{str_equal, bytes_le, bytes_at_most};

mod keys;
pub mod table;

pub use keys::{lemma_alpha3_rows, lemma_preferred_rows};

pub use table::{
    FILE_DATE, LANGUAGE_PRIVATE_USE, MAX_GRANDFATHERED_HOPS, REGION_PRIVATE_USE,
    REGION_PRIVATE_USE_SUBTAGS, SCRIPT_PRIVATE_USE,
};
pub use table::language_name;
use table::{
    ALPHA3, GRANDFATHERED, GRANDFATHERED_KEPT, LANGUAGE_DEPRECATED, LANGUAGE_PREFERRED,
    LANGUAGE_SUPPRESS_SCRIPT, REGIONS, REGION_DEPRECATED, REGION_PREFERRED, SCRIPTS,
};

verus! {

/// How many primary language subtags the vendored registry holds, the private-use range excluded.
pub const LANGUAGE_COUNT: usize = 8275;

/// How many script subtags the vendored registry holds, the private-use range excluded.
pub const SCRIPT_COUNT: usize = 224;

/// How many region subtags the vendored registry holds — alpha-2 country codes and M.49 area codes
/// together — the two private-use ranges excluded.
pub const REGION_COUNT: usize = 303;

/// How many whole tags the registry grandfathered, with a replacement and without.
pub const GRANDFATHERED_COUNT: usize = 26;

// ---------------------------------------------------------------------------------------------
// The three shapes
// ---------------------------------------------------------------------------------------------
/// The second half of the first row whose first half is `key`.
pub open spec fn paired(table: Seq<(&'static str, &'static str)>, key: Seq<char>) -> Option<
    &'static str,
>
    decreases table.len(),
{
    if table.len() == 0 {
        None
    } else if table[0].0@ == key {
        Some(table[0].1)
    } else {
        paired(table.drop_first(), key)
    }
}

/// Does the list hold `key`?
pub open spec fn listed(table: Seq<&'static str>, key: Seq<char>) -> bool {
    exists|i: int| 0 <= i < table.len() && #[trigger] table[i]@ == key
}

/// Does `key` fall inside the inclusive range `low..=high` of same-width subtags? Width and order
/// are both taken on the UTF-8 bytes, the relation `str`'s own comparison uses.
pub open spec fn within(range: (&'static str, &'static str), key: Seq<char>) -> bool {
    let k = encode_utf8(key);
    let low = encode_utf8(range.0@);
    let high = encode_utf8(range.1@);
    k.len() == low.len() && bytes_le(low, k) && bytes_le(k, high)
}

pub proof fn lemma_paired(table: Seq<(&'static str, &'static str)>, key: Seq<char>)
    ensures
        match paired(table, key) {
            Some(v) => exists|i: int|
                0 <= i < table.len() && #[trigger] table[i].0@ == key && table[i].1 == v,
            None => forall|i: int| 0 <= i < table.len() ==> #[trigger] table[i].0@ != key,
        },
    decreases table.len(),
{
    if table.len() > 0 {
        lemma_paired(table.drop_first(), key);
        if table[0].0@ != key {
            match paired(table.drop_first(), key) {
                Some(v) => {
                    let i = choose|i: int|
                        0 <= i < table.drop_first().len() && #[trigger] table.drop_first()[i].0@
                            == key && table.drop_first()[i].1 == v;
                    assert(table[i + 1] == table.drop_first()[i]);
                },
                None => {
                    assert forall|i: int| 0 <= i < table.len() implies #[trigger] table[i].0@
                        != key by {
                        if i > 0 {
                            assert(table[i] == table.drop_first()[i - 1]);
                        }
                    }
                },
            }
        }
    }
}

/// Looking a key up in two tables read one after the other.
pub proof fn lemma_paired_concat(
    a: Seq<(&'static str, &'static str)>,
    b: Seq<(&'static str, &'static str)>,
    key: Seq<char>,
)
    ensures
        paired(a + b, key) == (match paired(a, key) {
            Some(v) => Some(v),
            None => paired(b, key),
        }),
    decreases a.len(),
{
    if a.len() == 0 {
        assert(a + b =~= b);
    } else {
        assert((a + b).drop_first() =~= a.drop_first() + b);
        assert((a + b)[0] == a[0]);
        lemma_paired_concat(a.drop_first(), b, key);
    }
}

pub(crate) fn paired_in(table: &[(&'static str, &'static str)], key: &str) -> (r: Option<&'static str>)
    ensures
        r == paired(table@, key@),
{
    let mut i: usize = 0;
    assert(table@.subrange(0, table@.len() as int) =~= table@);
    while i < table.len()
        invariant
            i <= table@.len(),
            paired(table@, key@) == paired(table@.subrange(i as int, table@.len() as int), key@),
        decreases table@.len() - i,
    {
        let row = table[i];
        let ghost rest = table@.subrange(i as int, table@.len() as int);
        assert(rest[0] == row);
        if str_equal(row.0, key) {
            return Some(row.1);
        }
        assert(rest.drop_first() =~= table@.subrange(i + 1, table@.len() as int));
        i = i + 1;
    }
    None
}

fn listed_in(table: &[&'static str], key: &str) -> (r: bool)
    ensures
        r == listed(table@, key@),
{
    let mut i: usize = 0;
    while i < table.len()
        invariant
            i <= table@.len(),
            forall|j: int| 0 <= j < i ==> #[trigger] table@[j]@ != key@,
        decreases table@.len() - i,
    {
        if str_equal(table[i], key) {
            assert(table@[i as int]@ == key@);
            return true;
        }
        i = i + 1;
    }
    false
}

fn within_range(range: (&'static str, &'static str), key: &str) -> (r: bool)
    ensures
        r == within(range, key@),
{
    let k = key.as_bytes();
    let low = range.0.as_bytes();
    let high = range.1.as_bytes();
    k.len() == low.len() && bytes_at_most(low, k) && bytes_at_most(k, high)
}

// ---------------------------------------------------------------------------------------------
// Language
// ---------------------------------------------------------------------------------------------
/// The subtag the registry says to use instead of this one (`Preferred-Value`), or [`None`].
pub fn language_preferred(subtag: &str) -> (r: Option<&'static str>)
    ensures
        r == paired(LANGUAGE_PREFERRED@, subtag@),
{
    paired_in(LANGUAGE_PREFERRED.as_slice(), subtag)
}

/// The script this language implies (`Suppress-Script`), or [`None`].
pub fn language_suppress_script(subtag: &str) -> (r: Option<&'static str>)
    ensures
        r == paired(LANGUAGE_SUPPRESS_SCRIPT@, subtag@),
{
    paired_in(LANGUAGE_SUPPRESS_SCRIPT.as_slice(), subtag)
}

/// Has the registry deprecated this language subtag?
pub fn language_is_deprecated(subtag: &str) -> (r: bool)
    ensures
        r == listed(LANGUAGE_DEPRECATED@, subtag@),
{
    listed_in(LANGUAGE_DEPRECATED.as_slice(), subtag)
}

/// Does this subtag fall in the range reserved for private use, `qaa` to `qtz`?
pub fn language_is_private_use(subtag: &str) -> (r: bool)
    ensures
        r == within(LANGUAGE_PRIVATE_USE, subtag@),
{
    within_range(LANGUAGE_PRIVATE_USE, subtag)
}

/// The shortest BCP 47 spelling of an ISO 639-2 code, or [`None`] where the code is the shortest
/// spelling already or is not a 639-2 code at all.
pub fn alpha3(code: &str) -> (r: Option<&'static str>)
    ensures
        r == paired(ALPHA3@, code@),
{
    paired_in(ALPHA3.as_slice(), code)
}

// ---------------------------------------------------------------------------------------------
// Script
// ---------------------------------------------------------------------------------------------
/// The registry's first `Description` for a script subtag, or [`None`].
pub fn script_name(subtag: &str) -> (r: Option<&'static str>)
    ensures
        r == paired(SCRIPTS@, subtag@),
{
    paired_in(SCRIPTS.as_slice(), subtag)
}

/// Does this subtag fall in the script range reserved for private use, `Qaaa` to `Qabx`?
pub fn script_is_private_use(subtag: &str) -> (r: bool)
    ensures
        r == within(SCRIPT_PRIVATE_USE, subtag@),
{
    within_range(SCRIPT_PRIVATE_USE, subtag)
}

// ---------------------------------------------------------------------------------------------
// Region
// ---------------------------------------------------------------------------------------------
/// The registry's first `Description` for a region subtag, or [`None`].
pub fn region_name(subtag: &str) -> (r: Option<&'static str>)
    ensures
        r == paired(REGIONS@, subtag@),
{
    paired_in(REGIONS.as_slice(), subtag)
}

/// The region the registry says to use instead of this one (`Preferred-Value`), or [`None`].
pub fn region_preferred(subtag: &str) -> (r: Option<&'static str>)
    ensures
        r == paired(REGION_PREFERRED@, subtag@),
{
    paired_in(REGION_PREFERRED.as_slice(), subtag)
}

/// Has the registry deprecated this region subtag?
pub fn region_is_deprecated(subtag: &str) -> (r: bool)
    ensures
        r == listed(REGION_DEPRECATED@, subtag@),
{
    listed_in(REGION_DEPRECATED.as_slice(), subtag)
}

/// Is this a region subtag reserved for private use — individually (`AA`, `ZZ`) or inside one of
/// the two ranges (`QM`..`QZ`, `XA`..`XZ`)?
pub fn region_is_private_use(subtag: &str) -> (r: bool)
    ensures
        r == (listed(REGION_PRIVATE_USE_SUBTAGS@, subtag@) || exists|i: int|
            0 <= i < REGION_PRIVATE_USE@.len() && within(#[trigger] REGION_PRIVATE_USE@[i], subtag@)),
{
    if listed_in(REGION_PRIVATE_USE_SUBTAGS.as_slice(), subtag) {
        return true;
    }
    let mut i: usize = 0;
    while i < REGION_PRIVATE_USE.len()
        invariant
            i <= REGION_PRIVATE_USE@.len(),
            forall|j: int| 0 <= j < i ==> !within(#[trigger] REGION_PRIVATE_USE@[j], subtag@),
        decreases REGION_PRIVATE_USE@.len() - i,
    {
        if within_range(REGION_PRIVATE_USE[i], subtag) {
            return true;
        }
        i = i + 1;
    }
    false
}

// ---------------------------------------------------------------------------------------------
// Grandfathered whole tags
// ---------------------------------------------------------------------------------------------
/// The tag the registry says to use instead of this grandfathered one, or [`None`] — including
/// for every tag that is not grandfathered. Keyed by the lower-cased whole tag.
pub fn grandfathered_preferred(tag: &str) -> (r: Option<&'static str>)
    ensures
        r == paired(GRANDFATHERED@, tag@),
{
    paired_in(GRANDFATHERED.as_slice(), tag)
}

/// Is this whole tag grandfathered, whether or not it names a replacement?
pub fn is_grandfathered(tag: &str) -> (r: bool)
    ensures
        r == (paired(GRANDFATHERED@, tag@) is Some || listed(GRANDFATHERED_KEPT@, tag@)),
{
    grandfathered_preferred(tag).is_some() || listed_in(GRANDFATHERED_KEPT.as_slice(), tag)
}

} // verus!
