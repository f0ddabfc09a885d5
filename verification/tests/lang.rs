//! The three subtag types order as their canonical text does.

use std::collections::BTreeMap;

use mediaframe::lang::registry;
use mediaframe::lang::{Language, Region, ScriptSubtag};

fn agrees<T: Ord + Clone>(held: &[T], text: impl Fn(&T) -> &str) {
    for (at, left) in held.iter().enumerate() {
        for right in &held[at..] {
            assert_eq!(
                left.cmp(right),
                text(left).cmp(text(right)),
                "`{}` vs `{}`: the derived order and the text's part",
                text(left),
                text(right),
            );
            assert_eq!(
                left.partial_cmp(right),
                Some(text(left).cmp(text(right))),
                "`{}` vs `{}`: the stated order and the text's part",
                text(left),
                text(right),
            );
        }
    }
}

#[test]
fn the_derived_order_is_the_texts_order_across_the_registry() {
    let mut languages: BTreeMap<u8, Vec<Language>> = BTreeMap::new();
    for (subtag, _) in registry::table::languages() {
        let held = Language::new(subtag).expect("a registered subtag is a subtag");
        languages.entry(held.as_str().as_bytes()[0]).or_default().push(held);
    }
    for group in languages.values() {
        agrees(group, |held| held.as_str());
    }

    let scripts: Vec<ScriptSubtag> = registry::table::SCRIPTS
        .iter()
        .map(|(subtag, _)| ScriptSubtag::new(subtag).expect("a script"))
        .collect();
    agrees(&scripts, |held| held.as_str());

    let regions: Vec<Region> = registry::table::REGIONS
        .iter()
        .map(|(subtag, _)| Region::new(subtag).expect("a region"))
        .collect();
    agrees(&regions, |held| held.as_str());
}

#[test]
fn a_shorter_subtag_sorts_before_the_longer_one_it_prefixes() {
    let short = Language::new("xy").expect("structurally a language subtag");
    let long = Language::new("xyz").expect("structurally a language subtag");

    assert_eq!(short.as_str(), "xy", "unregistered, so nothing folded it");
    assert_eq!(long.as_str(), "xyz");
    assert!(short < long, "a prefix sorts below any real byte");
    assert_eq!(short.cmp(&long), "xy".cmp("xyz"));

    assert!(
        Region::new("419").expect("a region") < Region::new("AA").expect("a region"),
        "digits sort before letters, on both readings",
    );
}
