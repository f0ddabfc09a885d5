//! The composition rules, row by row, and the four seats they fill.

use std::collections::BTreeSet;
use std::str::FromStr;

use mediaframe::lang::registry;
use mediaframe::lang::{
    Language, LanguageId, ParseLanguageError, ParseLanguageIdError, ParseRegionError, Region,
    ScriptSubtag, GRANDFATHERED_MAX,
};

fn door(sent: &str) -> Result<LanguageId, ParseLanguageIdError> {
    LanguageId::new(sent)
}

fn admitted(sent: &str) -> LanguageId {
    door(sent).unwrap_or_else(|refused| panic!("`{sent}` is a language tag: {}", refused.to_string()))
}

fn canonical(sent: &str) -> String {
    admitted(sent).to_string()
}

fn region_shaped(s: &str) -> bool {
    let b = s.as_bytes();
    (b.len() == 2 && b.iter().all(u8::is_ascii_alphabetic))
        || (b.len() == 3 && b.iter().all(u8::is_ascii_digit))
}

fn corpus() -> Vec<String> {
    let mut tags: Vec<String> = Vec::new();

    for (subtag, _) in registry::table::languages() {
        tags.push(String::from(subtag));
    }

    for (subtag, script) in registry::table::LANGUAGE_SUPPRESS_SCRIPT.iter() {
        tags.push(format!("{subtag}-{script}"));
        tags.push(format!("{subtag}-{script}-US"));
        tags.push(format!("{subtag}-{script}-419"));
        tags.push(format!("{subtag}-{script}-Cyrl"));
        tags.push(format!("{subtag}-{script}-{script}"));
        tags.push(format!("{subtag}-{script}-US-Cyrl"));
        tags.push(format!("{subtag}-{script}-1901"));
        tags.push(format!("{subtag}-{script}-x-a"));
        tags.push(format!("{}-{}", subtag.to_uppercase(), script.to_lowercase()));
    }

    for (subtag, _) in registry::table::SCRIPTS.iter() {
        tags.push(format!("zh-{subtag}"));
    }
    for (subtag, _) in registry::table::REGIONS.iter() {
        tags.push(format!("zh-Hans-{subtag}"));
    }

    for (tag, _) in registry::table::GRANDFATHERED.iter() {
        tags.push(String::from(*tag));
    }
    for tag in registry::table::GRANDFATHERED_KEPT.iter() {
        tags.push(String::from(*tag));
    }

    tags.extend(interactions());

    for tag in [
        "en-Latn-Cyrl",
        "en-Latn-Latn",
        "en-Latn",
        "en-Latn-US",
        "en-Latn-US-Cyrl",
        "en-Latn-x-Cyrl",
        "zh_Hans_CN",
        "GER-latn-de",
        "deu-Latn-DE",
        "EN-us",
        "iw-IL",
        "de-BU",
        "und",
        "en-US-posix",
        "de-u-co-phonebk",
        "en-x-lorem",
        "en-US-x-Foo",
        "en-US-x-foo",
        "sl-rozaj-biske",
        "hy-Latn-IT-arevela",
        "en-a-bbb-x-a-ccc",
        "de-CH-1901",
        "en-USA",
        "de-1a1",
        "zh-Hans-XYZ",
        "zh-yue",
        "zh-yue-Hant-HK",
        "xx-yy-zz-bogus",
        "abcd",
        "abcd-Latn",
        "en-abcd",
        "en-Latn-abcd",
        "en-Latn-ABCD",
    ] {
        tags.push(String::from(tag));
    }

    tags
}

fn interactions() -> Vec<String> {
    let mut tags: Vec<String> = Vec::new();

    for tag in registry::table::GRANDFATHERED
        .iter()
        .map(|(tag, _)| *tag)
        .chain(registry::table::GRANDFATHERED_KEPT.iter().copied())
    {
        let (language, after) = tag.split_once('-').unwrap_or((tag, ""));
        let scripts: Vec<Option<&str>> = match registry::language_suppress_script(language) {
            Some(script) => vec![None, Some(script)],
            None => vec![None],
        };

        for spelling in language_preimages(language) {
            for script in scripts.iter().copied() {
                for after in region_preimages(after) {
                    let mut built = spelling.clone();
                    if let Some(script) = script {
                        built.push('-');
                        built.push_str(script);
                    }
                    if !after.is_empty() {
                        built.push('-');
                        built.push_str(&after);
                    }
                    tags.push(built.to_uppercase());
                    tags.push(built);
                }
            }
        }
    }

    let reached: Vec<(&str, &str)> = registry::table::ALPHA3
        .iter()
        .map(|(code, shortest)| (*code, registry::language_preferred(shortest).unwrap_or(shortest)))
        .chain(registry::table::LANGUAGE_PREFERRED.iter().map(|(subtag, preferred)| (*subtag, *preferred)))
        .collect();

    for (sent, folded) in reached {
        let Some(script) = registry::language_suppress_script(folded) else {
            continue;
        };
        tags.push(format!("{sent}-{script}"));
        tags.push(format!("{sent}-{script}-US"));
        tags.push(format!("{sent}-{script}-Cyrl"));
        tags.push(format!("{sent}-{script}-{script}"));
    }

    for (deprecated, _) in registry::table::REGION_PREFERRED.iter() {
        for (subtag, script) in registry::table::LANGUAGE_SUPPRESS_SCRIPT.iter() {
            tags.push(format!("{subtag}-{script}-{deprecated}"));
        }
    }

    tags
}

fn language_preimages(subtag: &str) -> Vec<String> {
    let mut spellings = vec![String::from(subtag)];

    spellings.extend(
        registry::table::LANGUAGE_PREFERRED
            .iter()
            .filter(|(_, preferred)| *preferred == subtag)
            .map(|(deprecated, _)| String::from(*deprecated)),
    );

    let through: Vec<String> = spellings.clone();
    spellings.extend(
        registry::table::ALPHA3
            .iter()
            .filter(|(_, shortest)| through.iter().any(|hop| hop == shortest))
            .map(|(code, _)| String::from(*code)),
    );

    spellings
}

fn region_preimages(after: &str) -> Vec<String> {
    let mut spellings = vec![String::from(after)];

    let (head, rest) = after.split_once('-').unwrap_or((after, ""));
    if !region_shaped(head) {
        return spellings;
    }

    let canonical = head.to_uppercase();
    for (deprecated, preferred) in registry::table::REGION_PREFERRED.iter() {
        if *preferred != canonical {
            continue;
        }
        spellings.push(if rest.is_empty() {
            String::from(*deprecated)
        } else {
            format!("{deprecated}-{rest}")
        });
    }

    spellings
}

#[test]
fn the_tail_is_held_verbatim_and_rendered_back() {
    for tag in [
        "en-US-posix",
        "de-u-co-phonebk",
        "en-x-lorem",
        "sl-rozaj-biske",
        "en-US-x-Foo",
        "hy-Latn-IT-arevela",
    ] {
        assert_eq!(canonical(tag), tag, "`{tag}` did not round-trip");
    }

    let held = admitted("en-US-x-Foo");
    assert_eq!(held.language().as_str(), "en");
    assert_eq!(held.region().as_ref().map(Region::as_str), Some("US"));
    assert_eq!(held.rest(), Some("x-Foo"));
}

#[test]
fn two_spellings_of_one_tail_are_two_values() {
    let upper = admitted("en-US-x-Foo");
    let lower = admitted("en-US-x-foo");

    assert_ne!(upper, lower);
    assert_eq!(upper.language(), lower.language());
    assert_eq!(upper.region(), lower.region());

    assert_eq!(admitted("EN-us-x-Foo"), upper);
}

#[test]
fn an_extlang_rides_the_tail_and_takes_the_later_seats_with_it() {
    let cantonese = admitted("zh-yue");
    assert_eq!(cantonese.language().as_str(), "zh");
    assert_eq!(cantonese.rest(), Some("yue"));
    assert_eq!(cantonese.to_string(), "zh-yue");

    let swallowed = admitted("zh-yue-Hant-HK");
    assert_eq!(swallowed.language().as_str(), "zh");
    assert_eq!(swallowed.script(), None, "the script is IN the tail");
    assert_eq!(swallowed.region(), None);
    assert_eq!(swallowed.rest(), Some("yue-Hant-HK"));
}

#[test]
fn the_grandfathered_table_fits_the_lookup_buffer() {
    let widest = registry::table::GRANDFATHERED
        .iter()
        .map(|(tag, _)| tag.len())
        .chain(registry::table::GRANDFATHERED_KEPT.iter().map(|tag| tag.len()))
        .max()
        .expect("twenty-six of them");

    assert!(
        widest <= GRANDFATHERED_MAX,
        "the widest grandfathered tag is {widest} bytes and the buffer is {}",
        GRANDFATHERED_MAX
    );
}

#[test]
fn a_refusal_names_the_seat_and_carries_its_error() {
    assert_eq!(door(""), Err(ParseLanguageIdError::Empty));
    assert_eq!(door("en-"), Err(ParseLanguageIdError::EmptySubtag));
    assert_eq!(door("en--US"), Err(ParseLanguageIdError::EmptySubtag));
    assert_eq!(door("-en"), Err(ParseLanguageIdError::EmptySubtag));

    assert_eq!(door("e-US"), Err(ParseLanguageIdError::Language(ParseLanguageError::TooShort)));
    assert_eq!(
        door("日本語-JP"),
        Err(ParseLanguageIdError::Language(ParseLanguageError::NotAlphabetic('日')))
    );

    assert_eq!(canonical("zh-Hans-XYZ"), "zh-Hans-XYZ", "the tail took it");
    assert_eq!(canonical("de-1a1"), "de-1a1", "neither two letters nor three digits");
    assert_eq!(admitted("de-1a1").rest(), Some("1a1"));
    assert_eq!(admitted("de-1a1").region(), None);
}

#[test]
fn two_spellings_of_one_identity_are_one_value() {
    let mkv = admitted("GER-latn-de");
    let mp4 = admitted("deu-Latn-DE");
    let bcp47 = admitted("de-DE");

    assert_eq!(mkv, mp4);
    assert_eq!(mp4, bcp47);

    let mut distinct = BTreeSet::new();
    distinct.insert(mkv);
    distinct.insert(mp4);
    distinct.insert(bcp47);
    assert_eq!(distinct.len(), 1, "one identity, one hash bucket");

    assert_ne!(admitted("de"), admitted("de-DE"));
}

#[test]
fn the_region_seats_error_has_a_route_to_the_surface() {
    let refused = ParseLanguageIdError::Region(ParseRegionError::Mixed);
    assert!(refused.to_string().contains("region subtag"));
    assert!(refused.source_text().is_some());

    let language = ParseLanguageIdError::Language(ParseLanguageError::Empty);
    assert!(language.source_text().is_some());
    assert!(ParseLanguageIdError::Empty.source_text().is_none());
}

#[test]
fn a_suppression_that_would_not_reparse_does_not_fire() {
    for (sent, tail, why) in [
        ("en-Latn-Cyrl", "Cyrl", "the tail's head would be read as the script"),
        ("en-Latn-Latn", "Latn", "and the same where the head IS the suppressed script"),
    ] {
        let held = admitted(sent);

        assert_eq!(held.to_string(), sent, "`{sent}` — {why}");
        assert_eq!(held.script().as_ref().map(ScriptSubtag::as_str), Some("Latn"), "`{sent}` — the script is retained");
        assert_eq!(held.region(), None, "`{sent}`");
        assert_eq!(held.rest(), Some(tail), "`{sent}`");

        let rendered = held.to_string();
        assert_eq!(LanguageId::from_str(&rendered).expect("the rendering is a tag"), held);
    }

    let suppressed_text = admitted("en-Cyrl");
    assert_ne!(admitted("en-Latn-Cyrl"), suppressed_text);
    assert_eq!(suppressed_text.script().as_ref().map(ScriptSubtag::as_str), Some("Cyrl"));
    assert_eq!(suppressed_text.rest(), None, "and the tail is gone with it");
    assert_ne!(admitted("en-Latn-Latn"), admitted("en-Latn"));

    assert_eq!(canonical("en-Latn"), "en", "the tail is empty — safe");
    assert_eq!(canonical("en-Latn-US"), "en-US", "the region is a seat — safe");
    assert_eq!(canonical("en-Latn-1901"), "en-1901", "a variant-shaped head is not a script — safe");
    assert_eq!(canonical("en-Latn-x-Cyrl"), "en-x-Cyrl");
    assert_eq!(canonical("en-Latn-US-Cyrl"), "en-Latn-US-Cyrl");
}

#[test]
fn the_composition_folds_grandfathered_tags_and_separators() {
    assert_eq!(canonical("i-klingon"), "tlh");
    assert_eq!(canonical("zh_Hans_CN"), "zh-Hans-CN");
    assert_eq!(canonical("iw-IL"), "he-IL");
    assert_eq!(canonical("de-BU"), "de-MM");
    assert_eq!(LanguageId::default(), admitted("und"));
}

#[test]
fn every_canonicalisation_is_reparse_stable() {
    let mut walked = 0usize;

    for tag in corpus() {
        let Ok(held) = door(&tag) else { continue };
        let rendered = held.to_string();

        let reread = admitted(&rendered);
        assert_eq!(reread, held, "`{tag}` rendered `{rendered}`, which reads back as a different identity");
        assert_eq!(reread.to_string(), rendered, "`{tag}` — the rendering is not a fixed point");
        assert_eq!(
            registry::grandfathered_preferred(&rendered.to_ascii_lowercase()),
            None,
            "`{tag}` rendered `{rendered}`, which the whole-tag table folds again"
        );
        walked += 1;
    }

    assert!(walked > 11_000, "the sweep walked only {walked} tags");
}

#[test]
fn the_door_applies_every_composition_rule_the_ruling_names() {
    for (sent, held, why) in [
        ("zh_Hans_CN", "zh-Hans-CN", "underscores"),
        ("en_US", "en-US", "underscores"),
        ("en-Latn", "en", "`en` implies `Latn`"),
        ("en-Latn-US", "en-US", "and the region survives it"),
        ("fr-latn", "fr", "any case"),
        ("he-Hebr", "he", "not only Latin"),
        ("zh-Hans", "zh-Hans", "`zh` implies nothing"),
        ("zh-Hant", "zh-Hant", "and the two stay apart"),
        ("zh-Hant-TW", "zh-Hant-TW", "with a region beside it"),
        ("i-klingon", "tlh", "grandfathered"),
        ("I-KLINGON", "tlh", "grandfathered, any case"),
        ("zh-guoyu", "cmn", "grandfathered"),
        ("art-lojban", "jbo", "grandfathered"),
        ("no-bok", "nb", "grandfathered"),
        ("en-GB-oed", "en-GB-oxendict", "a multi-subtag preferred value"),
        ("GER-latn-de", "de-DE", "alpha-3, suppression and region case, at once"),
        ("deu-DE", "de-DE", "an mp4's language subtag"),
        ("iw-IL", "he-IL", "a deprecated language"),
        ("de-BU", "de-MM", "a deprecated region"),
        ("EN-us", "en-US", "case on two seats"),
    ] {
        assert_eq!(canonical(sent), held, "`{sent}` — {why}");
    }
}

#[test]
fn each_seat_is_filled_by_the_shape_that_belongs_in_it() {
    let full = admitted("sr-Cyrl-RS");
    assert_eq!(full.language().as_str(), "sr");
    assert_eq!(full.script().as_ref().map(ScriptSubtag::as_str), Some("Cyrl"));
    assert_eq!(full.region().as_ref().map(Region::as_str), Some("RS"));
    assert_eq!(full.rest(), None);

    let bare = admitted("de");
    assert_eq!(bare.language().as_str(), "de");
    assert_eq!(bare.script(), None);
    assert_eq!(bare.region(), None);

    let regional = admitted("de-AT");
    assert_eq!(regional.script(), None);
    assert_eq!(regional.region().as_ref().map(Region::as_str), Some("AT"));

    let area = admitted("es-419");
    assert_eq!(area.region().as_ref().map(Region::as_str), Some("419"));
    assert!(area.region().expect("a region").is_area());
}

#[test]
fn the_tail_admits_what_is_alphanumeric_and_refuses_what_is_not() {
    assert_eq!(canonical("en-USA"), "en-USA", "not a legal variant, and carried");
    assert_eq!(canonical("de-1901"), "de-1901");
    assert_eq!(canonical("en-a-bbb-x-a-ccc"), "en-a-bbb-x-a-ccc");

    assert_eq!(door("en-US-!!"), Err(ParseLanguageIdError::Tail('!')));
    assert_eq!(door("en-US-po six"), Err(ParseLanguageIdError::Tail(' ')));
    assert_eq!(door("en-US-abcdefghi"), Err(ParseLanguageIdError::TailWidth));
    assert!(door("en-US-abcdefgh").is_ok(), "eight is the ceiling");
}

#[test]
fn a_grandfathered_tag_with_no_replacement_falls_through_to_the_ordinary_parse() {
    assert_eq!(canonical("cel-gaulish"), "cel-gaulish");
    assert_eq!(admitted("cel-gaulish").language().as_str(), "cel");
    assert_eq!(admitted("cel-gaulish").rest(), Some("gaulish"));

    assert_eq!(canonical("zh-min"), "zh-min");
    assert_eq!(admitted("zh-min").rest(), Some("min"));

    for refused in ["i-default", "i-mingo", "i-enochian"] {
        assert_eq!(
            door(refused),
            Err(ParseLanguageIdError::Language(ParseLanguageError::TooShort)),
            "`{refused}`"
        );
    }
}

#[test]
fn id_rendering_and_parse_are_inverse() {
    for sent in ["de", "zh-Hans", "en-US", "sr-Cyrl-RS", "en-US-x-Foo", "GER-latn-de", "i-klingon", "zh_Hans_CN"] {
        let held = admitted(sent);
        let rendered = held.to_string();

        assert_eq!(LanguageId::from_str(&rendered).expect("canonical"), held);
        assert_eq!(admitted(&rendered), held, "the door is idempotent");
    }
}

#[test]
fn building_an_identity_by_parts_applies_the_same_rules() {
    let english = Language::new("en").expect("a language");
    assert_eq!(LanguageId::from(english), admitted("en"));

    for (language, script, region, rest) in [
        ("en", Some("Latn"), None, None),
        ("zh", Some("Hans"), None, None),
        ("zh", Some("Hans"), Some("CN"), None),
        ("en", Some("Latn"), Some("US"), None),
        ("de", None, None, Some("1901")),
        ("und", None, None, None),
    ] {
        let mut spelled = String::from(Language::new(language).expect("a language").as_str());
        for part in [script, region, rest].into_iter().flatten() {
            spelled.push('-');
            spelled.push_str(part);
        }
        let held = admitted(&spelled);
        assert_eq!(held.language().as_str(), language);
        assert_eq!(held.region().as_ref().map(Region::as_str), region);
        assert_eq!(held.rest(), rest);
    }
    assert_eq!(admitted("en-Latn").script(), None, "the suppression fired");
    assert_eq!(admitted("zh-Hans").script().as_ref().map(ScriptSubtag::as_str), Some("Hans"));
}

#[test]
fn the_whole_tag_fold_is_applied_until_the_rendering_stops_moving() {
    for (sent, held, through) in [
        ("en-Latn-GB-oed", "en-GB-oxendict", "the suppression drops `Latn` and leaves a grandfathered tag"),
        ("eng-GB-oed", "en-GB-oxendict", "an mp4's alpha-3 reaches the same text"),
        ("ENG-GB-OED", "en-GB-oxendict", "and the case fold is part of the road there"),
        ("nor-bok", "nb", "alpha-3, then the whole tag"),
        ("NOR-BOK", "nb", "the tail keeps its case, and the lookup folds it anyway"),
        ("zho-guoyu", "cmn", "the terminological Chinese"),
        ("chi-guoyu", "cmn", "and the bibliographic one"),
        ("zho-hakka", "hak", "another row of the same table"),
        ("nor-nyn", "nn", "and the sibling of the first"),
    ] {
        assert_eq!(canonical(sent), held, "`{sent}` — {through}");

        let value = admitted(sent);
        assert_eq!(value, admitted(held), "`{sent}` — two identities, not one");
        let mut distinct = BTreeSet::new();
        distinct.insert(value.clone());
        distinct.insert(admitted(held));
        assert_eq!(distinct.len(), 1, "`{sent}`");

        let rendered = value.to_string();
        assert_eq!(admitted(&rendered), value, "`{sent}` — the value moved");
        assert_eq!(admitted(&rendered).to_string(), rendered, "`{sent}` — the text moved");
    }

    assert_eq!(canonical("en-Latn-Cyrl"), "en-Latn-Cyrl");
    assert_eq!(canonical("en-Latn-Latn"), "en-Latn-Latn");

    assert_eq!(canonical("en-GB-oed"), "en-GB-oxendict");
    assert_eq!(canonical("i-klingon"), "tlh");
    assert_eq!(canonical("zh-min"), "zh-min", "kept, so nothing folds");
    assert_eq!(canonical("zho-min"), "zh-min", "a fold that lands on a kept row stops there too");
}

#[test]
fn the_generated_hop_bound_is_the_chain_this_registry_has() {
    let mut deepest = 0usize;
    for (start, preferred) in registry::table::GRANDFATHERED.iter() {
        let held = LanguageId::new(preferred).unwrap_or_else(|refused| {
            panic!("`{start}` prefers `{preferred}`, which the door refuses: {}", refused.to_string())
        });
        let mut chain = 1usize;
        let key = held.to_string().to_ascii_lowercase();
        if registry::grandfathered_preferred(&key).is_some() {
            chain += 1;
        }
        deepest = deepest.max(chain);
    }
    assert_eq!(deepest, registry::MAX_GRANDFATHERED_HOPS);
}

#[test]
fn ordering_walks_the_seats_in_order() {
    let mut sorted = [admitted("de-DE"), admitted("de"), admitted("de-AT"), admitted("zh-Hans"), admitted("zh")];
    sorted.sort();

    let tags: Vec<String> = sorted.iter().map(LanguageId::to_string).collect();
    assert_eq!(tags, ["de", "de-AT", "de-DE", "zh", "zh-Hans"]);
}

#[test]
fn the_default_identity_is_the_undetermined_tag() {
    let default = LanguageId::default();

    assert_eq!(default.to_string(), "und");
    assert!(default.language().is_undetermined());
    assert_eq!(default.script(), None);
    assert_eq!(default.region(), None);
    assert_eq!(default.rest(), None);

    assert_eq!(LanguageId::new("und").expect("a tag"), default);
    assert_eq!(LanguageId::from(Language::und()), default);

    let absent: Option<LanguageId> = None;
    assert_ne!(absent, Some(default), "no tag is not the `und` tag");
}

#[test]
fn the_region_slot_takes_its_subtag_before_a_tail_can_open_with_one() {
    for (sent, region, rest) in [
        ("en-Latn-US", Some("US"), None),
        ("en-Latn-419", Some("419"), None),
        ("en-Latn-US-Cyrl", Some("US"), Some("Cyrl")),
        ("en-US-posix", Some("US"), Some("posix")),
        ("es-419-x-a", Some("419"), Some("x-a")),
        ("zh-Hans-CN-x-a", Some("CN"), Some("x-a")),
    ] {
        let held = admitted(sent);
        assert_eq!(held.region().as_ref().map(Region::as_str), region, "`{sent}` — the region seat");
        assert_eq!(held.rest(), rest, "`{sent}` — the tail begins after it");
    }

    for tag in corpus() {
        let Ok(held) = door(&tag) else { continue };
        if held.region().is_some() {
            continue;
        }
        let Some(rest) = held.rest() else { continue };
        let head = rest.split('-').next().expect("a tail has at least one subtag");
        assert!(!region_shaped(head), "`{tag}` holds an empty region beside a region-shaped tail head `{head}`");
    }
}

#[test]
fn the_stated_order_agrees_with_the_derived_one_seat_by_seat() {
    let tags = ["de", "de-AT", "de-DE", "de-Latf", "de-1901", "de-DE-1901", "zh", "zh-Hans", "zh-Hant-TW", "und"];
    for a in tags {
        for b in tags {
            let (x, y) = (admitted(a), admitted(b));
            assert_eq!(x.partial_cmp(&y), Some(x.cmp(&y)), "`{a}` vs `{b}`");
        }
    }
    assert!(admitted("de") < admitted("de-AT"), "an absent script and region come first");
    assert!(admitted("de-Latf") > admitted("de-DE"), "an absent script sorts before a present one");
}
