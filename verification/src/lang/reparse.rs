//! Why the canonical text of a [`LanguageId`](super::LanguageId) reads back as the same identity:
//! every seat the door fills is already its own canonical form, in a shape that lands it in the
//! same position again, and the whole-tag table has nothing left to fold.
use vstd::prelude::*;
use super::id::{
    subtags, joined, script_shaped, region_shaped, tail_refusal, IdModel, compose,
    has_empty_subtag, composed, rendering, folds_onto, canonicalized, dashed, language_id,
    lemma_subtags_no_dash, lemma_subtags_dash, lemma_shaped_admitted, lemma_subtags_nonempty,
};
use super::language::{language_refusal, language_canonical, law_language_door_is_idempotent};
use super::script::{script_refusal, law_script_door_is_idempotent};
use super::region::{region_refusal, region_canonical, law_region_door_is_idempotent};
use super::id::ParseLanguageIdError;
use super::registry::{paired, lemma_paired};
use super::registry::table::GRANDFATHERED;
use crate::text::{
    first_index, lemma_first_index, title, lemma_first_outside, letter_test, first_outside,
    all_letters, is_letter, is_digit, alnum_test, lower,
};

verus! {

// ---------------------------------------------------------------------------------------------
// Splitting and joining
// ---------------------------------------------------------------------------------------------
/// No `-` anywhere in `s`.
pub open spec fn undashed(s: Seq<char>) -> bool {
    forall|j: int| 0 <= j < s.len() ==> #[trigger] s[j] != '-'
}

/// No subtag of a tag holds a `-`.
proof fn lemma_subtags_undashed(t: Seq<char>)
    ensures
        forall|i: int| 0 <= i < subtags(t).len() ==> undashed(#[trigger] subtags(t)[i]),
    decreases t.len(),
{
    lemma_first_index(t, '-');
    match first_index(t, '-') {
        None => {},
        Some(i) => {
            let rest = t.subrange(i + 1, t.len() as int);
            lemma_subtags_undashed(rest);
            let head = t.subrange(0, i);
            assert(undashed(head));
            assert forall|k: int| 0 <= k < subtags(t).len() implies undashed(#[trigger] subtags(t)[k]) by {
                if k > 0 {
                    assert(subtags(t)[k] == subtags(rest)[k - 1]);
                }
            }
        },
    }
}

/// Joining reads from the front as well as from the back.
proof fn lemma_joined_front(ps: Seq<Seq<char>>)
    requires
        ps.len() >= 2,
    ensures
        joined(ps) == ps[0] + seq!['-'] + joined(ps.drop_first()),
    decreases ps.len(),
{
    if ps.len() == 2 {
        assert(ps.drop_last() =~= seq![ps[0]]);
        assert(ps.drop_first() =~= seq![ps[1]]);
        assert(joined(ps.drop_last()) == ps[0]);
        assert(joined(ps.drop_first()) == ps[1]);
        assert(joined(ps) == joined(ps.drop_last()) + seq!['-'] + ps.last());
    } else {
        let front = ps.drop_last();
        let back = ps.drop_first();
        lemma_joined_front(front);
        assert(front.drop_first() =~= back.drop_last());
        assert(back.last() == ps.last());
        assert(front[0] == ps[0]);
        assert(joined(ps) == joined(front) + seq!['-'] + ps.last());
        assert(joined(back) == joined(back.drop_last()) + seq!['-'] + back.last());
        assert(ps[0] + seq!['-'] + joined(back.drop_last()) + seq!['-'] + ps.last() =~= ps[0]
            + seq!['-'] + (joined(back.drop_last()) + seq!['-'] + ps.last()));
    }
}

/// Joining the subtags of a tag gives the tag back.
proof fn lemma_joined_subtags(t: Seq<char>)
    ensures
        joined(subtags(t)) == t,
    decreases t.len(),
{
    lemma_first_index(t, '-');
    match first_index(t, '-') {
        None => {},
        Some(i) => {
            let rest = t.subrange(i + 1, t.len() as int);
            lemma_joined_subtags(rest);
            lemma_subtags_nonempty(rest);
            let ps = subtags(t);
            assert(ps =~= seq![t.subrange(0, i)] + subtags(rest));
            assert(ps.drop_first() =~= subtags(rest));
            lemma_joined_front(ps);
            assert(t.subrange(0, i) + seq!['-'] + rest =~= t);
        },
    }
}

/// Splitting subtags that hold no `-` after joining them gives them back.
proof fn lemma_subtags_joined(ps: Seq<Seq<char>>)
    requires
        ps.len() >= 1,
        forall|i: int| 0 <= i < ps.len() ==> undashed(#[trigger] ps[i]),
    ensures
        subtags(joined(ps)) == ps,
    decreases ps.len(),
{
    if ps.len() == 1 {
        assert(undashed(ps[0]));
        lemma_subtags_no_dash(ps[0]);
        assert(seq![ps[0]] =~= ps);
    } else {
        let rest = ps.drop_first();
        assert forall|i: int| 0 <= i < rest.len() implies undashed(#[trigger] rest[i]) by {
            assert(rest[i] == ps[i + 1]);
        }
        lemma_subtags_joined(rest);
        lemma_joined_front(ps);
        assert(undashed(ps[0]));
        let tail = seq!['-'] + joined(rest);
        assert(ps[0] + seq!['-'] + joined(rest) =~= ps[0] + tail);
        lemma_subtags_dash(ps[0], tail);
        assert(tail.drop_first() =~= joined(rest));
        assert(seq![ps[0]] + rest =~= ps);
    }
}

/// Joining two nonempty runs of subtags puts one `-` between them.
proof fn lemma_joined_concat(a: Seq<Seq<char>>, b: Seq<Seq<char>>)
    requires
        a.len() >= 1,
        b.len() >= 1,
    ensures
        joined(a + b) == joined(a) + seq!['-'] + joined(b),
    decreases b.len(),
{
    if b.len() == 1 {
        assert((a + b).drop_last() =~= a);
        assert((a + b).last() == b[0]);
    } else {
        lemma_joined_concat(a, b.drop_last());
        assert((a + b).drop_last() =~= a + b.drop_last());
        assert((a + b).last() == b.last());
        assert(joined(a) + seq!['-'] + joined(b.drop_last()) + seq!['-'] + b.last() =~= joined(a)
            + seq!['-'] + (joined(b.drop_last()) + seq!['-'] + b.last()));
    }
}

// ---------------------------------------------------------------------------------------------
// Seated identities
// ---------------------------------------------------------------------------------------------
/// An identity whose every seat already holds its own canonical form, each in the shape that puts
/// it back in its own position, with the suppression already decided.
pub open spec fn seated(m: IdModel) -> bool {
    &&& language_refusal(m.language) is None
    &&& language_canonical(m.language) == m.language
    &&& (m.script matches Some(s) ==> script_shaped(s) && title(s) == s)
    &&& (m.region matches Some(g) ==> region_shaped(g) && region_canonical(g) == g)
    &&& (m.rest matches Some(t) ==> !has_empty_subtag(subtags(t)) && tail_refusal(subtags(t)) is None)
    &&& (m.script is None && m.region is None && m.rest is Some ==> !script_shaped(
        subtags(m.rest->0)[0],
    ))
    &&& (m.region is None && m.rest is Some ==> !region_shaped(subtags(m.rest->0)[0]))
    &&& compose(m.language, m.script, m.region, m.rest) == m
}

/// What the positional reading of a tag produces is seated.
proof fn lemma_composed_seated(tag: Seq<char>)
    ensures
        composed(tag) matches Ok(m) ==> seated(m),
{
    match composed(tag) {
        Err(_) => {},
        Ok(m) => {
            let ps = subtags(tag);
            lemma_subtags_nonempty(tag);
            lemma_subtags_undashed(tag);
            assert(!has_empty_subtag(ps));
            assert(language_refusal(ps[0]) is None);
            law_language_door_is_idempotent(ps[0]);
            let lang = language_canonical(ps[0]);
            let has_script = ps.len() > 1 && script_shaped(ps[1]);
            let at1: int = if has_script {
                2
            } else {
                1
            };
            let has_region = ps.len() > at1 && region_shaped(ps[at1]);
            let at2: int = if has_region {
                at1 + 1
            } else {
                at1
            };
            let script = if has_script {
                Some(title(ps[1]))
            } else {
                None
            };
            let region = if has_region {
                Some(region_canonical(ps[at1]))
            } else {
                None
            };
            let tail = ps.subrange(at2, ps.len() as int);
            if has_script {
                lemma_shaped_admitted(ps[1]);
                law_script_door_is_idempotent(ps[1]);
                lemma_first_outside(title(ps[1]), letter_test());
            }
            if has_region {
                lemma_shaped_admitted(ps[at1]);
                law_region_door_is_idempotent(ps[at1]);
            }
            if tail.len() == 0 {
                assert(m == compose(lang, script, region, None));
            } else {
                assert(tail_refusal(tail) is None);
                assert(m == compose(lang, script, region, Some(joined(tail))));
                assert forall|i: int| 0 <= i < tail.len() implies undashed(#[trigger] tail[i]) by {
                    assert(tail[i] == ps[at2 + i]);
                }
                lemma_subtags_joined(tail);
                if has_empty_subtag(tail) {
                    let i = choose|i: int| 0 <= i < tail.len() && (#[trigger] tail[i]).len() == 0;
                    assert(ps[at2 + i] == tail[i]);
                }
                assert(tail[0] == ps[at2]);
            }
        },
    }
}

/// The subtags a seated identity renders as, seat by seat.
pub open spec fn seat_parts(m: IdModel) -> Seq<Seq<char>> {
    let a = seq![m.language];
    let b = match m.script {
        Some(s) => a.push(s),
        None => a,
    };
    let c = match m.region {
        Some(g) => b.push(g),
        None => b,
    };
    match m.rest {
        Some(t) => c + subtags(t),
        None => c,
    }
}

/// Every character of `s` is an ASCII letter, when the letter test finds no exception in it.
proof fn lemma_letters_undashed(s: Seq<char>)
    requires
        first_outside(s, letter_test()) is None || all_letters(s),
    ensures
        undashed(s),
        all_letters(s),
{
    lemma_first_outside(s, letter_test());
    assert forall|j: int| 0 <= j < s.len() implies is_letter(#[trigger] s[j]) by {
        if first_outside(s, letter_test()) is None {
            assert(letter_test()(s[j]));
        }
    }
    assert forall|j: int| 0 <= j < s.len() implies #[trigger] s[j] != '-' by {
        assert(is_letter(s[j]));
    }
}

/// The rendering of a seated identity is its seats joined, and splits back into them.
proof fn lemma_rendering_parts(m: IdModel)
    requires
        seated(m),
    ensures
        rendering(m) == joined(seat_parts(m)),
        subtags(rendering(m)) == seat_parts(m),
        seat_parts(m)[0] == m.language,
        m.language.len() >= 2,
        all_letters(m.language),
{
    let a = seq![m.language];
    let b = match m.script {
        Some(s) => a.push(s),
        None => a,
    };
    let c = match m.region {
        Some(g) => b.push(g),
        None => b,
    };
    lemma_letters_undashed(m.language);
    assert(joined(a) == m.language);
    if let Some(s) = m.script {
        assert(b.drop_last() =~= a);
        assert(b.last() == s);
        lemma_letters_undashed(s);
    }
    let rb = match m.script {
        Some(s) => m.language + seq!['-'] + s,
        None => m.language,
    };
    assert(joined(b) == rb);
    if let Some(g) = m.region {
        assert(c.drop_last() =~= b);
        assert(c.last() == g);
        if g.len() == 2 {
            assert forall|j: int| 0 <= j < g.len() implies #[trigger] g[j] != '-' by {
                assert(is_letter(g[j]));
            }
        } else {
            assert forall|j: int| 0 <= j < g.len() implies #[trigger] g[j] != '-' by {
                assert(is_digit(g[j]));
            }
        }
        assert(undashed(g));
    }
    let rc = match m.region {
        Some(g) => rb + seq!['-'] + g,
        None => rb,
    };
    assert(joined(c) == rc);
    assert(forall|i: int| 0 <= i < c.len() ==> undashed(#[trigger] c[i]));
    match m.rest {
        Some(t) => {
            lemma_subtags_nonempty(t);
            lemma_subtags_undashed(t);
            lemma_joined_concat(c, subtags(t));
            lemma_joined_subtags(t);
            let ps = c + subtags(t);
            assert forall|i: int| 0 <= i < ps.len() implies undashed(#[trigger] ps[i]) by {
                if i >= c.len() {
                    assert(ps[i] == subtags(t)[i - c.len()]);
                }
            }
            lemma_subtags_joined(ps);
        },
        None => {
            lemma_subtags_joined(c);
        },
    }
}

/// A seated identity's rendering reads back, positionally, as the same identity.
proof fn lemma_rendering_composed(m: IdModel)
    requires
        seated(m),
    ensures
        composed(rendering(m)) == Ok::<IdModel, ParseLanguageIdError>(m),
{
    lemma_rendering_parts(m);
    let ps = seat_parts(m);
    let a = seq![m.language];
    let b = match m.script {
        Some(s) => a.push(s),
        None => a,
    };
    let c = match m.region {
        Some(g) => b.push(g),
        None => b,
    };
    if let Some(t) = m.rest {
        lemma_subtags_nonempty(t);
        lemma_joined_subtags(t);
        assert forall|i: int| 0 <= i < subtags(t).len() implies #[trigger] ps[c.len() + i] == subtags(t)[i] by {}
    }
    assert(!has_empty_subtag(ps)) by {
        if has_empty_subtag(ps) {
            let i = choose|i: int| 0 <= i < ps.len() && (#[trigger] ps[i]).len() == 0;
            if i >= c.len() {
                let t = m.rest->0;
                assert(ps[i] == subtags(t)[i - c.len()]);
                assert(has_empty_subtag(subtags(t)));
            }
        }
    }
    let has_script = ps.len() > 1 && script_shaped(ps[1]);
    assert(has_script == m.script is Some);
    let at1: int = if has_script {
        2
    } else {
        1
    };
    assert(at1 == b.len());
    let has_region = ps.len() > at1 && region_shaped(ps[at1]);
    assert(has_region == m.region is Some);
    let at2: int = if has_region {
        at1 + 1
    } else {
        at1
    };
    assert(at2 == c.len());
    let tail = ps.subrange(at2, ps.len() as int);
    match m.rest {
        Some(t) => {
            assert(tail =~= subtags(t));
        },
        None => {
            assert(tail.len() == 0);
        },
    }
}

/// The grandfathered rows: every tag the table folds holds a `-` and is at most ten characters
/// wide, and every replacement but one is a single subtag — the one being `en-GB-oxendict`.
proof fn lemma_grandfathered_rows()
    ensures
        forall|i: int| 0 <= i < GRANDFATHERED@.len() ==> {
            let row = #[trigger] GRANDFATHERED@[i];
            &&& !undashed(row.0@)
            &&& row.0@.len() <= 10
            &&& (i != 1 ==> undashed(row.1@))
        },
        GRANDFATHERED@.len() == 21,
        GRANDFATHERED@[1].1@ == "en-GB-oxendict"@,
{
    reveal_strlit("art-lojban");
    reveal_strlit("jbo");
    reveal_strlit("en-gb-oed");
    reveal_strlit("en-GB-oxendict");
    reveal_strlit("i-ami");
    reveal_strlit("ami");
    reveal_strlit("i-bnn");
    reveal_strlit("bnn");
    reveal_strlit("i-hak");
    reveal_strlit("hak");
    reveal_strlit("i-klingon");
    reveal_strlit("tlh");
    reveal_strlit("i-lux");
    reveal_strlit("lb");
    reveal_strlit("i-navajo");
    reveal_strlit("nv");
    reveal_strlit("i-pwn");
    reveal_strlit("pwn");
    reveal_strlit("i-tao");
    reveal_strlit("tao");
    reveal_strlit("i-tay");
    reveal_strlit("tay");
    reveal_strlit("i-tsu");
    reveal_strlit("tsu");
    reveal_strlit("no-bok");
    reveal_strlit("nb");
    reveal_strlit("no-nyn");
    reveal_strlit("nn");
    reveal_strlit("sgn-be-fr");
    reveal_strlit("sfb");
    reveal_strlit("sgn-be-nl");
    reveal_strlit("vgt");
    reveal_strlit("sgn-ch-de");
    reveal_strlit("sgg");
    reveal_strlit("zh-guoyu");
    reveal_strlit("cmn");
    reveal_strlit("zh-hakka");
    reveal_strlit("zh-min-nan");
    reveal_strlit("nan");
    reveal_strlit("zh-xiang");
    reveal_strlit("hsn");
    let g = GRANDFATHERED@;
    assert forall|i: int| 0 <= i < g.len() implies {
        let row = #[trigger] g[i];
        &&& !undashed(row.0@)
        &&& row.0@.len() <= 10
        &&& (i != 1 ==> undashed(row.1@))
    } by {
        if i == 0 {
            assert(g[0].0@[3] == '-');
        } else if i == 1 {
            assert(g[1].0@[2] == '-');
        } else if i == 2 {
            assert(g[2].0@[1] == '-');
        } else if i == 3 {
            assert(g[3].0@[1] == '-');
        } else if i == 4 {
            assert(g[4].0@[1] == '-');
        } else if i == 5 {
            assert(g[5].0@[1] == '-');
        } else if i == 6 {
            assert(g[6].0@[1] == '-');
        } else if i == 7 {
            assert(g[7].0@[1] == '-');
        } else if i == 8 {
            assert(g[8].0@[1] == '-');
        } else if i == 9 {
            assert(g[9].0@[1] == '-');
        } else if i == 10 {
            assert(g[10].0@[1] == '-');
        } else if i == 11 {
            assert(g[11].0@[1] == '-');
        } else if i == 12 {
            assert(g[12].0@[2] == '-');
        } else if i == 13 {
            assert(g[13].0@[2] == '-');
        } else if i == 14 {
            assert(g[14].0@[3] == '-');
        } else if i == 15 {
            assert(g[15].0@[3] == '-');
        } else if i == 16 {
            assert(g[16].0@[3] == '-');
        } else if i == 17 {
            assert(g[17].0@[2] == '-');
        } else if i == 18 {
            assert(g[18].0@[2] == '-');
        } else if i == 19 {
            assert(g[19].0@[2] == '-');
        } else if i == 20 {
            assert(g[20].0@[2] == '-');
        }
        if i != 1 {
            assert forall|j: int| 0 <= j < g[i].1@.len() implies #[trigger] g[i].1@[j] != '-' by {
        if i == 0 {
            assert(g[0].1@.len() == 3);
        } else if i == 2 {
            assert(g[2].1@.len() == 3);
        } else if i == 3 {
            assert(g[3].1@.len() == 3);
        } else if i == 4 {
            assert(g[4].1@.len() == 3);
        } else if i == 5 {
            assert(g[5].1@.len() == 3);
        } else if i == 6 {
            assert(g[6].1@.len() == 2);
        } else if i == 7 {
            assert(g[7].1@.len() == 2);
        } else if i == 8 {
            assert(g[8].1@.len() == 3);
        } else if i == 9 {
            assert(g[9].1@.len() == 3);
        } else if i == 10 {
            assert(g[10].1@.len() == 3);
        } else if i == 11 {
            assert(g[11].1@.len() == 3);
        } else if i == 12 {
            assert(g[12].1@.len() == 2);
        } else if i == 13 {
            assert(g[13].1@.len() == 2);
        } else if i == 14 {
            assert(g[14].1@.len() == 3);
        } else if i == 15 {
            assert(g[15].1@.len() == 3);
        } else if i == 16 {
            assert(g[16].1@.len() == 3);
        } else if i == 17 {
            assert(g[17].1@.len() == 3);
        } else if i == 18 {
            assert(g[18].1@.len() == 3);
        } else if i == 19 {
            assert(g[19].1@.len() == 3);
        } else if i == 20 {
            assert(g[20].1@.len() == 3);
        }
            }
        }
    }
}

/// No `_` anywhere in `s`.
pub open spec fn unscored(s: Seq<char>) -> bool {
    forall|j: int| 0 <= j < s.len() ==> #[trigger] s[j] != '_'
}

/// A tail the envelope admits is letters and digits, subtag by subtag.
proof fn lemma_tail_unscored(ps: Seq<Seq<char>>)
    requires
        tail_refusal(ps) is None,
    ensures
        forall|i: int| 0 <= i < ps.len() ==> unscored(#[trigger] ps[i]),
    decreases ps.len(),
{
    if ps.len() > 0 {
        lemma_tail_unscored(ps.drop_first());
        lemma_first_outside(ps[0], alnum_test());
        assert forall|i: int| 0 <= i < ps.len() implies unscored(#[trigger] ps[i]) by {
            if i == 0 {
                assert forall|j: int| 0 <= j < ps[0].len() implies #[trigger] ps[0][j] != '_' by {
                    assert(alnum_test()(ps[0][j]));
                }
            } else {
                assert(ps[i] == ps.drop_first()[i - 1]);
            }
        }
    }
}

/// Joining subtags that hold no `_` gives a text that holds none.
proof fn lemma_joined_unscored(ps: Seq<Seq<char>>)
    requires
        forall|i: int| 0 <= i < ps.len() ==> unscored(#[trigger] ps[i]),
    ensures
        unscored(joined(ps)),
    decreases ps.len(),
{
    if ps.len() >= 2 {
        let front = ps.drop_last();
        assert forall|i: int| 0 <= i < front.len() implies unscored(#[trigger] front[i]) by {
            assert(front[i] == ps[i]);
        }
        lemma_joined_unscored(front);
        assert(unscored(ps.last()));
        let r = joined(front) + seq!['-'] + ps.last();
        assert forall|j: int| 0 <= j < r.len() implies #[trigger] r[j] != '_' by {
            if j < joined(front).len() {
                assert(r[j] == joined(front)[j]);
            } else if j > joined(front).len() {
                assert(r[j] == ps.last()[j - joined(front).len() - 1]);
            }
        }
    } else if ps.len() == 1 {
        assert(unscored(ps[0]));
    }
}

/// The rendering of a seated identity needs no separator fold.
proof fn lemma_rendering_dashed(m: IdModel)
    requires
        seated(m),
    ensures
        dashed(rendering(m)) == rendering(m),
        rendering(m).len() > 0,
{
    lemma_rendering_parts(m);
    let ps = seat_parts(m);
    let a = seq![m.language];
    let b = match m.script {
        Some(s) => a.push(s),
        None => a,
    };
    let c = match m.region {
        Some(g) => b.push(g),
        None => b,
    };
    if let Some(t) = m.rest {
        lemma_tail_unscored(subtags(t));
    }
    assert forall|i: int| 0 <= i < ps.len() implies unscored(#[trigger] ps[i]) by {
        if i >= c.len() {
            assert(ps[i] == subtags(m.rest->0)[i - c.len()]);
        } else if i == 0 {
            assert forall|j: int| 0 <= j < ps[0].len() implies #[trigger] ps[0][j] != '_' by {
                assert(is_letter(m.language[j]));
            }
        } else if m.script is Some && i == 1 {
            assert forall|j: int| 0 <= j < ps[1].len() implies #[trigger] ps[1][j] != '_' by {
                assert(is_letter(ps[1][j]));
            }
        } else {
            let g = m.region->0;
            assert(ps[i] == g);
            assert forall|j: int| 0 <= j < g.len() implies #[trigger] g[j] != '_' by {
                if g.len() == 2 {
                    assert(is_letter(g[j]));
                } else {
                    assert(is_digit(g[j]));
                }
            }
        }
    }
    lemma_joined_unscored(ps);
    assert(dashed(rendering(m)) =~= rendering(m));
}

/// Reading a single-subtag tag fills the language seat alone.
proof fn lemma_composed_single(p: Seq<char>)
    requires
        undashed(p),
    ensures
        composed(p) matches Ok(m) ==> m.script is None && m.region is None && m.rest is None
            && rendering(m) == m.language,
{
    lemma_subtags_no_dash(p);
}

/// What the whole-tag table folds onto is never folded again.
proof fn lemma_grandfathered_settles(i: int)
    requires
        0 <= i < GRANDFATHERED@.len(),
    ensures
        composed(GRANDFATHERED@[i].1@) matches Ok(m) ==> folds_onto(m) is None,
{
    lemma_grandfathered_rows();
    let g = GRANDFATHERED@;
    let p = g[i].1@;
    match composed(p) {
        Err(_) => {},
        Ok(m) => {
            lemma_composed_seated(p);
            lemma_rendering_parts(m);
            let key = lower(rendering(m));
            lemma_paired(g, key);
            if i != 1 {
                lemma_composed_single(p);
                assert(undashed(key)) by {
                    assert forall|j: int| 0 <= j < key.len() implies #[trigger] key[j] != '-' by {
                        assert(is_letter(m.language[j]));
                    }
                }
                if let Some(v) = folds_onto(m) {
                    let j = choose|j: int| 0 <= j < g.len() && #[trigger] g[j].0@ == key && g[j].1 == v;
                    assert(!undashed(g[j].0@));
                }
            } else {
                reveal_strlit("en-GB-oxendict");
                reveal_strlit("en");
                reveal_strlit("GB");
                reveal_strlit("oxendict");
                let parts = seq!["en"@, "GB"@, "oxendict"@];
                assert forall|k: int| 0 <= k < parts.len() implies undashed(#[trigger] parts[k]) by {}
                lemma_subtags_joined(parts);
                let two = seq!["en"@, "GB"@];
                assert(parts.drop_last() =~= two);
                assert(two.drop_last() =~= seq!["en"@]);
                assert(joined(seq!["en"@]) == "en"@);
                assert(joined(two) == "en"@ + seq!['-'] + "GB"@);
                assert(joined(parts) == joined(two) + seq!['-'] + "oxendict"@);
                assert(joined(parts) =~= p);
                let ps = subtags(p);
                assert(ps == parts);
                assert(!script_shaped(ps[1]));
                assert(region_shaped(ps[1]));
                let tail = ps.subrange(2, 3);
                assert(tail =~= seq!["oxendict"@]);
                assert(m.rest == Some(joined(tail)));
                assert(joined(tail) == "oxendict"@);
                law_region_door_is_idempotent(ps[1]);
                assert(m.region matches Some(r) && r.len() >= 2);
                assert(rendering(m).len() >= 14);
                if let Some(v) = folds_onto(m) {
                    let j = choose|j: int| 0 <= j < g.len() && #[trigger] g[j].0@ == key && g[j].1 == v;
                    assert(g[j].0@.len() <= 10);
                }
            }
        },
    }
}

/// Every identity the door admits is seated, and the whole-tag table leaves it alone.
proof fn lemma_language_id_seated(text: Seq<char>)
    ensures
        language_id(text) matches Ok(m) ==> seated(m) && folds_onto(m) is None,
{
    if text.len() > 0 {
        let tag = dashed(text);
        let first = match paired(GRANDFATHERED@, lower(tag)) {
            Some(p) => composed(p@),
            None => composed(tag),
        };
        lemma_paired(GRANDFATHERED@, lower(tag));
        match paired(GRANDFATHERED@, lower(tag)) {
            Some(p) => lemma_composed_seated(p@),
            None => lemma_composed_seated(tag),
        }
        if let Ok(m0) = first {
            assert(canonicalized(m0, 0) == Ok::<IdModel, ParseLanguageIdError>(m0));
            if let Some(p) = folds_onto(m0) {
                lemma_paired(GRANDFATHERED@, lower(rendering(m0)));
                let j = choose|j: int| 0 <= j < GRANDFATHERED@.len()
                    && #[trigger] GRANDFATHERED@[j].0@ == lower(rendering(m0)) && GRANDFATHERED@[j].1 == p;
                lemma_grandfathered_settles(j);
                lemma_composed_seated(p@);
                if let Ok(m1) = composed(p@) {
                    assert(canonicalized(m1, 0) == Ok::<IdModel, ParseLanguageIdError>(m1));
                }
            }
        }
    }
}

/// **Every canonicalisation is reparse-stable**: the canonical text of an identity the door
/// admitted reads back through the door as that same identity, and it is text the whole-tag table
/// would not fold again — so storing the rendering and reading it back never moves a value.
pub proof fn law_language_id_reparse_stable(text: Seq<char>)
    ensures
        language_id(text) matches Ok(m) ==> language_id(rendering(m)) == Ok::<IdModel, ParseLanguageIdError>(m)
            && folds_onto(m) is None,
{
    lemma_language_id_seated(text);
    if let Ok(m) = language_id(text) {
        lemma_rendering_dashed(m);
        lemma_rendering_composed(m);
        assert(canonicalized(m, 0) == Ok::<IdModel, ParseLanguageIdError>(m));
    }
}

} // verus!
