//! The feature collector.
//!
//! Walks an optional GSUB or GPOS table: every script, every language system
//! of the script plus its default language system, every feature index of the
//! language system. Each index that resolves against the table's feature list
//! contributes its feature's tag; indices that dangle are skipped. The result
//! is deduplicated and sorted: it holds exactly the reachable tags, in
//! strictly ascending lexicographic order.

use vstd::prelude::*;
use crate::model::{
    LangSystem, LayoutTable, ScriptRecord, langsys_has_feature, opt_table_has_feature,
    script_has_feature, table_has_feature,
};
use crate::tags::{Tag, lemma_sorted_tag_set_canonical, sort_tags, strictly_sorted, tags_contain};

verus! {

/// Records a discovered tag, unless it was discovered before.
fn add_tag(acc: &mut Vec<Tag>, tag: Tag)
    ensures
        forall|x: Tag| final(acc)@.contains(x) <==> (old(acc)@.contains(x) || x == tag),
{
    if !tags_contain(acc, &tag) {
        let ghost before = acc@;
        acc.push(tag);
        proof {
            assert forall|x: Tag| acc@.contains(x) implies (before.contains(x) || x == tag) by {
                let w = choose|w: int| 0 <= w < acc@.len() && acc@[w] == x;
                if w < before.len() {
                    assert(before[w] == x);
                }
            }
            assert forall|x: Tag| (before.contains(x) || x == tag) implies acc@.contains(x) by {
                if before.contains(x) {
                    let w = choose|w: int| 0 <= w < before.len() && before[w] == x;
                    assert(acc@[w] == x);
                } else {
                    assert(acc@[acc@.len() - 1] == x);
                }
            }
        }
    }
}

/// Adds to `acc` the tags that the language system `ls` reaches through the
/// feature list `features`, skipping dangling indices and tags already
/// collected.
#[verifier::loop_isolation(false)]
fn add_langsys_features(acc: &mut Vec<Tag>, features: &Vec<Tag>, ls: &LangSystem)
    ensures
        forall|x: Tag| old(acc)@.contains(x) ==> final(acc)@.contains(x),
        forall|x: Tag|
            final(acc)@.contains(x) ==> (old(acc)@.contains(x) || langsys_has_feature(
                features@,
                *ls,
                x,
            )),
        forall|x: Tag| langsys_has_feature(features@, *ls, x) ==> final(acc)@.contains(x),
{
    let ghost acc0 = acc@;
    let mut k: usize = 0;
    while k < ls.feature_indices.len()
        invariant
            k <= ls.feature_indices@.len(),
            forall|x: Tag| acc0.contains(x) ==> acc@.contains(x),
            forall|x: Tag|
                acc@.contains(x) ==> (acc0.contains(x) || langsys_has_feature(features@, *ls, x)),
            forall|w: int|
                0 <= w < k && ls.feature_indices@[w] < features@.len() ==> acc@.contains(
                    features@[ls.feature_indices@[w] as int],
                ),
        decreases ls.feature_indices@.len() - k,
    {
        let idx = ls.feature_indices[k];
        if (idx as usize) < features.len() {
            add_tag(acc, features[idx as usize]);
            proof {
                assert(langsys_has_feature(features@, *ls, features@[idx as int])) by {
                    assert(0 <= k < ls.feature_indices@.len() && ls.feature_indices@[k as int]
                        < features@.len() && features@[ls.feature_indices@[k as int] as int]
                        == features@[idx as int]);
                }
            }
        }
        k += 1;
    }
    proof {
        assert forall|x: Tag| langsys_has_feature(features@, *ls, x) implies acc@.contains(x) by {
            let w = choose|w: int|
                0 <= w < ls.feature_indices@.len() && ls.feature_indices@[w] < features@.len()
                    && features@[ls.feature_indices@[w] as int] == x;
            assert(acc@.contains(features@[ls.feature_indices@[w] as int]));
        }
    }
}

/// Adds to `acc` the tags that the script record `sc` reaches: those of its
/// language systems, and those of its default language system if it has one.
#[verifier::loop_isolation(false)]
fn add_script_features(acc: &mut Vec<Tag>, features: &Vec<Tag>, sc: &ScriptRecord)
    ensures
        forall|x: Tag| old(acc)@.contains(x) ==> final(acc)@.contains(x),
        forall|x: Tag|
            final(acc)@.contains(x) ==> (old(acc)@.contains(x) || script_has_feature(
                features@,
                *sc,
                x,
            )),
        forall|x: Tag| script_has_feature(features@, *sc, x) ==> final(acc)@.contains(x),
{
    let ghost acc0 = acc@;
    let mut li: usize = 0;
    while li < sc.languages.len()
        invariant
            li <= sc.languages@.len(),
            forall|x: Tag| acc0.contains(x) ==> acc@.contains(x),
            forall|x: Tag|
                acc@.contains(x) ==> (acc0.contains(x) || script_has_feature(features@, *sc, x)),
            forall|w: int, x: Tag|
                0 <= w < li && langsys_has_feature(features@, sc.languages@[w], x)
                    ==> acc@.contains(x),
        decreases sc.languages@.len() - li,
    {
        add_langsys_features(acc, features, &sc.languages[li]);
        proof {
            assert forall|x: Tag|
                langsys_has_feature(features@, sc.languages@[li as int], x) implies
                script_has_feature(features@, *sc, x) by {
                assert(0 <= li < sc.languages@.len() && langsys_has_feature(
                    features@,
                    sc.languages@[li as int],
                    x,
                ));
            }
        }
        li += 1;
    }
    let ghost with_langs = acc@;
    if let Some(default_lang) = &sc.default_language {
        add_langsys_features(acc, features, default_lang);
        proof {
            assert(*default_lang == sc.default_language->0);
            assert forall|x: Tag|
                acc@.contains(x) implies (acc0.contains(x) || script_has_feature(
                features@,
                *sc,
                x,
            )) by {
                if !with_langs.contains(x) {
                    assert(langsys_has_feature(features@, sc.default_language->0, x));
                    assert(script_has_feature(features@, *sc, x));
                }
            }
            assert forall|x: Tag|
                script_has_feature(features@, *sc, x) implies acc@.contains(x) by {
                if exists|w: int|
                    0 <= w < sc.languages@.len() && langsys_has_feature(
                        features@,
                        sc.languages@[w],
                        x,
                    ) {
                    let w = choose|w: int|
                        0 <= w < sc.languages@.len() && langsys_has_feature(
                            features@,
                            sc.languages@[w],
                            x,
                        );
                    assert(with_langs.contains(x));
                } else {
                    assert(langsys_has_feature(features@, sc.default_language->0, x));
                }
            }
        }
    } else {
        proof {
            assert forall|x: Tag|
                script_has_feature(features@, *sc, x) implies acc@.contains(x) by {
                let w = choose|w: int|
                    0 <= w < sc.languages@.len() && langsys_has_feature(
                        features@,
                        sc.languages@[w],
                        x,
                    );
                assert(langsys_has_feature(features@, sc.languages@[w], x));
            }
        }
    }
}

/// Collects every feature tag reachable from any script of the table. The
/// result is strictly ascending in the lexicographic order and holds exactly
/// the reachable tags: an absent table, or one whose scripts reach nothing,
/// yields the empty list.
#[verifier::loop_isolation(false)]
pub fn collect_features(table: Option<&LayoutTable>) -> (r: Vec<Tag>)
    ensures
        strictly_sorted(r@),
        forall|x: Tag| r@.contains(x) <==> opt_table_has_feature(table, x),
{
    let mut acc: Vec<Tag> = Vec::new();
    if let Some(t) = table {
        let mut si: usize = 0;
        while si < t.scripts.len()
            invariant
                si <= t.scripts@.len(),
                forall|x: Tag| acc@.contains(x) ==> table_has_feature(t, x),
                forall|w: int, x: Tag|
                    0 <= w < si && script_has_feature(t.features@, t.scripts@[w], x)
                        ==> acc@.contains(x),
            decreases t.scripts@.len() - si,
        {
            add_script_features(&mut acc, &t.features, &t.scripts[si]);
            proof {
                assert forall|x: Tag|
                    script_has_feature(t.features@, t.scripts@[si as int], x) implies
                    table_has_feature(t, x) by {
                    assert(0 <= si < t.scripts@.len() && script_has_feature(
                        t.features@,
                        t.scripts@[si as int],
                        x,
                    ));
                }
            }
            si += 1;
        }
        proof {
            assert forall|x: Tag|
                acc@.contains(x) <==> opt_table_has_feature(table, x) by {
                if table_has_feature(t, x) {
                    let w = choose|w: int|
                        0 <= w < t.scripts@.len() && script_has_feature(
                            t.features@,
                            t.scripts@[w],
                            x,
                        );
                    assert(script_has_feature(t.features@, t.scripts@[w], x));
                }
            }
        }
    } else {
        proof {
            assert forall|x: Tag| !acc@.contains(x) by {
                if acc@.contains(x) {
                    let w = choose|w: int| 0 <= w < acc@.len() && acc@[w] == x;
                }
            }
        }
    }
    sort_tags(&acc)
}

/// Determinism of feature collection: the collector's contract — strictly
/// ascending order together with an exact description of the element set —
/// admits a single output per table, so any two results for the same table
/// are equal.
pub proof fn lemma_feature_collection_deterministic(
    table: Option<&LayoutTable>,
    r1: Seq<Tag>,
    r2: Seq<Tag>,
)
    requires
        strictly_sorted(r1),
        forall|x: Tag| r1.contains(x) <==> opt_table_has_feature(table, x),
        strictly_sorted(r2),
        forall|x: Tag| r2.contains(x) <==> opt_table_has_feature(table, x),
    ensures
        r1 == r2,
{
    lemma_sorted_tag_set_canonical(r1, r2);
}

/// Absent-table equivalence: an absent table and a present table with no
/// scripts reach no feature, so any outputs meeting the collector's contract
/// for the two are both empty — and therefore equal.
pub proof fn lemma_absent_table_equivalence(
    t: &LayoutTable,
    r_absent: Seq<Tag>,
    r_present: Seq<Tag>,
)
    requires
        t.scripts@.len() == 0,
        strictly_sorted(r_absent),
        forall|x: Tag| r_absent.contains(x) <==> opt_table_has_feature(None::<&LayoutTable>, x),
        strictly_sorted(r_present),
        forall|x: Tag| r_present.contains(x) <==> opt_table_has_feature(Some(t), x),
    ensures
        r_absent == r_present,
        r_absent.len() == 0,
{
    assert forall|x: Tag| r_present.contains(x) implies r_absent.contains(x) by {
        assert(table_has_feature(t, x));
    }
    lemma_sorted_tag_set_canonical(r_absent, r_present);
    if r_absent.len() > 0 {
        assert(r_absent.contains(r_absent[0]));
    }
}

/// Dangling-index tolerance, stated on the model: a language system whose
/// every feature index lies at or beyond the end of the feature list reaches
/// no feature, so such indices never show up in a collector's output.
pub proof fn lemma_dangling_indices_excluded(features: Seq<Tag>, ls: LangSystem)
    requires
        forall|k: int|
            0 <= k < ls.feature_indices@.len() ==> ls.feature_indices@[k] >= features.len(),
    ensures
        forall|tag: Tag| !langsys_has_feature(features, ls, tag),
{
}

} // verus!
