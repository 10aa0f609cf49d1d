//! The script collector.
//!
//! Walks the script lists of the GSUB and GPOS tables and merges both into
//! one set: a script is supported if it appears in either table. As with the
//! feature collector, the result is deduplicated and sorted.

use vstd::prelude::*;
use crate::model::{LayoutTable, opt_table_has_script, table_has_script};
use crate::tags::{Tag, lemma_sorted_tag_set_canonical, sort_tags, strictly_sorted, tags_contain};

verus! {

/// Records a discovered script tag, unless it was discovered before.
fn add_script_tag(acc: &mut Vec<Tag>, tag: Tag)
    ensures
        forall|x: Tag| final(acc)@.contains(x) <==> (old(acc)@.contains(x) || x == tag),
{
    if !tags_contain(acc, &tag) {
        let ghost before = acc@;
        acc.push(tag);
        proof {
            assert forall|x: Tag| acc@.contains(x) implies (before.contains(x) || x == tag) by {
                let w = choose|w: int| 0 <= w < acc@.len() && acc@[w] == x;
                if w < before.len() {
                    assert(before[w] == x);
                }
            }
            assert forall|x: Tag| (before.contains(x) || x == tag) implies acc@.contains(x) by {
                if before.contains(x) {
                    let w = choose|w: int| 0 <= w < before.len() && before[w] == x;
                    assert(acc@[w] == x);
                } else {
                    assert(acc@[acc@.len() - 1] == x);
                }
            }
        }
    }
}

/// Adds every script tag of the table's script list to `acc`.
#[verifier::loop_isolation(false)]
fn add_table_scripts(acc: &mut Vec<Tag>, t: &LayoutTable)
    ensures
        forall|x: Tag| old(acc)@.contains(x) ==> final(acc)@.contains(x),
        forall|x: Tag|
            final(acc)@.contains(x) ==> (old(acc)@.contains(x) || table_has_script(t, x)),
        forall|x: Tag| table_has_script(t, x) ==> final(acc)@.contains(x),
{
    let ghost acc0 = acc@;
    let mut si: usize = 0;
    while si < t.scripts.len()
        invariant
            si <= t.scripts@.len(),
            forall|x: Tag| acc0.contains(x) ==> acc@.contains(x),
            forall|x: Tag| acc@.contains(x) ==> (acc0.contains(x) || table_has_script(t, x)),
            forall|w: int| 0 <= w < si ==> acc@.contains(t.scripts@[w].tag),
        decreases t.scripts@.len() - si,
    {
        add_script_tag(acc, t.scripts[si].tag);
        proof {
            assert(table_has_script(t, t.scripts@[si as int].tag)) by {
                assert(0 <= si < t.scripts@.len());
            }
        }
        si += 1;
    }
    proof {
        assert forall|x: Tag| table_has_script(t, x) implies acc@.contains(x) by {
            let w = choose|w: int| 0 <= w < t.scripts@.len() && t.scripts@[w].tag == x;
            assert(acc@.contains(t.scripts@[w].tag));
        }
    }
}

/// Collects the script tags of both tables into one combined set: exactly
/// the tags appearing in the script list of either table, in strictly
/// ascending lexicographic order. Absent tables contribute nothing.
pub fn collect_scripts(gsub: Option<&LayoutTable>, gpos: Option<&LayoutTable>) -> (r: Vec<Tag>)
    ensures
        strictly_sorted(r@),
        forall|x: Tag|
            r@.contains(x) <==> (opt_table_has_script(gsub, x) || opt_table_has_script(gpos, x)),
{
    let mut acc: Vec<Tag> = Vec::new();
    proof {
        assert forall|x: Tag| !acc@.contains(x) by {
            if acc@.contains(x) {
                let w = choose|w: int| 0 <= w < acc@.len() && acc@[w] == x;
            }
        }
    }
    if let Some(t) = gsub {
        add_table_scripts(&mut acc, t);
    }
    proof {
        assert(forall|x: Tag| acc@.contains(x) <==> opt_table_has_script(gsub, x));
    }
    let ghost after_gsub = acc@;
    if let Some(t) = gpos {
        add_table_scripts(&mut acc, t);
        proof {
            assert forall|x: Tag|
                acc@.contains(x) <==> (opt_table_has_script(gsub, x) || opt_table_has_script(
                    gpos,
                    x,
                )) by {
                assert(acc@.contains(x) <==> (after_gsub.contains(x) || table_has_script(t, x)));
                assert(after_gsub.contains(x) <==> opt_table_has_script(gsub, x));
            }
        }
    } else {
        proof {
            assert forall|x: Tag|
                acc@.contains(x) <==> (opt_table_has_script(gsub, x) || opt_table_has_script(
                    gpos,
                    x,
                )) by {
                assert(acc@ == after_gsub);
            }
        }
    }
    sort_tags(&acc)
}

/// Determinism of script collection: the collector's contract admits a single
/// output per pair of tables, so any two results for the same pair are equal.
pub proof fn lemma_script_collection_deterministic(
    gsub: Option<&LayoutTable>,
    gpos: Option<&LayoutTable>,
    r1: Seq<Tag>,
    r2: Seq<Tag>,
)
    requires
        strictly_sorted(r1),
        forall|x: Tag|
            r1.contains(x) <==> (opt_table_has_script(gsub, x) || opt_table_has_script(gpos, x)),
        strictly_sorted(r2),
        forall|x: Tag|
            r2.contains(x) <==> (opt_table_has_script(gsub, x) || opt_table_has_script(gpos, x)),
    ensures
        r1 == r2,
{
    lemma_sorted_tag_set_canonical(r1, r2);
}

} // verus!
