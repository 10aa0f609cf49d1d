//! Four-byte tags and their lexicographic order.
//!
//! OpenType identifies scripts and typographic features by tags of exactly
//! four bytes. A `Tag` stores the four bytes directly; the lexicographic
//! order on tags is the usual byte-wise one. This module also provides the
//! sorting step shared by the collectors: an insertion sort that keeps the
//! output strictly ascending, so sorted output can never hold a duplicate.

use vstd::prelude::*;

verus! {

/// A four-byte identifier, as used for OpenType script and feature tags.
#[derive(Clone, Copy, PartialEq, Eq, Structural, Debug)]
pub struct Tag {
    pub b0: u8,
    pub b1: u8,
    pub b2: u8,
    pub b3: u8,
}

impl Tag {
    /// The tag's bytes in order, as a sequence.
    pub open spec fn bytes(self) -> Seq<u8> {
        seq![self.b0, self.b1, self.b2, self.b3]
    }

    pub fn new(b0: u8, b1: u8, b2: u8, b3: u8) -> (t: Tag)
        ensures
            t == (Tag { b0, b1, b2, b3 }),
    {
        Tag { b0, b1, b2, b3 }
    }
}

/// Strict lexicographic order on tags: byte-wise, most significant first.
pub open spec fn tag_lt(a: Tag, b: Tag) -> bool {
    a.b0 < b.b0 || (a.b0 == b.b0 && (a.b1 < b.b1 || (a.b1 == b.b1 && (a.b2 < b.b2 || (a.b2
        == b.b2 && a.b3 < b.b3)))))
}

/// A tag sequence is strictly ascending in the lexicographic order.
pub open spec fn strictly_sorted(s: Seq<Tag>) -> bool {
    forall|i: int, j: int| 0 <= i < j < s.len() ==> tag_lt(s[i], s[j])
}

/// Strict lexicographic order on byte sequences.
pub open spec fn lex_lt(a: Seq<u8>, b: Seq<u8>) -> bool
    decreases a.len(),
{
    if a.len() == 0 {
        b.len() > 0
    } else if b.len() == 0 {
        false
    } else if a[0] != b[0] {
        a[0] < b[0]
    } else {
        lex_lt(a.drop_first(), b.drop_first())
    }
}

/// The order on tags is the lexicographic order on their byte sequences.
pub proof fn lemma_tag_order_is_lexicographic(a: Tag, b: Tag)
    ensures
        tag_lt(a, b) == lex_lt(a.bytes(), b.bytes()),
{
    reveal_with_fuel(lex_lt, 5);
    let a1 = a.bytes().drop_first();
    let b1 = b.bytes().drop_first();
    assert(a1 =~= seq![a.b1, a.b2, a.b3]);
    assert(b1 =~= seq![b.b1, b.b2, b.b3]);
    let a2 = a1.drop_first();
    let b2 = b1.drop_first();
    assert(a2 =~= seq![a.b2, a.b3]);
    assert(b2 =~= seq![b.b2, b.b3]);
    let a3 = a2.drop_first();
    let b3 = b2.drop_first();
    assert(a3 =~= seq![a.b3]);
    assert(b3 =~= seq![b.b3]);
    assert(a3.drop_first() =~= Seq::<u8>::empty());
    assert(b3.drop_first() =~= Seq::<u8>::empty());
}

/// The order is total: two tags are ordered one way, the other way, or equal.
pub proof fn lemma_tag_order_total(a: Tag, b: Tag)
    ensures
        tag_lt(a, b) || tag_lt(b, a) || a == b,
        !(tag_lt(a, b) && tag_lt(b, a)),
        tag_lt(a, b) ==> a != b,
{
}

/// A strictly ascending tag sequence holds no tag twice.
pub proof fn lemma_strictly_sorted_distinct(s: Seq<Tag>)
    requires
        strictly_sorted(s),
    ensures
        forall|i: int, j: int| 0 <= i < s.len() && 0 <= j < s.len() && i != j ==> s[i] != s[j],
{
    assert forall|i: int, j: int|
        0 <= i < s.len() && 0 <= j < s.len() && i != j implies s[i] != s[j] by {
        if i < j {
            assert(tag_lt(s[i], s[j]));
        } else {
            assert(tag_lt(s[j], s[i]));
        }
    }
}

/// Strictly ascending sequences are canonical: two of them holding the same
/// set of tags are the same sequence. This is what makes every collector
/// deterministic — its contract (sortedness plus an exact description of the
/// element set) admits a single output.
pub proof fn lemma_sorted_tag_set_canonical(a: Seq<Tag>, b: Seq<Tag>)
    requires
        strictly_sorted(a),
        strictly_sorted(b),
        forall|t: Tag| a.contains(t) <==> b.contains(t),
    ensures
        a == b,
    decreases a.len(),
{
    if a.len() == 0 {
        if b.len() > 0 {
            assert(a.contains(b[0]));
        }
        assert(a =~= b);
    } else {
        assert(b.contains(a[0]));
        assert(a.contains(b[0]));
        let i = choose|i: int| 0 <= i < a.len() && a[i] == b[0];
        let j = choose|j: int| 0 <= j < b.len() && b[j] == a[0];
        assert(a[0] == b[0]) by {
            if i > 0 {
                assert(tag_lt(a[0], a[i]));
            }
            if j > 0 {
                assert(tag_lt(b[0], b[j]));
            }
        }
        let at = a.drop_first();
        let bt = b.drop_first();
        assert forall|t: Tag| at.contains(t) implies bt.contains(t) by {
            let k = choose|k: int| 0 <= k < at.len() && at[k] == t;
            assert(a[k + 1] == t);
            assert(tag_lt(a[0], t));
            assert(a.contains(t));
            let m = choose|m: int| 0 <= m < b.len() && b[m] == t;
            assert(m != 0);
            assert(bt[m - 1] == t);
        }
        assert forall|t: Tag| bt.contains(t) implies at.contains(t) by {
            let k = choose|k: int| 0 <= k < bt.len() && bt[k] == t;
            assert(b[k + 1] == t);
            assert(tag_lt(b[0], t));
            assert(b.contains(t));
            let m = choose|m: int| 0 <= m < a.len() && a[m] == t;
            assert(m != 0);
            assert(at[m - 1] == t);
        }
        lemma_sorted_tag_set_canonical(at, bt);
        assert(a.len() == b.len());
        assert forall|k: int| 0 <= k < a.len() implies a[k] == b[k] by {
            if k > 0 {
                assert(a[k] == at[k - 1]);
                assert(b[k] == bt[k - 1]);
            }
        }
        assert(a =~= b);
    }
}

/// Decides the strict lexicographic order on tags.
pub fn tag_less(a: &Tag, b: &Tag) -> (r: bool)
    ensures
        r == tag_lt(*a, *b),
{
    if a.b0 != b.b0 {
        a.b0 < b.b0
    } else if a.b1 != b.b1 {
        a.b1 < b.b1
    } else if a.b2 != b.b2 {
        a.b2 < b.b2
    } else {
        a.b3 < b.b3
    }
}

/// Whether `v` already holds the tag `t`.
pub fn tags_contain(v: &Vec<Tag>, t: &Tag) -> (r: bool)
    ensures
        r == v@.contains(*t),
{
    let mut i: usize = 0;
    while i < v.len()
        invariant
            i <= v@.len(),
            forall|j: int| 0 <= j < i ==> v@[j] != *t,
        decreases v@.len() - i,
    {
        if v[i] == *t {
            return true;
        }
        i += 1;
    }
    false
}

/// Inserts `t` into the strictly ascending sequence `v`, keeping it strictly
/// ascending; if `t` is already present nothing changes.
#[verifier::loop_isolation(false)]
fn insert_tag_sorted(v: &mut Vec<Tag>, t: Tag)
    requires
        strictly_sorted(old(v)@),
    ensures
        strictly_sorted(final(v)@),
        forall|x: Tag| final(v)@.contains(x) <==> (old(v)@.contains(x) || x == t),
{
    let mut i: usize = 0;
    while i < v.len() && tag_less(&v[i], &t)
        invariant
            i <= v@.len(),
            forall|j: int| 0 <= j < i ==> tag_lt(v@[j], t),
        decreases v@.len() - i,
    {
        i += 1;
    }
    if i < v.len() && v[i] == t {
        proof {
            assert(v@.contains(t));
        }
        return ;
    }
    proof {
        assert(forall|j: int| i <= j < v@.len() ==> !tag_lt(v@[j], t) && v@[j] != t) by {
            assert forall|j: int| i <= j < v@.len() implies !tag_lt(v@[j], t) && v@[j] != t by {
                if j > i {
                    assert(tag_lt(v@[i as int], v@[j]));
                }
            }
        }
    }
    let ghost before = v@;
    v.insert(i, t);
    proof {
        before.insert_ensures(i as int, t);
        assert forall|p: int, q: int| 0 <= p < q < v@.len() implies tag_lt(v@[p], v@[q]) by {
            if q < i {
                assert(v@[p] == before[p] && v@[q] == before[q]);
            } else if p > i {
                assert(v@[p] == before[p - 1] && v@[q] == before[q - 1]);
            } else if p < i && q == i {
                assert(v@[p] == before[p] && v@[q] == t);
            } else if p == i && q > i {
                assert(v@[p] == t && v@[q] == before[q - 1]);
                lemma_tag_order_total(t, before[q - 1]);
            } else {
                assert(p < i && q > i);
                assert(v@[p] == before[p] && v@[q] == before[q - 1]);
                lemma_tag_order_total(t, before[q - 1]);
            }
        }
        assert forall|x: Tag| v@.contains(x) implies (before.contains(x) || x == t) by {
            let k = choose|k: int| 0 <= k < v@.len() && v@[k] == x;
            if k < i {
                assert(before[k] == x);
            } else if k > i {
                assert(before[k - 1] == x);
            }
        }
        assert forall|x: Tag| before.contains(x) implies v@.contains(x) by {
            let k = choose|k: int| 0 <= k < before.len() && before[k] == x;
            if k < i {
                assert(v@[k] == x);
            } else {
                assert(v@[k + 1] == x);
            }
        }
        assert(v@[i as int] == t);
        assert(v@.contains(t));
    }
}

/// Sorts the collected tags into strictly ascending lexicographic order,
/// discarding duplicates: the result holds exactly the tags of the input.
#[verifier::loop_isolation(false)]
pub fn sort_tags(v: &Vec<Tag>) -> (r: Vec<Tag>)
    ensures
        strictly_sorted(r@),
        forall|x: Tag| r@.contains(x) <==> v@.contains(x),
{
    let mut out: Vec<Tag> = Vec::new();
    let mut i: usize = 0;
    while i < v.len()
        invariant
            i <= v@.len(),
            strictly_sorted(out@),
            forall|x: Tag| out@.contains(x) <==> v@.subrange(0, i as int).contains(x),
        decreases v@.len() - i,
    {
        let ghost prefix = v@.subrange(0, i as int);
        insert_tag_sorted(&mut out, v[i]);
        proof {
            let next = v@.subrange(0, i + 1 as int);
            assert(next.drop_last() =~= prefix);
            assert(next.last() == v@[i as int]);
            assert forall|x: Tag| out@.contains(x) implies next.contains(x) by {
                if prefix.contains(x) {
                    let k = choose|k: int| 0 <= k < prefix.len() && prefix[k] == x;
                    assert(next[k] == x);
                } else {
                    assert(next[i as int] == x);
                }
            }
            assert forall|x: Tag| next.contains(x) implies out@.contains(x) by {
                let k = choose|k: int| 0 <= k < next.len() && next[k] == x;
                if k < i {
                    assert(prefix[k] == x);
                }
            }
        }
        i += 1;
    }
    proof {
        assert(v@.subrange(0, v@.len() as int) =~= v@);
    }
    out
}

} // verus!
