//! The order in which a directory's entries are taken: by their names'
//! bytes, as file names compare on Unix.
use vstd::prelude::*;
use vstd::relations::{sorted_by, total_ordering};

verus! {

broadcast use vstd::seq_lib::group_to_multiset_ensures;

/// Whether the name `a` sorts no later than `b`: byte by byte, a prefix
/// first.
pub open spec fn bytes_le(a: Seq<u8>, b: Seq<u8>) -> bool
    decreases a.len(),
{
    if a.len() == 0 {
        true
    } else if b.len() == 0 {
        false
    } else if a[0] != b[0] {
        a[0] < b[0]
    } else {
        bytes_le(a.drop_first(), b.drop_first())
    }
}

/// The order of names, as a relation.
pub open spec fn name_order() -> spec_fn(Seq<u8>, Seq<u8>) -> bool {
    |a: Seq<u8>, b: Seq<u8>| bytes_le(a, b)
}

/// The bytes of each name.
pub open spec fn name_views(v: Seq<Vec<u8>>) -> Seq<Seq<u8>> {
    v.map_values(|n: Vec<u8>| n@)
}

/// `names` in the order they are taken.
pub open spec fn in_name_order(names: Seq<Seq<u8>>) -> Seq<Seq<u8>> {
    names.sort_by(name_order())
}

proof fn lemma_bytes_le_total(a: Seq<u8>, b: Seq<u8>)
    ensures
        bytes_le(a, b) || bytes_le(b, a),
    decreases a.len(),
{
    if a.len() > 0 && b.len() > 0 && a[0] == b[0] {
        lemma_bytes_le_total(a.drop_first(), b.drop_first());
    }
}

proof fn lemma_bytes_le_antisymmetric(a: Seq<u8>, b: Seq<u8>)
    requires
        bytes_le(a, b),
        bytes_le(b, a),
    ensures
        a == b,
    decreases a.len(),
{
    if a.len() > 0 && b.len() > 0 {
        lemma_bytes_le_antisymmetric(a.drop_first(), b.drop_first());
        assert(a =~= seq![a[0]] + a.drop_first());
        assert(b =~= seq![b[0]] + b.drop_first());
    } else {
        assert(a =~= b);
    }
}

proof fn lemma_bytes_le_transitive(a: Seq<u8>, b: Seq<u8>, c: Seq<u8>)
    requires
        bytes_le(a, b),
        bytes_le(b, c),
    ensures
        bytes_le(a, c),
    decreases a.len(),
{
    if a.len() > 0 && b.len() > 0 && c.len() > 0 && a[0] == b[0] && b[0] == c[0] {
        lemma_bytes_le_transitive(a.drop_first(), b.drop_first(), c.drop_first());
    }
}

proof fn lemma_bytes_le_reflexive(a: Seq<u8>)
    ensures
        bytes_le(a, a),
    decreases a.len(),
{
    if a.len() > 0 {
        lemma_bytes_le_reflexive(a.drop_first());
    }
}

/// Names are totally ordered.
pub proof fn lemma_name_order_is_total()
    ensures
        total_ordering(name_order()),
{
    let r = name_order();
    assert forall|a: Seq<u8>| #[trigger] r(a, a) by {
        lemma_bytes_le_reflexive(a);
    }
    assert forall|a: Seq<u8>, b: Seq<u8>| #[trigger] r(a, b) && #[trigger] r(b, a) implies a == b by {
        lemma_bytes_le_antisymmetric(a, b);
    }
    assert forall|a: Seq<u8>, b: Seq<u8>, c: Seq<u8>| #[trigger] r(a, b) && #[trigger] r(b, c) implies r(a, c) by {
        lemma_bytes_le_transitive(a, b, c);
    }
    assert forall|a: Seq<u8>, b: Seq<u8>| #[trigger] r(a, b) || #[trigger] r(b, a) by {
        lemma_bytes_le_total(a, b);
    }
}

/// Whether the name `a` sorts no later than `b`.
pub fn name_le(a: &[u8], b: &[u8]) -> (r: bool)
    ensures
        r == bytes_le(a@, b@),
{
    let mut i: usize = 0;
    assert(a@.skip(0) =~= a@);
    assert(b@.skip(0) =~= b@);
    while i < a.len() && i < b.len()
        invariant
            i <= a@.len(),
            i <= b@.len(),
            a@.subrange(0, i as int) == b@.subrange(0, i as int),
            bytes_le(a@, b@) == bytes_le(a@.skip(i as int), b@.skip(i as int)),
        decreases a@.len() - i,
    {
        if a[i] != b[i] {
            assert(a@.skip(i as int)[0] == a@[i as int]);
            assert(b@.skip(i as int)[0] == b@[i as int]);
            return a[i] < b[i];
        }
        assert(a@.skip(i as int).drop_first() =~= a@.skip(i + 1));
        assert(b@.skip(i as int).drop_first() =~= b@.skip(i + 1));
        assert(a@.subrange(0, i + 1) =~= a@.subrange(0, i as int).push(a@[i as int]));
        assert(b@.subrange(0, i + 1) =~= b@.subrange(0, i as int).push(b@[i as int]));
        i = i + 1;
    }
    assert(i == a@.len() ==> a@.skip(i as int).len() == 0);
    assert(i < a@.len() ==> i == b@.len() && b@.skip(i as int).len() == 0 && a@.skip(i as int).len() > 0);
    i == a.len()
}

/// `names` sorted into the order they are taken in.
pub fn sort_names(names: Vec<Vec<u8>>) -> (r: Vec<Vec<u8>>)
    ensures
        name_views(r@) == in_name_order(name_views(names@)),
{
    let ghost all = name_views(names@);
    let mut out: Vec<Vec<u8>> = Vec::new();
    let mut rest = names;
    let ghost taken: Seq<Seq<u8>> = seq![];
    proof {
        lemma_name_order_is_total();
        assert(name_views(out@) =~= seq![]);
        assert(all =~= name_views(rest@) + taken);
    }
    while rest.len() > 0
        invariant
            total_ordering(name_order()),
            all == name_views(rest@) + taken,
            sorted_by(name_views(out@), name_order()),
            name_views(out@).to_multiset() == taken.to_multiset(),
        decreases rest@.len(),
    {
        let ghost rest_before = name_views(rest@);
        let x = rest.pop().unwrap();
        let ghost xv = x@;
        proof {
            assert(rest_before =~= name_views(rest@).push(xv));
        }
        let ghost before = name_views(out@);
        // The first place where `x` sorts no later than what is there.
        let mut pos: usize = 0;
        while pos < out.len()
            invariant
                pos <= out@.len(),
                before == name_views(out@),
                xv == x@,
                total_ordering(name_order()),
                forall|k: int| 0 <= k < pos ==> bytes_le(#[trigger] before[k], xv),
            ensures
                pos <= out@.len(),
                forall|k: int| 0 <= k < pos ==> bytes_le(#[trigger] before[k], xv),
                pos < out@.len() ==> bytes_le(xv, before[pos as int]),
            decreases out@.len() - pos,
        {
            let le = name_le(x.as_slice(), out[pos].as_slice());
            proof {
                assert(before[pos as int] == out@[pos as int]@);
                lemma_bytes_le_total(xv, before[pos as int]);
            }
            if le {
                break;
            }
            pos = pos + 1;
        }
        out.insert(pos, x);
        proof {
            let after = name_views(out@);
            assert(after =~= before.insert(pos as int, xv));
            assert forall|i: int, j: int| 0 <= i < j < after.len() implies #[trigger] name_order()(
                after[i],
                after[j],
            ) by {
                let r = name_order();
                if j < pos {
                    assert(r(before[i], before[j]));
                } else if j == pos {
                    assert(bytes_le(before[i], xv));
                } else if i < pos {
                    assert(r(before[i], before[j - 1]));
                } else if i == pos {
                    assert(bytes_le(xv, before[pos as int]));
                    if j - 1 > pos {
                        assert(r(before[pos as int], before[j - 1]));
                        lemma_bytes_le_transitive(xv, before[pos as int], before[j - 1]);
                    }
                } else {
                    assert(r(before[i - 1], before[j - 1]));
                }
            }
            vstd::seq_lib::lemma_multiset_commutative(seq![xv], taken);
            assert(taken.push(xv) =~= taken + seq![xv]);
            assert(after.to_multiset() == (seq![xv] + taken).to_multiset());
            assert(all =~= name_views(rest@) + (seq![xv] + taken));
            taken = seq![xv] + taken;
        }
    }
    proof {
        assert(all =~= taken);
        all.lemma_sort_by_ensures(name_order());
        vstd::seq_lib::lemma_sorted_unique(name_views(out@), all.sort_by(name_order()), name_order());
    }
    out
}

/// Every listed entry is taken, once, in name order: the order a listing
/// is taken in holds exactly the names listed, each as often as listed, and
/// each name sorts no later than the ones after it.
pub proof fn lemma_listed_entries_are_taken_once_in_order(names: Seq<Seq<u8>>)
    ensures
        in_name_order(names).to_multiset() == names.to_multiset(),
        forall|i: int, j: int|
            0 <= i < j < in_name_order(names).len() ==> bytes_le(
                #[trigger] in_name_order(names)[i],
                #[trigger] in_name_order(names)[j],
            ),
{
    lemma_name_order_is_total();
    names.lemma_sort_by_ensures(name_order());
    assert forall|i: int, j: int|
        0 <= i < j < in_name_order(names).len() implies bytes_le(
        #[trigger] in_name_order(names)[i],
        #[trigger] in_name_order(names)[j],
    ) by {
        assert(name_order()(in_name_order(names)[i], in_name_order(names)[j]));
    }
}

} // verus!
