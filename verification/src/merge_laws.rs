//! What merging blocks with identical entries gives, stated directly.

use vstd::prelude::*;
use crate::config_host::HostModel;
use crate::host_vec::{last_same_before, merge_from, merge_pair, merge_step, merged_hosts, same_entries};

verus! {

/// No block records a multi-valued keyword.
pub open spec fn without_accumulated(hs: Seq<HostModel>) -> bool {
    forall|k: int| 0 <= k < hs.len() ==> #[trigger] hs[k].multi_entries == Map::<
        crate::entry_type::EntryType,
        Seq<Seq<char>>,
    >::empty()
}

/// The patterns of the blocks with the same entries as `b`, in order.
pub open spec fn class_patterns(hs: Seq<HostModel>, b: HostModel) -> Seq<Seq<char>>
    decreases hs.len(),
{
    if hs.len() == 0 {
        seq![]
    } else if same_entries(hs.last(), b) {
        class_patterns(hs.drop_last(), b) + hs.last().patterns
    } else {
        class_patterns(hs.drop_last(), b)
    }
}

proof fn lemma_last_same_before_agree(a: Seq<HostModel>, c: Seq<HostModel>, i: int, j: int)
    requires
        0 <= j <= i < a.len(),
        i < c.len(),
        forall|k: int| 0 <= k <= i ==> a[k] == c[k],
    ensures
        last_same_before(a, i, j) == last_same_before(c, i, j),
    decreases j,
{
    if j > 0 {
        lemma_last_same_before_agree(a, c, i, j - 1);
    }
}

/// What `last_same_before` finds: the nearest earlier block with the same
/// entries, or that there is none.
proof fn lemma_last_same_before(hs: Seq<HostModel>, i: int, j: int)
    requires
        0 <= j <= i < hs.len(),
    ensures
        match last_same_before(hs, i, j) {
            Some(k) => 0 <= k < j && same_entries(hs[i], hs[k]) && forall|m: int|
                k < m < j ==> !same_entries(hs[i], #[trigger] hs[m]),
            None => forall|m: int| 0 <= m < j ==> !same_entries(hs[i], #[trigger] hs[m]),
        },
    decreases j,
{
    if j > 0 {
        lemma_last_same_before(hs, i, j - 1);
    }
}

/// Merge steps below the length of a prefix leave what follows it alone.
proof fn lemma_merge_from_prefix(a: Seq<HostModel>, b: Seq<HostModel>, n: nat)
    requires
        n <= a.len(),
    ensures
        merge_from(a + b, n) == merge_from(a, n) + b,
    decreases n,
{
    if n > 0 {
        let i = n - 1;
        let ab = a + b;
        lemma_last_same_before_agree(ab, a, i, i);
        lemma_last_same_before(a, i, i);
        let sa = merge_step(a, i);
        match last_same_before(a, i, i) {
            Some(j) => {
                assert(merge_step(ab, i) =~= sa + b);
            },
            None => {
                assert(merge_step(ab, i) == ab);
            },
        }
        lemma_merge_from_prefix(sa, b, (n - 1) as nat);
    } else {
        assert(merge_from(a + b, 0) == a + b);
    }
}

/// Merging the blocks comes down to folding the last block into the nearest
/// earlier block with the same entries, or keeping it last.
proof fn lemma_merged_last(hs: Seq<HostModel>)
    requires
        hs.len() > 0,
    ensures
        merged_hosts(hs) == (match last_same_before(hs, hs.len() - 1, hs.len() - 1) {
            Some(j) => merged_hosts(hs.drop_last().update(j, merge_pair(hs[j], hs.last()))),
            None => merged_hosts(hs.drop_last()).push(hs.last()),
        }),
{
    let i = hs.len() - 1;
    let p = hs.drop_last();
    lemma_last_same_before(hs, i, i);
    match last_same_before(hs, i, i) {
        Some(j) => {
            assert(hs.update(j, merge_pair(hs[j], hs[i])).remove(i) =~= p.update(
                j,
                merge_pair(hs[j], hs.last()),
            ));
        },
        None => {
            assert(hs =~= p + seq![hs.last()]);
            lemma_merge_from_prefix(p, seq![hs.last()], i as nat);
            assert(merged_hosts(p) + seq![hs.last()] =~= merged_hosts(p).push(hs.last()));
        },
    }
}

proof fn lemma_class_empty(hs: Seq<HostModel>, b: HostModel)
    requires
        forall|k: int| 0 <= k < hs.len() ==> !same_entries(#[trigger] hs[k], b),
    ensures
        class_patterns(hs, b) == Seq::<Seq<char>>::empty(),
    decreases hs.len(),
{
    if hs.len() > 0 {
        assert(!same_entries(hs[hs.len() - 1], b));
        lemma_class_empty(hs.drop_last(), b);
    }
}

/// Folding block `x` of the same entries into block `j`, the last block of
/// its class, adds `x`'s patterns at the end of the class.
proof fn lemma_class_after_fold(p: Seq<HostModel>, j: int, x: HostModel, b: HostModel)
    requires
        0 <= j < p.len(),
        same_entries(p[j], x),
        p[j].multi_entries == Map::<crate::entry_type::EntryType, Seq<Seq<char>>>::empty(),
        forall|m: int| j < m < p.len() ==> !same_entries(x, #[trigger] p[m]),
    ensures
        class_patterns(p.update(j, merge_pair(p[j], x)), b) == (if same_entries(x, b) {
            class_patterns(p, b) + x.patterns
        } else {
            class_patterns(p, b)
        }),
    decreases p.len(),
{
    let y = merge_pair(p[j], x);
    let u = p.update(j, y);
    assert(y.entries =~= p[j].entries);
    assert(y.multi_entries =~= p[j].multi_entries);
    assert(same_entries(y, p[j]));
    if j == p.len() - 1 {
        assert(u.drop_last() =~= p.drop_last());
        assert(u.last() == y);
        assert(class_patterns(p.drop_last(), b) + p[j].patterns + x.patterns =~= class_patterns(
            p.drop_last(),
            b,
        ) + (p[j].patterns + x.patterns));
    } else {
        assert(u.drop_last() =~= p.drop_last().update(j, y));
        assert(p.drop_last()[j] == p[j]);
        lemma_class_after_fold(p.drop_last(), j, x, b);
        assert(u.last() == p.last());
        assert(!same_entries(x, p[p.len() - 1]));
        if same_entries(x, b) {
            assert(!same_entries(p.last(), b));
        }
    }
}

/// Some block of `bs` has the entries of `b`.
#[verifier::opaque]
pub open spec fn entries_occur(bs: Seq<HostModel>, b: HostModel) -> bool {
    exists|k: int| 0 <= k < bs.len() && same_entries(#[trigger] bs[k], b)
}

/// What merging gives `m` for `hs`: no multi-valued keyword; no two blocks
/// of `m` with the same entries; every block of `m` has the entries of a
/// block of `hs` and every block of `hs` the entries of a block of `m`; and
/// each block of `m` holds the patterns of all blocks of `hs` with its
/// entries, in their order.
pub open spec fn merge_result(hs: Seq<HostModel>, m: Seq<HostModel>) -> bool {
    &&& without_accumulated(m)
    &&& forall|a: int, b: int| 0 <= a < b < m.len() ==> !same_entries(#[trigger] m[a], #[trigger] m[b])
    &&& forall|k: int| 0 <= k < m.len() ==> entries_occur(hs, #[trigger] m[k])
    &&& forall|i: int| 0 <= i < hs.len() ==> entries_occur(m, #[trigger] hs[i])
    &&& forall|k: int| 0 <= k < m.len() ==> (#[trigger] m[k]).patterns == class_patterns(hs, m[k])
}

proof fn lemma_merge_kept_last(hs: Seq<HostModel>, mp: Seq<HostModel>)
    requires
        hs.len() > 0,
        without_accumulated(hs),
        last_same_before(hs, hs.len() - 1, hs.len() - 1) is None,
        merge_result(hs.drop_last(), mp),
    ensures
        merge_result(hs, mp.push(hs.last())),
{
    let i = hs.len() - 1;
    let p = hs.drop_last();
    let last = hs.last();
    lemma_last_same_before(hs, i, i);
    let m = mp.push(last);
    assert(hs[i] == last);
    assert forall|k: int| 0 <= k < mp.len() implies !same_entries(#[trigger] mp[k], last) by {
        assert(entries_occur(p, mp[k]));
        reveal(entries_occur);
        let x = choose|x: int| 0 <= x < p.len() && same_entries(#[trigger] p[x], mp[k]);
        assert(p[x] == hs[x]);
        assert(!same_entries(hs[i], hs[x]));
    }
    assert forall|a: int, b: int| 0 <= a < b < m.len() implies !same_entries(
        #[trigger] m[a],
        #[trigger] m[b],
    ) by {
        if b == mp.len() {
            assert(m[a] == mp[a]);
            assert(!same_entries(mp[a], last));
        } else {
            assert(m[a] == mp[a] && m[b] == mp[b]);
        }
    }
    assert forall|k: int| 0 <= k < m.len() implies entries_occur(hs, #[trigger] m[k]) by {
        if k < mp.len() {
            assert(m[k] == mp[k]);
            assert(entries_occur(p, mp[k]));
            reveal(entries_occur);
            let x = choose|x: int| 0 <= x < p.len() && same_entries(#[trigger] p[x], mp[k]);
            assert(p[x] == hs[x]);
            assert(same_entries(hs[x], m[k]));
        } else {
            reveal(entries_occur);
            assert(same_entries(hs[i], m[k]));
        }
    }
    assert forall|x: int| 0 <= x < hs.len() implies entries_occur(m, #[trigger] hs[x]) by {
        if x < i {
            assert(hs[x] == p[x]);
            assert(entries_occur(mp, p[x]));
            reveal(entries_occur);
            let k = choose|k: int| 0 <= k < mp.len() && same_entries(#[trigger] mp[k], p[x]);
            assert(m[k] == mp[k]);
            assert(same_entries(m[k], hs[x]));
        } else {
            reveal(entries_occur);
            assert(same_entries(m[mp.len() as int], hs[x]));
        }
    }
    assert forall|k: int| 0 <= k < m.len() implies (#[trigger] m[k]).patterns == class_patterns(
        hs,
        m[k],
    ) by {
        if k < mp.len() {
            assert(m[k] == mp[k]);
            assert(!same_entries(last, mp[k]));
        } else {
            assert forall|x: int| 0 <= x < p.len() implies !same_entries(#[trigger] p[x], last) by {
                assert(p[x] == hs[x]);
            }
            lemma_class_empty(p, last);
            assert(Seq::<Seq<char>>::empty() + last.patterns =~= last.patterns);
        }
    }
    assert forall|k: int| 0 <= k < m.len() implies #[trigger] m[k].multi_entries == Map::<
        crate::entry_type::EntryType,
        Seq<Seq<char>>,
    >::empty() by {
        if k < mp.len() {
            assert(m[k] == mp[k]);
        } else {
            assert(hs[i].multi_entries == Map::<crate::entry_type::EntryType, Seq<Seq<char>>>::empty());
        }
    }
}

/// The blocks after folding the last block into block `j`.
pub open spec fn folded_last(hs: Seq<HostModel>, j: int) -> Seq<HostModel> {
    hs.drop_last().update(j, merge_pair(hs[j], hs.last()))
}

proof fn lemma_folded_without_accumulated(hs: Seq<HostModel>, j: int)
    requires
        hs.len() > 0,
        0 <= j < hs.len() - 1,
        without_accumulated(hs),
        same_entries(hs[j], hs.last()),
    ensures
        without_accumulated(folded_last(hs, j)),
        forall|k: int| 0 <= k < hs.len() - 1 ==> same_entries(#[trigger] folded_last(hs, j)[k], hs[k]),
{
    let q = folded_last(hs, j);
    let y = merge_pair(hs[j], hs.last());
    assert(hs[j].multi_entries == Map::<crate::entry_type::EntryType, Seq<Seq<char>>>::empty());
    assert(hs[hs.len() - 1].multi_entries == Map::<crate::entry_type::EntryType, Seq<Seq<char>>>::empty());
    assert(y.entries =~= hs[j].entries);
    assert(y.multi_entries =~= hs[j].multi_entries);
    assert forall|k: int| 0 <= k < q.len() implies #[trigger] q[k].multi_entries == Map::<
        crate::entry_type::EntryType,
        Seq<Seq<char>>,
    >::empty() by {
        assert(hs[k].multi_entries == Map::<crate::entry_type::EntryType, Seq<Seq<char>>>::empty());
    }
    assert forall|k: int| 0 <= k < hs.len() - 1 implies same_entries(#[trigger] q[k], hs[k]) by {}
}

proof fn lemma_merge_folded_last(hs: Seq<HostModel>, j: int, m: Seq<HostModel>)
    requires
        hs.len() > 0,
        without_accumulated(hs),
        last_same_before(hs, hs.len() - 1, hs.len() - 1) == Some(j),
        merge_result(folded_last(hs, j), m),
    ensures
        merge_result(hs, m),
{
    let i = hs.len() - 1;
    let p = hs.drop_last();
    let last = hs.last();
    lemma_last_same_before(hs, i, i);
    let q = folded_last(hs, j);
    lemma_folded_without_accumulated(hs, j);
    assert forall|k: int| 0 <= k < m.len() implies entries_occur(hs, #[trigger] m[k]) by {
        assert(entries_occur(q, m[k]));
        reveal(entries_occur);
        let x = choose|x: int| 0 <= x < q.len() && same_entries(#[trigger] q[x], m[k]);
        assert(same_entries(q[x], hs[x]));
        assert(same_entries(hs[x], m[k]));
    }
    assert forall|x: int| 0 <= x < hs.len() implies entries_occur(m, #[trigger] hs[x]) by {
        let xx = if x == i {
            j
        } else {
            x
        };
        assert(same_entries(q[xx], hs[xx]));
        assert(same_entries(q[xx], hs[x]));
        assert(entries_occur(m, q[xx]));
        reveal(entries_occur);
        let k = choose|k: int| 0 <= k < m.len() && same_entries(#[trigger] m[k], q[xx]);
        assert(same_entries(m[k], hs[x]));
    }
    assert forall|mm: int| j < mm < p.len() implies !same_entries(last, #[trigger] p[mm]) by {
        assert(p[mm] == hs[mm]);
        assert(!same_entries(hs[i], hs[mm]));
    }
    assert(p[j] == hs[j]);
    assert(hs[j].multi_entries == Map::<crate::entry_type::EntryType, Seq<Seq<char>>>::empty());
    assert forall|k: int| 0 <= k < m.len() implies (#[trigger] m[k]).patterns == class_patterns(
        hs,
        m[k],
    ) by {
        lemma_class_after_fold(p, j, last, m[k]);
        assert(hs.drop_last() == p);
        assert(q == p.update(j, merge_pair(p[j], last)));
    }
}

/// Without multi-valued keywords, merging blocks with identical entries
/// leaves one block for each set of entries that occurs: no two result
/// blocks have the same entries, every result block has the entries of an
/// input block and every input block's entries occur among the results,
/// and each result block holds the patterns of all input blocks with its
/// entries, in their order.
pub proof fn law_merge_classes(hs: Seq<HostModel>)
    requires
        without_accumulated(hs),
    ensures
        merge_result(hs, merged_hosts(hs)),
    decreases hs.len(),
{
    if hs.len() == 0 {
        assert(merged_hosts(hs) == hs);
    } else {
        let i = hs.len() - 1;
        lemma_last_same_before(hs, i, i);
        match last_same_before(hs, i, i) {
            Some(j) => {
                lemma_folded_without_accumulated(hs, j);
                law_merge_classes(folded_last(hs, j));
                lemma_merge_folded_last(hs, j, merged_hosts(folded_last(hs, j)));
                lemma_merged_last(hs);
            },
            None => {
                assert(without_accumulated(hs.drop_last())) by {
                    assert forall|k: int| 0 <= k < hs.drop_last().len() implies #[trigger] hs.drop_last()[k].multi_entries
                        == Map::<crate::entry_type::EntryType, Seq<Seq<char>>>::empty() by {
                        assert(hs[k].multi_entries == Map::<
                            crate::entry_type::EntryType,
                            Seq<Seq<char>>,
                        >::empty());
                    }
                }
                law_merge_classes(hs.drop_last());
                lemma_merge_kept_last(hs, merged_hosts(hs.drop_last()));
                lemma_merged_last(hs);
            },
        }
    }
}

} // verus!
