//! Lexicographic order on text and stable sorting by text keys.

use vstd::prelude::*;

verus! {

/// `a` comes no later than `b` in the order of `String`: character by
/// character by code point, a prefix before any longer text.
pub open spec fn text_le(a: Seq<char>, b: Seq<char>) -> bool
    decreases a.len(),
{
    if a.len() == 0 {
        true
    } else if b.len() == 0 {
        false
    } else if a[0] != b[0] {
        (a[0] as u32) < (b[0] as u32)
    } else {
        text_le(a.drop_first(), b.drop_first())
    }
}

/// Any two texts are ordered one way or the other.
pub proof fn lemma_text_le_total(a: Seq<char>, b: Seq<char>)
    ensures
        text_le(a, b) || text_le(b, a),
    decreases a.len(),
{
    if a.len() > 0 && b.len() > 0 {
        if a[0] == b[0] {
            lemma_text_le_total(a.drop_first(), b.drop_first());
        } else {
            vstd::utf8::char_u32_cast(a[0], a[0] as u32);
            vstd::utf8::char_u32_cast(b[0], b[0] as u32);
        }
    }
}

/// Every text is ordered before itself.
pub proof fn lemma_text_le_refl(a: Seq<char>)
    ensures
        text_le(a, a),
    decreases a.len(),
{
    if a.len() > 0 {
        lemma_text_le_refl(a.drop_first());
    }
}

/// The order is transitive.
pub proof fn lemma_text_le_trans(a: Seq<char>, b: Seq<char>, c: Seq<char>)
    requires
        text_le(a, b),
        text_le(b, c),
    ensures
        text_le(a, c),
    decreases a.len(),
{
    if a.len() > 0 && b.len() > 0 && c.len() > 0 && a[0] == b[0] && b[0] == c[0] {
        lemma_text_le_trans(a.drop_first(), b.drop_first(), c.drop_first());
    }
}

/// Texts ordered both ways are equal.
pub proof fn lemma_text_le_antisym(a: Seq<char>, b: Seq<char>)
    requires
        text_le(a, b),
        text_le(b, a),
    ensures
        a == b,
    decreases a.len(),
{
    if a.len() > 0 && b.len() > 0 {
        lemma_text_le_antisym(a.drop_first(), b.drop_first());
        assert(a =~= seq![a[0]] + a.drop_first());
        assert(b =~= seq![b[0]] + b.drop_first());
    }
}

/// Whether `a` comes no later than `b`.
pub fn text_le_chars(a: &Vec<char>, b: &Vec<char>) -> (r: bool)
    ensures
        r == text_le(a@, b@),
{
    let mut i: usize = 0;
    assert(a@.skip(0) =~= a@);
    assert(b@.skip(0) =~= b@);
    while i < a.len()
        invariant
            i <= a@.len(),
            i <= b@.len(),
            a@.subrange(0, i as int) == b@.subrange(0, i as int),
            text_le(a@, b@) == text_le(a@.skip(i as int), b@.skip(i as int)),
        decreases a@.len() - i,
    {
        if i >= b.len() {
            return false;
        }
        if a[i] != b[i] {
            let ai = a[i];
            let bi = b[i];
            return (ai as u32) < (bi as u32);
        }
        assert(a@.skip(i as int).drop_first() =~= a@.skip(i + 1));
        assert(b@.skip(i as int).drop_first() =~= b@.skip(i + 1));
        assert(a@.subrange(0, i + 1) =~= a@.subrange(0, i as int).push(a@[i as int]));
        assert(b@.subrange(0, i + 1) =~= b@.subrange(0, i as int).push(b@[i as int]));
        i = i + 1;
    }
    true
}

/// Position `x` occurs in `p`.
pub open spec fn lists(p: Seq<usize>, x: int) -> bool {
    exists|i: int| 0 <= i < p.len() && p[i] == x
}

/// `p` lists every position of `keys` once, in an order in which the keys
/// never decrease and equal keys keep their original order.
pub open spec fn is_stable_order(keys: Seq<Seq<char>>, p: Seq<usize>) -> bool {
    &&& p.len() == keys.len()
    &&& forall|x: int| 0 <= x < keys.len() ==> #[trigger] lists(p, x)
    &&& forall|i: int| 0 <= i < p.len() ==> #[trigger] p[i] < keys.len()
    &&& forall|i: int, j: int| 0 <= i < j < p.len() ==> #[trigger] p[i] != #[trigger] p[j]
    &&& forall|i: int, j: int|
        0 <= i < j < p.len() ==> text_le(keys[#[trigger] p[i] as int], keys[#[trigger] p[j] as int])
    &&& forall|i: int, j: int|
        0 <= i < j < p.len() && keys[#[trigger] p[i] as int] == keys[#[trigger] p[j] as int] ==> p[i]
            < p[j]
}

/// The order in which a stable sort by `keys` arranges their positions.
pub fn stable_order(keys: &Vec<Vec<char>>) -> (p: Vec<usize>)
    ensures
        is_stable_order(keys@.map_values(|k: Vec<char>| k@), p@),
{
    let ghost ks = keys@.map_values(|k: Vec<char>| k@);
    let mut p: Vec<usize> = Vec::new();
    let mut j: usize = 0;
    while j < keys.len()
        invariant
            j <= keys@.len(),
            ks == keys@.map_values(|k: Vec<char>| k@),
            is_stable_order(ks.take(j as int), p@),
        decreases keys@.len() - j,
    {
        let kj = &keys[j];
        let mut pos: usize = p.len();
        while pos > 0 && !text_le_chars(&keys[p[pos - 1]], kj)
            invariant
                pos <= p@.len(),
                p@.len() == j,
                j < keys@.len(),
                ks == keys@.map_values(|k: Vec<char>| k@),
                kj@ == ks[j as int],
                is_stable_order(ks.take(j as int), p@),
                forall|q: int| pos <= q < p@.len() ==> !text_le(ks[#[trigger] p@[q] as int], ks[j as int]),
            decreases pos,
        {
            pos = pos - 1;
        }
        let ghost old_p = p@;
        proof {
            assert forall|q: int| 0 <= q < pos implies text_le(ks[#[trigger] old_p[q] as int], ks[j as int]) by {
                assert(text_le(ks[old_p[pos - 1] as int], ks[j as int]));
                if q < pos - 1 {
                    assert(ks.take(j as int)[old_p[q] as int] == ks[old_p[q] as int]);
                    assert(ks.take(j as int)[old_p[pos - 1] as int] == ks[old_p[pos - 1] as int]);
                    lemma_text_le_trans(ks[old_p[q] as int], ks[old_p[pos - 1] as int], ks[j as int]);
                }
            }
            assert forall|q: int| pos <= q < old_p.len() implies text_le(ks[j as int], ks[#[trigger] old_p[q] as int])
                && ks[j as int] != ks[old_p[q] as int] by {
                lemma_text_le_total(ks[j as int], ks[old_p[q] as int]);
                if ks[j as int] == ks[old_p[q] as int] {
                    lemma_text_le_refl(ks[j as int]);
                }
            }
        }
        p.insert(pos, j);
        proof {
            let kt = ks.take(j + 1);
            assert forall|x: int| 0 <= x < kt.len() implies #[trigger] lists(p@, x) by {
                if x == j {
                    assert(p@[pos as int] == j);
                } else {
                    assert(lists(old_p, x));
                    let q = choose|q: int| 0 <= q < old_p.len() && old_p[q] == x;
                    if q < pos {
                        assert(p@[q] == old_p[q]);
                    } else {
                        assert(p@[q + 1] == old_p[q]);
                    }
                }
            }
            assert forall|q: int| 0 <= q < old_p.len() implies #[trigger] old_p[q] < j by {
                assert(old_p[q] < ks.take(j as int).len());
            }
            assert forall|q: int| 0 <= q < p@.len() implies #[trigger] p@[q] < kt.len() by {
                if q < pos {
                    assert(p@[q] == old_p[q]);
                } else if q > pos {
                    assert(p@[q] == old_p[q - 1]);
                }
            }
            assert forall|a: int, b: int| 0 <= a < b < p@.len() implies #[trigger] p@[a] != #[trigger] p@[b] by {
                if a < pos && b < pos {
                    assert(p@[a] == old_p[a] && p@[b] == old_p[b]);
                } else if a < pos && b == pos {
                    assert(p@[a] == old_p[a]);
                } else if a < pos && b > pos {
                    assert(p@[a] == old_p[a] && p@[b] == old_p[b - 1]);
                } else if a == pos {
                    assert(p@[b] == old_p[b - 1]);
                } else {
                    assert(p@[a] == old_p[a - 1] && p@[b] == old_p[b - 1]);
                }
            }
            assert forall|a: int, b: int| 0 <= a < b < p@.len() implies text_le(
                kt[#[trigger] p@[a] as int],
                kt[#[trigger] p@[b] as int],
            ) && (kt[p@[a] as int] == kt[p@[b] as int] ==> p@[a] < p@[b]) by {
                let pa = p@[a];
                let pb = p@[b];
                if a < pos && b < pos {
                    assert(pa == old_p[a] && pb == old_p[b]);
                    assert(ks.take(j as int)[pa as int] == kt[pa as int]);
                    assert(ks.take(j as int)[pb as int] == kt[pb as int]);
                } else if a < pos && b == pos {
                    assert(pa == old_p[a]);
                    assert(pb == j);
                } else if a < pos && b > pos {
                    assert(pa == old_p[a] && pb == old_p[b - 1]);
                    assert(ks.take(j as int)[pa as int] == kt[pa as int]);
                    assert(ks.take(j as int)[pb as int] == kt[pb as int]);
                } else if a == pos {
                    assert(pa == j && pb == old_p[b - 1]);
                } else {
                    assert(pa == old_p[a - 1] && pb == old_p[b - 1]);
                    assert(ks.take(j as int)[pa as int] == kt[pa as int]);
                    assert(ks.take(j as int)[pb as int] == kt[pb as int]);
                }
            }
        }
        j = j + 1;
    }
    assert(ks.take(keys@.len() as int) =~= ks);
    p
}


/// What `str::to_lowercase` returns for a text: its lower-case mapping by
/// the Unicode tables, where a character's mapping may depend on the
/// characters around it (a final capital sigma).
pub uninterp spec fn lowercase_text(s: Seq<char>) -> Seq<char>;

/// `str::to_lowercase`. Its result depends on the text alone; the Unicode
/// case mapping it applies is named, not spelled out.
#[verifier::external_body]
pub(crate) fn to_lowercase(s: &str) -> (r: String)
    ensures
        r@ == lowercase_text(s@),
{
    s.to_lowercase()
}

/// The items of `xs` in the order `p` gives their positions.
pub open spec fn permuted<T>(xs: Seq<T>, p: Seq<usize>) -> Seq<T> {
    p.map_values(|i: usize| xs[i as int])
}

/// `p` lists positions of a sequence of length `n`.
pub open spec fn positions_below(p: Seq<usize>, n: nat) -> bool {
    forall|i: int| 0 <= i < p.len() ==> #[trigger] p[i] < n
}

/// The rows of `rows` in the order `p` gives their positions.
pub fn permute_pairs(rows: &Vec<(String, String)>, p: &Vec<usize>) -> (r: Vec<(String, String)>)
    requires
        positions_below(p@, rows@.len()),
    ensures
        pairs_text(r@) == permuted(pairs_text(rows@), p@),
{
    let mut r: Vec<(String, String)> = Vec::new();
    let mut i: usize = 0;
    while i < p.len()
        invariant
            i <= p@.len(),
            positions_below(p@, rows@.len()),
            pairs_text(r@) == permuted(pairs_text(rows@), p@).take(i as int),
        decreases p@.len() - i,
    {
        let q = p[i];
        assert(p@[i as int] < rows@.len());
        let row = (rows[q].0.clone(), rows[q].1.clone());
        let ghost before = r@;
        r.push(row);
        assert(pairs_text(r@) =~= pairs_text(before).push((rows@[q as int].0@, rows@[q as int].1@)));
        assert(permuted(pairs_text(rows@), p@).take(i + 1) =~= permuted(pairs_text(rows@), p@).take(
            i as int,
        ).push(pairs_text(rows@)[q as int]));
        i = i + 1;
    }
    assert(permuted(pairs_text(rows@), p@).take(p@.len() as int) =~= permuted(pairs_text(rows@), p@));
    r
}

/// Pairs of strings as pairs of texts.
pub open spec fn pairs_text(v: Seq<(String, String)>) -> Seq<(Seq<char>, Seq<char>)> {
    v.map_values(|e: (String, String)| (e.0@, e.1@))
}

} // verus!
