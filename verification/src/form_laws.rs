//! What the edit form promises: writing back a host's form without
//! editing it gives the host back.

use vstd::prelude::*;
use crate::config_file::pascal;
use crate::config_laws::{field_name_shaped, lemma_field_name_shaped, lemma_field_names_distinct};
use crate::host::{HOST_FIELD_COUNT, Host, field_name, field_names, present_fields};
use crate::host_edit::{
    form_applies, form_entry, form_rows, form_value, form_values, is_form_listing, labelled,
};
use crate::order::{is_stable_order, lists, permuted};
use crate::text::is_blank;
use crate::ui_logic::{law_snake_of_pascal, snake};

verus! {

/// Each listed field is a field of the record with its non-blank value.
proof fn lemma_present_rows_from_fields(names: Seq<Seq<char>>, values: Seq<Option<Seq<char>>>, n: nat)
    ensures
        forall|q: int| 0 <= q < present_fields(names, values, n).len() ==> exists|i: int|
            0 <= i < n && #[trigger] present_fields(names, values, n)[q].0 == names[i]
                && values[i] == Some(present_fields(names, values, n)[q].1) && !is_blank(
                present_fields(names, values, n)[q].1,
            ),
    decreases n,
{
    if n > 0 {
        lemma_present_rows_from_fields(names, values, (n - 1) as nat);
        let prev = present_fields(names, values, (n - 1) as nat);
        let cur = present_fields(names, values, n);
        assert forall|q: int| 0 <= q < cur.len() implies exists|i: int|
            0 <= i < n && #[trigger] cur[q].0 == names[i] && values[i] == Some(cur[q].1) && !is_blank(
                cur[q].1,
            ) by {
            if q < prev.len() {
                assert(cur[q] == prev[q]);
                let i = choose|i: int|
                    0 <= i < n - 1 && #[trigger] prev[q].0 == names[i] && values[i] == Some(prev[q].1)
                        && !is_blank(prev[q].1);
                assert(0 <= i < n && cur[q].0 == names[i]);
            } else {
                assert(cur[q].0 == names[n - 1]);
            }
        }
    }
}

/// Each field with a non-blank value is listed.
proof fn lemma_present_rows_cover(names: Seq<Seq<char>>, values: Seq<Option<Seq<char>>>, n: nat, i: int)
    requires
        0 <= i < n,
        values[i] matches Some(v) && !is_blank(v),
    ensures
        exists|q: int|
            0 <= q < present_fields(names, values, n).len() && #[trigger] present_fields(names, values, n)[q].0
                == names[i],
    decreases n,
{
    let cur = present_fields(names, values, n);
    if i < n - 1 {
        lemma_present_rows_cover(names, values, (n - 1) as nat, i);
        let prev = present_fields(names, values, (n - 1) as nat);
        let q = choose|q: int| 0 <= q < prev.len() && #[trigger] prev[q].0 == names[i];
        assert(cur[q] == prev[q]);
    } else {
        assert(cur[cur.len() - 1].0 == names[i]);
    }
}

/// The last entry naming field `i` decides it; when every entry naming it
/// holds the same text, that text decides it.
proof fn lemma_form_entry_uniform(edits: Seq<(Seq<char>, Seq<char>)>, i: int, t: Seq<char>)
    requires
        forall|m: int| 0 <= m < edits.len() && snake(#[trigger] edits[m].0) == field_name(i) ==> edits[m].1 == t,
    ensures
        form_entry(edits, i) == (if exists|m: int| 0 <= m < edits.len() && snake(#[trigger] edits[m].0) == field_name(i) {
            Some(
                if t.len() == 0 {
                    if i == 2 {
                        Some(Seq::<char>::empty())
                    } else {
                        None
                    }
                } else {
                    Some(t)
                },
            )
        } else {
            None
        }),
    decreases edits.len(),
{
    if edits.len() > 0 {
        let init = edits.drop_last();
        assert forall|m: int| 0 <= m < init.len() && snake(#[trigger] init[m].0) == field_name(i) implies init[m].1 == t by {
            assert(init[m] == edits[m]);
        }
        lemma_form_entry_uniform(init, i, t);
        let last = edits.len() - 1;
        if snake(edits[last].0) != field_name(i) {
            if exists|m: int| 0 <= m < edits.len() && snake(#[trigger] edits[m].0) == field_name(i) {
                let m = choose|m: int| 0 <= m < edits.len() && snake(#[trigger] edits[m].0) == field_name(i);
                assert(m < last);
                assert(init[m] == edits[m]);
            }
            if exists|m: int| 0 <= m < init.len() && snake(#[trigger] init[m].0) == field_name(i) {
                let m = choose|m: int| 0 <= m < init.len() && snake(#[trigger] init[m].0) == field_name(i);
                assert(init[m] == edits[m]);
            }
        }
    }
}

/// Writing back the form of a host, unedited, gives the host back field for
/// field.
pub proof fn law_unedited_form_keeps_host(h: Host, out: Seq<(Seq<char>, Seq<char>)>)
    requires
        is_form_listing(form_rows(h, Seq::<Seq<char>>::empty()), out),
    ensures
        form_applies(h, out),
        form_values(h, out) == h.field_values(),
{
    let rows = form_rows(h, Seq::<Seq<char>>::empty());
    let pf = present_fields(field_names(), h.field_values(), HOST_FIELD_COUNT as nat);
    assert(rows =~= pf);
    let (p1, p2) = choose|p1: Seq<usize>, p2: Seq<usize>|
        #![trigger permuted(labelled(permuted(rows, p1)), p2)]
        is_stable_order(crate::host_edit::row_names(rows), p1) && is_stable_order(
            crate::host_edit::label_keys(labelled(permuted(rows, p1))),
            p2,
        ) && out == permuted(labelled(permuted(rows, p1)), p2);
    lemma_present_rows_from_fields(field_names(), h.field_values(), HOST_FIELD_COUNT as nat);
    let sorted = permuted(rows, p1);
    let lab = labelled(sorted);
    assert(out.len() == pf.len());
    // Every entry of the form is a listed field, relabelled.
    assert forall|m: int| 0 <= m < out.len() implies out[m] == (
        pascal(pf[p1[p2[m] as int] as int].0),
        pf[p1[p2[m] as int] as int].1,
    ) && 0 <= p1[p2[m] as int] < pf.len() by {
        assert(p2[m] < lab.len());
        assert(p1[p2[m] as int] < rows.len());
    }
    assert forall|i: int| 0 <= i < HOST_FIELD_COUNT implies #[trigger] form_value(h, out, i)
        == h.field_value(i) by {
        let t = match h.field_value(i) {
            Some(v) => v,
            None => Seq::<char>::empty(),
        };
        assert forall|m: int| 0 <= m < out.len() && snake(#[trigger] out[m].0) == field_name(i) implies out[m].1 == t by {
            let q = p1[p2[m] as int] as int;
            let k = choose|k: int|
                0 <= k < HOST_FIELD_COUNT && #[trigger] pf[q].0 == field_names()[k] && h.field_values()[k]
                    == Some(pf[q].1) && !is_blank(pf[q].1);
            lemma_field_name_shaped(k);
            law_snake_of_pascal(field_name(k));
            if k != i {
                lemma_field_names_distinct(k, i);
            }
        }
        lemma_form_entry_uniform(out, i, t);
        match h.field_value(i) {
            Some(v) => {
                if !is_blank(v) {
                    assert(h.field_values()[i] == Some(v));
                    lemma_present_rows_cover(field_names(), h.field_values(), HOST_FIELD_COUNT as nat, i);
                    let q = choose|q: int| 0 <= q < pf.len() && #[trigger] pf[q].0 == field_names()[i];
                    assert(lists(p1, q));
                    let a = choose|a: int| 0 <= a < p1.len() && p1[a] == q;
                    assert(lists(p2, a));
                    let m = choose|m: int| 0 <= m < p2.len() && p2[m] == a;
                    lemma_field_name_shaped(i);
                    law_snake_of_pascal(field_name(i));
                    assert(snake(out[m].0) == field_name(i));
                    assert(v.len() > 0);
                } else {
                    assert forall|m: int| 0 <= m < out.len() implies snake(#[trigger] out[m].0) != field_name(i) by {
                        let q = p1[p2[m] as int] as int;
                        let k = choose|k: int|
                            0 <= k < HOST_FIELD_COUNT && #[trigger] pf[q].0 == field_names()[k]
                                && h.field_values()[k] == Some(pf[q].1) && !is_blank(pf[q].1);
                        lemma_field_name_shaped(k);
                        law_snake_of_pascal(field_name(k));
                        if k != i {
                            lemma_field_names_distinct(k, i);
                        }
                    }
                }
            },
            None => {
                assert forall|m: int| 0 <= m < out.len() implies snake(#[trigger] out[m].0) != field_name(i) by {
                    let q = p1[p2[m] as int] as int;
                    let k = choose|k: int|
                        0 <= k < HOST_FIELD_COUNT && #[trigger] pf[q].0 == field_names()[k]
                            && h.field_values()[k] == Some(pf[q].1) && !is_blank(pf[q].1);
                    lemma_field_name_shaped(k);
                    law_snake_of_pascal(field_name(k));
                    if k != i {
                        lemma_field_names_distinct(k, i);
                    }
                }
            },
        }
    }
    assert(form_values(h, out) =~= h.field_values());
    assert(form_value(h, out, 43) == h.field_value(43));
    assert(form_value(h, out, 60) == h.field_value(60));
}

} // verus!
