//! One `Host` block of an SSH configuration: its patterns and its entries.

use std::collections::HashMap;
use vstd::prelude::*;
use crate::text::strings_view;
use crate::pattern::{
    PatternRegex, has_wildcard, regex_compiles, pattern_regex_source, pattern_has_wildcard, pattern_to_regex_source, pattern_rules,
    patterns_compile, rules_view,
};
use crate::entry_type::{
    EntryType, ENTRY_TYPE_COUNT, lemma_code_injective, lemma_code_roundtrip,
    lemma_from_code_inverse,
};

verus! {

broadcast use vstd::std_specs::hash::group_hash_axioms;

/// Abstract content of a host block.
pub struct HostModel {
    /// The patterns named on the `Host` line, in order.
    pub patterns: Seq<Seq<char>>,
    /// Keywords that hold a single value.
    pub entries: Map<EntryType, Seq<char>>,
    /// Keywords that accumulate values, in the order they were added.
    pub multi_entries: Map<EntryType, Seq<Seq<char>>>,
}

impl HostModel {
    /// Single-valued keywords live in `entries`, multi-valued ones in
    /// `multi_entries`, and a stored multi-valued keyword has a value.
    pub open spec fn well_formed(self) -> bool {
        &&& forall|e: EntryType| #[trigger]
            self.entries.contains_key(e) ==> !e.spec_is_multi_valued()
        &&& forall|e: EntryType| #[trigger]
            self.multi_entries.contains_key(e) ==> e.spec_is_multi_valued()
                && self.multi_entries[e].len() > 0
    }

    /// The values of a multi-valued keyword, empty when it is absent.
    pub open spec fn multi_values(self, e: EntryType) -> Seq<Seq<char>> {
        if self.multi_entries.contains_key(e) {
            self.multi_entries[e]
        } else {
            seq![]
        }
    }

    /// The single value of a keyword, if it is set.
    pub open spec fn single_value(self, e: EntryType) -> Option<Seq<char>> {
        if self.entries.contains_key(e) {
            Some(self.entries[e])
        } else {
            None
        }
    }

    /// Every value recorded for a keyword: the accumulated values of a
    /// multi-valued keyword, else the single value, else nothing.
    pub open spec fn all_values(self, e: EntryType) -> Seq<Seq<char>> {
        if self.multi_entries.contains_key(e) {
            self.multi_entries[e]
        } else if self.entries.contains_key(e) {
            seq![self.entries[e]]
        } else {
            seq![]
        }
    }

    /// The entries of `other` added to this block: single values of `other`
    /// take precedence, accumulated values of `other` are appended.
    pub open spec fn extended_with(self, other: HostModel) -> HostModel {
        HostModel {
            patterns: self.patterns,
            entries: self.entries.union_prefer_right(other.entries),
            multi_entries: Map::new(
                |e: EntryType|
                    self.multi_entries.contains_key(e) || other.multi_entries.contains_key(e),
                |e: EntryType| self.multi_values(e) + other.multi_values(e),
            ),
        }
    }

    /// The entries of `other` added only for keywords this block lacks.
    pub open spec fn filled_from(self, other: HostModel) -> HostModel {
        HostModel {
            patterns: self.patterns,
            entries: other.entries.union_prefer_right(self.entries),
            multi_entries: other.multi_entries.union_prefer_right(self.multi_entries),
        }
    }

    /// `(keyword, value)` pairs of the multi-valued keywords with codes below
    /// `n`, by code and then in order of addition.
    pub open spec fn multi_pairs(self, n: nat) -> Seq<(EntryType, Seq<char>)>
        decreases n,
    {
        if n == 0 {
            seq![]
        } else {
            let prev = self.multi_pairs((n - 1) as nat);
            match EntryType::spec_from_code((n - 1) as u8) {
                Some(e) => prev + tag_values(e, self.multi_values(e)),
                None => prev,
            }
        }
    }

    /// `(keyword, value)` pairs of the single-valued keywords with codes below
    /// `n`, by code.
    pub open spec fn single_pairs(self, n: nat) -> Seq<(EntryType, Seq<char>)>
        decreases n,
    {
        if n == 0 {
            seq![]
        } else {
            let prev = self.single_pairs((n - 1) as nat);
            match EntryType::spec_from_code((n - 1) as u8) {
                Some(e) => if self.entries.contains_key(e) {
                    prev.push((e, self.entries[e]))
                } else {
                    prev
                },
                None => prev,
            }
        }
    }

    /// Every `(keyword, value)` pair of the block: first all accumulated
    /// values, then all single values.
    pub open spec fn entry_list(self) -> Seq<(EntryType, Seq<char>)> {
        self.multi_pairs(ENTRY_TYPE_COUNT as nat) + self.single_pairs(ENTRY_TYPE_COUNT as nat)
    }

    /// The block holds no entry at all.
    pub open spec fn has_no_entries(self) -> bool {
        &&& forall|e: EntryType| !#[trigger] self.entries.contains_key(e)
        &&& forall|e: EntryType| !#[trigger] self.multi_entries.contains_key(e)
    }

    /// The model after recording one entry: a multi-valued keyword gets the
    /// value appended, any other keyword gets its value replaced.
    pub open spec fn updated(self, e: EntryType, v: Seq<char>) -> HostModel {
        if e.spec_is_multi_valued() {
            HostModel {
                patterns: self.patterns,
                entries: self.entries,
                multi_entries: self.multi_entries.insert(e, self.multi_values(e).push(v)),
            }
        } else {
            HostModel {
                patterns: self.patterns,
                entries: self.entries.insert(e, v),
                multi_entries: self.multi_entries,
            }
        }
    }
}

/// A host map keyed by keyword codes, seen as a map keyed by keywords.
pub open spec fn lift_single(m: Map<u8, String>) -> Map<EntryType, Seq<char>> {
    Map::new(
        |e: EntryType| m.contains_key(e.spec_code()),
        |e: EntryType| m[e.spec_code()]@,
    )
}

/// A multi-value map keyed by keyword codes, seen as a map keyed by keywords.
pub open spec fn lift_multi(m: Map<u8, Vec<String>>) -> Map<EntryType, Seq<Seq<char>>> {
    Map::new(
        |e: EntryType| m.contains_key(e.spec_code()),
        |e: EntryType| strings_view(m[e.spec_code()]@),
    )
}

proof fn lemma_lift_single_insert(m: Map<u8, String>, e: EntryType, v: String)
    ensures
        lift_single(m.insert(e.spec_code(), v)) == lift_single(m).insert(e, v@),
{
    assert forall|x: EntryType| #[trigger]
        lift_single(m.insert(e.spec_code(), v)).contains_key(x) == lift_single(m).insert(
            e,
            v@,
        ).contains_key(x) by {
        lemma_code_injective(x, e);
    }
    assert forall|x: EntryType| #[trigger]
        lift_single(m.insert(e.spec_code(), v)).contains_key(x) implies lift_single(
        m.insert(e.spec_code(), v),
    )[x] == lift_single(m).insert(e, v@)[x] by {
        lemma_code_injective(x, e);
    }
    assert(lift_single(m.insert(e.spec_code(), v)) =~= lift_single(m).insert(e, v@));
}

proof fn lemma_lift_multi_insert(m: Map<u8, Vec<String>>, e: EntryType, v: Vec<String>)
    ensures
        lift_multi(m.insert(e.spec_code(), v)) == lift_multi(m).insert(e, strings_view(v@)),
{
    assert forall|x: EntryType| #[trigger]
        lift_multi(m.insert(e.spec_code(), v)).contains_key(x) == lift_multi(m).insert(
            e,
            strings_view(v@),
        ).contains_key(x) by {
        lemma_code_injective(x, e);
    }
    assert forall|x: EntryType| #[trigger]
        lift_multi(m.insert(e.spec_code(), v)).contains_key(x) implies lift_multi(
        m.insert(e.spec_code(), v),
    )[x] == lift_multi(m).insert(e, strings_view(v@))[x] by {
        lemma_code_injective(x, e);
    }
    assert(lift_multi(m.insert(e.spec_code(), v)) =~= lift_multi(m).insert(
        e,
        strings_view(v@),
    ));
}

proof fn lemma_lift_multi_remove(m: Map<u8, Vec<String>>, e: EntryType)
    ensures
        lift_multi(m.remove(e.spec_code())) == lift_multi(m).remove(e),
{
    assert forall|x: EntryType| #[trigger]
        lift_multi(m.remove(e.spec_code())).contains_key(x) == lift_multi(m).remove(
            e,
        ).contains_key(x) by {
        lemma_code_injective(x, e);
    }
    assert(lift_multi(m.remove(e.spec_code())) =~= lift_multi(m).remove(e));
}

/// Appends copies of `src` to `dst`.
pub fn append_clones(dst: &mut Vec<String>, src: &Vec<String>)
    ensures
        final(dst)@ == old(dst)@ + src@,
{
    let mut i: usize = 0;
    while i < src.len()
        invariant
            i <= src@.len(),
            dst@ == old(dst)@ + src@.take(i as int),
        decreases src@.len() - i,
    {
        dst.push(src[i].clone());
        assert(old(dst)@ + src@.take(i + 1) =~= old(dst)@ + src@.take(i as int) + seq![src@[i as int]]);
        i = i + 1;
    }
    assert(src@.take(src@.len() as int) =~= src@);
}

/// Pairs a keyword with each of a list of values.
pub open spec fn tag_values(e: EntryType, vs: Seq<Seq<char>>) -> Seq<(EntryType, Seq<char>)> {
    vs.map_values(|v: Seq<char>| (e, v))
}

/// The view of a list of `(keyword, value)` pairs.
pub open spec fn pairs_view(v: Seq<(EntryType, String)>) -> Seq<(EntryType, Seq<char>)> {
    v.map_values(|p: (EntryType, String)| (p.0, p.1@))
}

/// The optional view of an optional string.
pub open spec fn opt_view(o: Option<String>) -> Option<Seq<char>> {
    match o {
        Some(s) => Some(s@),
        None => None,
    }
}

/// Both models agree on keyword `e`.
pub open spec fn agree_at(a: HostModel, b: HostModel, e: EntryType) -> bool {
    &&& a.entries.contains_key(e) == b.entries.contains_key(e)
    &&& a.entries.contains_key(e) ==> a.entries[e] == b.entries[e]
    &&& a.multi_entries.contains_key(e) == b.multi_entries.contains_key(e)
    &&& a.multi_entries.contains_key(e) ==> a.multi_entries[e] == b.multi_entries[e]
}

/// Whether two lists of strings are equal.
pub fn strings_equal(a: &Vec<String>, b: &Vec<String>) -> (r: bool)
    ensures
        r == (strings_view(a@) == strings_view(b@)),
{
    if a.len() != b.len() {
        assert(strings_view(a@).len() != strings_view(b@).len());
        return false;
    }
    let mut i: usize = 0;
    while i < a.len()
        invariant
            i <= a@.len(),
            a@.len() == b@.len(),
            forall|k: int| 0 <= k < i ==> a@[k]@ == b@[k]@,
        decreases a@.len() - i,
    {
        if a[i] != b[i] {
            assert(strings_view(a@)[i as int] != strings_view(b@)[i as int]);
            return false;
        }
        i = i + 1;
    }
    assert(strings_view(a@) =~= strings_view(b@));
    true
}

/// Copies a list of strings.
pub fn clone_strings(v: &Vec<String>) -> (r: Vec<String>)
    ensures
        r@ == v@,
{
    let mut r: Vec<String> = Vec::new();
    let mut i: usize = 0;
    while i < v.len()
        invariant
            i <= v@.len(),
            r@ == v@.take(i as int),
        decreases v@.len() - i,
    {
        r.push(v[i].clone());
        assert(r@ =~= v@.take(i + 1));
        i = i + 1;
    }
    assert(v@.take(v@.len() as int) =~= v@);
    r
}

/// A host block: the patterns of its `Host` line and the keyword entries
/// that follow it.
pub struct ConfigHost {
    patterns: Vec<String>,
    entries: HashMap<u8, String>,
    pub(crate) multi_entries: HashMap<u8, Vec<String>>,
}

/// A code stored among the single-valued entries.
pub open spec fn single_code(k: u8) -> bool {
    EntryType::spec_from_code(k) matches Some(e) && !e.spec_is_multi_valued()
}

/// A code stored among the multi-valued entries.
pub open spec fn multi_code(k: u8) -> bool {
    EntryType::spec_from_code(k) matches Some(e) && e.spec_is_multi_valued()
}

impl ConfigHost {
    #[verifier::type_invariant]
    spec fn codes_in_place(self) -> bool {
        &&& forall|k: u8| #[trigger] self.entries@.contains_key(k) ==> single_code(k)
        &&& forall|k: u8| #[trigger]
            self.multi_entries@.contains_key(k) ==> multi_code(k)
                && self.multi_entries@[k]@.len() > 0
    }

    /// Abstract content of this block.
    pub closed spec fn model(&self) -> HostModel {
        HostModel {
            patterns: strings_view(self.patterns@),
            entries: lift_single(self.entries@),
            multi_entries: lift_multi(self.multi_entries@),
        }
    }

    /// The type invariant makes the model well formed.
    proof fn lemma_well_formed(self)
        requires
            self.codes_in_place(),
        ensures
            self.model().well_formed(),
    {
        assert forall|e: EntryType| #[trigger]
            self.model().entries.contains_key(e) implies !e.spec_is_multi_valued() by {
            lemma_code_roundtrip(e);
        }
        assert forall|e: EntryType| #[trigger]
            self.model().multi_entries.contains_key(e) implies e.spec_is_multi_valued()
            && self.model().multi_entries[e].len() > 0 by {
            lemma_code_roundtrip(e);
        }
    }
}

impl View for ConfigHost {
    type V = HostModel;

    open spec fn view(&self) -> HostModel {
        self.model()
    }
}

impl Clone for ConfigHost {
    fn clone(&self) -> (r: Self)
        ensures
            r@ == self@,
            r@.well_formed(),
    {
        proof {
            use_type_invariant(self);
        }
        let patterns = clone_strings(&self.patterns);
        let entries = self.entries.clone();
        let multi_entries = self.multi_entries.clone();
        assert(strings_view(patterns@) =~= strings_view(self.patterns@));
        ConfigHost { patterns, entries, multi_entries }
    }
}

impl ConfigHost {
    /// A block with the given patterns and no entries.
    pub fn new(patterns: Vec<String>) -> (r: ConfigHost)
        ensures
            r@.patterns == strings_view(patterns@),
            r@.entries == Map::<EntryType, Seq<char>>::empty(),
            r@.multi_entries == Map::<EntryType, Seq<Seq<char>>>::empty(),
            r@.well_formed(),
    {
        let r = ConfigHost { patterns, entries: HashMap::new(), multi_entries: HashMap::new() };
        assert(r@.entries =~= Map::<EntryType, Seq<char>>::empty());
        assert(r@.multi_entries =~= Map::<EntryType, Seq<Seq<char>>>::empty());
        r
    }

    /// Inserts or appends an entry. Single-value keywords override;
    /// multi-value keywords append.
    pub fn update(&mut self, entry: (EntryType, String))
        ensures
            final(self)@ == old(self)@.updated(entry.0, entry.1@),
            final(self)@.well_formed(),
    {
        proof {
            use_type_invariant(&*self);
        }
        let (kind, value) = entry;
        let code = kind.code();
        proof {
            lemma_code_roundtrip(kind);
        }
        if kind.is_multi_valued() {
            let mut multi: HashMap<u8, Vec<String>> = HashMap::new();
            std::mem::swap(&mut multi, &mut self.multi_entries);
            let mut vals = match multi.remove(&code) {
                Some(v) => v,
                None => Vec::new(),
            };
            proof {
                lemma_lift_multi_remove(old(self).multi_entries@, kind);
            }
            vals.push(value);
            proof {
                assert(strings_view(vals@) =~= old(self)@.multi_values(kind).push(value@));
            }
            let ghost removed = multi@;
            multi.insert(code, vals);
            proof {
                lemma_lift_multi_insert(removed, kind, vals);
                assert(removed == old(self).multi_entries@.remove(code));
                assert(lift_multi(multi@) =~= lift_multi(old(self).multi_entries@).insert(
                    kind, old(self)@.multi_values(kind).push(value@)));
            }
            self.multi_entries = multi;
            assert(self@.multi_entries == old(self)@.updated(kind, value@).multi_entries);
            assert(self@.entries == old(self)@.updated(kind, value@).entries);
            assert(self@.patterns == old(self)@.updated(kind, value@).patterns);
        } else {
            let mut entries: HashMap<u8, String> = HashMap::new();
            std::mem::swap(&mut entries, &mut self.entries);
            entries.insert(code, value);
            proof {
                lemma_lift_single_insert(old(self).entries@, kind, value);
            }
            self.entries = entries;
            assert(self@.entries == old(self)@.updated(kind, value@).entries);
        }
    }

    /// Appends the patterns of `host` to this block's patterns.
    pub(crate) fn extend_patterns(&mut self, host: &ConfigHost)
        ensures
            final(self)@ == (HostModel {
                patterns: old(self)@.patterns + host@.patterns,
                ..old(self)@
            }),
    {
        proof {
            use_type_invariant(&*self);
        }
        let mut patterns: Vec<String> = Vec::new();
        std::mem::swap(&mut patterns, &mut self.patterns);
        let extra = clone_strings(&host.patterns);
        let ghost before = patterns@;
        append_clones(&mut patterns, &extra);
        assert(strings_view(patterns@) =~= strings_view(before) + strings_view(extra@));
        self.patterns = patterns;
    }

    /// Adds the entries of `host`: its single values win, its accumulated
    /// values are appended.
    pub(crate) fn extend_entries(&mut self, host: &ConfigHost)
        ensures
            final(self)@ == old(self)@.extended_with(host@),
    {
        proof {
            use_type_invariant(&*self);
            use_type_invariant(host);
        }
        let ghost m0 = self@;
        let ghost h = host@;
        let mut entries: HashMap<u8, String> = HashMap::new();
        std::mem::swap(&mut entries, &mut self.entries);
        let mut c: u8 = 0;
        while c < ENTRY_TYPE_COUNT
            invariant
                c <= ENTRY_TYPE_COUNT,
                h == host@,
                forall|k: u8| #[trigger] host.entries@.contains_key(k) ==> single_code(k),
                forall|k: u8| #[trigger] entries@.contains_key(k) ==> single_code(k),
                lift_single(entries@) == Map::new(
                    |e: EntryType| m0.entries.contains_key(e) || (e.spec_code() < c
                        && h.entries.contains_key(e)),
                    |e: EntryType| if e.spec_code() < c && h.entries.contains_key(e) {
                        h.entries[e]
                    } else {
                        m0.entries[e]
                    },
                ),
            decreases ENTRY_TYPE_COUNT - c,
        {
            proof {
                lemma_from_code_inverse(c);
            }
            let kind = EntryType::from_code(c).unwrap();
            match host.entries.get(&c) {
                Some(v) => {
                    let ghost before = entries@;
                    entries.insert(c, v.clone());
                    proof {
                        lemma_lift_single_insert(before, kind, *v);
                    }
                },
                None => {},
            }
            proof {
                assert forall|e: EntryType| #![auto] (e.spec_code() < c + 1 <==> (
                e.spec_code() < c || e == kind)) by {
                    lemma_code_injective(e, kind);
                }
                assert(lift_single(entries@) =~= Map::new(
                    |e: EntryType| m0.entries.contains_key(e) || (e.spec_code() < c + 1
                        && h.entries.contains_key(e)),
                    |e: EntryType| if e.spec_code() < c + 1 && h.entries.contains_key(e) {
                        h.entries[e]
                    } else {
                        m0.entries[e]
                    },
                ));
            }
            c = c + 1;
        }
        proof {
            assert forall|e: EntryType| #![auto] e.spec_code() < ENTRY_TYPE_COUNT by {
                lemma_code_roundtrip(e);
            }
            assert(lift_single(entries@) =~= m0.extended_with(h).entries);
        }
        self.entries = entries;
        let mut multi: HashMap<u8, Vec<String>> = HashMap::new();
        std::mem::swap(&mut multi, &mut self.multi_entries);
        let mut c: u8 = 0;
        while c < ENTRY_TYPE_COUNT
            invariant
                c <= ENTRY_TYPE_COUNT,
                h == host@,
                forall|k: u8| #[trigger] host.multi_entries@.contains_key(k) ==> multi_code(k)
                    && host.multi_entries@[k]@.len() > 0,
                forall|k: u8| #[trigger] multi@.contains_key(k) ==> multi_code(k)
                    && multi@[k]@.len() > 0,
                lift_multi(multi@) == Map::new(
                    |e: EntryType| m0.multi_entries.contains_key(e) || (e.spec_code() < c
                        && h.multi_entries.contains_key(e)),
                    |e: EntryType| m0.multi_values(e) + (if e.spec_code() < c {
                        h.multi_values(e)
                    } else {
                        seq![]
                    }),
                ),
            decreases ENTRY_TYPE_COUNT - c,
        {
            proof {
                lemma_from_code_inverse(c);
            }
            let kind = EntryType::from_code(c).unwrap();
            match host.multi_entries.get(&c) {
                Some(vals) => {
                    let ghost before = multi@;
                    let ghost lb = lift_multi(before);
                    assert(lb.contains_key(kind) == before.contains_key(c));
                    let mut cur = match multi.remove(&c) {
                        Some(x) => x,
                        None => Vec::new(),
                    };
                    proof {
                        lemma_lift_multi_remove(before, kind);
                        if before.contains_key(c) {
                            assert(lb[kind] == strings_view(cur@));
                        }
                        assert(strings_view(cur@) =~= m0.multi_values(kind));
                    }
                    let ghost cur0 = cur@;
                    append_clones(&mut cur, vals);
                    let ghost removed = multi@;
                    multi.insert(c, cur);
                    proof {
                        lemma_lift_multi_insert(removed, kind, cur);
                        assert(strings_view(cur@) =~= strings_view(cur0) + strings_view(vals@));
                        assert(h.multi_values(kind) == strings_view(vals@));
                        assert(lift_multi(multi@) == lb.remove(kind).insert(
                            kind,
                            m0.multi_values(kind) + h.multi_values(kind),
                        ));
                    }
                },
                None => {
                    assert(h.multi_values(kind) =~= seq![]);
                },
            }
            proof {
                assert forall|e: EntryType| #![auto] (e.spec_code() < c + 1 <==> (
                e.spec_code() < c || e == kind)) by {
                    lemma_code_injective(e, kind);
                }
                assert(lift_multi(multi@) =~= Map::new(
                    |e: EntryType| m0.multi_entries.contains_key(e) || (e.spec_code() < c + 1
                        && h.multi_entries.contains_key(e)),
                    |e: EntryType| m0.multi_values(e) + (if e.spec_code() < c + 1 {
                        h.multi_values(e)
                    } else {
                        seq![]
                    }),
                ));
            }
            c = c + 1;
        }
        proof {
            assert forall|e: EntryType| #![auto] e.spec_code() < ENTRY_TYPE_COUNT by {
                lemma_code_roundtrip(e);
            }
            assert(lift_multi(multi@) =~= m0.extended_with(h).multi_entries);
        }
        self.multi_entries = multi;
    }

    /// Adds the entries of `host` for keywords this block does not hold yet;
    /// entries already present are kept as they are.
    pub(crate) fn extend_if_not_contained(&mut self, host: &ConfigHost)
        ensures
            final(self)@ == old(self)@.filled_from(host@),
    {
        proof {
            use_type_invariant(&*self);
            use_type_invariant(host);
        }
        let ghost m0 = self@;
        let ghost h = host@;
        let mut entries: HashMap<u8, String> = HashMap::new();
        std::mem::swap(&mut entries, &mut self.entries);
        let mut c: u8 = 0;
        while c < ENTRY_TYPE_COUNT
            invariant
                c <= ENTRY_TYPE_COUNT,
                h == host@,
                forall|k: u8| #[trigger] host.entries@.contains_key(k) ==> single_code(k),
                forall|k: u8| #[trigger] entries@.contains_key(k) ==> single_code(k),
                lift_single(entries@) == Map::new(
                    |e: EntryType| m0.entries.contains_key(e) || (e.spec_code() < c
                        && h.entries.contains_key(e)),
                    |e: EntryType| if m0.entries.contains_key(e) {
                        m0.entries[e]
                    } else {
                        h.entries[e]
                    },
                ),
            decreases ENTRY_TYPE_COUNT - c,
        {
            proof {
                lemma_from_code_inverse(c);
            }
            let kind = EntryType::from_code(c).unwrap();
            let ghost pre = entries@;
            assert(lift_single(pre).contains_key(kind) == pre.contains_key(c));
            match host.entries.get(&c) {
                Some(v) => {
                    if !entries.contains_key(&c) {
                        let ghost before = entries@;
                        entries.insert(c, v.clone());
                        proof {
                            lemma_lift_single_insert(before, kind, *v);
                        }
                    }
                },
                None => {},
            }
            proof {
                assert forall|e: EntryType| #![auto] (e.spec_code() < c + 1 <==> (
                e.spec_code() < c || e == kind)) by {
                    lemma_code_injective(e, kind);
                }
                if pre.contains_key(c) {
                    assert(m0.entries.contains_key(kind));
                    assert(entries@ == pre);
                } else {
                    assert(!m0.entries.contains_key(kind));
                }
                assert(lift_single(entries@) =~= Map::new(
                    |e: EntryType| m0.entries.contains_key(e) || (e.spec_code() < c + 1
                        && h.entries.contains_key(e)),
                    |e: EntryType| if m0.entries.contains_key(e) {
                        m0.entries[e]
                    } else {
                        h.entries[e]
                    },
                ));
            }
            c = c + 1;
        }
        proof {
            assert forall|e: EntryType| #![auto] e.spec_code() < ENTRY_TYPE_COUNT by {
                lemma_code_roundtrip(e);
            }
            assert(lift_single(entries@) =~= m0.filled_from(h).entries);
        }
        self.entries = entries;
        let mut multi: HashMap<u8, Vec<String>> = HashMap::new();
        std::mem::swap(&mut multi, &mut self.multi_entries);
        let mut c: u8 = 0;
        while c < ENTRY_TYPE_COUNT
            invariant
                c <= ENTRY_TYPE_COUNT,
                h == host@,
                forall|k: u8| #[trigger] host.multi_entries@.contains_key(k) ==> multi_code(k)
                    && host.multi_entries@[k]@.len() > 0,
                forall|k: u8| #[trigger] multi@.contains_key(k) ==> multi_code(k)
                    && multi@[k]@.len() > 0,
                lift_multi(multi@) == Map::new(
                    |e: EntryType| m0.multi_entries.contains_key(e) || (e.spec_code() < c
                        && h.multi_entries.contains_key(e)),
                    |e: EntryType| if m0.multi_entries.contains_key(e) {
                        m0.multi_entries[e]
                    } else {
                        h.multi_entries[e]
                    },
                ),
            decreases ENTRY_TYPE_COUNT - c,
        {
            proof {
                lemma_from_code_inverse(c);
            }
            let kind = EntryType::from_code(c).unwrap();
            let ghost pre = multi@;
            assert(lift_multi(pre).contains_key(kind) == pre.contains_key(c));
            match host.multi_entries.get(&c) {
                Some(vals) => {
                    if !multi.contains_key(&c) {
                        let ghost before = multi@;
                        let copy = clone_strings(vals);
                        multi.insert(c, copy);
                        proof {
                            lemma_lift_multi_insert(before, kind, copy);
                        }
                    }
                },
                None => {},
            }
            proof {
                assert forall|e: EntryType| #![auto] (e.spec_code() < c + 1 <==> (
                e.spec_code() < c || e == kind)) by {
                    lemma_code_injective(e, kind);
                }
                if pre.contains_key(c) {
                    assert(m0.multi_entries.contains_key(kind));
                    assert(multi@ == pre);
                } else {
                    assert(!m0.multi_entries.contains_key(kind));
                }
                assert(lift_multi(multi@) =~= Map::new(
                    |e: EntryType| m0.multi_entries.contains_key(e) || (e.spec_code() < c + 1
                        && h.multi_entries.contains_key(e)),
                    |e: EntryType| if m0.multi_entries.contains_key(e) {
                        m0.multi_entries[e]
                    } else {
                        h.multi_entries[e]
                    },
                ));
            }
            c = c + 1;
        }
        proof {
            assert forall|e: EntryType| #![auto] e.spec_code() < ENTRY_TYPE_COUNT by {
                lemma_code_roundtrip(e);
            }
            assert(lift_multi(multi@) =~= m0.filled_from(h).multi_entries);
        }
        self.multi_entries = multi;
    }

    /// Whether both blocks hold exactly the same entries.
    pub fn has_same_entries(&self, other: &ConfigHost) -> (r: bool)
        ensures
            r == (self@.entries == other@.entries && self@.multi_entries
                == other@.multi_entries),
    {
        proof {
            use_type_invariant(self);
            use_type_invariant(other);
        }
        let ghost a = self@;
        let ghost b = other@;
        let mut c: u8 = 0;
        while c < ENTRY_TYPE_COUNT
            invariant
                c <= ENTRY_TYPE_COUNT,
                a == self@,
                b == other@,
                forall|e: EntryType| e.spec_code() < c ==> #[trigger] agree_at(a, b, e),
            decreases ENTRY_TYPE_COUNT - c,
        {
            proof {
                lemma_from_code_inverse(c);
            }
            let kind = EntryType::from_code(c).unwrap();
            let same_single = match (self.entries.get(&c), other.entries.get(&c)) {
                (Some(x), Some(y)) => *x == *y,
                (None, None) => true,
                _ => false,
            };
            if !same_single {
                assert(!agree_at(a, b, kind));
                return false;
            }
            let same_multi = match (self.multi_entries.get(&c), other.multi_entries.get(&c)) {
                (Some(x), Some(y)) => strings_equal(x, y),
                (None, None) => true,
                _ => false,
            };
            if !same_multi {
                assert(!agree_at(a, b, kind));
                return false;
            }
            assert(agree_at(a, b, kind));
            proof {
                assert forall|e: EntryType| e.spec_code() < c + 1 implies #[trigger] agree_at(
                    a,
                    b,
                    e,
                ) by {
                    lemma_code_injective(e, kind);
                }
            }
            c = c + 1;
        }
        proof {
            assert forall|e: EntryType| #[trigger] agree_at(a, b, e) by {
                lemma_code_roundtrip(e);
            }
            assert forall|e: EntryType| #[trigger] a.entries.contains_key(e)
                == b.entries.contains_key(e) by {
                assert(agree_at(a, b, e));
            }
            assert forall|e: EntryType| #[trigger] a.multi_entries.contains_key(e)
                == b.multi_entries.contains_key(e) by {
                assert(agree_at(a, b, e));
            }
            assert forall|e: EntryType| a.entries.contains_key(e) implies #[trigger] a.entries[e]
                == b.entries[e] by {
                assert(agree_at(a, b, e));
            }
            assert forall|e: EntryType| a.multi_entries.contains_key(e) implies
                #[trigger] a.multi_entries[e] == b.multi_entries[e] by {
                assert(agree_at(a, b, e));
            }
            assert(a.entries =~= b.entries);
            assert(a.multi_entries =~= b.multi_entries);
        }
        true
    }

    /// The compiled matching rules of this block's wildcard patterns, or
    /// `None` when one of them does not compile.
    pub fn try_matching_pattern_regexes(&self) -> (r: Option<Vec<(PatternRegex, bool)>>)
        ensures
            r is Some <==> patterns_compile(self@.patterns),
            r matches Some(v) ==> rules_view(v@) == pattern_rules(self@.patterns),
    {
        let ghost ps = self@.patterns;
        let mut out: Vec<(PatternRegex, bool)> = Vec::new();
        let mut i: usize = 0;
        while i < self.patterns.len()
            invariant
                i <= self.patterns@.len(),
                ps == strings_view(self.patterns@),
                rules_view(out@) == pattern_rules(ps.take(i as int)),
                patterns_compile(ps.take(i as int)),
            decreases self.patterns@.len() - i,
        {
            let p = &self.patterns[i];
            assert(ps.take(i + 1).drop_last() =~= ps.take(i as int));
            assert(ps.take(i + 1).last() == p@);
            if pattern_has_wildcard(p.as_str()) {
                let (src, neg) = pattern_to_regex_source(p.as_str());
                match PatternRegex::compile(src) {
                    Some(re) => {
                        let ghost old_out = out@;
                        out.push((re, neg));
                        assert(rules_view(out@) =~= rules_view(old_out).push(
                            (re.spec_source(), neg),
                        ));
                    },
                    None => {
                        assert(!patterns_compile(ps)) by {
                            assert(ps[i as int] == p@);
                        }
                        return None;
                    },
                }
            }
            assert(patterns_compile(ps.take(i + 1))) by {
                assert forall|k: int| 0 <= k < i + 1 && has_wildcard(
                    #[trigger] ps.take(i + 1)[k],
                ) implies regex_compiles(pattern_regex_source(ps.take(i + 1)[k])) by {
                    if k < i {
                        assert(ps.take(i + 1)[k] == ps.take(i as int)[k]);
                    }
                }
            }
            i = i + 1;
        }
        assert(ps.take(ps.len() as int) =~= ps);
        Some(out)
    }

    /// The compiled matching rules of this block's wildcard patterns, in
    /// pattern order: anchored regex and negation flag for each.
    pub fn matching_pattern_regexes(&self) -> (r: Vec<(PatternRegex, bool)>)
        requires
            patterns_compile(self@.patterns),
        ensures
            rules_view(r@) == pattern_rules(self@.patterns),
    {
        match self.try_matching_pattern_regexes() {
            Some(v) => v,
            None => Vec::new(),
        }
    }

    /// A copy of this block with other patterns.
    pub fn with_patterns(&self, patterns: Vec<String>) -> (r: ConfigHost)
        ensures
            r@ == (HostModel { patterns: strings_view(patterns@), ..self@ }),
    {
        proof {
            use_type_invariant(self);
        }
        ConfigHost {
            patterns,
            entries: self.entries.clone(),
            multi_entries: self.multi_entries.clone(),
        }
    }

    /// The patterns of the `Host` line.
    pub fn get_patterns(&self) -> (r: &Vec<String>)
        ensures
            strings_view(r@) == self@.patterns,
            self@.well_formed(),
    {
        proof {
            use_type_invariant(self);
            (self).lemma_well_formed();
        }
        &self.patterns
    }

    /// The single value recorded for a keyword.
    pub fn get(&self, entry: &EntryType) -> (r: Option<String>)
        ensures
            opt_view(r) == self@.single_value(*entry),
            self@.well_formed(),
    {
        proof {
            use_type_invariant(self);
            (self).lemma_well_formed();
        }
        match self.entries.get(&entry.code()) {
            Some(v) => Some(v.clone()),
            None => None,
        }
    }

    /// Returns all values for a keyword, single or multi-value.
    pub fn get_all(&self, entry: &EntryType) -> (r: Vec<String>)
        ensures
            strings_view(r@) == self@.all_values(*entry),
            self@.well_formed(),
    {
        proof {
            use_type_invariant(self);
            (self).lemma_well_formed();
        }
        let code = entry.code();
        match self.multi_entries.get(&code) {
            Some(vals) => {
                let r = clone_strings(vals);
                r
            },
            None => match self.entries.get(&code) {
                Some(v) => {
                    let r = vec![v.clone()];
                    assert(strings_view(r@) =~= seq![v@]);
                    r
                },
                None => {
                    let r: Vec<String> = Vec::new();
                    assert(strings_view(r@) =~= Seq::<Seq<char>>::empty());
                    r
                },
            },
        }
    }

    /// Return every (EntryType, value), including repeated ones.
    pub fn all_entries(&self) -> (r: Vec<(EntryType, String)>)
        ensures
            pairs_view(r@) == self@.entry_list(),
            self@.well_formed(),
    {
        proof {
            use_type_invariant(self);
            (self).lemma_well_formed();
        }
        let ghost m = self@;
        let mut v: Vec<(EntryType, String)> = Vec::new();
        let mut c: u8 = 0;
        while c < ENTRY_TYPE_COUNT
            invariant
                c <= ENTRY_TYPE_COUNT,
                m == self@,
                pairs_view(v@) == m.multi_pairs(c as nat),
            decreases ENTRY_TYPE_COUNT - c,
        {
            let kind = EntryType::from_code(c).unwrap();
            proof {
                lemma_from_code_inverse(c);
            }
            match self.multi_entries.get(&c) {
                Some(vals) => {
                    let ghost before = v@;
                    let mut i: usize = 0;
                    while i < vals.len()
                        invariant
                            i <= vals@.len(),
                            kind.spec_code() == c,
                            m == self@,
                            self.multi_entries@.contains_key(c),
                            self.multi_entries@[c] == *vals,
                            pairs_view(v@) == m.multi_pairs(
                                c as nat,
                            ) + tag_values(kind, strings_view(vals@.take(i as int))),
                        decreases vals@.len() - i,
                    {
                        let ghost old_v = v@;
                        v.push((kind, vals[i].clone()));
                        assert(pairs_view(v@) =~= pairs_view(old_v).push((kind, vals@[i as int]@)));
                        assert(tag_values(kind, strings_view(vals@.take(i + 1))) =~= tag_values(
                            kind,
                            strings_view(vals@.take(i as int)),
                        ).push((kind, vals@[i as int]@)));
                        i = i + 1;
                    }
                    assert(vals@.take(vals@.len() as int) =~= vals@);
                    assert(m.multi_values(kind) == strings_view(vals@));
                },
                None => {
                    assert(!m.multi_entries.contains_key(kind));
                    assert(tag_values(kind, m.multi_values(kind)) =~= seq![]);
                },
            }
            assert(m.multi_pairs((c + 1) as nat) == m.multi_pairs(c as nat) + tag_values(
                kind,
                m.multi_values(kind),
            ));
            c = c + 1;
        }
        let ghost first = pairs_view(v@);
        let mut c: u8 = 0;
        while c < ENTRY_TYPE_COUNT
            invariant
                c <= ENTRY_TYPE_COUNT,
                m == self@,
                first == m.multi_pairs(ENTRY_TYPE_COUNT as nat),
                pairs_view(v@) == first + m.single_pairs(
                    c as nat,
                ),
            decreases ENTRY_TYPE_COUNT - c,
        {
            let kind = EntryType::from_code(c).unwrap();
            proof {
                lemma_from_code_inverse(c);
            }
            match self.entries.get(&c) {
                Some(val) => {
                    let ghost old_v = v@;
                    v.push((kind, val.clone()));
                    assert(pairs_view(v@) =~= pairs_view(old_v).push((kind, val@)));
                    assert(pairs_view(v@) =~= first
                        + m.single_pairs((c + 1) as nat));
                },
                None => {
                    assert(m.single_pairs((c + 1) as nat) == m.single_pairs(c as nat));
                },
            }
            c = c + 1;
        }
        v
    }

    /// Whether the block holds no entry.
    pub fn is_empty(&self) -> (r: bool)
        ensures
            r == self@.has_no_entries(),
            self@.well_formed(),
    {
        proof {
            use_type_invariant(self);
            (self).lemma_well_formed();
        }
        proof {
            use_type_invariant(self);
        }
        let r = self.entries.is_empty() && self.multi_entries.is_empty();
        proof {
            if !self.entries@.is_empty() {
                let k = choose|k: u8| self.entries@.contains_key(k);
                assert(self.entries@.dom().contains(k));
                lemma_from_code_inverse(k);
                let e = EntryType::spec_from_code(k).unwrap();
                assert(self@.entries.contains_key(e));
            }
            if !self.multi_entries@.is_empty() {
                let k = choose|k: u8| self.multi_entries@.contains_key(k);
                assert(self.multi_entries@.dom().contains(k));
                lemma_from_code_inverse(k);
                let e = EntryType::spec_from_code(k).unwrap();
                assert(self@.multi_entries.contains_key(e));
            }
            if r {
                assert(self.entries@ =~= Map::empty());
                assert(self.multi_entries@ =~= Map::empty());
            }
        }
        r
    }
}

} // verus!

verus! {

/// Recording a value for a single-valued keyword makes it the value that
/// `get` reports, and leaves every other keyword as it was.
pub proof fn law_update_then_get(m: HostModel, e: EntryType, v: Seq<char>, other: EntryType)
    requires
        !e.spec_is_multi_valued(),
        other != e,
    ensures
        m.updated(e, v).single_value(e) == Some(v),
        m.updated(e, v).single_value(other) == m.single_value(other),
        m.updated(e, v).all_values(other) == m.all_values(other),
{
}

/// Recording a value for a multi-valued keyword appends it to the values
/// that `get_all` reports, and leaves every other keyword as it was.
pub proof fn law_update_appends(m: HostModel, e: EntryType, v: Seq<char>, other: EntryType)
    requires
        m.well_formed(),
        e.spec_is_multi_valued(),
        other != e,
    ensures
        m.updated(e, v).all_values(e) == m.all_values(e).push(v),
        m.updated(e, v).all_values(other) == m.all_values(other),
        m.updated(e, v).well_formed(),
{
    if m.entries.contains_key(e) {
        assert(!e.spec_is_multi_valued());
    }
    assert(m.all_values(e) == m.multi_values(e));
}

/// A single-valued update keeps a model well formed.
pub proof fn law_update_well_formed(m: HostModel, e: EntryType, v: Seq<char>)
    requires
        m.well_formed(),
    ensures
        m.updated(e, v).well_formed(),
{
}

proof fn lemma_multi_pairs_contains(m: HostModel, n: nat, e: EntryType, v: Seq<char>)
    requires
        n <= ENTRY_TYPE_COUNT,
    ensures
        m.multi_pairs(n).contains((e, v)) <==> (e.spec_code() < n && m.multi_values(e).contains(
            v,
        )),
    decreases n,
{
    if n > 0 {
        lemma_multi_pairs_contains(m, (n - 1) as nat, e, v);
        lemma_from_code_inverse((n - 1) as u8);
        lemma_code_roundtrip(e);
        let prev = m.multi_pairs((n - 1) as nat);
        let k = EntryType::spec_from_code((n - 1) as u8).unwrap();
        let tail = tag_values(k, m.multi_values(k));
        assert(m.multi_pairs(n) == prev + tail);
        if m.multi_pairs(n).contains((e, v)) {
            let idx = choose|idx: int| 0 <= idx < m.multi_pairs(n).len() && m.multi_pairs(n)[idx] == (e, v);
            if idx >= prev.len() {
                assert(tail[idx - prev.len()] == (e, v));
                assert(k == e);
                assert(m.multi_values(e)[idx - prev.len()] == v);
            } else {
                assert(prev[idx] == (e, v));
            }
        }
        if e.spec_code() < n && m.multi_values(e).contains(v) {
            if e.spec_code() == n - 1 {
                lemma_code_injective(e, k);
                let j = choose|j: int| 0 <= j < m.multi_values(e).len() && m.multi_values(e)[j] == v;
                assert(tail[j] == (e, v));
                assert(m.multi_pairs(n)[prev.len() + j] == (e, v));
            } else {
                let idx = choose|idx: int| 0 <= idx < prev.len() && prev[idx] == (e, v);
                assert(m.multi_pairs(n)[idx] == (e, v));
            }
        }
    }
}

proof fn lemma_single_pairs_contains(m: HostModel, n: nat, e: EntryType, v: Seq<char>)
    requires
        n <= ENTRY_TYPE_COUNT,
    ensures
        m.single_pairs(n).contains((e, v)) <==> (e.spec_code() < n && m.single_value(e) == Some(
            v,
        )),
    decreases n,
{
    if n > 0 {
        lemma_single_pairs_contains(m, (n - 1) as nat, e, v);
        lemma_from_code_inverse((n - 1) as u8);
        lemma_code_roundtrip(e);
        let prev = m.single_pairs((n - 1) as nat);
        let k = EntryType::spec_from_code((n - 1) as u8).unwrap();
        lemma_code_injective(e, k);
        if m.single_pairs(n).contains((e, v)) {
            let idx = choose|idx: int| 0 <= idx < m.single_pairs(n).len() && m.single_pairs(n)[idx] == (e, v);
            if idx < prev.len() {
                assert(prev[idx] == (e, v));
            }
        }
        if e.spec_code() < n && m.single_value(e) == Some(v) {
            if e.spec_code() == n - 1 {
                assert(m.single_pairs(n)[prev.len() as int] == (e, v));
            } else {
                let idx = choose|idx: int| 0 <= idx < prev.len() && prev[idx] == (e, v);
                assert(m.single_pairs(n)[idx] == (e, v));
            }
        }
    }
}

/// `all_entries` lists exactly the values that `get_all` reports: a pair
/// `(e, v)` occurs in it iff `v` is among the values of `e`.
pub proof fn law_all_entries_match_get_all(m: HostModel, e: EntryType, v: Seq<char>)
    requires
        m.well_formed(),
    ensures
        m.entry_list().contains((e, v)) <==> m.all_values(e).contains(v),
{
    lemma_code_roundtrip(e);
    lemma_multi_pairs_contains(m, ENTRY_TYPE_COUNT as nat, e, v);
    lemma_single_pairs_contains(m, ENTRY_TYPE_COUNT as nat, e, v);
    let a = m.multi_pairs(ENTRY_TYPE_COUNT as nat);
    let b = m.single_pairs(ENTRY_TYPE_COUNT as nat);
    let l = m.entry_list();
    assert(l == a + b);
    if l.contains((e, v)) {
        let idx = choose|idx: int| 0 <= idx < l.len() && l[idx] == (e, v);
        if idx < a.len() {
            assert(a[idx] == (e, v));
        } else {
            assert(b[idx - a.len()] == (e, v));
        }
    }
    if m.multi_entries.contains_key(e) {
        if m.all_values(e).contains(v) {
            assert(a.contains((e, v)));
            let idx = choose|idx: int| 0 <= idx < a.len() && a[idx] == (e, v);
            assert(l[idx] == (e, v));
        }
    } else if m.entries.contains_key(e) {
        if m.all_values(e).contains(v) {
            assert(m.all_values(e)[0] == m.entries[e]);
            assert(v == m.entries[e]);
            assert(b.contains((e, v)));
            let idx = choose|idx: int| 0 <= idx < b.len() && b[idx] == (e, v);
            assert(l[a.len() + idx] == (e, v));
        }
        if l.contains((e, v)) {
            assert(seq![m.entries[e]][0] == v);
        }
    }
}

/// A block reports itself empty exactly when `all_entries` lists nothing.
pub proof fn law_is_empty_iff_no_entry_listed(m: HostModel)
    requires
        m.well_formed(),
    ensures
        m.has_no_entries() <==> m.entry_list().len() == 0,
{
    if !m.has_no_entries() {
        if exists|e: EntryType| #[trigger] m.entries.contains_key(e) {
            let e = choose|e: EntryType| #[trigger] m.entries.contains_key(e);
            law_all_entries_match_get_all(m, e, m.entries[e]);
            assert(m.all_values(e)[0] == m.entries[e]);
        } else {
            let e = choose|e: EntryType| #[trigger] m.multi_entries.contains_key(e);
            law_all_entries_match_get_all(m, e, m.multi_entries[e][0]);
            assert(m.all_values(e)[0] == m.multi_entries[e][0]);
        }
    } else {
        if m.entry_list().len() > 0 {
            let p = m.entry_list()[0];
            law_all_entries_match_get_all(m, p.0, p.1);
            assert(m.entry_list().contains(p));
        }
    }
}

/// Filling a block from another never changes a value the block already
/// holds; it only adds keywords the block lacks.
pub proof fn law_fill_keeps_own_values(m: HostModel, o: HostModel, e: EntryType)
    ensures
        m.entries.contains_key(e) ==> m.filled_from(o).single_value(e) == m.single_value(e),
        !m.entries.contains_key(e) ==> m.filled_from(o).single_value(e) == o.single_value(e),
        m.multi_entries.contains_key(e) ==> m.filled_from(o).multi_values(e) == m.multi_values(
            e,
        ),
        !m.multi_entries.contains_key(e) ==> m.filled_from(o).multi_values(e) == o.multi_values(
            e,
        ),
        m.filled_from(o).patterns == m.patterns,
{
}


/// The model after recording the entries `us` in order.
pub open spec fn updated_all(m: HostModel, us: Seq<(EntryType, Seq<char>)>) -> HostModel
    decreases us.len(),
{
    if us.len() == 0 {
        m
    } else {
        updated_all(m, us.drop_last()).updated(us.last().0, us.last().1)
    }
}

/// The values given for keyword `e` in `us`, in order.
pub open spec fn values_given(us: Seq<(EntryType, Seq<char>)>, e: EntryType) -> Seq<Seq<char>>
    decreases us.len(),
{
    if us.len() == 0 {
        seq![]
    } else if us.last().0 == e {
        values_given(us.drop_last(), e).push(us.last().1)
    } else {
        values_given(us.drop_last(), e)
    }
}

/// A block with the given patterns and no entries.
pub open spec fn fresh_block(patterns: Seq<Seq<char>>) -> HostModel {
    HostModel {
        patterns,
        entries: Map::<EntryType, Seq<char>>::empty(),
        multi_entries: Map::<EntryType, Seq<Seq<char>>>::empty(),
    }
}

/// One update changes the values of its keyword only: a multi-valued
/// keyword gets the value appended, a single-valued one gets it as its only
/// value.
proof fn lemma_update_values(m: HostModel, k: EntryType, v: Seq<char>, e: EntryType)
    requires
        m.well_formed(),
    ensures
        m.updated(k, v).well_formed(),
        m.updated(k, v).all_values(e) == (if e != k {
            m.all_values(e)
        } else if k.spec_is_multi_valued() {
            m.all_values(e).push(v)
        } else {
            seq![v]
        }),
        m.updated(k, v).single_value(e) == (if e == k && !k.spec_is_multi_valued() {
            Some(v)
        } else {
            m.single_value(e)
        }),
{
    if e == k && k.spec_is_multi_valued() {
        if m.entries.contains_key(e) {
            assert(!e.spec_is_multi_valued());
        }
        assert(m.all_values(e) == m.multi_values(e));
    }
    if e == k && !k.spec_is_multi_valued() {
        assert(!m.multi_entries.contains_key(e));
    }
}

/// A block made by `new` and then updated with `us`, in order, holds for a
/// multi-valued keyword every value given for it, in order, and no single
/// value; and for a single-valued keyword only the last value given for it.
pub proof fn law_updates_in_order(patterns: Seq<Seq<char>>, us: Seq<(EntryType, Seq<char>)>)
    ensures
        updated_all(fresh_block(patterns), us).well_formed(),
        updated_all(fresh_block(patterns), us).patterns == patterns,
        forall|e: EntryType|
            e.spec_is_multi_valued() ==> #[trigger] updated_all(fresh_block(patterns), us).all_values(e)
                == values_given(us, e) && updated_all(fresh_block(patterns), us).single_value(e) is None,
        forall|e: EntryType|
            !e.spec_is_multi_valued() ==> #[trigger] updated_all(fresh_block(patterns), us).all_values(e)
                == (if values_given(us, e).len() > 0 {
                seq![values_given(us, e).last()]
            } else {
                seq![]
            }) && updated_all(fresh_block(patterns), us).single_value(e) == (if values_given(us, e).len()
                > 0 {
                Some(values_given(us, e).last())
            } else {
                None
            }),
    decreases us.len(),
{
    let m0 = fresh_block(patterns);
    if us.len() > 0 {
        law_updates_in_order(patterns, us.drop_last());
        let prev = updated_all(m0, us.drop_last());
        let (k, v) = us.last();
        assert forall|e: EntryType| #![trigger updated_all(m0, us).all_values(e)]
            updated_all(m0, us).all_values(e) == (if e != k {
                prev.all_values(e)
            } else if k.spec_is_multi_valued() {
                prev.all_values(e).push(v)
            } else {
                seq![v]
            }) && updated_all(m0, us).single_value(e) == (if e == k && !k.spec_is_multi_valued() {
                Some(v)
            } else {
                prev.single_value(e)
            }) by {
            lemma_update_values(prev, k, v, e);
        }
        lemma_update_values(prev, k, v, k);
        assert forall|e: EntryType| !e.spec_is_multi_valued() implies #[trigger] updated_all(m0, us).all_values(e)
            == (if values_given(us, e).len() > 0 {
            seq![values_given(us, e).last()]
        } else {
            seq![]
        }) && updated_all(m0, us).single_value(e) == (if values_given(us, e).len() > 0 {
            Some(values_given(us, e).last())
        } else {
            None
        }) by {
            assert(prev.all_values(e) == (if values_given(us.drop_last(), e).len() > 0 {
                seq![values_given(us.drop_last(), e).last()]
            } else {
                seq![]
            }));
            assert(prev.single_value(e) == (if values_given(us.drop_last(), e).len() > 0 {
                Some(values_given(us.drop_last(), e).last())
            } else {
                None
            }));
            lemma_update_values(prev, k, v, e);
            if e == k {
                assert(values_given(us, e) == values_given(us.drop_last(), e).push(v));
            } else {
                assert(values_given(us, e) == values_given(us.drop_last(), e));
            }
        }
        assert forall|e: EntryType| e.spec_is_multi_valued() implies #[trigger] updated_all(m0, us).all_values(e)
            == values_given(us, e) && updated_all(m0, us).single_value(e) is None by {
            assert(prev.all_values(e) == values_given(us.drop_last(), e));
            lemma_update_values(prev, k, v, e);
        }
    } else {
        assert forall|e: EntryType| #[trigger] updated_all(m0, us).all_values(e) == Seq::<Seq<char>>::empty()
            && updated_all(m0, us).single_value(e) is None && values_given(us, e).len() == 0 by {}
    }
}

/// A block that has been updated is not empty.
pub proof fn law_updated_is_not_empty(m: HostModel, e: EntryType, v: Seq<char>)
    ensures
        !m.updated(e, v).has_no_entries(),
{
    if e.spec_is_multi_valued() {
        assert(m.updated(e, v).multi_entries.contains_key(e));
    } else {
        assert(m.updated(e, v).entries.contains_key(e));
    }
}


proof fn lemma_values_given_concat(a: Seq<(EntryType, Seq<char>)>, b: Seq<(EntryType, Seq<char>)>, e: EntryType)
    ensures
        values_given(a + b, e) == values_given(a, e) + values_given(b, e),
    decreases b.len(),
{
    if b.len() == 0 {
        assert(a + b =~= a);
        assert(values_given(a, e) + values_given(b, e) =~= values_given(a, e));
    } else {
        lemma_values_given_concat(a, b.drop_last(), e);
        assert((a + b).drop_last() =~= a + b.drop_last());
        assert((a + b).last() == b.last());
        assert(values_given(a + b, e) =~= values_given(a, e) + values_given(b, e));
    }
}

proof fn lemma_values_given_tagged(k: EntryType, vs: Seq<Seq<char>>, e: EntryType)
    ensures
        values_given(tag_values(k, vs), e) == (if k == e {
            vs
        } else {
            Seq::<Seq<char>>::empty()
        }),
    decreases vs.len(),
{
    if vs.len() > 0 {
        lemma_values_given_tagged(k, vs.drop_last(), e);
        assert(tag_values(k, vs).drop_last() =~= tag_values(k, vs.drop_last()));
        assert(tag_values(k, vs).last() == (k, vs.last()));
        assert(vs.drop_last().push(vs.last()) =~= vs);
    } else {
        assert(tag_values(k, vs) =~= Seq::<(EntryType, Seq<char>)>::empty());
    }
}

proof fn lemma_values_in_multi_pairs(m: HostModel, n: nat, e: EntryType)
    requires
        n <= ENTRY_TYPE_COUNT,
    ensures
        values_given(m.multi_pairs(n), e) == (if e.spec_code() < n {
            m.multi_values(e)
        } else {
            Seq::<Seq<char>>::empty()
        }),
    decreases n,
{
    lemma_code_roundtrip(e);
    if n > 0 {
        lemma_values_in_multi_pairs(m, (n - 1) as nat, e);
        lemma_from_code_inverse((n - 1) as u8);
        let k = EntryType::spec_from_code((n - 1) as u8).unwrap();
        lemma_code_injective(e, k);
        let prev = m.multi_pairs((n - 1) as nat);
        lemma_values_given_concat(prev, tag_values(k, m.multi_values(k)), e);
        lemma_values_given_tagged(k, m.multi_values(k), e);
        if e.spec_code() < n - 1 {
            assert(k != e);
            assert(values_given(prev, e) + Seq::<Seq<char>>::empty() =~= values_given(prev, e));
        } else if e.spec_code() == n - 1 {
            assert(Seq::<Seq<char>>::empty() + m.multi_values(e) =~= m.multi_values(e));
        } else {
            assert(k != e);
            assert(Seq::<Seq<char>>::empty() + Seq::<Seq<char>>::empty() =~= Seq::<Seq<char>>::empty());
        }
    }
}

proof fn lemma_values_in_single_pairs(m: HostModel, n: nat, e: EntryType)
    requires
        n <= ENTRY_TYPE_COUNT,
    ensures
        values_given(m.single_pairs(n), e) == (if e.spec_code() < n && m.entries.contains_key(e) {
            seq![m.entries[e]]
        } else {
            Seq::<Seq<char>>::empty()
        }),
    decreases n,
{
    lemma_code_roundtrip(e);
    if n > 0 {
        lemma_values_in_single_pairs(m, (n - 1) as nat, e);
        lemma_from_code_inverse((n - 1) as u8);
        let k = EntryType::spec_from_code((n - 1) as u8).unwrap();
        lemma_code_injective(e, k);
        let prev = m.single_pairs((n - 1) as nat);
        if m.entries.contains_key(k) {
            let x = (k, m.entries[k]);
            assert(m.single_pairs(n) == prev.push(x));
            assert(prev.push(x).drop_last() =~= prev);
            assert(prev.push(x).last() == x);
            if k == e {
                assert(values_given(m.single_pairs(n), e) == values_given(prev, e).push(m.entries[e]));
                assert(Seq::<Seq<char>>::empty().push(m.entries[e]) =~= seq![m.entries[e]]);
            } else {
                assert(values_given(m.single_pairs(n), e) == values_given(prev, e));
            }
        } else {
            assert(m.single_pairs(n) == prev);
        }
    }
}

/// `all_entries` pairs each keyword with exactly the values `get_all`
/// reports for it, in the same order, and with no others.
pub proof fn law_all_entries_per_keyword(m: HostModel, e: EntryType)
    requires
        m.well_formed(),
    ensures
        values_given(m.entry_list(), e) == m.all_values(e),
{
    lemma_code_roundtrip(e);
    lemma_values_given_concat(m.multi_pairs(ENTRY_TYPE_COUNT as nat), m.single_pairs(ENTRY_TYPE_COUNT as nat), e);
    lemma_values_in_multi_pairs(m, ENTRY_TYPE_COUNT as nat, e);
    lemma_values_in_single_pairs(m, ENTRY_TYPE_COUNT as nat, e);
    if m.multi_entries.contains_key(e) {
        assert(!m.entries.contains_key(e));
        assert(m.multi_values(e) + Seq::<Seq<char>>::empty() =~= m.all_values(e));
    } else {
        assert(Seq::<Seq<char>>::empty() + values_given(m.single_pairs(ENTRY_TYPE_COUNT as nat), e)
            =~= m.all_values(e));
    }
}

} // verus!
