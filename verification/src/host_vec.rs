//! Passes over the list of host blocks read from a configuration.

use vstd::prelude::*;
use crate::config_host::{ConfigHost, HostModel};
use crate::text::strings_view;
use crate::entry_type::EntryType;
use crate::pattern::{
    PatternRegex, has_wildcard, pattern_rules, patterns_compile, regex_is_match, rules_view,
};

verus! {

/// The models of a list of host blocks.
pub open spec fn models(v: Seq<ConfigHost>) -> Seq<HostModel> {
    v.map_values(|h: ConfigHost| h@)
}

/// The blocks one host block becomes when each of its patterns gets a block
/// of its own; a block without patterns stays as it is.
pub open spec fn spread_one(h: HostModel) -> Seq<HostModel> {
    if h.patterns.len() == 0 {
        seq![h]
    } else {
        h.patterns.map_values(|p: Seq<char>| HostModel { patterns: seq![p], ..h })
    }
}

/// Every block split into one block per pattern, in order.
pub open spec fn spread_all(hs: Seq<HostModel>) -> Seq<HostModel>
    decreases hs.len(),
{
    if hs.len() == 0 {
        seq![]
    } else {
        spread_all(hs.drop_last()) + spread_one(hs.last())
    }
}

/// A block that lacks a host name takes its first pattern as host name.
pub open spec fn with_default_hostname(m: HostModel) -> HostModel {
    if m.entries.contains_key(EntryType::Hostname) {
        m
    } else {
        m.updated(EntryType::Hostname, m.patterns[0])
    }
}

/// Every block with a host name, as `apply_name_to_empty_hostname` leaves it.
pub open spec fn named_hosts(hs: Seq<HostModel>) -> Seq<HostModel> {
    hs.map_values(|m: HostModel| with_default_hostname(m))
}

/// Every block that lacks a host name has a pattern to take it from.
pub open spec fn hostnames_derivable(hs: Seq<HostModel>) -> bool {
    forall|i: int|
        0 <= i < hs.len() && !(#[trigger] hs[i]).entries.contains_key(EntryType::Hostname)
            ==> hs[i].patterns.len() > 0
}

/// Two blocks hold the same entries.
pub open spec fn same_entries(a: HostModel, b: HostModel) -> bool {
    a.entries == b.entries && a.multi_entries == b.multi_entries
}

/// Block `b` folded into block `a`: the patterns of `b` follow those of `a`,
/// and the entries of `b` are added as `extend_entries` adds them.
pub open spec fn merge_pair(a: HostModel, b: HostModel) -> HostModel {
    HostModel { patterns: a.patterns + b.patterns, ..a }.extended_with(b)
}

/// The largest index below `j` whose block has the same entries as block `i`.
pub open spec fn last_same_before(hs: Seq<HostModel>, i: int, j: int) -> Option<int>
    decreases j,
{
    if j <= 0 {
        None
    } else if same_entries(hs[i], hs[j - 1]) {
        Some(j - 1)
    } else {
        last_same_before(hs, i, j - 1)
    }
}

/// One merge step for block `i`: it is folded into the nearest earlier
/// block with the same entries, if any, and removed.
pub open spec fn merge_step(hs: Seq<HostModel>, i: int) -> Seq<HostModel> {
    match last_same_before(hs, i, i) {
        Some(j) => hs.update(j, merge_pair(hs[j], hs[i])).remove(i),
        None => hs,
    }
}

/// Merge steps for blocks `n - 1` down to `0`.
pub open spec fn merge_from(hs: Seq<HostModel>, n: nat) -> Seq<HostModel>
    decreases n,
{
    if n == 0 {
        hs
    } else {
        merge_from(merge_step(hs, n - 1), (n - 1) as nat)
    }
}

/// Blocks with identical entries merged together, from the last block to
/// the first.
pub open spec fn merged_hosts(hs: Seq<HostModel>) -> Seq<HostModel> {
    merge_from(hs, hs.len())
}

/// Finds the nearest block before block `i` with the same entries.
fn find_same_before(hosts: &Vec<ConfigHost>, i: usize) -> (r: Option<usize>)
    requires
        i < hosts@.len(),
    ensures
        r matches Some(j) ==> j < i,
        match r {
            Some(j) => last_same_before(models(hosts@), i as int, i as int) == Some(j as int),
            None => last_same_before(models(hosts@), i as int, i as int) is None,
        },
{
    let ghost hs = models(hosts@);
    let mut j = i;
    while j > 0
        invariant
            j <= i < hosts@.len(),
            hs == models(hosts@),
            last_same_before(hs, i as int, i as int) == last_same_before(hs, i as int, j as int),
        decreases j,
    {
        if hosts[i].has_same_entries(&hosts[j - 1]) {
            return Some(j - 1);
        }
        j = j - 1;
    }
    None
}

/// A block is the piece of `h` that `spread_one` makes for one pattern, or
/// `h` itself when `h` has no pattern.
pub open spec fn is_piece_of(x: HostModel, h: HostModel) -> bool {
    ||| h.patterns.len() == 0 && x == h
    ||| exists|j: int|
        0 <= j < h.patterns.len() && x == (HostModel { patterns: seq![h.patterns[j]], ..h })
}

/// Every block of `spread_all(hs)` is a piece of some block of `hs`.
pub proof fn lemma_spread_pieces(hs: Seq<HostModel>)
    ensures
        forall|k: int|
            0 <= k < spread_all(hs).len() ==> exists|i: int|
                0 <= i < hs.len() && is_piece_of(#[trigger] spread_all(hs)[k], hs[i]),
    decreases hs.len(),
{
    if hs.len() > 0 {
        let init = hs.drop_last();
        lemma_spread_pieces(init);
        let s = spread_all(hs);
        let a = spread_all(init);
        let b = spread_one(hs.last());
        assert(s == a + b);
        assert forall|k: int| 0 <= k < s.len() implies exists|i: int|
            0 <= i < hs.len() && is_piece_of(#[trigger] s[k], hs[i]) by {
            if k < a.len() {
                assert(s[k] == a[k]);
                let i = choose|i: int| 0 <= i < init.len() && is_piece_of(a[k], init[i]);
                assert(init[i] == hs[i]);
            } else {
                assert(s[k] == b[k - a.len()]);
                let h = hs.last();
                if h.patterns.len() > 0 {
                    let j = k - a.len();
                    assert(b[j] == (HostModel { patterns: seq![h.patterns[j]], ..h }));
                }
                assert(is_piece_of(s[k], hs[hs.len() - 1]));
            }
        }
    }
}

/// The rules of a list of patterns none of which is a wildcard are empty.
pub proof fn lemma_no_wildcard_no_rules(ps: Seq<Seq<char>>)
    requires
        forall|j: int| 0 <= j < ps.len() ==> !has_wildcard(#[trigger] ps[j]),
    ensures
        pattern_rules(ps).len() == 0,
    decreases ps.len(),
{
    if ps.len() > 0 {
        lemma_no_wildcard_no_rules(ps.drop_last());
    }
}

/// Members of the filtered lists come from the list, and wildcard blocks
/// have rules.
pub proof fn lemma_filter_members(hs: Seq<HostModel>)
    ensures
        forall|x: int| 0 <= x < plain_hosts(hs).len() ==> exists|k: int|
            0 <= k < hs.len() && #[trigger] plain_hosts(hs)[x] == hs[k],
        forall|x: int| 0 <= x < pattern_hosts(hs).len() ==> pattern_rules(
            (#[trigger] pattern_hosts(hs)[x]).patterns,
        ).len() > 0,
    decreases hs.len(),
{
    if hs.len() > 0 {
        let init = hs.drop_last();
        lemma_filter_members(init);
        assert forall|x: int| 0 <= x < plain_hosts(hs).len() implies exists|k: int|
            0 <= k < hs.len() && #[trigger] plain_hosts(hs)[x] == hs[k] by {
            if x < plain_hosts(init).len() {
                let k = choose|k: int| 0 <= k < init.len() && plain_hosts(init)[x] == init[k];
                assert(plain_hosts(hs)[x] == hs[k]);
            } else {
                assert(plain_hosts(hs)[x] == hs[hs.len() - 1]);
            }
        }
        assert forall|x: int| 0 <= x < pattern_hosts(hs).len() implies pattern_rules(
            (#[trigger] pattern_hosts(hs)[x]).patterns,
        ).len() > 0 by {
            if x < pattern_hosts(init).len() {
                assert(pattern_hosts(hs)[x] == pattern_hosts(init)[x]);
            }
        }
    }
}

/// A list of patterns holding a wildcard pattern has rules.
pub proof fn lemma_wildcard_has_rules(ps: Seq<Seq<char>>, j: int)
    requires
        0 <= j < ps.len(),
        has_wildcard(ps[j]),
    ensures
        pattern_rules(ps).len() > 0,
    decreases ps.len(),
{
    if j < ps.len() - 1 {
        assert(ps.drop_last()[j] == ps[j]);
        lemma_wildcard_has_rules(ps.drop_last(), j);
    }
}

/// Some list of patterns with rules holds a wildcard pattern.
pub proof fn lemma_rules_have_wildcard(ps: Seq<Seq<char>>)
    requires
        pattern_rules(ps).len() > 0,
    ensures
        exists|j: int| 0 <= j < ps.len() && has_wildcard(#[trigger] ps[j]),
{
    if !(exists|j: int| 0 <= j < ps.len() && has_wildcard(#[trigger] ps[j])) {
        lemma_no_wildcard_no_rules(ps);
    }
}

/// Lending entries never changes a block's patterns.
pub proof fn lemma_inherit_patterns(h: HostModel, phs: Seq<HostModel>)
    ensures
        inherit(h, phs).patterns == h.patterns,
    decreases phs.len(),
{
    if phs.len() > 0 {
        lemma_inherit_patterns(h, phs.drop_last());
    }
}

/// A rule applies to a host name when the name matches the rule's regex
/// and the rule is not negated, or the other way around.
pub open spec fn rule_applies(rule: (Seq<char>, bool), name: Seq<char>) -> bool {
    regex_is_match(rule.0, name) != rule.1
}

/// A pattern block applies to a block when one of its rules applies to the
/// block's first pattern.
pub open spec fn block_applies(ph: HostModel, h: HostModel) -> bool {
    exists|q: int|
        0 <= q < pattern_rules(ph.patterns).len() && rule_applies(
            #[trigger] pattern_rules(ph.patterns)[q],
            h.patterns[0],
        )
}

/// A block after the pattern blocks `phs`, in order, have lent it the
/// entries it lacks, each pattern block only where it applies.
pub open spec fn inherit(h: HostModel, phs: Seq<HostModel>) -> HostModel
    decreases phs.len(),
{
    if phs.len() == 0 {
        h
    } else {
        let h1 = inherit(h, phs.drop_last());
        if block_applies(phs.last(), h1) {
            h1.filled_from(phs.last())
        } else {
            h1
        }
    }
}

/// The blocks without wildcard patterns, in order.
pub open spec fn plain_hosts(hs: Seq<HostModel>) -> Seq<HostModel>
    decreases hs.len(),
{
    if hs.len() == 0 {
        seq![]
    } else if pattern_rules(hs.last().patterns).len() == 0 {
        plain_hosts(hs.drop_last()).push(hs.last())
    } else {
        plain_hosts(hs.drop_last())
    }
}

/// The blocks with wildcard patterns, in order.
pub open spec fn pattern_hosts(hs: Seq<HostModel>) -> Seq<HostModel>
    decreases hs.len(),
{
    if hs.len() == 0 {
        seq![]
    } else if pattern_rules(hs.last().patterns).len() == 0 {
        pattern_hosts(hs.drop_last())
    } else {
        pattern_hosts(hs.drop_last()).push(hs.last())
    }
}

/// The blocks after splitting by pattern and resolving wildcards: every
/// block without wildcard patterns, filled from the wildcard blocks that
/// apply to it; the wildcard blocks themselves are dropped.
pub open spec fn patterns_applied(hs: Seq<HostModel>) -> Seq<HostModel> {
    let s = spread_all(hs);
    plain_hosts(s).map_values(|h: HostModel| inherit(h, pattern_hosts(s)))
}

/// Resolving wildcards does not fail: every wildcard pattern compiles, and
/// when wildcard patterns exist, every block has a pattern to match them
/// against.
pub open spec fn patterns_resolvable(hs: Seq<HostModel>) -> bool {
    &&& forall|i: int| 0 <= i < hs.len() ==> patterns_compile(#[trigger] hs[i].patterns)
    &&& (exists|i: int, j: int|
        0 <= i < hs.len() && 0 <= j < hs[i].patterns.len() && has_wildcard(
            #[trigger] hs[i].patterns[j],
        )) ==> forall|i: int| 0 <= i < hs.len() ==> (#[trigger] hs[i]).patterns.len() > 0
}

/// Whether some rule of a pattern block applies to `name`.
fn rules_apply(rules: &Vec<(PatternRegex, bool)>, name: &String) -> (r: bool)
    ensures
        r == exists|q: int|
            0 <= q < rules@.len() && rule_applies(#[trigger] rules_view(rules@)[q], name@),
{
    let mut q: usize = 0;
    while q < rules.len()
        invariant
            q <= rules@.len(),
            forall|t: int| 0 <= t < q ==> !rule_applies(#[trigger] rules_view(rules@)[t], name@),
        decreases rules@.len() - q,
    {
        let m = rules[q].0.is_match(name.as_str());
        if m != rules[q].1 {
            assert(rule_applies(rules_view(rules@)[q as int], name@));
            return true;
        }
        q = q + 1;
    }
    false
}

/// Passes over the host blocks of a configuration.
pub trait HostVecExt: Sized {
    /// Every block without a host name has a pattern to name it by.
    spec fn hostnames_available(&self) -> bool;

    /// Gives every block without a host name its first pattern as host name.
    fn apply_name_to_empty_hostname(&mut self) -> &mut Self
        requires
            old(self).hostnames_available(),
    ;

    /// Folds blocks with identical entries together.
    fn merge_same_hosts(&mut self) -> &mut Self;

    /// Replaces every block by one block per pattern.
    fn spread(&mut self) -> &mut Self;

    /// Resolving the wildcard blocks will not fail.
    spec fn patterns_applicable(&self) -> bool;

    /// Splits blocks by pattern, lends the entries of wildcard blocks to
    /// the blocks they apply to, and drops the wildcard blocks.
    fn apply_patterns(&mut self) -> &mut Self
        requires
            old(self).patterns_applicable(),
    ;
}

impl HostVecExt for Vec<ConfigHost> {
    open spec fn hostnames_available(&self) -> bool {
        hostnames_derivable(models(self@))
    }

    fn apply_name_to_empty_hostname(&mut self) -> (r: &mut Self)
        ensures
            models(r@) == named_hosts(models(old(self)@)),
            *final(self) == *final(r),
    {
        let ghost old_models = models(self@);
        let mut i: usize = 0;
        while i < self.len()
            invariant
                i <= self@.len(),
                self@.len() == old_models.len(),
                hostnames_derivable(old_models),
                forall|k: int| 0 <= k < i ==> #[trigger] models(self@)[k] == with_default_hostname(
                    old_models[k],
                ),
                forall|k: int| i <= k < self@.len() ==> #[trigger] models(self@)[k]
                    == old_models[k],
            decreases self@.len() - i,
        {
            let ghost cur = models(self@);
            assert(cur[i as int] == self@[i as int]@);
            let absent = self[i].get(&EntryType::Hostname).is_none();
            if absent {
                let name = self[i].get_patterns()[0].clone();
                let mut host = self[i].clone();
                host.update((EntryType::Hostname, name));
                self.set(i, host);
                assert(models(self@) =~= cur.update(i as int, host@));
            }
            i = i + 1;
        }
        assert(models(self@) =~= named_hosts(old_models));
        self
    }

    open spec fn patterns_applicable(&self) -> bool {
        patterns_resolvable(models(self@))
    }

    fn apply_patterns(&mut self) -> (r: &mut Self)
        ensures
            models(r@) == patterns_applied(models(old(self)@)),
            *final(self) == *final(r),
    {
        let ghost m0 = models(self@);
        self.spread();
        let ghost s = models(self@);
        proof {
            lemma_spread_pieces(m0);
            assert forall|k: int| 0 <= k < s.len() implies patterns_compile(
                #[trigger] s[k].patterns,
            ) by {
                let i = choose|i: int| 0 <= i < m0.len() && is_piece_of(s[k], m0[i]);
                assert(patterns_compile(m0[i].patterns));
                if m0[i].patterns.len() > 0 {
                    let j = choose|j: int|
                        0 <= j < m0[i].patterns.len() && s[k] == (HostModel {
                            patterns: seq![#[trigger] m0[i].patterns[j]],
                            ..m0[i]
                        });
                    assert(s[k].patterns[0] == m0[i].patterns[j]);
                }
            }
        }
        let mut result: Vec<ConfigHost> = Vec::new();
        let mut pattern_idxs: Vec<usize> = Vec::new();
        let mut i: usize = 0;
        while i < self.len()
            invariant
                i <= self@.len(),
                s == models(self@),
                forall|k: int| 0 <= k < s.len() ==> patterns_compile(#[trigger] s[k].patterns),
                models(result@) == plain_hosts(s.take(i as int)),
                pattern_idxs@.len() == pattern_hosts(s.take(i as int)).len(),
                forall|t: int| 0 <= t < pattern_idxs@.len() ==> #[trigger] pattern_idxs@[t] < i
                    && s[pattern_idxs@[t] as int] == pattern_hosts(s.take(i as int))[t],
            decreases self@.len() - i,
        {
            assert(s.take(i + 1).drop_last() =~= s.take(i as int));
            assert(s.take(i + 1).last() == self@[i as int]@);
            let rules = self[i].matching_pattern_regexes();
            if rules.len() == 0 {
                let ghost before = models(result@);
                result.push(self[i].clone());
                assert(models(result@) =~= before.push(self@[i as int]@));
            } else {
                pattern_idxs.push(i);
            }
            i = i + 1;
        }
        assert(s.take(s.len() as int) =~= s);
        let ghost plain = plain_hosts(s);
        let ghost phs = pattern_hosts(s);
        proof {
            lemma_filter_members(s);
            if phs.len() > 0 {
                let p0 = phs[0];
                lemma_rules_have_wildcard(p0.patterns);
                let j = choose|j: int| 0 <= j < p0.patterns.len() && has_wildcard(
                    #[trigger] p0.patterns[j],
                );
                let k = pattern_idxs@[0] as int;
                assert(s[k] == p0);
                let i = choose|i: int| 0 <= i < m0.len() && is_piece_of(s[k], m0[i]);
                assert(m0[i].patterns.len() > 0) by {
                    if m0[i].patterns.len() == 0 {
                        assert(s[k] == m0[i]);
                    }
                }
                let jj = choose|jj: int|
                    0 <= jj < m0[i].patterns.len() && s[k] == (HostModel {
                        patterns: seq![#[trigger] m0[i].patterns[jj]],
                        ..m0[i]
                    });
                assert(p0.patterns[j] == m0[i].patterns[jj]);
                assert(has_wildcard(m0[i].patterns[jj]));
                assert forall|x: int| 0 <= x < plain.len() implies (#[trigger] plain[x]).patterns.len()
                    > 0 by {
                    let k2 = choose|k2: int| 0 <= k2 < s.len() && plain[x] == s[k2];
                    let i2 = choose|i2: int| 0 <= i2 < m0.len() && is_piece_of(s[k2], m0[i2]);
                    assert(m0[i2].patterns.len() > 0);
                }
            }
        }
        let mut t: usize = 0;
        while t < pattern_idxs.len()
            invariant
                t <= pattern_idxs@.len(),
                s == models(self@),
                pattern_idxs@.len() == phs.len(),
                forall|u: int| 0 <= u < pattern_idxs@.len() ==> #[trigger] pattern_idxs@[u]
                    < s.len() && s[pattern_idxs@[u] as int] == phs[u],
                result@.len() == plain.len(),
                forall|k: int| 0 <= k < s.len() ==> patterns_compile(#[trigger] s[k].patterns),
                phs.len() > 0 ==> forall|x: int| 0 <= x < plain.len() ==> (
                #[trigger] plain[x]).patterns.len() > 0,
                forall|k: int| 0 <= k < plain.len() ==> #[trigger] models(result@)[k] == inherit(
                    plain[k],
                    phs.take(t as int),
                ),
            decreases pattern_idxs@.len() - t,
        {
            let ph = &self[pattern_idxs[t]];
            assert(s[pattern_idxs@[t as int] as int] == ph@);
            let rules = ph.matching_pattern_regexes();
            let mut k: usize = 0;
            while k < result.len()
                invariant
                    k <= result@.len(),
                    result@.len() == plain.len(),
                    t < phs.len(),
                    ph@ == phs[t as int],
                    forall|x: int| 0 <= x < plain.len() ==> (#[trigger] plain[x]).patterns.len()
                        > 0,
                    rules_view(rules@) == pattern_rules(ph@.patterns),
                    forall|x: int| 0 <= x < k ==> #[trigger] models(result@)[x] == inherit(
                        plain[x],
                        phs.take(t + 1),
                    ),
                    forall|x: int| k <= x < plain.len() ==> #[trigger] models(result@)[x]
                        == inherit(plain[x], phs.take(t as int)),
                decreases result@.len() - k,
            {
                let ghost cur = models(result@);
                assert(cur[k as int] == result@[k as int]@);
                proof {
                    lemma_inherit_patterns(plain[k as int], phs.take(t as int));
                }
                let name = &result[k].get_patterns()[0];
                let applies = rules_apply(&rules, name);
                assert(phs.take(t + 1).drop_last() =~= phs.take(t as int));
                if applies {
                    let mut h = result[k].clone();
                    h.extend_if_not_contained(ph);
                    result.set(k, h);
                    assert(models(result@) =~= cur.update(k as int, h@));
                }
                k = k + 1;
            }
            t = t + 1;
        }
        assert(phs.take(phs.len() as int) =~= phs);
        assert(models(result@) =~= plain.map_values(|h: HostModel| inherit(h, phs)));
        *self = result;
        self
    }

    fn merge_same_hosts(&mut self) -> (r: &mut Self)
        ensures
            models(r@) == merged_hosts(models(old(self)@)),
            *final(self) == *final(r),
    {
        let ghost target = merged_hosts(models(self@));
        let mut k = self.len();
        while k > 0
            invariant
                k <= self@.len(),
                merge_from(models(self@), k as nat) == target,
            decreases k,
        {
            k = k - 1;
            let i = k;
            let ghost cur = models(self@);
            match find_same_before(self, i) {
                Some(j) => {
                    let host = self[i].clone();
                    let mut target_host = self[j].clone();
                    target_host.extend_patterns(&host);
                    target_host.extend_entries(&host);
                    self.set(j, target_host);
                    self.remove(i);
                    assert(models(self@) =~= merge_step(cur, i as int));
                },
                None => {},
            }
        }
        self
    }
    fn spread(&mut self) -> (r: &mut Self)
        ensures
            models(r@) == spread_all(models(old(self)@)),
            *final(self) == *final(r),
    {
        let ghost old_models = models(self@);
        let mut hosts: Vec<ConfigHost> = Vec::new();
        let mut i: usize = 0;
        while i < self.len()
            invariant
                i <= self@.len(),
                old_models == models(self@),
                models(hosts@) == spread_all(old_models.take(i as int)),
            decreases self@.len() - i,
        {
            let host = &self[i];
            assert(old_models.take(i + 1).drop_last() =~= old_models.take(i as int));
            assert(old_models.take(i + 1).last() == host@);
            let patterns = host.get_patterns();
            if patterns.len() == 0 {
                let ghost before = models(hosts@);
                hosts.push(host.clone());
                assert(models(hosts@) =~= before + spread_one(host@));
            } else {
                let ghost before = models(hosts@);
                let mut k: usize = 0;
                while k < patterns.len()
                    invariant
                        k <= patterns@.len(),
                        strings_view(patterns@) == host@.patterns,
                        models(hosts@) == before + spread_one(host@).take(k as int),
                    decreases patterns@.len() - k,
                {
                    let ghost mid = models(hosts@);
                    let mut single: Vec<String> = Vec::new();
                    single.push(patterns[k].clone());
                    assert(strings_view(single@) =~= seq![host@.patterns[k as int]]);
                    let piece = host.with_patterns(single);
                    assert(piece@ == spread_one(host@)[k as int]);
                    hosts.push(piece);
                    assert(models(hosts@) =~= mid.push(piece@));
                    assert(spread_one(host@).len() == host@.patterns.len());
                    assert(spread_one(host@).take(k + 1) =~= spread_one(host@).take(k as int).push(
                        spread_one(host@)[k as int],
                    ));
                    assert(models(hosts@) =~= before + spread_one(host@).take(k + 1));
                    k = k + 1;
                }
                assert(spread_one(host@).take(patterns@.len() as int) =~= spread_one(host@));
            }
            i = i + 1;
        }
        assert(old_models.take(old_models.len() as int) =~= old_models);
        *self = hosts;
        self
    }
}

} // verus!

verus! {

/// After spreading, every block names at most one pattern.
pub proof fn law_spread_gives_single_patterns(hs: Seq<HostModel>)
    ensures
        forall|k: int| 0 <= k < spread_all(hs).len() ==> (#[trigger] spread_all(hs)[k]).patterns.len()
            <= 1,
{
    lemma_spread_pieces(hs);
    assert forall|k: int| 0 <= k < spread_all(hs).len() implies (
    #[trigger] spread_all(hs)[k]).patterns.len() <= 1 by {
        let i = choose|i: int| 0 <= i < hs.len() && is_piece_of(spread_all(hs)[k], hs[i]);
        if hs[i].patterns.len() == 0 {
        } else {
            let j = choose|j: int|
                0 <= j < hs[i].patterns.len() && spread_all(hs)[k] == (HostModel {
                    patterns: seq![#[trigger] hs[i].patterns[j]],
                    ..hs[i]
                });
        }
    }
}

/// After naming, every block has a host name.
pub proof fn law_named_hosts_have_hostname(hs: Seq<HostModel>)
    ensures
        forall|k: int| 0 <= k < hs.len() ==> (#[trigger] named_hosts(hs)[k]).entries.contains_key(
            EntryType::Hostname,
        ),
{
}

proof fn lemma_inherit_keeps(h: HostModel, phs: Seq<HostModel>, e: EntryType)
    requires
        h.entries.contains_key(e),
    ensures
        inherit(h, phs).entries.contains_key(e),
        inherit(h, phs).entries[e] == h.entries[e],
    decreases phs.len(),
{
    if phs.len() > 0 {
        lemma_inherit_keeps(h, phs.drop_last(), e);
    }
}

/// Resolving wildcards never overrides a value that a block sets itself:
/// each resulting block keeps every single value of the block it comes from.
pub proof fn law_patterns_keep_own_values(hs: Seq<HostModel>, x: int, e: EntryType)
    requires
        0 <= x < patterns_applied(hs).len(),
        plain_hosts(spread_all(hs))[x].entries.contains_key(e),
    ensures
        patterns_applied(hs)[x].entries.contains_key(e),
        patterns_applied(hs)[x].entries[e] == plain_hosts(spread_all(hs))[x].entries[e],
{
    let s = spread_all(hs);
    lemma_inherit_keeps(plain_hosts(s)[x], pattern_hosts(s), e);
}

/// Whether a pattern block applies depends only on the block's patterns.
proof fn lemma_applies_after_inherit(ph: HostModel, h: HostModel, phs: Seq<HostModel>)
    ensures
        block_applies(ph, inherit(h, phs)) == block_applies(ph, h),
{
    lemma_inherit_patterns(h, phs);
    assert(inherit(h, phs).patterns[0] == h.patterns[0]);
}

/// A keyword a block lacks takes the value of the first pattern block, in
/// order, that applies to the block and sets the keyword.
proof fn lemma_inherit_first_lender(h: HostModel, phs: Seq<HostModel>, e: EntryType, t: int)
    requires
        !h.entries.contains_key(e),
        0 <= t < phs.len(),
        block_applies(phs[t], h),
        phs[t].entries.contains_key(e),
        forall|u: int|
            0 <= u < t && block_applies(#[trigger] phs[u], h) ==> !phs[u].entries.contains_key(e),
    ensures
        inherit(h, phs).entries.contains_key(e),
        inherit(h, phs).entries[e] == phs[t].entries[e],
    decreases phs.len(),
{
    let init = phs.drop_last();
    let h1 = inherit(h, init);
    lemma_applies_after_inherit(phs.last(), h, init);
    if t < phs.len() - 1 {
        assert forall|u: int|
            0 <= u < t && block_applies(#[trigger] init[u], h) implies !init[u].entries.contains_key(
            e,
        ) by {
            assert(init[u] == phs[u]);
        }
        assert(init[t] == phs[t]);
        lemma_inherit_first_lender(h, init, e, t);
    } else {
        assert forall|u: int|
            0 <= u < init.len() && block_applies(#[trigger] init[u], h) implies !init[u].entries.contains_key(
            e,
        ) by {
            assert(init[u] == phs[u]);
        }
        lemma_inherit_no_lender(h, init, e);
    }
}

/// A keyword a block lacks stays unset when no pattern block that applies
/// to the block sets it.
proof fn lemma_inherit_no_lender(h: HostModel, phs: Seq<HostModel>, e: EntryType)
    requires
        !h.entries.contains_key(e),
        forall|u: int|
            0 <= u < phs.len() && block_applies(#[trigger] phs[u], h)
                ==> !phs[u].entries.contains_key(e),
    ensures
        !inherit(h, phs).entries.contains_key(e),
    decreases phs.len(),
{
    if phs.len() > 0 {
        let init = phs.drop_last();
        lemma_applies_after_inherit(phs.last(), h, init);
        assert forall|u: int|
            0 <= u < init.len() && block_applies(#[trigger] init[u], h) implies !init[u].entries.contains_key(
            e,
        ) by {
            assert(init[u] == phs[u]);
        }
        lemma_inherit_no_lender(h, init, e);
    }
}

/// The wildcard blocks are taken in file order: the `t`-th of them is the
/// block at position `pos[t]` of the list, the positions ascend, and every
/// block with wildcard patterns is among them.
pub proof fn law_pattern_blocks_in_order(s: Seq<HostModel>) -> (pos: Seq<int>)
    ensures
        pos.len() == pattern_hosts(s).len(),
        forall|t: int|
            0 <= t < pos.len() ==> 0 <= #[trigger] pos[t] < s.len() && pattern_hosts(s)[t]
                == s[pos[t]],
        forall|t: int, u: int| 0 <= t < u < pos.len() ==> #[trigger] pos[t] < #[trigger] pos[u],
        forall|k: int|
            0 <= k < s.len() && pattern_rules((#[trigger] s[k]).patterns).len() > 0
                ==> exists|t: int| 0 <= t < pos.len() && #[trigger] pos[t] == k,
    decreases s.len(),
{
    if s.len() == 0 {
        seq![]
    } else {
        let init = s.drop_last();
        let p0 = law_pattern_blocks_in_order(init);
        let last = s.len() - 1;
        let pos = if pattern_rules(s.last().patterns).len() == 0 {
            p0
        } else {
            p0.push(last)
        };
        assert forall|t: int| 0 <= t < pos.len() implies 0 <= #[trigger] pos[t] < s.len()
            && pattern_hosts(s)[t] == s[pos[t]] by {
            if t < p0.len() {
                assert(pos[t] == p0[t]);
                assert(init[p0[t]] == s[p0[t]]);
            }
        }
        assert forall|k: int|
            0 <= k < s.len() && pattern_rules((#[trigger] s[k]).patterns).len() > 0 implies exists|
            t: int,
        | 0 <= t < pos.len() && #[trigger] pos[t] == k by {
            if k < last {
                assert(init[k] == s[k]);
                let t = choose|t: int| 0 <= t < p0.len() && #[trigger] p0[t] == k;
                assert(pos[t] == k);
            } else {
                assert(pos[p0.len() as int] == k);
            }
        }
        pos
    }
}

/// The first matching wildcard block wins: when a block without wildcards
/// lacks a keyword, the resolved block takes the keyword's value from the
/// earliest wildcard block in the file (after spreading) that applies to it
/// and sets the keyword, whatever later wildcard blocks set.
pub proof fn law_first_wildcard_wins(hs: Seq<HostModel>, x: int, e: EntryType, k: int)
    requires
        0 <= x < plain_hosts(spread_all(hs)).len(),
        !plain_hosts(spread_all(hs))[x].entries.contains_key(e),
        0 <= k < spread_all(hs).len(),
        pattern_rules(spread_all(hs)[k].patterns).len() > 0,
        block_applies(spread_all(hs)[k], plain_hosts(spread_all(hs))[x]),
        spread_all(hs)[k].entries.contains_key(e),
        forall|j: int|
            0 <= j < k && pattern_rules((#[trigger] spread_all(hs)[j]).patterns).len() > 0
                && block_applies(spread_all(hs)[j], plain_hosts(spread_all(hs))[x])
                ==> !spread_all(hs)[j].entries.contains_key(e),
    ensures
        patterns_applied(hs).len() == plain_hosts(spread_all(hs)).len(),
        patterns_applied(hs)[x].entries.contains_key(e),
        patterns_applied(hs)[x].entries[e] == spread_all(hs)[k].entries[e],
{
    let s = spread_all(hs);
    let h = plain_hosts(s)[x];
    let phs = pattern_hosts(s);
    let pos = law_pattern_blocks_in_order(s);
    assert(pattern_rules(s[k].patterns).len() > 0);
    let t = choose|t: int| 0 <= t < pos.len() && #[trigger] pos[t] == k;
    assert(phs[t] == s[k]);
    assert forall|u: int| 0 <= u < t && block_applies(#[trigger] phs[u], h) implies !phs[u].entries.contains_key(
        e,
    ) by {
        assert(pos[u] < pos[t]);
        lemma_filter_members(s);
        assert(pattern_rules(phs[u].patterns).len() > 0);
        assert(phs[u] == s[pos[u]]);
    }
    lemma_inherit_first_lender(h, phs, e, t);
}

/// When no wildcard block that applies to a block without wildcards sets a
/// keyword the block lacks, the resolved block lacks it too.
pub proof fn law_unlent_keyword_stays_unset(hs: Seq<HostModel>, x: int, e: EntryType)
    requires
        0 <= x < plain_hosts(spread_all(hs)).len(),
        !plain_hosts(spread_all(hs))[x].entries.contains_key(e),
        forall|j: int|
            0 <= j < spread_all(hs).len() && pattern_rules(
                (#[trigger] spread_all(hs)[j]).patterns,
            ).len() > 0 && block_applies(spread_all(hs)[j], plain_hosts(spread_all(hs))[x])
                ==> !spread_all(hs)[j].entries.contains_key(e),
    ensures
        !patterns_applied(hs)[x].entries.contains_key(e),
{
    let s = spread_all(hs);
    let h = plain_hosts(s)[x];
    let phs = pattern_hosts(s);
    let pos = law_pattern_blocks_in_order(s);
    assert forall|u: int| 0 <= u < phs.len() && block_applies(#[trigger] phs[u], h) implies !phs[u].entries.contains_key(
        e,
    ) by {
        lemma_filter_members(s);
        assert(pattern_rules(phs[u].patterns).len() > 0);
        assert(phs[u] == s[pos[u]]);
    }
    lemma_inherit_no_lender(h, phs, e);
}

/// The number of patterns over all blocks.
pub open spec fn pattern_count(hs: Seq<HostModel>) -> int
    decreases hs.len(),
{
    if hs.len() == 0 {
        0
    } else {
        pattern_count(hs.drop_last()) + hs.last().patterns.len()
    }
}

proof fn lemma_pattern_count_update(hs: Seq<HostModel>, j: int, x: HostModel)
    requires
        0 <= j < hs.len(),
    ensures
        pattern_count(hs.update(j, x)) == pattern_count(hs) - hs[j].patterns.len()
            + x.patterns.len(),
    decreases hs.len(),
{
    let u = hs.update(j, x);
    if j < hs.len() - 1 {
        lemma_pattern_count_update(hs.drop_last(), j, x);
        assert(u.drop_last() =~= hs.drop_last().update(j, x));
    } else {
        assert(u.drop_last() =~= hs.drop_last());
    }
}

proof fn lemma_pattern_count_remove(hs: Seq<HostModel>, i: int)
    requires
        0 <= i < hs.len(),
    ensures
        pattern_count(hs.remove(i)) == pattern_count(hs) - hs[i].patterns.len(),
    decreases hs.len(),
{
    let r = hs.remove(i);
    if i < hs.len() - 1 {
        lemma_pattern_count_remove(hs.drop_last(), i);
        assert(r.drop_last() =~= hs.drop_last().remove(i));
        assert(r.last() == hs.last());
    } else {
        assert(r =~= hs.drop_last());
    }
}

proof fn lemma_last_same_before_range(hs: Seq<HostModel>, i: int, j: int)
    ensures
        last_same_before(hs, i, j) matches Some(x) ==> 0 <= x < j,
    decreases j,
{
    if j > 0 {
        lemma_last_same_before_range(hs, i, j - 1);
    }
}

proof fn lemma_merge_from(hs: Seq<HostModel>, n: nat)
    requires
        n <= hs.len(),
    ensures
        pattern_count(merge_from(hs, n)) == pattern_count(hs),
        merge_from(hs, n).len() <= hs.len(),
    decreases n,
{
    if n > 0 {
        let i = n - 1;
        lemma_last_same_before_range(hs, i, i);
        let next = merge_step(hs, i);
        match last_same_before(hs, i, i) {
            Some(j) => {
                let u = hs.update(j, merge_pair(hs[j], hs[i]));
                lemma_pattern_count_update(hs, j, merge_pair(hs[j], hs[i]));
                lemma_pattern_count_remove(u, i);
                assert(u[i] == hs[i]);
            },
            None => {},
        }
        lemma_merge_from(next, (n - 1) as nat);
    }
}

/// Merging blocks loses no pattern and never adds a block.
pub proof fn law_merge_keeps_patterns(hs: Seq<HostModel>)
    ensures
        pattern_count(merged_hosts(hs)) == pattern_count(hs),
        merged_hosts(hs).len() <= hs.len(),
{
    lemma_merge_from(hs, hs.len());
}

} // verus!
