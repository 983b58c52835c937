//! The host list: its order, the search over it, and the cells and column
//! widths of the table that shows it.

use vstd::prelude::*;
use crate::config_file::ascii_lower;
use crate::host::Host;
use crate::order::{
    is_stable_order, lists, lowercase_text, permuted, stable_order, text_le, to_lowercase,
};
use crate::text::chars_of;
use fuzzy_matcher::FuzzyMatcher;
use fuzzy_matcher::skim::SkimMatcherV2;

verus! {

/// The keys by which hosts are sorted by name: their lower-cased names.
pub open spec fn name_keys(hosts: Seq<Host>) -> Seq<Seq<char>> {
    hosts.map_values(|h: Host| lowercase_text(h.name@))
}

/// `out` is `hosts` sorted stably by lower-cased name.
pub open spec fn is_sorted_by_name(hosts: Seq<Host>, out: Seq<Host>) -> bool {
    exists|p: Seq<usize>| #[trigger] is_stable_order(name_keys(hosts), p) && out == permuted(hosts, p)
}

/// Sorts hosts by name, ignoring case; hosts whose names differ only in case
/// keep their order.
pub fn sort_hosts_by_name(hosts: &Vec<Host>) -> (r: Vec<Host>)
    ensures
        is_sorted_by_name(hosts@, r@),
{
    let mut keys: Vec<Vec<char>> = Vec::new();
    let mut i: usize = 0;
    while i < hosts.len()
        invariant
            i <= hosts@.len(),
            keys@.map_values(|k: Vec<char>| k@) == name_keys(hosts@).take(i as int),
        decreases hosts@.len() - i,
    {
        let lower = to_lowercase(hosts[i].name.as_str());
        let ghost before = keys@;
        keys.push(chars_of(lower.as_str()));
        assert(keys@.map_values(|k: Vec<char>| k@) =~= before.map_values(|k: Vec<char>| k@).push(
            lowercase_text(hosts@[i as int].name@),
        ));
        assert(name_keys(hosts@).take(i + 1) =~= name_keys(hosts@).take(i as int).push(
            lowercase_text(hosts@[i as int].name@),
        ));
        i = i + 1;
    }
    assert(name_keys(hosts@).take(hosts@.len() as int) =~= name_keys(hosts@));
    let p = stable_order(&keys);
    let mut r: Vec<Host> = Vec::new();
    let mut k: usize = 0;
    while k < p.len()
        invariant
            k <= p@.len(),
            is_stable_order(name_keys(hosts@), p@),
            r@ == permuted(hosts@, p@).take(k as int),
        decreases p@.len() - k,
    {
        let q = p[k];
        assert(p@[k as int] < name_keys(hosts@).len());
        r.push(hosts[q].clone());
        assert(permuted(hosts@, p@).take(k + 1) =~= permuted(hosts@, p@).take(k as int).push(
            hosts@[q as int],
        ));
        k = k + 1;
    }
    assert(permuted(hosts@, p@).take(p@.len() as int) =~= permuted(hosts@, p@));
    r
}

/// Skim's smart case: the comparison respects case exactly when the pattern
/// holds an ASCII upper-case letter.
pub open spec fn smart_case_sensitive(pattern: Seq<char>) -> bool {
    exists|j: int| 0 <= j < pattern.len() && 'A' <= #[trigger] pattern[j] && pattern[j] <= 'Z'
}

/// Two characters are equal, ignoring ASCII case unless `case_sensitive`.
pub open spec fn chars_match(c: char, p: char, case_sensitive: bool) -> bool {
    if case_sensitive {
        c == p
    } else {
        ascii_lower(c) == ascii_lower(p)
    }
}

/// `pattern` occurs in `choice` as a subsequence, character by character.
pub open spec fn is_subsequence(choice: Seq<char>, pattern: Seq<char>, case_sensitive: bool) -> bool
    decreases choice.len(),
{
    if pattern.len() == 0 {
        true
    } else if choice.len() == 0 {
        false
    } else if chars_match(choice[0], pattern[0], case_sensitive) {
        is_subsequence(choice.drop_first(), pattern.drop_first(), case_sensitive)
    } else {
        is_subsequence(choice.drop_first(), pattern, case_sensitive)
    }
}

/// Whether skim's fuzzy matcher, with its default settings, finds `pattern`
/// in `choice`: the pattern is empty, or it is a subsequence of the choice
/// under smart case.
pub open spec fn skim_fuzzy_matches(choice: Seq<char>, pattern: Seq<char>) -> bool {
    pattern.len() == 0 || is_subsequence(choice, pattern, smart_case_sensitive(pattern))
}

/// `SkimMatcherV2::default().fuzzy_match(choice, pattern).is_some()`.
/// Trusted: the matcher answers `Some` for an empty pattern, and otherwise
/// exactly when its first pass (`cheap_matches`) finds the pattern's
/// characters in order in the choice, comparing with
/// `eq_ignore_ascii_case` unless the pattern holds an ASCII upper-case
/// letter; the scoring after that pass always yields a score.
#[verifier::external_body]
fn fuzzy_matches(choice: &str, pattern: &str) -> (r: bool)
    ensures
        r == skim_fuzzy_matches(choice@, pattern@),
{
    FuzzyMatcher::fuzzy_match(&SkimMatcherV2::default(), choice, pattern).is_some()
}

/// A host is shown for a search when the search is empty or fuzzy-matches
/// its name, host name or aliases.
pub open spec fn matches_search(h: Host, query: Seq<char>) -> bool {
    ||| query.len() == 0
    ||| skim_fuzzy_matches(h.name@, query)
    ||| skim_fuzzy_matches(h.hostname@, query)
    ||| skim_fuzzy_matches(h.aliases@, query)
}

/// Whether `host` is shown for the search text `query`.
pub fn host_matches(host: &Host, query: &str) -> (r: bool)
    ensures
        r == matches_search(*host, query@),
{
    query.is_empty() || fuzzy_matches(host.name.as_str(), query) || fuzzy_matches(
        host.hostname.as_str(),
        query,
    ) || fuzzy_matches(host.aliases.as_str(), query)
}

/// The positions of the hosts shown for a search, in list order.
pub open spec fn search_positions(hosts: Seq<Host>, query: Seq<char>) -> Seq<usize>
    decreases hosts.len(),
{
    if hosts.len() == 0 {
        seq![]
    } else {
        let prev = search_positions(hosts.drop_last(), query);
        if matches_search(hosts.last(), query) {
            prev.push((hosts.len() - 1) as usize)
        } else {
            prev
        }
    }
}

/// The positions of the hosts shown for the search text `query`.
pub fn search_hosts(hosts: &Vec<Host>, query: &str) -> (r: Vec<usize>)
    ensures
        r@ == search_positions(hosts@, query@),
{
    let mut r: Vec<usize> = Vec::new();
    let mut i: usize = 0;
    while i < hosts.len()
        invariant
            i <= hosts@.len(),
            r@ == search_positions(hosts@.take(i as int), query@),
        decreases hosts@.len() - i,
    {
        assert(hosts@.take(i + 1).drop_last() =~= hosts@.take(i as int));
        assert(hosts@.take(i + 1).last() == hosts@[i as int]);
        if host_matches(&hosts[i], query) {
            r.push(i);
        }
        i = i + 1;
    }
    assert(hosts@.take(hosts@.len() as int) =~= hosts@);
    r
}

/// The cells of a host's row in the table: name, aliases, user, host name,
/// port and, when asked for, the proxy command; an unset option shows empty.
pub open spec fn row_cells(h: Host, show_proxy: bool) -> Seq<Seq<char>> {
    let base = seq![
        h.name@,
        h.aliases@,
        text_or_empty(h.user),
        h.hostname@,
        text_or_empty(h.port),
    ];
    if show_proxy {
        base.push(text_or_empty(h.proxy_command))
    } else {
        base
    }
}

/// The text of an optional string, empty when absent.
pub open spec fn text_or_empty(o: Option<String>) -> Seq<char> {
    match o {
        Some(s) => s@,
        None => Seq::<char>::empty(),
    }
}

fn string_or_empty(o: &Option<String>) -> (r: String)
    ensures
        r@ == text_or_empty(*o),
{
    match o {
        Some(s) => s.clone(),
        None => String::new(),
    }
}

/// The cells of a host's row in the table.
pub fn table_row(host: &Host, show_proxy: bool) -> (r: Vec<String>)
    ensures
        r@.map_values(|s: String| s@) == row_cells(*host, show_proxy),
{
    let mut r: Vec<String> = Vec::new();
    r.push(host.name.clone());
    r.push(host.aliases.clone());
    r.push(string_or_empty(&host.user));
    r.push(host.hostname.clone());
    r.push(string_or_empty(&host.port));
    if show_proxy {
        r.push(string_or_empty(&host.proxy_command));
    }
    assert(r@.map_values(|s: String| s@) =~= row_cells(*host, show_proxy));
    r
}

/// The number of terminal columns a text takes, by Unicode's East Asian
/// width rules.
pub uninterp spec fn display_width(s: Seq<char>) -> nat;

/// `UnicodeWidthStr::width`. The width tables are named, not spelled out;
/// the empty text takes no column.
#[verifier::external_body]
fn text_width(s: &str) -> (r: usize)
    ensures
        r == display_width(s@),
        s@.len() == 0 ==> r == 0,
{
    unicode_width::UnicodeWidthStr::width(s)
}

/// The widest of the cells in column `c` of the rows of `hosts`, 0 when
/// there is none.
pub open spec fn column_width(hosts: Seq<Host>, c: int, show_proxy: bool) -> nat
    decreases hosts.len(),
{
    if hosts.len() == 0 {
        0
    } else {
        let prev = column_width(hosts.drop_last(), c, show_proxy);
        let w = display_width(row_cells(hosts.last(), show_proxy)[c]);
        if w > prev {
            w
        } else {
            prev
        }
    }
}

/// The number of columns of the table.
pub open spec fn column_count(show_proxy: bool) -> int {
    if show_proxy {
        6
    } else {
        5
    }
}

/// The width of each column of the table: the name column measured over
/// the shown hosts, every other column over all hosts.
pub open spec fn table_widths(shown: Seq<Host>, all: Seq<Host>, show_proxy: bool) -> Seq<nat> {
    Seq::new(
        column_count(show_proxy) as nat,
        |c: int|
            if c == 0 {
                column_width(shown, 0, show_proxy)
            } else {
                column_width(all, c, show_proxy)
            },
    )
}

fn widest_cell(hosts: &Vec<Host>, c: usize, show_proxy: bool) -> (r: usize)
    requires
        c < column_count(show_proxy),
    ensures
        r == column_width(hosts@, c as int, show_proxy),
{
    let mut best: usize = 0;
    let mut i: usize = 0;
    while i < hosts.len()
        invariant
            i <= hosts@.len(),
            c < column_count(show_proxy),
            best == column_width(hosts@.take(i as int), c as int, show_proxy),
        decreases hosts@.len() - i,
    {
        assert(hosts@.take(i + 1).drop_last() =~= hosts@.take(i as int));
        assert(hosts@.take(i + 1).last() == hosts@[i as int]);
        let cells = table_row(&hosts[i], show_proxy);
        assert(cells@.map_values(|s: String| s@).len() == cells@.len());
        assert(row_cells(hosts@[i as int], show_proxy).len() == column_count(show_proxy));
        assert(cells@.map_values(|s: String| s@)[c as int] == cells@[c as int]@);
        assert(cells@[c as int]@ == row_cells(hosts@[i as int], show_proxy)[c as int]);
        let w = text_width(cells[c].as_str());
        if w > best {
            best = w;
        }
        i = i + 1;
    }
    assert(hosts@.take(hosts@.len() as int) =~= hosts@);
    best
}

/// The widths of the table's columns: the name column over the hosts shown,
/// the others over all hosts.
pub fn column_widths(shown: &Vec<Host>, all: &Vec<Host>, show_proxy: bool) -> (r: Vec<usize>)
    ensures
        r@.len() == column_count(show_proxy),
        forall|c: int| 0 <= c < r@.len() ==> #[trigger] r@[c] == table_widths(shown@, all@, show_proxy)[c],
{
    let mut r: Vec<usize> = Vec::new();
    let n: usize = if show_proxy { 6 } else { 5 };
    r.push(widest_cell(shown, 0, show_proxy));
    let mut c: usize = 1;
    while c < n
        invariant
            1 <= c <= n,
            n == column_count(show_proxy),
            r@.len() == c,
            forall|k: int| 0 <= k < c ==> #[trigger] r@[k] == table_widths(shown@, all@, show_proxy)[k],
        decreases n - c,
    {
        r.push(widest_cell(all, c, show_proxy));
        c = c + 1;
    }
    r
}

/// The size the table gives a column of the given width: one more than the
/// width, or 1 when the width does not fit in `u16`.
pub open spec fn column_size_of(width: nat) -> u16 {
    if width < 65535 {
        (width + 1) as u16
    } else {
        1
    }
}

/// The size of a column of the given width; a width of exactly 65535
/// columns overflows.
pub fn column_size(width: usize) -> (r: u16)
    requires
        width != 65535,
    ensures
        r == column_size_of(width as nat),
{
    if width < 65535 {
        (width + 1) as u16
    } else {
        1
    }
}


/// An empty search shows every host, in list order.
pub proof fn law_empty_search_shows_all(hosts: Seq<Host>)
    ensures
        search_positions(hosts, Seq::<char>::empty()) == Seq::new(hosts.len(), |i: int| i as usize),
    decreases hosts.len(),
{
    if hosts.len() > 0 {
        law_empty_search_shows_all(hosts.drop_last());
        assert(search_positions(hosts, Seq::<char>::empty()) =~= Seq::new(
            hosts.len(),
            |i: int| i as usize,
        ));
    }
}

/// A search shows exactly the hosts whose name, host name or aliases the
/// query fuzzy-matches (every host, for an empty query), and lists them in
/// list order: host `i` is listed when its aliases match even though its
/// name and host name do not.
pub proof fn law_search_matches_every_field(hosts: Seq<Host>, query: Seq<char>, i: int)
    requires
        0 <= i < hosts.len(),
        hosts.len() <= usize::MAX,
    ensures
        skim_fuzzy_matches(hosts[i].aliases@, query) ==> search_positions(hosts, query).contains(
            i as usize,
        ),
        skim_fuzzy_matches(hosts[i].name@, query) ==> search_positions(hosts, query).contains(
            i as usize,
        ),
        skim_fuzzy_matches(hosts[i].hostname@, query) ==> search_positions(hosts, query).contains(
            i as usize,
        ),
        query.len() == 0 ==> search_positions(hosts, query).contains(i as usize),
        search_positions(hosts, query).contains(i as usize) ==> (query.len() == 0
            || skim_fuzzy_matches(hosts[i].name@, query) || skim_fuzzy_matches(
            hosts[i].hostname@,
            query,
        ) || skim_fuzzy_matches(hosts[i].aliases@, query)),
    decreases hosts.len(),
{
    let last = hosts.len() - 1;
    let prev = search_positions(hosts.drop_last(), query);
    lemma_search_positions_below(hosts.drop_last(), query);
    if i < last {
        assert(hosts.drop_last()[i] == hosts[i]);
        law_search_matches_every_field(hosts.drop_last(), query, i);
        if search_positions(hosts, query).contains(i as usize) {
            let k = choose|k: int|
                0 <= k < search_positions(hosts, query).len() && search_positions(hosts, query)[k]
                    == i as usize;
            if k == prev.len() {
                assert(search_positions(hosts, query)[k] == last as usize);
            } else {
                assert(prev[k] == i as usize);
            }
        }
        if prev.contains(i as usize) {
            let k = choose|k: int| 0 <= k < prev.len() && prev[k] == i as usize;
            if matches_search(hosts.last(), query) {
                assert(search_positions(hosts, query)[k] == i as usize);
            }
        }
    } else {
        if matches_search(hosts.last(), query) {
            assert(search_positions(hosts, query)[prev.len() as int] == i as usize);
        } else if search_positions(hosts, query).contains(i as usize) {
            let k = choose|k: int| 0 <= k < prev.len() && prev[k] == i as usize;
            assert(prev[k] < last);
        }
    }
}

/// Every listed position is below the number of hosts.
proof fn lemma_search_positions_below(hosts: Seq<Host>, query: Seq<char>)
    ensures
        forall|k: int|
            0 <= k < search_positions(hosts, query).len() ==> (#[trigger] search_positions(
                hosts,
                query,
            )[k]) < hosts.len(),
    decreases hosts.len(),
{
    if hosts.len() > 0 {
        lemma_search_positions_below(hosts.drop_last(), query);
        let prev = search_positions(hosts.drop_last(), query);
        assert forall|k: int| 0 <= k < search_positions(hosts, query).len() implies (
        #[trigger] search_positions(hosts, query)[k]) < hosts.len() by {
            if k < prev.len() {
                assert(search_positions(hosts, query)[k] == prev[k]);
            }
        }
    }
}

/// Sorting by name keeps the number of hosts, keeps every host, takes
/// every host of the result from the list, and puts lower-cased names in
/// ascending order.
pub proof fn law_sorted_names_ascend(hosts: Seq<Host>, out: Seq<Host>)
    requires
        is_sorted_by_name(hosts, out),
    ensures
        out.len() == hosts.len(),
        forall|i: int| 0 <= i < out.len() ==> hosts.contains(#[trigger] out[i]),
        forall|i: int| 0 <= i < hosts.len() ==> out.contains(#[trigger] hosts[i]),
        forall|i: int, j: int|
            0 <= i < j < out.len() ==> text_le(
                lowercase_text(#[trigger] out[i].name@),
                lowercase_text(#[trigger] out[j].name@),
            ),
{
    let p = choose|p: Seq<usize>| #[trigger] is_stable_order(name_keys(hosts), p) && out == permuted(hosts, p);
    assert forall|i: int| 0 <= i < out.len() implies hosts.contains(#[trigger] out[i]) by {
        assert(p[i] < name_keys(hosts).len());
        assert(out[i] == hosts[p[i] as int]);
    }
    assert forall|i: int| 0 <= i < hosts.len() implies out.contains(#[trigger] hosts[i]) by {
        assert(lists(p, i));
        let k = choose|k: int| 0 <= k < p.len() && p[k] == i;
        assert(out[k] == hosts[i]);
    }
    assert forall|i: int, j: int| 0 <= i < j < out.len() implies text_le(
        lowercase_text(#[trigger] out[i].name@),
        lowercase_text(#[trigger] out[j].name@),
    ) by {
        assert(p[i] < name_keys(hosts).len() && p[j] < name_keys(hosts).len());
        assert(text_le(name_keys(hosts)[p[i] as int], name_keys(hosts)[p[j] as int]));
    }
}


/// Every cell of a column fits in the column's width.
pub proof fn law_column_fits_cells(hosts: Seq<Host>, c: int, show_proxy: bool)
    requires
        0 <= c < column_count(show_proxy),
    ensures
        forall|i: int| 0 <= i < hosts.len() ==> display_width(row_cells(#[trigger] hosts[i], show_proxy)[c])
            <= column_width(hosts, c, show_proxy),
    decreases hosts.len(),
{
    if hosts.len() > 0 {
        law_column_fits_cells(hosts.drop_last(), c, show_proxy);
        assert forall|i: int| 0 <= i < hosts.len() implies display_width(
            row_cells(#[trigger] hosts[i], show_proxy)[c],
        ) <= column_width(hosts, c, show_proxy) by {
            if i < hosts.len() - 1 {
                assert(hosts[i] == hosts.drop_last()[i]);
            }
        }
    }
}

} // verus!
