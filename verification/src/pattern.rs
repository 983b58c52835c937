//! Host patterns with wildcards, and the regular expressions they denote.

use vstd::prelude::*;
use crate::text::{chars_of, string_from_chars};

verus! {

/// Whether `Regex::new` accepts a pattern (it rejects malformed patterns and
/// patterns whose compiled form exceeds the default size limit).
pub uninterp spec fn regex_compiles(pattern: Seq<char>) -> bool;

/// Whether the regular expression compiled from `pattern` finds a match in
/// `haystack` (`Regex::is_match`).
pub uninterp spec fn regex_is_match(pattern: Seq<char>, haystack: Seq<char>) -> bool;

#[verifier::external_type_specification]
#[verifier::external_body]
pub struct ExRegex(regex::Regex);

/// A host pattern counts as a wildcard pattern when it holds `*`, `?` or `!`.
pub open spec fn has_wildcard(p: Seq<char>) -> bool {
    p.contains('*') || p.contains('?') || p.contains('!')
}

/// Rewrites glob syntax into regex syntax, character by character:
/// `.` becomes `\.`, `*` becomes `.*`, `?` becomes `.`.
pub open spec fn glob_to_regex_body(p: Seq<char>) -> Seq<char>
    decreases p.len(),
{
    if p.len() == 0 {
        seq![]
    } else {
        let prev = glob_to_regex_body(p.drop_last());
        let c = p.last();
        if c == '.' {
            prev + seq!['\\', '.']
        } else if c == '*' {
            prev + seq!['.', '*']
        } else if c == '?' {
            prev + seq!['.']
        } else {
            prev.push(c)
        }
    }
}

/// A pattern is negated when its rewritten form starts with `!`.
pub open spec fn is_negated_pattern(p: Seq<char>) -> bool {
    let body = glob_to_regex_body(p);
    body.len() > 0 && body[0] == '!'
}

/// The anchored regex that a host pattern denotes: the rewritten pattern,
/// without its leading `!` when negated, between `^` and `$`.
pub open spec fn pattern_regex_source(p: Seq<char>) -> Seq<char> {
    let body = glob_to_regex_body(p);
    let core = if is_negated_pattern(p) { body.drop_first() } else { body };
    seq!['^'] + core + seq!['$']
}

/// The matching rules of a list of host patterns: for each wildcard
/// pattern, in order, its anchored regex and whether it is negated.
pub open spec fn pattern_rules(ps: Seq<Seq<char>>) -> Seq<(Seq<char>, bool)>
    decreases ps.len(),
{
    if ps.len() == 0 {
        seq![]
    } else {
        let prev = pattern_rules(ps.drop_last());
        let p = ps.last();
        if has_wildcard(p) {
            prev.push((pattern_regex_source(p), is_negated_pattern(p)))
        } else {
            prev
        }
    }
}

/// Every wildcard pattern of the list yields a regex that compiles.
pub open spec fn patterns_compile(ps: Seq<Seq<char>>) -> bool {
    forall|i: int| 0 <= i < ps.len() && has_wildcard(#[trigger] ps[i]) ==> regex_compiles(
        pattern_regex_source(ps[i]),
    )
}

/// The view of compiled rules: regex source and negation flag.
pub open spec fn rules_view(v: Seq<(PatternRegex, bool)>) -> Seq<(Seq<char>, bool)> {
    v.map_values(|r: (PatternRegex, bool)| (r.0.spec_source(), r.1))
}

/// A compiled regular expression together with the pattern text it was
/// compiled from.
pub struct PatternRegex {
    regex: regex::Regex,
    source: String,
}

impl PatternRegex {
    /// The pattern text this regex was compiled from.
    pub closed spec fn spec_source(&self) -> Seq<char> {
        self.source@
    }

    /// Compiles `source`; `None` exactly when `Regex::new` rejects it.
    ///
    /// Trusted: `regex::Regex::new` either fails or yields a regex compiled
    /// from exactly `source`, which is stored beside it.
    #[verifier::external_body]
    pub(crate) fn compile(source: String) -> (r: Option<PatternRegex>)
        ensures
            r is Some <==> regex_compiles(source@),
            r matches Some(re) ==> re.spec_source() == source@,
    {
        match regex::Regex::new(&source) {
            Ok(regex) => Some(PatternRegex { regex, source }),
            Err(_) => None,
        }
    }

    /// Whether the regex matches somewhere in `haystack`.
    ///
    /// Trusted: `regex::Regex::is_match` on the regex compiled from
    /// `spec_source()`; its answer is named, not spelled out.
    #[verifier::external_body]
    fn search(&self, haystack: &str) -> (r: bool)
        ensures
            r == regex_is_match(self.spec_source(), haystack@),
    {
        self.regex.is_match(haystack)
    }

    /// Whether the regex matches somewhere in `haystack`.
    pub fn is_match(&self, haystack: &str) -> (r: bool)
        ensures
            r == regex_is_match(self.spec_source(), haystack@),
    {
        self.search(haystack)
    }

    /// The pattern text this regex was compiled from.
    pub fn source(&self) -> (r: &String)
        ensures
            r@ == self.spec_source(),
    {
        &self.source
    }
}

/// Executable form of `has_wildcard`.
pub fn pattern_has_wildcard(p: &str) -> (r: bool)
    ensures
        r == has_wildcard(p@),
{
    let cs = chars_of(p);
    let mut i: usize = 0;
    while i < cs.len()
        invariant
            i <= cs@.len(),
            cs@ == p@,
            forall|k: int| 0 <= k < i ==> cs@[k] != '*' && cs@[k] != '?' && cs@[k] != '!',
        decreases cs@.len() - i,
    {
        if cs[i] == '*' || cs[i] == '?' || cs[i] == '!' {
            assert(p@[i as int] == cs@[i as int]);
            return true;
        }
        i = i + 1;
    }
    assert(!p@.contains('*'));
    assert(!p@.contains('?'));
    assert(!p@.contains('!'));
    false
}

/// The regex source of a host pattern and whether the pattern is negated.
pub fn pattern_to_regex_source(p: &str) -> (r: (String, bool))
    ensures
        r.0@ == pattern_regex_source(p@),
        r.1 == is_negated_pattern(p@),
{
    let cs = chars_of(p);
    let mut body: Vec<char> = Vec::new();
    let mut i: usize = 0;
    while i < cs.len()
        invariant
            i <= cs@.len(),
            cs@ == p@,
            body@ == glob_to_regex_body(p@.take(i as int)),
        decreases cs@.len() - i,
    {
        let c = cs[i];
        assert(p@.take(i + 1).drop_last() =~= p@.take(i as int));
        if c == '.' {
            body.push('\\');
            body.push('.');
        } else if c == '*' {
            body.push('.');
            body.push('*');
        } else if c == '?' {
            body.push('.');
        } else {
            body.push(c);
        }
        assert(body@ =~= glob_to_regex_body(p@.take(i + 1)));
        i = i + 1;
    }
    assert(p@.take(cs@.len() as int) =~= p@);
    let negated = body.len() > 0 && body[0] == '!';
    let mut out: Vec<char> = Vec::new();
    out.push('^');
    let mut k: usize = if negated { 1 } else { 0 };
    let start = k;
    while k < body.len()
        invariant
            start <= k <= body@.len(),
            start == (if negated { 1usize } else { 0usize }),
            out@ == seq!['^'] + body@.subrange(start as int, k as int),
        decreases body@.len() - k,
    {
        out.push(body[k]);
        assert(body@.subrange(start as int, k + 1) =~= body@.subrange(start as int, k as int).push(body@[k as int]));
        k = k + 1;
    }
    out.push('$');
    proof {
        let core = if negated { body@.drop_first() } else { body@ };
        assert(core =~= body@.subrange(start as int, body@.len() as int));
        assert(out@ =~= seq!['^'] + core + seq!['$']);
    }
    (string_from_chars(out.as_slice()), negated)
}

} // verus!
