//! Asset-name filters: a small expression grammar compiled into matchers,
//! and the conjunction of a set of them.
//!
//! Regular expressions and glob patterns are matched by the `regex` and
//! `globset` crates. A filter keeps the pattern text; what those crates make
//! of a pattern is named in the contracts, not spelled out.

use crate::errors::GhrError;
use crate::errors::Result;
use crate::text::contains;
use crate::text::contains_char;
use crate::text::from_chars;
use crate::text::has_substring;
use crate::text::occurs_at;
use crate::text::split;
use crate::text::split_chars;
use crate::text::to_chars;
use vstd::prelude::*;

verus! {

/// The longest glob pattern, in characters, that is compiled.
///
/// `globset` turns a glob into a regular expression and panics where that
/// expression is refused. Nested alternates are what can get it refused:
/// each level costs three levels of expression nesting, of which 250 are
/// allowed, and a level takes two characters. Patterns within this limit
/// stay far below that.
pub const GLOB_PATTERN_MAX_CHARS: usize = 128;

/// Whether `regex::Regex::new` accepts the pattern.
pub uninterp spec fn regex_accepts(pattern: Seq<char>) -> bool;

/// Whether the regular expression compiled from `pattern` matches somewhere
/// in `text`, as `regex::Regex::is_match` reports it.
pub uninterp spec fn regex_matches(pattern: Seq<char>, text: Seq<char>) -> bool;

/// Whether `globset::Glob::new` accepts the pattern, on the platform the
/// library is built for: where `\` parts paths, `globset` does not read it
/// as an escape.
pub uninterp spec fn glob_accepts(pattern: Seq<char>) -> bool;

/// Whether the glob compiled from `pattern` matches all of `name`, as
/// `globset::GlobMatcher::is_match` reports it on the platform the library
/// is built for: where `\` parts paths, `globset` reads it in a name as `/`.
pub uninterp spec fn glob_matches(pattern: Seq<char>, name: Seq<char>) -> bool;

/// `regex::Regex::new`, for its verdict only: `Ok` exactly where the pattern
/// compiles, else the crate's error.
#[verifier::external_body]
fn regex_check(pattern: &str) -> (r: std::result::Result<(), regex::Error>)
    ensures
        r is Ok <==> regex_accepts(pattern@),
{
    match regex::Regex::new(pattern) {
        Ok(_) => Ok(()),
        Err(e) => Err(e),
    }
}

/// `regex::Regex::is_match` on the expression compiled from `pattern`;
/// `false` where the pattern does not compile.
#[verifier::external_body]
fn regex_is_match(pattern: &str, text: &str) -> (b: bool)
    ensures
        b == (regex_accepts(pattern@) && regex_matches(pattern@, text@)),
{
    match regex::Regex::new(pattern) {
        Ok(re) => re.is_match(text),
        Err(_) => false,
    }
}

/// `globset::Glob::new`, for its verdict only: `Ok` exactly where the
/// pattern parses, else the crate's error.
#[verifier::external_body]
fn glob_check(pattern: &str) -> (r: std::result::Result<(), globset::Error>)
    ensures
        r is Ok <==> glob_accepts(pattern@),
{
    match globset::Glob::new(pattern) {
        Ok(_) => Ok(()),
        Err(e) => Err(e),
    }
}

/// `globset::Glob::compile_matcher` and `globset::GlobMatcher::is_match` on
/// the glob parsed from `pattern`; `false` where the pattern does not parse.
/// The length bound keeps `compile_matcher` away from its panic.
#[verifier::external_body]
fn glob_is_match(pattern: &str, name: &str) -> (b: bool)
    requires
        pattern@.len() <= GLOB_PATTERN_MAX_CHARS,
    ensures
        b == (glob_accepts(pattern@) && glob_matches(pattern@, name@)),
{
    match globset::Glob::new(pattern) {
        Ok(glob) => glob.compile_matcher().is_match(name),
        Err(_) => false,
    }
}

/// A filter as the contracts see it: the variant and the pattern text.
pub enum FilterSpec {
    /// Matches a name that contains the text.
    Substring(Seq<char>),
    /// Matches a name that the glob pattern covers.
    Glob(Seq<char>),
    /// Matches a name in which the regular expression finds a match.
    Regex(Seq<char>),
    /// Matches a name that the inner filter does not match.
    Not(Box<FilterSpec>),
}

impl FilterSpec {
    /// Whether the filter matches `name`.
    pub open spec fn matches(self, name: Seq<char>) -> bool
        decreases self,
    {
        match self {
            FilterSpec::Substring(text) => has_substring(name, text),
            FilterSpec::Glob(pattern) => pattern.len() <= GLOB_PATTERN_MAX_CHARS && glob_accepts(
                pattern,
            ) && glob_matches(pattern, name),
            FilterSpec::Regex(pattern) => regex_accepts(pattern) && regex_matches(pattern, name),
            FilterSpec::Not(inner) => !inner.matches(name),
        }
    }

    /// Whether every pattern in the filter is one that its crate accepts.
    pub open spec fn well_formed(self) -> bool
        decreases self,
    {
        match self {
            FilterSpec::Substring(_) => true,
            FilterSpec::Glob(pattern) => pattern.len() <= GLOB_PATTERN_MAX_CHARS && glob_accepts(
                pattern,
            ),
            FilterSpec::Regex(pattern) => regex_accepts(pattern),
            FilterSpec::Not(inner) => inner.well_formed(),
        }
    }
}

/// Why an expression compiles to no filter.
pub enum FilterFault {
    /// It reads as a regular expression and is none.
    BadRegex,
    /// It reads as a glob and is none.
    BadGlob,
    /// It reads as a glob of more than `GLOB_PATTERN_MAX_CHARS` characters.
    GlobTooLong,
}

/// The expression holds one of the marks of a regular expression:
/// `^`, `$`, `.*`, `\.`, `(` or `[`.
pub open spec fn reads_as_regex(s: Seq<char>) -> bool {
    ||| s.contains('^')
    ||| s.contains('$')
    ||| has_substring(s, seq!['.', '*'])
    ||| has_substring(s, seq!['\\', '.'])
    ||| s.contains('(')
    ||| s.contains('[')
}

/// The expression holds a glob wildcard, `*` or `?`.
pub open spec fn reads_as_glob(s: Seq<char>) -> bool {
    s.contains('*') || s.contains('?')
}

/// The expression is plain text: no leading `!`, no mark of a regular
/// expression, no wildcard.
pub open spec fn is_plain(s: Seq<char>) -> bool {
    &&& !(s.len() > 0 && s[0] == '!')
    &&& !reads_as_regex(s)
    &&& !reads_as_glob(s)
}

/// What an expression compiles to. The first rule that applies decides:
/// a leading `!` negates the rest; a mark of a regular expression makes it
/// one; a wildcard makes it a glob; anything else is a substring.
pub open spec fn compiled(s: Seq<char>) -> std::result::Result<FilterSpec, FilterFault>
    decreases s.len(),
{
    if s.len() > 0 && s[0] == '!' {
        match compiled(s.skip(1)) {
            Ok(inner) => Ok(FilterSpec::Not(Box::new(inner))),
            Err(fault) => Err(fault),
        }
    } else if reads_as_regex(s) {
        if regex_accepts(s) {
            Ok(FilterSpec::Regex(s))
        } else {
            Err(FilterFault::BadRegex)
        }
    } else if reads_as_glob(s) {
        if !glob_accepts(s) {
            Err(FilterFault::BadGlob)
        } else if s.len() > GLOB_PATTERN_MAX_CHARS {
            Err(FilterFault::GlobTooLong)
        } else {
            Ok(FilterSpec::Glob(s))
        }
    } else {
        Ok(FilterSpec::Substring(s))
    }
}

/// Whether every filter of the set matches `name`.
pub open spec fn all_match(filters: Seq<FilterSpec>, name: Seq<char>) -> bool {
    forall|i: int| 0 <= i < filters.len() ==> (#[trigger] filters[i]).matches(name)
}

/// The fault that an error of `parse_filter` stands for.
pub open spec fn fault_of(e: GhrError) -> Option<FilterFault> {
    match e {
        GhrError::RegexError(_) => Some(FilterFault::BadRegex),
        GhrError::GlobError(_) => Some(FilterFault::BadGlob),
        GhrError::Generic(m) => if m@ == "Glob pattern is too long"@ {
            Some(FilterFault::GlobTooLong)
        } else {
            None
        },
        _ => None,
    }
}

/// A compiled filter.
#[derive(Debug)]
pub enum FilterType {
    /// The name contains the text, e.g. `linux`.
    Substring(String),
    /// The name fits the glob pattern, e.g. `*.deb`.
    Glob(String),
    /// The regular expression finds a match in the name, e.g.
    /// `linux-.*-amd64`.
    Regex(String),
    /// The name does not pass the inner filter, e.g. `!windows`.
    Exclude(Box<FilterType>),
}

impl View for FilterType {
    type V = FilterSpec;

    open spec fn view(&self) -> FilterSpec {
        self.model()
    }
}

impl FilterType {
    /// The filter as the contracts see it.
    pub open spec fn model(&self) -> FilterSpec
        decreases self,
    {
        match self {
            FilterType::Substring(text) => FilterSpec::Substring(text@),
            FilterType::Glob(pattern) => FilterSpec::Glob(pattern@),
            FilterType::Regex(pattern) => FilterSpec::Regex(pattern@),
            FilterType::Exclude(inner) => FilterSpec::Not(Box::new(inner.model())),
        }
    }

    /// Whether the filter matches `name`.
    pub fn matches(&self, name: &str) -> (b: bool)
        ensures
            b == self@.matches(name@),
        decreases self,
    {
        match self {
            FilterType::Substring(text) => {
                let hay = to_chars(name);
                let needle = to_chars(text.as_str());
                contains(hay.as_slice(), needle.as_slice())
            },
            FilterType::Glob(pattern) => {
                let chars = to_chars(pattern.as_str());
                if chars.len() > GLOB_PATTERN_MAX_CHARS {
                    false
                } else {
                    glob_is_match(pattern.as_str(), name)
                }
            },
            FilterType::Regex(pattern) => regex_is_match(pattern.as_str(), name),
            FilterType::Exclude(inner) => !inner.matches(name),
        }
    }
}

/// Whether the characters hold a mark of a regular expression.
fn has_regex_mark(s: &[char]) -> (b: bool)
    ensures
        b == reads_as_regex(s@),
{
    let dot_star: [char; 2] = ['.', '*'];
    let escaped_dot: [char; 2] = ['\\', '.'];
    assert(dot_star@ =~= seq!['.', '*']);
    assert(escaped_dot@ =~= seq!['\\', '.']);
    contains_char(s, '^') || contains_char(s, '$') || contains(s, dot_star.as_slice())
        || contains(s, escaped_dot.as_slice()) || contains_char(s, '(') || contains_char(s, '[')
}

/// Compiles the part of an expression that starts at `from`.
fn parse_from(chars: &[char], from: usize) -> (r: Result<FilterType>)
    requires
        from <= chars@.len(),
    ensures
        match r {
            Ok(f) => compiled(chars@.skip(from as int)) == Ok::<FilterSpec, FilterFault>(f@)
                && f@.well_formed(),
            Err(e) => compiled(chars@.skip(from as int)) matches Err(fault) && fault_of(e)
                == Some(fault),
        },
    decreases chars@.len() - from,
{
    let n = chars.len();
    let ghost rest = chars@.skip(from as int);
    if from < n && chars[from] == '!' {
        assert(rest[0] == '!');
        assert(rest.skip(1) =~= chars@.skip(from + 1));
        return match parse_from(chars, from + 1) {
            Ok(inner) => Ok(FilterType::Exclude(Box::new(inner))),
            Err(e) => Err(e),
        };
    }
    let body = &chars[from..n];
    assert(body@ =~= rest);
    let pattern = from_chars(body);
    if has_regex_mark(body) {
        match regex_check(pattern.as_str()) {
            Ok(_) => Ok(FilterType::Regex(pattern)),
            Err(e) => Err(GhrError::RegexError(e)),
        }
    } else if contains_char(body, '*') || contains_char(body, '?') {
        match glob_check(pattern.as_str()) {
            Ok(_) => {
                if body.len() > GLOB_PATTERN_MAX_CHARS {
                    Err(GhrError::generic("Glob pattern is too long"))
                } else {
                    Ok(FilterType::Glob(pattern))
                }
            },
            Err(e) => Err(GhrError::GlobError(e)),
        }
    } else {
        Ok(FilterType::Substring(pattern))
    }
}

/// Compiles a filter expression.
///
/// Succeeds unless the expression reads as a regular expression or a glob
/// and the crate in charge refuses it, or it is a glob beyond the length
/// that is compiled.
pub fn parse_filter(s: &str) -> (r: Result<FilterType>)
    ensures
        match r {
            Ok(f) => compiled(s@) == Ok::<FilterSpec, FilterFault>(f@) && f@.well_formed(),
            Err(e) => compiled(s@) matches Err(fault) && fault_of(e) == Some(fault),
        },
{
    let chars = to_chars(s);
    assert(s@.skip(0) =~= s@);
    parse_from(chars.as_slice(), 0)
}

/// Whether `name` passes every filter. An empty set lets every name pass.
pub fn apply_filters(name: &str, filters: &[FilterType]) -> (b: bool)
    ensures
        b == all_match(filters@.map_values(|f: FilterType| f@), name@),
        filters@.len() == 0 ==> b,
{
    let ghost specs = filters@.map_values(|f: FilterType| f@);
    let n = filters.len();
    let mut i: usize = 0;
    while i < n
        invariant
            i <= n,
            n == filters@.len(),
            specs == filters@.map_values(|f: FilterType| f@),
            forall|j: int| 0 <= j < i ==> (#[trigger] specs[j]).matches(name@),
        decreases n - i,
    {
        if !filters[i].matches(name) {
            assert(specs[i as int] == filters@[i as int]@);
            return false;
        }
        assert(specs[i as int] == filters@[i as int]@);
        i += 1;
    }
    true
}

/// A plain expression compiles to a substring filter for that very text,
/// and the filter matches the expression itself.
pub proof fn law_plain_expression_matches_itself(s: Seq<char>)
    requires
        is_plain(s),
    ensures
        compiled(s) == Ok::<FilterSpec, FilterFault>(FilterSpec::Substring(s)),
        FilterSpec::Substring(s).matches(s),
{
    assert(s.subrange(0, 0 + s.len() as int) =~= s);
    assert(occurs_at(s, s, 0));
}

/// The empty text occurs in every name, so the empty expression is a filter
/// that lets every name pass.
pub proof fn law_empty_expression_matches_everything(name: Seq<char>)
    ensures
        compiled(Seq::<char>::empty()) == Ok::<FilterSpec, FilterFault>(
            FilterSpec::Substring(Seq::<char>::empty()),
        ),
        FilterSpec::Substring(Seq::<char>::empty()).matches(name),
{
    let e = Seq::<char>::empty();
    assert(!has_substring(e, seq!['.', '*'])) by {
        assert forall|i: int| !occurs_at(e, seq!['.', '*'], i) by {}
    }
    assert(!has_substring(e, seq!['\\', '.'])) by {
        assert forall|i: int| !occurs_at(e, seq!['\\', '.'], i) by {}
    }
    assert(name.subrange(0, 0) =~= e);
    assert(occurs_at(name, e, 0));
}

/// `!p` compiles exactly where `p` does, and then matches exactly the names
/// that `p` does not match.
pub proof fn law_negation_inverts(p: Seq<char>, name: Seq<char>)
    ensures
        compiled(seq!['!'] + p) is Ok <==> compiled(p) is Ok,
        compiled(p) matches Ok(f) ==> compiled(seq!['!'] + p) == Ok::<FilterSpec, FilterFault>(
            FilterSpec::Not(Box::new(f)),
        ) && compiled(seq!['!'] + p)->Ok_0.matches(name) == !f.matches(name),
        compiled(p) matches Err(fault) ==> compiled(seq!['!'] + p) == Err::<
            FilterSpec,
            FilterFault,
        >(fault),
{
    let q = seq!['!'] + p;
    assert(q[0] == '!');
    assert(q.skip(1) =~= p);
}

/// Negating twice gives back the match outcome of the filter itself.
pub proof fn law_double_negation(f: FilterSpec, name: Seq<char>)
    ensures
        FilterSpec::Not(Box::new(FilterSpec::Not(Box::new(f)))).matches(name) == f.matches(name),
{
    reveal_with_fuel(FilterSpec::matches, 3);
}

/// The empty filter set lets every name pass.
pub proof fn law_empty_set_matches_everything(name: Seq<char>)
    ensures
        all_match(Seq::<FilterSpec>::empty(), name),
{
}

/// A set of filters is a conjunction: joined sets let a name pass exactly
/// where both do, in whichever order they are joined.
pub proof fn law_conjunction(a: Seq<FilterSpec>, b: Seq<FilterSpec>, name: Seq<char>)
    ensures
        all_match(a + b, name) == (all_match(a, name) && all_match(b, name)),
        all_match(a + b, name) == all_match(b + a, name),
{
    let ab = a + b;
    let ba = b + a;
    if all_match(a, name) && all_match(b, name) {
        assert forall|i: int| 0 <= i < ab.len() implies (#[trigger] ab[i]).matches(name) by {
            if i < a.len() {
                assert(ab[i] == a[i]);
            } else {
                assert(ab[i] == b[i - a.len()]);
            }
        }
        assert forall|i: int| 0 <= i < ba.len() implies (#[trigger] ba[i]).matches(name) by {
            if i < b.len() {
                assert(ba[i] == b[i]);
            } else {
                assert(ba[i] == a[i - b.len()]);
            }
        }
    }
    if all_match(ab, name) {
        assert forall|i: int| 0 <= i < a.len() implies (#[trigger] a[i]).matches(name) by {
            assert(ab[i] == a[i]);
        }
        assert forall|i: int| 0 <= i < b.len() implies (#[trigger] b[i]).matches(name) by {
            assert(ab[i + a.len()] == b[i]);
        }
    }
    if all_match(ba, name) {
        assert forall|i: int| 0 <= i < b.len() implies (#[trigger] b[i]).matches(name) by {
            assert(ba[i] == b[i]);
        }
        assert forall|i: int| 0 <= i < a.len() implies (#[trigger] a[i]).matches(name) by {
            assert(ba[i + b.len()] == a[i]);
        }
    }
}

/// `i` is the position of the first expression of the list that compiles to
/// no filter.
pub open spec fn is_first_fault(parts: Seq<Seq<char>>, i: int) -> bool {
    &&& 0 <= i < parts.len()
    &&& compiled(parts[i]) is Err
    &&& forall|j: int| 0 <= j < i ==> compiled(#[trigger] parts[j]) is Ok
}

/// Compiles a list of filter expressions that commas part. The result has
/// one filter for each expression, in order; the first expression that
/// does not compile makes the whole list fail with its error.
pub fn parse_filter_list(list: &str) -> (r: Result<Vec<FilterType>>)
    ensures
        match r {
            Ok(filters) => {
                &&& filters@.len() == split(list@, ',').len()
                &&& forall|i: int|
                    0 <= i < filters@.len() ==> compiled(#[trigger] split(list@, ',')[i]) == Ok::<
                        FilterSpec,
                        FilterFault,
                    >(filters@[i]@) && filters@[i]@.well_formed()
            },
            Err(e) => exists|i: int|
                is_first_fault(split(list@, ','), i) && fault_of(e) == Some(
                    compiled(split(list@, ',')[i])->Err_0,
                ),
        },
{
    let chars = to_chars(list);
    let parts = split_chars(chars.as_slice(), ',');
    let ghost texts = split(list@, ',');
    let mut filters: Vec<FilterType> = Vec::new();
    let n = parts.len();
    let mut i: usize = 0;
    while i < n
        invariant
            i <= n,
            n == parts@.len(),
            texts == split(list@, ','),
            texts == parts@.map_values(|piece: Vec<char>| piece@),
            filters@.len() == i,
            forall|j: int|
                0 <= j < i ==> compiled(#[trigger] texts[j]) == Ok::<FilterSpec, FilterFault>(
                    filters@[j]@,
                ) && filters@[j]@.well_formed(),
        decreases n - i,
    {
        let expression = from_chars(parts[i].as_slice());
        assert(expression@ == texts[i as int]);
        match parse_filter(expression.as_str()) {
            Ok(f) => {
                filters.push(f);
            },
            Err(e) => {
                assert(is_first_fault(texts, i as int));
                return Err(e);
            },
        }
        i += 1;
    }
    Ok(filters)
}

} // verus!
