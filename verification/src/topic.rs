//! Hierarchical topic filters with single-level (`+`) and multi-level (`#`)
//! wildcards, and matching of message topics against them.
//!
//! A filter and a topic are both split on `/` into parts; empty parts are
//! kept, so adjacent slashes produce empty literals. A `+` part matches
//! exactly one topic part (the empty part included); a `#` part is only
//! valid as the last part of a filter and matches any remaining topic
//! parts, including none.
use vstd::prelude::*;

verus! {

use vstd::string::StrSliceExecFns;

/// The parts a topic or filter string splits into on `/`, root part first.
///
/// Splitting never yields an empty sequence: the empty string splits into
/// one empty part, and each separator adds one more part.
pub open spec fn split_levels(s: Seq<char>) -> Seq<Seq<char>>
    decreases s.len(),
{
    if s.len() == 0 {
        seq![Seq::<char>::empty()]
    } else if s[0] == '/' {
        seq![Seq::<char>::empty()] + split_levels(s.skip(1))
    } else {
        let rest = split_levels(s.skip(1));
        seq![seq![s[0]] + rest[0]] + rest.skip(1)
    }
}

pub proof fn lemma_split_levels_len(s: Seq<char>)
    ensures
        split_levels(s).len() >= 1,
    decreases s.len(),
{
    if s.len() == 0 {
    } else {
        lemma_split_levels_len(s.skip(1));
    }
}

/// A string without separators splits into itself alone.
pub proof fn lemma_split_levels_whole(s: Seq<char>)
    requires
        forall|i: int| 0 <= i < s.len() ==> s[i] != '/',
    ensures
        split_levels(s) =~~= seq![s],
    decreases s.len(),
{
    if s.len() == 0 {
        assert(split_levels(s) =~~= seq![s]);
    } else {
        lemma_split_levels_whole(s.skip(1));
        assert(seq![s[0]] + s.skip(1) =~= s);
    }
}

/// Splitting at the first separator: everything before it is the first
/// part, and the rest splits on its own.
pub proof fn lemma_split_levels_step(s: Seq<char>, j: int)
    requires
        0 <= j < s.len(),
        s[j] == '/',
        forall|i: int| 0 <= i < j ==> s[i] != '/',
    ensures
        split_levels(s) =~~= seq![s.take(j)] + split_levels(s.skip(j + 1)),
    decreases s.len(),
{
    if j == 0 {
        assert(s.take(0) =~= Seq::<char>::empty());
        assert(s.skip(1) =~= s.skip(j + 1));
    } else {
        lemma_split_levels_step(s.skip(1), j - 1);
        assert(s.skip(1).skip(j) =~= s.skip(j + 1));
        assert(seq![s[0]] + s.skip(1).take(j - 1) =~= s.take(j));
        let rest = split_levels(s.skip(1));
        assert(rest[0] == s.skip(1).take(j - 1));
        assert(rest.skip(1) =~~= split_levels(s.skip(j + 1)));
    }
}

/// One part of a parsed filter: a literal (matched verbatim) or the
/// single-level wildcard `+`.
#[derive(Debug, Eq, PartialEq)]
pub enum Part {
    Literal(String),
    WildcardSingleLevel,
}

/// Specification-level counterpart of [`Part`].
pub enum PartSpec {
    Literal(Seq<char>),
    WildcardSingleLevel,
}

impl View for Part {
    type V = PartSpec;

    open spec fn view(&self) -> PartSpec {
        match self {
            Part::Literal(s) => PartSpec::Literal(s@),
            Part::WildcardSingleLevel => PartSpec::WildcardSingleLevel,
        }
    }
}

/// What it means for one filter part to match one topic part.
pub open spec fn part_matches(p: PartSpec, t: Seq<char>) -> bool {
    match p {
        PartSpec::Literal(s) => s == t,
        PartSpec::WildcardSingleLevel => true,
    }
}

/// A parsed topic filter: the parts before any final `#`, and whether a
/// final `#` was present.
///
/// The multi-level wildcard is not stored as a part; it is represented by
/// `is_prefix` alone, with `parts` holding everything before it.
#[derive(Debug)]
pub struct Pattern {
    pub parts: Vec<Part>,
    /// Does the topic end with '#'?
    pub is_prefix: bool,
}

/// Specification-level counterpart of [`Pattern`].
pub struct PatternSpec {
    pub parts: Seq<PartSpec>,
    pub is_prefix: bool,
}

impl View for Pattern {
    type V = PatternSpec;

    open spec fn view(&self) -> PatternSpec {
        PatternSpec { parts: self.parts@.map_values(|p: Part| p@), is_prefix: self.is_prefix }
    }
}

/// The filter parts match the topic parts pairwise, in lock-step from the
/// root, with topic parts possibly left over.
pub open spec fn parts_match(parts: Seq<PartSpec>, topic_parts: Seq<Seq<char>>) -> bool {
    &&& parts.len() <= topic_parts.len()
    &&& forall|i: int| 0 <= i < parts.len() ==> part_matches(#[trigger] parts[i], topic_parts[i])
}

/// What it means for a pattern to match a topic string: the stored parts
/// match pairwise, and any topic parts beyond them are allowed only for a
/// prefix pattern.
pub open spec fn pattern_matches(p: PatternSpec, topic: Seq<char>) -> bool {
    let topic_parts = split_levels(topic);
    &&& parts_match(p.parts, topic_parts)
    &&& (p.is_prefix || p.parts.len() == topic_parts.len())
}

/// The single variant reports a `#` anywhere but in the final position of
/// a filter.
#[derive(Debug, Eq, PartialEq)]
pub enum PatternError {
    MultiLevelWildcardNotLastCharacter,
}

impl PatternError {
    /// A short description, in place of a `Display` implementation.
    pub fn message(&self) -> (r: &'static str)
        ensures
            r@ == "# only allowed as last character"@,
    {
        "# only allowed as last character"
    }
}

/// Is this raw filter part the multi-level wildcard `#`?
pub open spec fn is_multi_part(p: Seq<char>) -> bool {
    p == seq!['#']
}

/// Is this raw filter part the single-level wildcard `+`?
pub open spec fn is_single_part(p: Seq<char>) -> bool {
    p == seq!['+']
}

/// A filter is well-formed when no part before the last is `#`.
pub open spec fn spec_parse_ok(f: Seq<char>) -> bool {
    forall|i: int|
        0 <= i < split_levels(f).len() - 1 ==> !is_multi_part(#[trigger] split_levels(f)[i])
}

/// Does the filter end in a `#` part?
pub open spec fn spec_is_prefix(f: Seq<char>) -> bool {
    is_multi_part(split_levels(f).last())
}

/// The part a raw filter part parses to: `+` becomes the wildcard,
/// anything else (the empty part included) a literal.
pub open spec fn spec_part(p: Seq<char>) -> PartSpec {
    if is_single_part(p) {
        PartSpec::WildcardSingleLevel
    } else {
        PartSpec::Literal(p)
    }
}

/// The parts a well-formed filter parses to: every raw part except a
/// final `#`, each mapped through [`spec_part`].
pub open spec fn spec_parts(f: Seq<char>) -> Seq<PartSpec> {
    let raw = split_levels(f);
    let body = if spec_is_prefix(f) {
        raw.drop_last()
    } else {
        raw
    };
    body.map_values(|p: Seq<char>| spec_part(p))
}

/// The pattern a well-formed filter parses to.
pub open spec fn spec_parse(f: Seq<char>) -> PatternSpec {
    PatternSpec { parts: spec_parts(f), is_prefix: spec_is_prefix(f) }
}

/// Compare two string slices character by character.
fn str_eq(a: &str, b: &str) -> (r: bool)
    ensures
        r == (a@ == b@),
{
    let n = a.unicode_len();
    if n != b.unicode_len() {
        return false;
    }
    for i in 0..n
        invariant
            n == a@.len(),
            n == b@.len(),
            forall|j: int| 0 <= j < i ==> a@[j] == b@[j],
    {
        if a.get_char(i) != b.get_char(i) {
            return false;
        }
    }
    proof {
        assert(a@ =~= b@);
    }
    true
}

/// Is this part the one-character string `#`?
fn is_multi_exec(p: &str) -> (r: bool)
    ensures
        r == is_multi_part(p@),
{
    let r = p.unicode_len() == 1 && p.get_char(0) == '#';
    proof {
        if r {
            assert(p@ =~= seq!['#']);
        }
    }
    r
}

/// Is this part the one-character string `+`?
fn is_single_exec(p: &str) -> (r: bool)
    ensures
        r == is_single_part(p@),
{
    let r = p.unicode_len() == 1 && p.get_char(0) == '+';
    proof {
        if r {
            assert(p@ =~= seq!['+']);
        }
    }
    r
}

/// Split a string on `/`, keeping empty parts.
pub fn split_str(s: &str) -> (parts: Vec<String>)
    ensures
        parts@.map_values(|p: String| p@) == split_levels(s@),
        parts@.len() >= 1,
{
    let n = s.unicode_len();
    let mut parts: Vec<String> = Vec::new();
    let mut start: usize = 0;
    proof {
        assert(s@.skip(0) =~= s@);
        assert(parts@.map_values(|p: String| p@) =~= Seq::<Seq<char>>::empty());
    }
    for i in 0..n
        invariant
            n == s@.len(),
            start <= i <= n,
            forall|k: int| start <= k < i ==> s@[k] != '/',
            split_levels(s@) =~~= parts@.map_values(|p: String| p@) + split_levels(
                s@.skip(start as int),
            ),
    {
        if s.get_char(i) == '/' {
            let part = s.substring_char(start, i).to_owned();
            proof {
                lemma_split_levels_step(s@.skip(start as int), i - start);
                assert(s@.skip(start as int).take(i - start) =~= s@.subrange(
                    start as int,
                    i as int,
                ));
                assert(s@.skip(start as int).skip(i - start + 1) =~= s@.skip(i + 1));
                assert((parts@ + seq![part]).map_values(|p: String| p@) =~= parts@.map_values(
                    |p: String| p@,
                ) + seq![part@]);
            }
            parts.push(part);
            start = i + 1;
        }
    }
    let last = s.substring_char(start, n).to_owned();
    proof {
        lemma_split_levels_whole(s@.skip(start as int));
        assert(s@.skip(start as int) =~= s@.subrange(start as int, n as int));
        assert((parts@ + seq![last]).map_values(|p: String| p@) =~= parts@.map_values(
            |p: String| p@,
        ) + seq![last@]);
    }
    parts.push(last);
    proof {
        lemma_split_levels_len(s@);
    }
    parts
}

impl Pattern {
    /// Parse a filter string.
    ///
    /// Fails exactly when a `#` part stands anywhere but last; otherwise
    /// a final `#` sets `is_prefix` and is dropped, `+` parts become
    /// single-level wildcards and all other parts literals.
    pub fn parse(topic: &str) -> (r: Result<Self, PatternError>)
        ensures
            r is Ok <==> spec_parse_ok(topic@),
            r is Ok ==> r->Ok_0@.parts =~~= spec_parts(topic@),
            r is Ok ==> r->Ok_0@.is_prefix == spec_is_prefix(topic@),
            r is Err ==> r == Result::<Self, PatternError>::Err(
                PatternError::MultiLevelWildcardNotLastCharacter,
            ),
    {
        let raw = split_str(topic);
        let ghost raw_view = split_levels(topic@);
        let is_prefix = is_multi_exec(raw[raw.len() - 1].as_str());
        let body_len = if is_prefix {
            raw.len() - 1
        } else {
            raw.len()
        };
        let mut parts: Vec<Part> = Vec::new();
        for i in 0..body_len
            invariant
                raw@.map_values(|p: String| p@) == raw_view,
                raw_view == split_levels(topic@),
                raw@.len() >= 1,
                is_prefix == spec_is_prefix(topic@),
                body_len == if is_prefix {
                    raw@.len() - 1
                } else {
                    raw@.len() as int
                },
                i <= body_len,
                forall|k: int| 0 <= k < i ==> !is_multi_part(#[trigger] raw_view[k]),
                parts@.len() == i,
                forall|k: int| 0 <= k < i ==> #[trigger] parts@[k]@ == spec_part(raw_view[k]),
        {
            let p = &raw[i];
            if is_multi_exec(p.as_str()) {
                proof {
                    assert(is_multi_part(raw_view[i as int]));
                    assert(i < raw_view.len() - 1);
                }
                return Err(PatternError::MultiLevelWildcardNotLastCharacter);
            }
            if is_single_exec(p.as_str()) {
                parts.push(Part::WildcardSingleLevel);
            } else {
                parts.push(Part::Literal(p.clone()));
            }
        }
        proof {
            assert(spec_parse_ok(topic@)) by {
                assert(forall|k: int|
                    0 <= k < raw_view.len() - 1 ==> !is_multi_part(#[trigger] raw_view[k]));
            }
            let body = if spec_is_prefix(topic@) {
                raw_view.drop_last()
            } else {
                raw_view
            };
            assert(parts@.map_values(|p: Part| p@) =~~= body.map_values(
                |p: Seq<char>| spec_part(p),
            ));
        }
        Ok(Self { parts, is_prefix })
    }

    /// Does this pattern match the given topic?
    ///
    /// The result depends only on the pattern and the topic, so repeated
    /// calls on the same pair always return the same value.
    pub fn matches(&self, topic: &str) -> (r: bool)
        ensures
            r == pattern_matches(self@, topic@),
    {
        let topic_parts = split_str(topic);
        let ghost tv = split_levels(topic@);
        if topic_parts.len() < self.parts.len() {
            proof {
                assert(self@.parts.len() == self.parts@.len());
                assert(tv.len() == topic_parts@.len());
            }
            return false;
        }
        for i in 0..self.parts.len()
            invariant
                tv == split_levels(topic@),
                topic_parts@.map_values(|p: String| p@) == tv,
                self.parts@.len() <= topic_parts@.len(),
                i <= self.parts@.len(),
                forall|k: int|
                    0 <= k < i ==> part_matches(#[trigger] self@.parts[k], tv[k]),
        {
            if !self.parts[i].matches(topic_parts[i].as_str()) {
                proof {
                    assert(tv[i as int] == topic_parts@[i as int]@);
                    assert(self@.parts[i as int] == self.parts@[i as int]@);
                    assert(!part_matches(self@.parts[i as int], tv[i as int]));
                    assert(!parts_match(self@.parts, tv));
                }
                return false;
            }
        }
        self.is_prefix || topic_parts.len() == self.parts.len()
    }
}

impl Part {
    /// Does this single filter part match the given topic part?
    pub fn matches(&self, part: &str) -> (r: bool)
        ensures
            r == part_matches(self@, part@),
    {
        match self {
            Part::Literal(s) => str_eq(s.as_str(), part),
            Part::WildcardSingleLevel => true,
        }
    }
}

/// Matching is a pure function of the pattern and the topic: any two
/// results computed for the same pair are equal, so repeating a match has
/// no effect on its outcome.
pub proof fn lemma_matches_repeatable(p: PatternSpec, topic: Seq<char>, r1: bool, r2: bool)
    requires
        r1 == pattern_matches(p, topic),
        r2 == pattern_matches(p, topic),
    ensures
        r1 == r2,
{
}

/// A filter without a multi-level wildcard parses to an exact pattern,
/// and matches a topic exactly when the topic has as many parts as the
/// filter and each part either equals the corresponding literal or the
/// corresponding filter part is `+`.
pub proof fn lemma_exact_match(f: Seq<char>, t: Seq<char>)
    requires
        forall|i: int|
            0 <= i < split_levels(f).len() ==> !is_multi_part(#[trigger] split_levels(f)[i]),
    ensures
        spec_parse_ok(f),
        !spec_is_prefix(f),
        pattern_matches(spec_parse(f), t) <==> {
            let fp = split_levels(f);
            let tp = split_levels(t);
            &&& tp.len() == fp.len()
            &&& forall|i: int|
                0 <= i < fp.len() ==> is_single_part(#[trigger] fp[i]) || fp[i] == tp[i]
        },
{
    lemma_split_levels_len(f);
    let fp = split_levels(f);
    let tp = split_levels(t);
    assert(!is_multi_part(fp.last()));
    assert(spec_parts(f) =~= fp.map_values(|p: Seq<char>| spec_part(p)));
    if pattern_matches(spec_parse(f), t) {
        assert(forall|i: int|
            0 <= i < fp.len() ==> part_matches(#[trigger] spec_parts(f)[i], tp[i]));
        assert forall|i: int|
            0 <= i < fp.len() implies is_single_part(#[trigger] fp[i]) || fp[i] == tp[i] by {
            assert(part_matches(spec_parts(f)[i], tp[i]));
        }
    }
    if {
        &&& tp.len() == fp.len()
        &&& forall|i: int|
            0 <= i < fp.len() ==> is_single_part(#[trigger] fp[i]) || fp[i] == tp[i]
    } {
        assert forall|i: int|
            0 <= i < spec_parts(f).len() implies part_matches(
            #[trigger] spec_parts(f)[i],
            tp[i],
        ) by {
            assert(is_single_part(fp[i]) || fp[i] == tp[i]);
        }
    }
}

/// A well-formed filter ending in a multi-level wildcard matches a topic
/// exactly when the topic has at least as many parts as the filter has
/// before the `#`, and each of those leading topic parts either equals
/// the corresponding literal or the corresponding filter part is `+`.
/// Any further topic parts, including none at all, are allowed.
pub proof fn lemma_prefix_match(f: Seq<char>, t: Seq<char>)
    requires
        spec_parse_ok(f),
        spec_is_prefix(f),
    ensures
        pattern_matches(spec_parse(f), t) <==> {
            let fp = split_levels(f).drop_last();
            let tp = split_levels(t);
            &&& tp.len() >= fp.len()
            &&& forall|i: int|
                0 <= i < fp.len() ==> is_single_part(#[trigger] fp[i]) || fp[i] == tp[i]
        },
{
    lemma_split_levels_len(f);
    let fp = split_levels(f).drop_last();
    let tp = split_levels(t);
    assert(spec_parts(f) =~= fp.map_values(|p: Seq<char>| spec_part(p)));
    if pattern_matches(spec_parse(f), t) {
        assert forall|i: int|
            0 <= i < fp.len() implies is_single_part(#[trigger] fp[i]) || fp[i] == tp[i] by {
            assert(part_matches(spec_parts(f)[i], tp[i]));
        }
    }
    if {
        &&& tp.len() >= fp.len()
        &&& forall|i: int|
            0 <= i < fp.len() ==> is_single_part(#[trigger] fp[i]) || fp[i] == tp[i]
    } {
        assert forall|i: int|
            0 <= i < spec_parts(f).len() implies part_matches(
            #[trigger] spec_parts(f)[i],
            tp[i],
        ) by {
            assert(is_single_part(fp[i]) || fp[i] == tp[i]);
        }
    }
}

} // verus!
