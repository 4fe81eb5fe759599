//! Multi-pattern lexicon matchers.
//!
//! A [`LexiconMatcher`] is a compiled multi-pattern automaton built once from a
//! fixed phrase list; it reports the count of non-overlapping matches in a
//! haystack.  The phrase lists themselves are a tunable asset: only the
//! counting discipline (non-overlapping, standard semantics, case-insensitive
//! through an already-lowercased haystack) is part of the contract.
use vstd::prelude::*;

verus! {

#[verifier::external_type_specification]
#[verifier::external_body]
pub struct ExAhoCorasick(aho_corasick::AhoCorasick);

#[verifier::external_type_specification]
#[verifier::external_body]
pub struct ExAcBuildError(aho_corasick::BuildError);

/// The patterns an automaton was built from.
pub uninterp spec fn ac_patterns(ac: aho_corasick::AhoCorasick) -> Seq<Seq<char>>;

/// Whether an automaton was built with standard match semantics, the default.
pub uninterp spec fn ac_standard(ac: aho_corasick::AhoCorasick) -> bool;

/// The number of non-overlapping, standard-semantics matches of `pats` in
/// `hay`, a function of the two alone.
pub uninterp spec fn ac_match_count(pats: Seq<Seq<char>>, hay: Seq<char>) -> nat;

/// Whether the default builder compiles `pats` into an automaton: with a fixed
/// default configuration, success is a function of the pattern list alone.
pub uninterp spec fn ac_builds(pats: Seq<Seq<char>>) -> bool;

/// The views of a sequence of string slices.
pub open spec fn slice_views(ps: Seq<&str>) -> Seq<Seq<char>> {
    ps.map_values(|p: &str| p@)
}

/// Relies on `aho_corasick::AhoCorasick::new`: builds an automaton over
/// exactly the given patterns, with the default standard match semantics; it
/// succeeds or fails as a function of the pattern list alone.
#[verifier::external_body]
fn ac_new(patterns: &Vec<&'static str>) -> (r: Result<
    aho_corasick::AhoCorasick,
    aho_corasick::BuildError,
>)
    ensures
        (r is Ok) == ac_builds(slice_views(patterns@)),
        r matches Ok(ac) ==> ac_patterns(ac) == slice_views(patterns@) && ac_standard(ac),
{
    aho_corasick::AhoCorasick::new(patterns)
}

/// Relies on `aho_corasick::AhoCorasick::find_iter`: yields the
/// non-overlapping matches of the automaton's patterns in the haystack, a
/// function of patterns and haystack alone; it is infallible for an automaton
/// built with standard match semantics.
#[verifier::external_body]
fn ac_count(ac: &aho_corasick::AhoCorasick, hay: &str) -> (r: usize)
    requires
        ac_standard(*ac),
    ensures
        r == ac_match_count(ac_patterns(*ac), hay@),
{
    ac.find_iter(hay).count()
}

/// Failure to compile a phrase list into an automaton.
#[derive(Clone, Copy, Debug, PartialEq, Eq)]
pub struct LexiconBuildError;

/// An immutable compiled multi-pattern matcher.
pub struct LexiconMatcher {
    ac: aho_corasick::AhoCorasick,
}

impl LexiconMatcher {
    /// The patterns this matcher was compiled from.
    pub closed spec fn patterns(&self) -> Seq<Seq<char>> {
        ac_patterns(self.ac)
    }

    pub closed spec fn wf(&self) -> bool {
        ac_standard(self.ac)
    }

    /// Compiles a phrase list; it succeeds exactly when the automaton builds
    /// over the given patterns.
    pub fn new(patterns: &Vec<&'static str>) -> (r: Result<Self, LexiconBuildError>)
        ensures
            (r is Ok) == ac_builds(slice_views(patterns@)),
            r matches Ok(m) ==> m.patterns() == slice_views(patterns@) && m.wf(),
    {
        match ac_new(patterns) {
            Ok(ac) => Ok(LexiconMatcher { ac }),
            Err(_) => Err(LexiconBuildError),
        }
    }

    /// The number of non-overlapping matches of this matcher's patterns.
    pub fn count(&self, hay: &str) -> (r: usize)
        requires
            self.wf(),
        ensures
            r == ac_match_count(self.patterns(), hay@),
    {
        ac_count(&self.ac, hay)
    }
}

/// Marketing buzzwords and cliches.
pub open spec fn buzzword_list() -> Seq<Seq<char>> {
    seq![
        "revolutioniz"@,
        "seamless"@,
        "cutting-edge"@,
        "game-chang"@,
        "leverag"@,
        "streamlin"@,
        "empower"@,
        "unleash"@,
        "effortless"@,
        "next-level"@,
        "state-of-the-art"@,
        "elevate"@,
        "supercharge"@,
        "delve"@,
        "modern"@,
    ]
}

pub fn buzzword_patterns() -> (r: Vec<&'static str>)
    ensures
        slice_views(r@) == buzzword_list(),
{
    let r: Vec<&'static str> = vec![
        "revolutioniz",
        "seamless",
        "cutting-edge",
        "game-chang",
        "leverag",
        "streamlin",
        "empower",
        "unleash",
        "effortless",
        "next-level",
        "state-of-the-art",
        "elevate",
        "supercharge",
        "delve",
        "modern",
    ];
    proof {
        assert(slice_views(r@) =~= buzzword_list());
    }
    r
}

/// Benign phrases that contain a buzzword as a substring.
pub open spec fn negative_buzzword_list() -> Seq<Seq<char>> {
    seq!["modern english"@, "modernity"@, "early modern"@, "elevated platform"@]
}

pub fn negative_buzzword_patterns() -> (r: Vec<&'static str>)
    ensures
        slice_views(r@) == negative_buzzword_list(),
{
    let r: Vec<&'static str> = vec![
        "modern english",
        "modernity",
        "early modern",
        "elevated platform",
    ];
    proof {
        assert(slice_views(r@) =~= negative_buzzword_list());
    }
    r
}

/// "Not just X, it's Y" constructions.
pub open spec fn not_just_list() -> Seq<Seq<char>> {
    seq!["not just"@, "not only"@, "more than just"@, "isn't just"@]
}

pub fn not_just_patterns() -> (r: Vec<&'static str>)
    ensures
        slice_views(r@) == not_just_list(),
{
    let r: Vec<&'static str> = vec!["not just", "not only", "more than just", "isn't just"];
    proof {
        assert(slice_views(r@) =~= not_just_list());
    }
    r
}

/// Devlog-style date and heading cues.
pub open spec fn devlog_list() -> Seq<Seq<char>> {
    seq!["devlog"@, "day 1"@, "day 2"@, "day 3"@, "week 1"@, "today i"@, "update:"@]
}

pub fn devlog_patterns() -> (r: Vec<&'static str>)
    ensures
        slice_views(r@) == devlog_list(),
{
    let r: Vec<&'static str> = vec![
        "devlog",
        "day 1",
        "day 2",
        "day 3",
        "week 1",
        "today i",
        "update:",
    ];
    proof {
        assert(slice_views(r@) =~= devlog_list());
    }
    r
}

/// Irregular ellipses: the single-glyph ellipsis, or three dots.
pub open spec fn ellipsis_list() -> Seq<Seq<char>> {
    seq!["\u{2026}"@, "..."@]
}

pub fn ellipsis_patterns() -> (r: Vec<&'static str>)
    ensures
        slice_views(r@) == ellipsis_list(),
{
    let r: Vec<&'static str> = vec!["\u{2026}", "..."];
    proof {
        assert(slice_views(r@) =~= ellipsis_list());
    }
    r
}

/// Backstory narrative cues.
pub open spec fn backstory_list() -> Seq<Seq<char>> {
    seq!["i built this for"@, "growing up"@, "ever since i was"@, "my journey"@, "for the people of"@]
}

pub fn backstory_patterns() -> (r: Vec<&'static str>)
    ensures
        slice_views(r@) == backstory_list(),
{
    let r: Vec<&'static str> = vec![
        "i built this for",
        "growing up",
        "ever since i was",
        "my journey",
        "for the people of",
    ];
    proof {
        assert(slice_views(r@) =~= backstory_list());
    }
    r
}

/// Benign phrases that contain a backstory cue as a substring.
pub open spec fn negative_backstory_list() -> Seq<Seq<char>> {
    seq!["my journey to work"@, "growing upwards"@]
}

pub fn negative_backstory_patterns() -> (r: Vec<&'static str>)
    ensures
        slice_views(r@) == negative_backstory_list(),
{
    let r: Vec<&'static str> = vec!["my journey to work", "growing upwards"];
    proof {
        assert(slice_views(r@) =~= negative_backstory_list());
    }
    r
}

/// Marks of a perspective that does not fit a personal devlog.
pub open spec fn incorrect_perspective_list() -> Seq<Seq<char>> {
    seq!["we built"@, "our team"@, "they made"@, "you will love"@, "the developer"@]
}

pub fn incorrect_perspective_patterns() -> (r: Vec<&'static str>)
    ensures
        slice_views(r@) == incorrect_perspective_list(),
{
    let r: Vec<&'static str> = vec![
        "we built",
        "our team",
        "they made",
        "you will love",
        "the developer",
    ];
    proof {
        assert(slice_views(r@) =~= incorrect_perspective_list());
    }
    r
}

/// Broken-English indicators.
pub open spec fn broken_english_list() -> Seq<Seq<char>> {
    seq!["i am liking"@, "very much good"@, "plz"@, "kindly do"@, "i has"@]
}

pub fn broken_english_patterns() -> (r: Vec<&'static str>)
    ensures
        slice_views(r@) == broken_english_list(),
{
    let r: Vec<&'static str> = vec!["i am liking", "very much good", "plz", "kindly do", "i has"];
    proof {
        assert(slice_views(r@) =~= broken_english_list());
    }
    r
}

/// Marks of overly proper English, which count against informality.
pub open spec fn overly_formal_list() -> Seq<Seq<char>> {
    seq!["(e.g."@, "(formerly"@, "role- "@]
}

pub fn overly_formal_patterns() -> (r: Vec<&'static str>)
    ensures
        slice_views(r@) == overly_formal_list(),
{
    let r: Vec<&'static str> = vec!["(e.g.", "(formerly", "role- "];
    proof {
        assert(slice_views(r@) =~= overly_formal_list());
    }
    r
}

} // verus!
