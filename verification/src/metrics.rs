//! The metric pipeline: from raw text to a fixed-shape record of stylistic
//! counts and fixed-point rates.
//!
//! The order of the passes is part of the contract: structural counts and
//! label lines are read from the raw text (labels from its lowercased form,
//! since the Markdown walk would turn its line breaks into spaces), the
//! Markdown walk extracts the plain text, sentences and capitalization are
//! read before lowercasing, and every other scan runs over the lowercased,
//! space-collapsed text.
use vstd::prelude::*;
use crate::chars::{chars_of, string_from_chars};
use crate::fx::{
    METRIC_BOUND, count_fx, fx_spec, rate_spec, signed_count_fx, signed_rate_fx, rate_fx,
    wide_count_fx, wide_rate_fx, WIDE_NUM_BOUND,
};
use crate::grapheme::{scan_typography, typo_spec};
use crate::lexicon::{
    LexiconBuildError, LexiconMatcher, ac_builds, ac_match_count, backstory_list,
    backstory_patterns,
    broken_english_list, broken_english_patterns, buzzword_list, buzzword_patterns, devlog_list,
    devlog_patterns, ellipsis_list, ellipsis_patterns, incorrect_perspective_list,
    incorrect_perspective_patterns, negative_backstory_list, negative_backstory_patterns,
    negative_buzzword_list, negative_buzzword_patterns, not_just_list, not_just_patterns,
    overly_formal_list, overly_formal_patterns,
};
use crate::markdown::{markdown_scan, md_clean_spec, md_irregular_spec};
use crate::scan::{
    count_hashtags, count_labels, hashtags_spec, labels_spec, noncap_count_spec, sentence_scan,
    sentence_count_spec,
};
use crate::text::{
    collapse_pair, collapse_pair_exec, count_pat, count_pattern, ends_with_comma,
    ends_with_comma_exec, lower_seq, newlines_to_spaces, replace_newlines, to_ascii_lower,
    trim_chars, trim_spec,
};

verus! {

/// The pattern that marks an HTML escape.
pub open spec fn amp_pat() -> Seq<char> {
    seq!['&', 'a', 'm', 'p', ';']
}

/// Bullet glyphs that count as irregular markdown wherever they occur.
pub open spec fn is_bullet(c: char) -> bool {
    c == '\u{2022}' || c == '\u{25cf}'
}

pub open spec fn bullets_upto(s: Seq<char>, i: int) -> int
    decreases i,
{
    if i <= 0 {
        0
    } else {
        bullets_upto(s, i - 1) + if is_bullet(s[i - 1]) {
            1int
        } else {
            0int
        }
    }
}

/// The number of bullet glyphs in `s`.
pub open spec fn bullets_spec(s: Seq<char>) -> int {
    bullets_upto(s, s.len() as int)
}

/// Counts the bullet glyphs of `v`.
pub fn count_bullets(v: &Vec<char>) -> (r: usize)
    ensures
        r == bullets_spec(v@),
{
    let mut count: usize = 0;
    let mut i: usize = 0;
    while i < v.len()
        invariant
            i <= v@.len(),
            count <= i,
            count == bullets_upto(v@, i as int),
        decreases v@.len() - i,
    {
        if v[i] == '\u{2022}' || v[i] == '\u{25cf}' {
            count += 1;
        }
        i += 1;
    }
    count
}

/// The raw per-text counts, before rate normalization.
#[derive(Clone, Copy, Debug, PartialEq, Eq)]
pub struct TextCounts {
    /// Non-empty sentence segments, floored to 1.
    pub sentence_count: usize,
    /// Sentence segments that open with a lowercase ASCII letter.
    pub noncap_sentences: usize,
    /// Emoji graphemes outside the common allowlist.
    pub emoji: usize,
    /// `&amp;` occurrences in the raw text.
    pub html_escapes: usize,
    /// Bullet glyphs in the raw text.
    pub bullet_glyphs: usize,
    /// Irregular styling events of the Markdown walk.
    pub markdown_events: usize,
    /// Label-like lines.
    pub labels: usize,
    /// Hashtag tokens.
    pub hashtags: usize,
    /// Irregular dash code points.
    pub irregular_dashes: usize,
    /// Curly quote code points.
    pub irregular_quotes: usize,
    /// Arrow glyphs.
    pub irregular_arrows: usize,
    /// Irregular ellipses.
    pub irregular_ellipses: usize,
    /// Buzzword lexicon matches.
    pub buzzword_pos: usize,
    /// Benign phrases that contain a buzzword.
    pub buzzword_neg: usize,
    /// "Not just X, it's Y" constructions.
    pub not_just: usize,
    /// Devlog date and heading cues.
    pub devlog: usize,
    /// Backstory cues.
    pub backstory_pos: usize,
    /// Benign phrases that contain a backstory cue.
    pub backstory_neg: usize,
    /// Wrong-perspective cues.
    pub incorrect_perspective: usize,
    /// Broken-English cues.
    pub broken_english: usize,
    /// Overly-formal cues.
    pub overly_formal: usize,
    /// Whether the scanned text ends with a comma.
    pub trailing_comma: bool,
}

/// The mathematical value of each count of a text.
pub struct SpecCounts {
    pub sentence_count: int,
    pub noncap_sentences: int,
    pub emoji: int,
    pub html_escapes: int,
    pub bullet_glyphs: int,
    pub markdown_events: int,
    pub labels: int,
    pub hashtags: int,
    pub irregular_dashes: int,
    pub irregular_quotes: int,
    pub irregular_arrows: int,
    pub irregular_ellipses: int,
    pub buzzword_pos: int,
    pub buzzword_neg: int,
    pub not_just: int,
    pub devlog: int,
    pub backstory_pos: int,
    pub backstory_neg: int,
    pub incorrect_perspective: int,
    pub broken_english: int,
    pub overly_formal: int,
    pub trailing_comma: bool,
}

/// The plain text of `text` after the Markdown walk, trimmed, with doubled
/// blank lines collapsed.
pub open spec fn trimmed_spec(text: Seq<char>) -> Seq<char> {
    collapse_pair(trim_spec(md_clean_spec(text)), '\n')
}

/// The trimmed text, ASCII-lowercased.
pub open spec fn lowered_spec(text: Seq<char>) -> Seq<char> {
    lower_seq(trimmed_spec(text))
}

/// The lowercased text with newlines turned into spaces and doubled spaces
/// collapsed: the haystack of the lexicon, hashtag and typographic scans.
pub open spec fn collapsed_spec(text: Seq<char>) -> Seq<char> {
    collapse_pair(newlines_to_spaces(lowered_spec(text)), ' ')
}

/// All the counts of a text, as the pipeline defines them.
pub open spec fn counts_spec(text: Seq<char>) -> SpecCounts {
    let trimmed = trimmed_spec(text);
    let hay = collapsed_spec(text);
    SpecCounts {
        sentence_count: sentence_count_spec(trimmed),
        noncap_sentences: noncap_count_spec(trimmed),
        emoji: typo_spec(hay).emoji,
        html_escapes: count_pat(text, amp_pat()),
        bullet_glyphs: bullets_spec(text),
        markdown_events: md_irregular_spec(text),
        labels: labels_spec(lower_seq(text)),
        hashtags: hashtags_spec(hay),
        irregular_dashes: typo_spec(hay).dash,
        irregular_quotes: typo_spec(hay).quote,
        irregular_arrows: typo_spec(hay).arrow,
        irregular_ellipses: ac_match_count(ellipsis_list(), hay) as int,
        buzzword_pos: ac_match_count(buzzword_list(), hay) as int,
        buzzword_neg: ac_match_count(negative_buzzword_list(), hay) as int,
        not_just: ac_match_count(not_just_list(), hay) as int,
        devlog: ac_match_count(devlog_list(), hay) as int,
        backstory_pos: ac_match_count(backstory_list(), hay) as int,
        backstory_neg: ac_match_count(negative_backstory_list(), hay) as int,
        incorrect_perspective: ac_match_count(incorrect_perspective_list(), hay) as int,
        broken_english: ac_match_count(broken_english_list(), hay) as int,
        overly_formal: ac_match_count(overly_formal_list(), hay) as int,
        trailing_comma: ends_with_comma(hay),
    }
}

/// Whether the executable counts hold exactly the specified values.
pub open spec fn counts_match(c: TextCounts, s: SpecCounts) -> bool {
    &&& c.sentence_count == s.sentence_count
    &&& c.noncap_sentences == s.noncap_sentences
    &&& c.emoji == s.emoji
    &&& c.html_escapes == s.html_escapes
    &&& c.bullet_glyphs == s.bullet_glyphs
    &&& c.markdown_events == s.markdown_events
    &&& c.labels == s.labels
    &&& c.hashtags == s.hashtags
    &&& c.irregular_dashes == s.irregular_dashes
    &&& c.irregular_quotes == s.irregular_quotes
    &&& c.irregular_arrows == s.irregular_arrows
    &&& c.irregular_ellipses == s.irregular_ellipses
    &&& c.buzzword_pos == s.buzzword_pos
    &&& c.buzzword_neg == s.buzzword_neg
    &&& c.not_just == s.not_just
    &&& c.devlog == s.devlog
    &&& c.backstory_pos == s.backstory_pos
    &&& c.backstory_neg == s.backstory_neg
    &&& c.incorrect_perspective == s.incorrect_perspective
    &&& c.broken_english == s.broken_english
    &&& c.overly_formal == s.overly_formal
    &&& c.trailing_comma == s.trailing_comma
}

/// The sentence floor: every text, the empty one included, has a sentence
/// count of at least 1, so no rate ever divides by zero.
pub proof fn lemma_sentence_floor(text: Seq<char>)
    ensures
        counts_spec(text).sentence_count >= 1,
{
}

/// The per-text metric record: rates are per sentence, counts are raw; all
/// values are fixed-point numbers scaled by [`crate::fx::SCALE`].
#[derive(Clone, Copy, Debug, PartialEq, Eq, Structural)]
pub struct TextMetrics {
    /// Emoji per sentence.
    pub emoji_rate: i128,
    /// Net buzzword matches per sentence; negative when the benign list
    /// outmatches the positive one.
    pub buzzword_rate: i128,
    /// "Not just X, it's Y" constructions.
    pub not_just_count: i128,
    /// HTML escapes.
    pub html_escape_count: i128,
    /// Devlog date and heading cues.
    pub devlog_count: i128,
    /// Net backstory cues.
    pub backstory_count: i128,
    /// Wrong-perspective cues per sentence.
    pub incorrect_perspective: i128,
    /// Informality score per sentence.
    pub human_informality: i128,
    /// Irregular ellipses.
    pub irregular_ellipsis: i128,
    /// Curly quotes per sentence.
    pub irregular_quotations: i128,
    /// Irregular dashes.
    pub irregular_dashes: i128,
    /// Irregular markdown events and bullet glyphs.
    pub irregular_markdown: i128,
    /// Arrow glyphs.
    pub irregular_arrows: i128,
    /// Label-like lines.
    pub labels: i128,
    /// Hashtag tokens.
    pub hashtags: i128,
}

/// The mathematical value of each metric.
pub struct SpecMetrics {
    pub emoji_rate: int,
    pub buzzword_rate: int,
    pub not_just_count: int,
    pub html_escape_count: int,
    pub devlog_count: int,
    pub backstory_count: int,
    pub incorrect_perspective: int,
    pub human_informality: int,
    pub irregular_ellipsis: int,
    pub irregular_quotations: int,
    pub irregular_dashes: int,
    pub irregular_markdown: int,
    pub irregular_arrows: int,
    pub labels: int,
    pub hashtags: int,
}

/// The informality numerator, doubled so that the half-step weight of a
/// non-capitalized sentence stays an integer: `2 * trailing_comma
/// + 2 * broken_english - 2 * overly_formal + 3 * noncap_sentences`.
pub open spec fn informality_numer2(s: SpecCounts) -> int {
    2 * (if s.trailing_comma {
        1int
    } else {
        0int
    }) + 2 * s.broken_english + 3 * s.noncap_sentences - 2 * s.overly_formal
}

/// The metric record computed from a text's counts.
pub open spec fn metrics_spec(s: SpecCounts) -> SpecMetrics {
    let sc = if s.sentence_count >= 1 {
        s.sentence_count
    } else {
        1int
    };
    SpecMetrics {
        emoji_rate: rate_spec(s.emoji, sc),
        buzzword_rate: rate_spec(s.buzzword_pos - s.buzzword_neg, sc),
        not_just_count: fx_spec(s.not_just),
        html_escape_count: fx_spec(s.html_escapes),
        devlog_count: fx_spec(s.devlog),
        backstory_count: fx_spec(s.backstory_pos - s.backstory_neg),
        incorrect_perspective: rate_spec(s.incorrect_perspective, sc),
        human_informality: rate_spec(informality_numer2(s), 2 * sc),
        irregular_ellipsis: fx_spec(s.irregular_ellipses),
        irregular_quotations: rate_spec(s.irregular_quotes, sc),
        irregular_dashes: fx_spec(s.irregular_dashes),
        irregular_markdown: fx_spec(s.bullet_glyphs + s.markdown_events),
        irregular_arrows: fx_spec(s.irregular_arrows),
        labels: fx_spec(s.labels),
        hashtags: fx_spec(s.hashtags),
    }
}

/// The metric record of a text.
pub open spec fn full_metrics_spec(text: Seq<char>) -> SpecMetrics {
    metrics_spec(counts_spec(text))
}

/// Whether the executable metrics hold exactly the specified values.
pub open spec fn metrics_match(m: TextMetrics, s: SpecMetrics) -> bool {
    &&& m.emoji_rate == s.emoji_rate
    &&& m.buzzword_rate == s.buzzword_rate
    &&& m.not_just_count == s.not_just_count
    &&& m.html_escape_count == s.html_escape_count
    &&& m.devlog_count == s.devlog_count
    &&& m.backstory_count == s.backstory_count
    &&& m.incorrect_perspective == s.incorrect_perspective
    &&& m.human_informality == s.human_informality
    &&& m.irregular_ellipsis == s.irregular_ellipsis
    &&& m.irregular_quotations == s.irregular_quotations
    &&& m.irregular_dashes == s.irregular_dashes
    &&& m.irregular_markdown == s.irregular_markdown
    &&& m.irregular_arrows == s.irregular_arrows
    &&& m.labels == s.labels
    &&& m.hashtags == s.hashtags
}

/// Whether every metric stays within the shared magnitude bound.
pub open spec fn metrics_bounded(m: TextMetrics) -> bool {
    &&& -METRIC_BOUND <= m.emoji_rate <= METRIC_BOUND
    &&& -METRIC_BOUND <= m.buzzword_rate <= METRIC_BOUND
    &&& -METRIC_BOUND <= m.not_just_count <= METRIC_BOUND
    &&& -METRIC_BOUND <= m.html_escape_count <= METRIC_BOUND
    &&& -METRIC_BOUND <= m.devlog_count <= METRIC_BOUND
    &&& -METRIC_BOUND <= m.backstory_count <= METRIC_BOUND
    &&& -METRIC_BOUND <= m.incorrect_perspective <= METRIC_BOUND
    &&& -METRIC_BOUND <= m.human_informality <= METRIC_BOUND
    &&& -METRIC_BOUND <= m.irregular_ellipsis <= METRIC_BOUND
    &&& -METRIC_BOUND <= m.irregular_quotations <= METRIC_BOUND
    &&& -METRIC_BOUND <= m.irregular_dashes <= METRIC_BOUND
    &&& -METRIC_BOUND <= m.irregular_markdown <= METRIC_BOUND
    &&& -METRIC_BOUND <= m.irregular_arrows <= METRIC_BOUND
    &&& -METRIC_BOUND <= m.labels <= METRIC_BOUND
    &&& -METRIC_BOUND <= m.hashtags <= METRIC_BOUND
}

/// The view of the executable counts.
pub open spec fn counts_view(c: TextCounts) -> SpecCounts {
    SpecCounts {
        sentence_count: c.sentence_count as int,
        noncap_sentences: c.noncap_sentences as int,
        emoji: c.emoji as int,
        html_escapes: c.html_escapes as int,
        bullet_glyphs: c.bullet_glyphs as int,
        markdown_events: c.markdown_events as int,
        labels: c.labels as int,
        hashtags: c.hashtags as int,
        irregular_dashes: c.irregular_dashes as int,
        irregular_quotes: c.irregular_quotes as int,
        irregular_arrows: c.irregular_arrows as int,
        irregular_ellipses: c.irregular_ellipses as int,
        buzzword_pos: c.buzzword_pos as int,
        buzzword_neg: c.buzzword_neg as int,
        not_just: c.not_just as int,
        devlog: c.devlog as int,
        backstory_pos: c.backstory_pos as int,
        backstory_neg: c.backstory_neg as int,
        incorrect_perspective: c.incorrect_perspective as int,
        broken_english: c.broken_english as int,
        overly_formal: c.overly_formal as int,
        trailing_comma: c.trailing_comma,
    }
}

/// Turns a count record into the metric record, normalizing the rate fields
/// by the sentence count.  The net lexicon fields keep their sign: they may be
/// negative when the benign list outmatches the positive one.
pub fn metrics_from_counts(c: &TextCounts) -> (m: TextMetrics)
    requires
        c.sentence_count >= 1,
    ensures
        metrics_match(m, metrics_spec(counts_view(*c))),
        metrics_bounded(m),
{
    let sc = c.sentence_count;
    let comma2: u128 = if c.trailing_comma {
        2
    } else {
        0
    };
    let informality = wide_rate_fx(
        comma2 + 2 * (c.broken_english as u128) + 3 * (c.noncap_sentences as u128),
        2 * (c.overly_formal as u128),
        2 * (sc as u128),
    );
    let markdown = wide_count_fx((c.bullet_glyphs as u128) + (c.markdown_events as u128));
    TextMetrics {
        emoji_rate: rate_fx(c.emoji, sc),
        buzzword_rate: signed_rate_fx(c.buzzword_pos, c.buzzword_neg, sc),
        not_just_count: count_fx(c.not_just),
        html_escape_count: count_fx(c.html_escapes),
        devlog_count: count_fx(c.devlog),
        backstory_count: signed_count_fx(c.backstory_pos, c.backstory_neg),
        incorrect_perspective: rate_fx(c.incorrect_perspective, sc),
        human_informality: informality,
        irregular_ellipsis: count_fx(c.irregular_ellipses),
        irregular_quotations: rate_fx(c.irregular_quotes, sc),
        irregular_dashes: count_fx(c.irregular_dashes),
        irregular_markdown: markdown,
        irregular_arrows: count_fx(c.irregular_arrows),
        labels: count_fx(c.labels),
        hashtags: count_fx(c.hashtags),
    }
}

/// The compiled lexicon set; built once at startup and reused, read-only, for
/// every text.
pub struct TextMetricFactory {
    buzzword: LexiconMatcher,
    negative_buzzword: LexiconMatcher,
    not_just: LexiconMatcher,
    devlog: LexiconMatcher,
    ellipsis: LexiconMatcher,
    backstory: LexiconMatcher,
    negative_backstory: LexiconMatcher,
    incorrect_perspective: LexiconMatcher,
    broken_english: LexiconMatcher,
    overly_formal: LexiconMatcher,
}

impl TextMetricFactory {
    /// Every matcher is compiled, with standard semantics, from its list.
    pub closed spec fn wf(&self) -> bool {
        &&& self.buzzword.wf() && self.buzzword.patterns() == buzzword_list()
        &&& self.negative_buzzword.wf() && self.negative_buzzword.patterns()
            == negative_buzzword_list()
        &&& self.not_just.wf() && self.not_just.patterns() == not_just_list()
        &&& self.devlog.wf() && self.devlog.patterns() == devlog_list()
        &&& self.ellipsis.wf() && self.ellipsis.patterns() == ellipsis_list()
        &&& self.backstory.wf() && self.backstory.patterns() == backstory_list()
        &&& self.negative_backstory.wf() && self.negative_backstory.patterns()
            == negative_backstory_list()
        &&& self.incorrect_perspective.wf() && self.incorrect_perspective.patterns()
            == incorrect_perspective_list()
        &&& self.broken_english.wf() && self.broken_english.patterns() == broken_english_list()
        &&& self.overly_formal.wf() && self.overly_formal.patterns() == overly_formal_list()
    }

    /// Whether every one of the ten fixed phrase lists compiles into an
    /// automaton.
    pub open spec fn all_lists_build() -> bool {
        &&& ac_builds(buzzword_list())
        &&& ac_builds(negative_buzzword_list())
        &&& ac_builds(not_just_list())
        &&& ac_builds(devlog_list())
        &&& ac_builds(ellipsis_list())
        &&& ac_builds(backstory_list())
        &&& ac_builds(negative_backstory_list())
        &&& ac_builds(incorrect_perspective_list())
        &&& ac_builds(broken_english_list())
        &&& ac_builds(overly_formal_list())
    }

    /// Compiles the whole lexicon set; it succeeds exactly when every list
    /// compiles.  Failure is fatal to the caller: a partially built set must
    /// not serve predictions.
    pub fn new() -> (r: Result<Self, LexiconBuildError>)
        ensures
            (r is Ok) == Self::all_lists_build(),
            r matches Ok(f) ==> f.wf(),
    {
        let f = TextMetricFactory {
            buzzword: LexiconMatcher::new(&buzzword_patterns())?,
            negative_buzzword: LexiconMatcher::new(&negative_buzzword_patterns())?,
            not_just: LexiconMatcher::new(&not_just_patterns())?,
            devlog: LexiconMatcher::new(&devlog_patterns())?,
            ellipsis: LexiconMatcher::new(&ellipsis_patterns())?,
            backstory: LexiconMatcher::new(&backstory_patterns())?,
            negative_backstory: LexiconMatcher::new(&negative_backstory_patterns())?,
            incorrect_perspective: LexiconMatcher::new(&incorrect_perspective_patterns())?,
            broken_english: LexiconMatcher::new(&broken_english_patterns())?,
            overly_formal: LexiconMatcher::new(&overly_formal_patterns())?,
        };
        Ok(f)
    }

    /// Runs every pass of the pipeline over `text` and returns the raw counts.
    pub fn counts(&self, text: &str) -> (c: TextCounts)
        requires
            self.wf(),
        ensures
            counts_match(c, counts_spec(text@)),
            c.sentence_count >= 1,
    {
        let raw = chars_of(text);
        let amp: Vec<char> = vec!['&', 'a', 'm', 'p', ';'];
        proof {
            assert(amp@ =~= amp_pat());
        }
        let html_escapes = count_pattern(&raw, &amp);
        let bullet_glyphs = count_bullets(&raw);
        let (cleaned, markdown_events) = markdown_scan(text);
        let trimmed0 = trim_chars(&cleaned);
        let trimmed = collapse_pair_exec(&trimmed0, '\n');
        let (sentence_count, noncap_sentences) = sentence_scan(&trimmed);
        let labels = count_labels(&to_ascii_lower(&raw));
        let lower = to_ascii_lower(&trimmed);
        let collapsed = collapse_pair_exec(&replace_newlines(&lower), ' ');
        let hashtags = count_hashtags(&collapsed);
        let hay = string_from_chars(&collapsed);
        let (emoji, irregular_dashes, irregular_arrows, irregular_quotes) = scan_typography(
            hay.as_str(),
        );
        let irregular_ellipses = self.ellipsis.count(hay.as_str());
        let buzzword_pos = self.buzzword.count(hay.as_str());
        let buzzword_neg = self.negative_buzzword.count(hay.as_str());
        let not_just = self.not_just.count(hay.as_str());
        let devlog = self.devlog.count(hay.as_str());
        let backstory_pos = self.backstory.count(hay.as_str());
        let backstory_neg = self.negative_backstory.count(hay.as_str());
        let incorrect_perspective = self.incorrect_perspective.count(hay.as_str());
        let broken_english = self.broken_english.count(hay.as_str());
        let overly_formal = self.overly_formal.count(hay.as_str());
        let trailing_comma = ends_with_comma_exec(&collapsed);
        TextCounts {
            sentence_count,
            noncap_sentences,
            emoji,
            html_escapes,
            bullet_glyphs,
            markdown_events,
            labels,
            hashtags,
            irregular_dashes,
            irregular_quotes,
            irregular_arrows,
            irregular_ellipses,
            buzzword_pos,
            buzzword_neg,
            not_just,
            devlog,
            backstory_pos,
            backstory_neg,
            incorrect_perspective,
            broken_english,
            overly_formal,
            trailing_comma,
        }
    }

    /// Computes the metric record of one text.
    pub fn calculate(&self, text: &str) -> (m: TextMetrics)
        requires
            self.wf(),
        ensures
            metrics_match(m, full_metrics_spec(text@)),
            metrics_bounded(m),
    {
        let c = self.counts(text);
        metrics_from_counts(&c)
    }

    /// Computes the metric record of each text of a batch.
    pub fn calculate_iter(&self, texts: &Vec<String>) -> (r: Vec<TextMetrics>)
        requires
            self.wf(),
        ensures
            r@.len() == texts@.len(),
            forall|i: int| 0 <= i < r@.len() ==> metrics_match(
                #[trigger] r@[i],
                full_metrics_spec(texts@[i]@),
            ) && metrics_bounded(r@[i]),
    {
        let mut r: Vec<TextMetrics> = Vec::new();
        let mut i: usize = 0;
        while i < texts.len()
            invariant
                self.wf(),
                i <= texts@.len(),
                r@.len() == i,
                forall|k: int| 0 <= k < i ==> metrics_match(
                    #[trigger] r@[k],
                    full_metrics_spec(texts@[k]@),
                ) && metrics_bounded(r@[k]),
            decreases texts@.len() - i,
        {
            r.push(self.calculate(texts[i].as_str()));
            i += 1;
        }
        r
    }
}

} // verus!
