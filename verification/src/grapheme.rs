//! Typographic scan over grapheme clusters: emoji, irregular dashes, arrows
//! and smart quotes.
//!
//! The text is walked by user-perceived character (grapheme cluster), not by
//! code point, so a multi-code-point emoji counts once.  Non-emoji graphemes
//! are inspected code point by code point; a plain hyphen counts as an
//! irregular dash only when the next character in the stream exists and is not
//! whitespace.
use vstd::prelude::*;
use vstd::string::StrSliceExecFns;
use crate::chars::{chars_of, is_space, space_char};
use unicode_segmentation::UnicodeSegmentation;

verus! {

/// Dash-like code points that mark typographically irregular text.
pub open spec fn is_irr_dash(c: char) -> bool {
    c == '\u{2013}' || c == '\u{2014}' || c == '\u{2012}' || c == '\u{2015}' || c == '\u{2e3b}'
        || c == '\u{2e3a}' || c == '\u{2212}' || c == '\u{fe58}' || c == '\u{ff0d}'
        || c == '\u{2011}' || c == '\u{2010}' || c == '\u{1806}' || c == '\u{05be}'
        || c == '\u{058a}'
}

/// Arrow glyphs that mark typographically irregular text.
pub open spec fn is_irr_arrow(c: char) -> bool {
    c == '\u{2192}' || c == '\u{2191}' || c == '\u{2193}' || c == '\u{2194}' || c == '\u{2195}'
        || c == '\u{21d2}' || c == '\u{21d0}' || c == '\u{21d1}' || c == '\u{21d3}'
        || c == '\u{2794}' || c == '\u{279c}'
}

/// Curly quote code points.
pub open spec fn is_irr_quote(c: char) -> bool {
    c == '\u{201c}' || c == '\u{201d}' || c == '\u{2018}' || c == '\u{2019}'
}

pub fn irr_dash_char(c: char) -> (r: bool)
    ensures
        r == is_irr_dash(c),
{
    c == '\u{2013}' || c == '\u{2014}' || c == '\u{2012}' || c == '\u{2015}' || c == '\u{2e3b}'
        || c == '\u{2e3a}' || c == '\u{2212}' || c == '\u{fe58}' || c == '\u{ff0d}'
        || c == '\u{2011}' || c == '\u{2010}' || c == '\u{1806}' || c == '\u{05be}'
        || c == '\u{058a}'
}

pub fn irr_arrow_char(c: char) -> (r: bool)
    ensures
        r == is_irr_arrow(c),
{
    c == '\u{2192}' || c == '\u{2191}' || c == '\u{2193}' || c == '\u{2194}' || c == '\u{2195}'
        || c == '\u{21d2}' || c == '\u{21d0}' || c == '\u{21d1}' || c == '\u{21d3}'
        || c == '\u{2794}' || c == '\u{279c}'
}

pub fn irr_quote_char(c: char) -> (r: bool)
    ensures
        r == is_irr_quote(c),
{
    c == '\u{201c}' || c == '\u{201d}' || c == '\u{2018}' || c == '\u{2019}'
}

/// Emoji that human authors commonly type; they do not count.
pub open spec fn is_allowed_emoji(g: Seq<char>) -> bool {
    g.len() == 1 && (g[0] == '\u{1f62d}' || g[0] == '\u{1f609}' || g[0] == '\u{1fae3}')
}

/// The views of a sequence of owned strings.
pub open spec fn str_views(gs: Seq<String>) -> Seq<Seq<char>> {
    gs.map_values(|g: String| g@)
}

/// The grapheme clusters of a text, in order.
pub uninterp spec fn graphemes_of(s: Seq<char>) -> Seq<Seq<char>>;

/// Relies on `unicode_segmentation::UnicodeSegmentation::graphemes` (extended
/// clusters): the clusters are a function of the text alone, each is a
/// non-empty substring, and their concatenation is the original text.
#[verifier::external_body]
fn graphemes(s: &str) -> (r: Vec<String>)
    ensures
        str_views(r@) == graphemes_of(s@),
        str_views(r@).flatten() == s@,
        forall|k: int| 0 <= k < r@.len() ==> #[trigger] r@[k]@.len() >= 1,
{
    s.graphemes(true).map(|g| g.to_string()).collect()
}

/// Whether a grapheme cluster is a known emoji.
pub uninterp spec fn is_emoji_spec(g: Seq<char>) -> bool;

/// Relies on `emojis::get`: whether a string is a known emoji is a lookup in a
/// fixed table, a function of the string alone.
#[verifier::external_body]
fn emoji_grapheme(g: &str) -> (r: bool)
    ensures
        r == is_emoji_spec(g@),
{
    emojis::get(g).is_some()
}

/// Counts of the typographic scan after some prefix of the grapheme stream.
pub struct TypoState {
    pub emoji: int,
    pub dash: int,
    pub arrow: int,
    pub quote: int,
}

pub open spec fn typo_init() -> TypoState {
    TypoState { emoji: 0, dash: 0, arrow: 0, quote: 0 }
}

pub open spec fn typo_sum(st: TypoState) -> int {
    st.emoji + st.dash + st.arrow + st.quote
}

/// The character following position `j` of grapheme `g`, or the first
/// character of the next grapheme.
pub open spec fn char_next(g: Seq<char>, j: int, after: Option<char>) -> Option<char> {
    if j + 1 < g.len() {
        Some(g[j + 1])
    } else {
        after
    }
}

pub open spec fn char_step(st: TypoState, c: char, nxt: Option<char>) -> TypoState {
    if is_irr_dash(c) {
        TypoState { dash: st.dash + 1, ..st }
    } else if is_irr_arrow(c) {
        TypoState { arrow: st.arrow + 1, ..st }
    } else if is_irr_quote(c) {
        TypoState { quote: st.quote + 1, ..st }
    } else if c == '-' {
        match nxt {
            Some(x) => if !is_space(x) {
                TypoState { dash: st.dash + 1, ..st }
            } else {
                st
            },
            None => st,
        }
    } else {
        st
    }
}

/// Scan of the first `j` characters of a non-emoji grapheme.
pub open spec fn grapheme_chars_scan(st: TypoState, g: Seq<char>, after: Option<char>, j: int)
    -> TypoState
    decreases j,
{
    if j <= 0 {
        st
    } else {
        char_step(grapheme_chars_scan(st, g, after, j - 1), g[j - 1], char_next(g, j - 1, after))
    }
}

pub open spec fn grapheme_step(st: TypoState, g: Seq<char>, after: Option<char>) -> TypoState {
    if is_emoji_spec(g) && !is_allowed_emoji(g) {
        TypoState { emoji: st.emoji + 1, ..st }
    } else {
        grapheme_chars_scan(st, g, after, g.len() as int)
    }
}

/// The first character of the grapheme after position `i`, if any.
pub open spec fn next_of(gs: Seq<Seq<char>>, i: int) -> Option<char> {
    if i + 1 < gs.len() && gs[i + 1].len() > 0 {
        Some(gs[i + 1][0])
    } else {
        None
    }
}

pub open spec fn typo_fold(gs: Seq<Seq<char>>, i: int) -> TypoState
    decreases i,
{
    if i <= 0 {
        typo_init()
    } else {
        typo_fold(gs, i - 1).grapheme_fold_step(gs, i - 1)
    }
}

impl TypoState {
    /// One grapheme's step of [`typo_fold`].
    pub open spec fn grapheme_fold_step(self, gs: Seq<Seq<char>>, i: int) -> TypoState {
        grapheme_step(self, gs[i], next_of(gs, i))
    }
}

/// The typographic counts of a text.
pub open spec fn typo_spec(s: Seq<char>) -> TypoState {
    typo_fold(graphemes_of(s), graphemes_of(s).len() as int)
}

/// The number of counting emoji among the first `i` graphemes.
pub open spec fn emoji_graphemes_upto(gs: Seq<Seq<char>>, i: int) -> int
    decreases i,
{
    if i <= 0 {
        0
    } else {
        emoji_graphemes_upto(gs, i - 1) + if is_emoji_spec(gs[i - 1]) && !is_allowed_emoji(
            gs[i - 1],
        ) {
            1int
        } else {
            0int
        }
    }
}

proof fn lemma_typo_fold_emoji(gs: Seq<Seq<char>>, i: int)
    requires
        i >= 0,
    ensures
        typo_fold(gs, i).emoji == emoji_graphemes_upto(gs, i),
    decreases i,
{
    if i > 0 {
        lemma_typo_fold_emoji(gs, i - 1);
        let st = typo_fold(gs, i - 1);
        if !(is_emoji_spec(gs[i - 1]) && !is_allowed_emoji(gs[i - 1])) {
            lemma_char_scan_sum(st, gs[i - 1], next_of(gs, i - 1), gs[i - 1].len() as int);
        }
    }
}

/// Grapheme correctness of the emoji count: the scan counts each emoji
/// grapheme cluster exactly once, however many code points it holds, and the
/// per-code-point checks never touch it.
pub proof fn lemma_emoji_counts_graphemes(s: Seq<char>)
    ensures
        typo_spec(s).emoji == emoji_graphemes_upto(graphemes_of(s), graphemes_of(s).len() as int),
{
    lemma_typo_fold_emoji(graphemes_of(s), graphemes_of(s).len() as int);
}

proof fn lemma_flatten_step(vs: Seq<Seq<char>>, k: int)
    requires
        0 <= k < vs.len(),
    ensures
        vs.skip(k).flatten().len() == vs[k].len() + vs.skip(k + 1).flatten().len(),
{
    let t = vs.skip(k);
    assert(t.len() > 0);
    assert(t.first() == vs[k]);
    assert(t.drop_first() =~= vs.skip(k + 1));
    assert(t.flatten() == t.first() + t.drop_first().flatten());
}

proof fn lemma_char_scan_sum(st: TypoState, g: Seq<char>, after: Option<char>, j: int)
    requires
        j >= 0,
    ensures
        typo_sum(grapheme_chars_scan(st, g, after, j)) <= typo_sum(st) + j,
        grapheme_chars_scan(st, g, after, j).emoji == st.emoji,
    decreases j,
{
    if j > 0 {
        lemma_char_scan_sum(st, g, after, j - 1);
    }
}

/// Scans `text` by grapheme cluster and returns the counts of emoji (outside
/// the common allowlist), irregular dashes, irregular arrows and irregular
/// quotes.
pub fn scan_typography(text: &str) -> (r: (usize, usize, usize, usize))
    ensures
        typo_spec(text@) == (TypoState {
            emoji: r.0 as int,
            dash: r.1 as int,
            arrow: r.2 as int,
            quote: r.3 as int,
        }),
{
    let total = text.unicode_len();
    let gs = graphemes(text);
    let ghost views = str_views(gs@);
    let n = gs.len();
    let mut emoji: usize = 0;
    let mut dash: usize = 0;
    let mut arrow: usize = 0;
    let mut quote: usize = 0;
    let mut k: usize = 0;
    let ghost mut done: int = 0;
    proof {
        assert(views.skip(0) =~= views);
    }
    while k < n
        invariant
            k <= n == gs@.len(),
            views == str_views(gs@),
            views == graphemes_of(text@),
            views.flatten() == text@,
            forall|t: int| 0 <= t < views.len() ==> #[trigger] views[t].len() >= 1,
            total == text@.len(),
            typo_fold(views, k as int) == (TypoState {
                emoji: emoji as int,
                dash: dash as int,
                arrow: arrow as int,
                quote: quote as int,
            }),
            done + views.skip(k as int).flatten().len() == total,
            0 <= done,
            emoji + dash + arrow + quote <= done,
        decreases n - k,
    {
        let ghost st0 = typo_fold(views, k as int);
        let ghost done0 = done;
        proof {
            lemma_flatten_step(views, k as int);
            assert(views[k as int] == gs@[k as int]@);
        }
        let g = &gs[k];
        let gc = chars_of(g.as_str());
        let after: Option<char> = if k + 1 < n {
            proof {
                assert(views[k + 1] == gs@[k + 1]@);
            }
            Some(gs[k + 1].as_str().get_char(0))
        } else {
            None
        };
        proof {
            assert(after == next_of(views, k as int));
        }
        let is_emoji = emoji_grapheme(g.as_str());
        let allowed = gc.len() == 1 && (gc[0] == '\u{1f62d}' || gc[0] == '\u{1f609}' || gc[0]
            == '\u{1fae3}');
        proof {
            assert(allowed == is_allowed_emoji(views[k as int]));
        }
        if is_emoji && !allowed {
            emoji += 1;
        } else {
            let m = gc.len();
            proof {
                assert(views.skip(k + 1).flatten().len() >= 0);
                assert(done0 + m <= total);
            }
            let mut j: usize = 0;
            while j < m
                invariant
                    j <= m == gc@.len(),
                    done0 + m <= total,
                    grapheme_chars_scan(st0, gc@, after, j as int) == (TypoState {
                        emoji: emoji as int,
                        dash: dash as int,
                        arrow: arrow as int,
                        quote: quote as int,
                    }),
                    emoji + dash + arrow + quote <= done0 + j,
                    done0 >= 0,
                decreases m - j,
            {
                let c = gc[j];
                let nxt: Option<char> = if j + 1 < m {
                    Some(gc[j + 1])
                } else {
                    after
                };
                proof {
                    assert(nxt == char_next(gc@, j as int, after));
                }
                if irr_dash_char(c) {
                    dash += 1;
                } else if irr_arrow_char(c) {
                    arrow += 1;
                } else if irr_quote_char(c) {
                    quote += 1;
                } else if c == '-' {
                    match nxt {
                        Some(x) => {
                            if !space_char(x) {
                                dash += 1;
                            }
                        },
                        None => {},
                    }
                }
                j += 1;
            }
        }
        proof {
            done = done0 + views[k as int].len();
        }
        k += 1;
    }
    proof {
        assert(views.skip(n as int) =~= Seq::<Seq<char>>::empty());
    }
    (emoji, dash, arrow, quote)
}

} // verus!
