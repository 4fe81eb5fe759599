//! Markdown structure analysis: walks the parsed event stream of a text,
//! counts the events that mark heavy markdown styling, and extracts the plain
//! text outside code blocks.
use vstd::prelude::*;
use pulldown_cmark::{Event, Parser, Tag, TagEnd};

verus! {

/// One markdown event, reduced to what the analysis reads.
pub enum MdEvent {
    /// A styling event that counts as irregular markdown: a horizontal rule,
    /// or the start of a block quote, emphasis, strong, strikethrough,
    /// subscript, superscript, heading, link or image.
    Irregular,
    /// Start of a fenced or indented code block.
    CodeStart,
    /// End of a code block.
    CodeEnd,
    /// A literal text run.
    Text(Vec<char>),
    /// A soft or hard line break.
    Break,
    /// Any other event.
    Other,
}

/// The view of an [`MdEvent`].
pub enum MdTok {
    Irregular,
    CodeStart,
    CodeEnd,
    Text(Seq<char>),
    Break,
    Other,
}

impl View for MdEvent {
    type V = MdTok;

    open spec fn view(&self) -> MdTok {
        match self {
            MdEvent::Irregular => MdTok::Irregular,
            MdEvent::CodeStart => MdTok::CodeStart,
            MdEvent::CodeEnd => MdTok::CodeEnd,
            MdEvent::Text(t) => MdTok::Text(t@),
            MdEvent::Break => MdTok::Break,
            MdEvent::Other => MdTok::Other,
        }
    }
}

pub open spec fn md_views(evs: Seq<MdEvent>) -> Seq<MdTok> {
    evs.map_values(|e: MdEvent| e@)
}

/// The markdown event stream of a text.
pub uninterp spec fn md_events_of(text: Seq<char>) -> Seq<MdTok>;

/// Relies on `pulldown_cmark::Parser::new` and its `Iterator` impl: the event
/// stream of a text is a function of the text alone, and a malformed text
/// still parses, degrading to plain text runs.
///
/// The body only tells event variants apart, as [`MdEvent`]'s variants
/// document: a horizontal rule and the starts of block quotes, emphasis,
/// strong, strikethrough, subscript, superscript, headings, links and images
/// become [`MdEvent::Irregular`]; code-block bounds, text runs and soft or
/// hard breaks map to their own variants; every other event to
/// [`MdEvent::Other`].
#[verifier::external_body]
fn markdown_events(text: &str) -> (r: Vec<MdEvent>)
    ensures
        md_views(r@) == md_events_of(text@),
{
    Parser::new(text).map(|e| match e {
        Event::Rule => MdEvent::Irregular,
        Event::Start(
            Tag::BlockQuote(_) | Tag::Emphasis | Tag::Strong | Tag::Strikethrough | Tag::Subscript
            | Tag::Superscript | Tag::Heading { .. } | Tag::Link { .. } | Tag::Image { .. },
        ) => MdEvent::Irregular,
        Event::Start(Tag::CodeBlock(_)) => MdEvent::CodeStart,
        Event::End(TagEnd::CodeBlock) => MdEvent::CodeEnd,
        Event::Text(t) => MdEvent::Text(t.chars().collect()),
        Event::SoftBreak | Event::HardBreak => MdEvent::Break,
        _ => MdEvent::Other,
    }).collect()
}

/// State of the event walk after some prefix of the stream.
pub struct MdState {
    /// Plain text gathered outside code blocks, breaks turned into spaces.
    pub cleaned: Seq<char>,
    /// Whether the walk is inside a code block.
    pub in_code: bool,
    /// Count of irregular-markdown events.
    pub irregular: int,
}

pub open spec fn md_init() -> MdState {
    MdState { cleaned: Seq::empty(), in_code: false, irregular: 0 }
}

pub open spec fn md_step(st: MdState, ev: MdTok) -> MdState {
    match ev {
        MdTok::Irregular => MdState { irregular: st.irregular + 1, ..st },
        MdTok::CodeStart => MdState { in_code: true, ..st },
        MdTok::CodeEnd => MdState { in_code: false, ..st },
        MdTok::Text(t) => if st.in_code {
            st
        } else {
            MdState { cleaned: st.cleaned + t, ..st }
        },
        MdTok::Break => if st.in_code {
            st
        } else {
            MdState { cleaned: st.cleaned.push(' '), ..st }
        },
        MdTok::Other => st,
    }
}

pub open spec fn md_fold(evs: Seq<MdTok>, i: int) -> MdState
    decreases i,
{
    if i <= 0 {
        md_init()
    } else {
        md_step(md_fold(evs, i - 1), evs[i - 1])
    }
}

/// The plain text of a text's markdown event stream.
pub open spec fn md_clean_spec(text: Seq<char>) -> Seq<char> {
    md_fold(md_events_of(text), md_events_of(text).len() as int).cleaned
}

/// The irregular-markdown event count of a text's event stream.
pub open spec fn md_irregular_spec(text: Seq<char>) -> int {
    md_fold(md_events_of(text), md_events_of(text).len() as int).irregular
}

/// Parses `text` as Markdown and returns the plain text outside code blocks
/// (with breaks turned into spaces) and the irregular-markdown event count.
pub fn markdown_scan(text: &str) -> (r: (Vec<char>, usize))
    ensures
        r.0@ == md_clean_spec(text@),
        r.1 == md_irregular_spec(text@),
{
    let events = markdown_events(text);
    let n = events.len();
    let ghost toks = md_events_of(text@);
    proof {
        assert(toks.len() == n);
    }
    let mut cleaned: Vec<char> = Vec::new();
    let mut in_code: bool = false;
    let mut irregular: usize = 0;
    let mut i: usize = 0;
    while i < n
        invariant
            i <= n == events@.len(),
            toks == md_views(events@),
            toks == md_events_of(text@),
            irregular <= i,
            md_fold(toks, i as int) == (MdState {
                cleaned: cleaned@,
                in_code,
                irregular: irregular as int,
            }),
        decreases n - i,
    {
        proof {
            assert(toks[i as int] == events@[i as int]@);
        }
        match &events[i] {
            MdEvent::Irregular => {
                irregular += 1;
            },
            MdEvent::CodeStart => {
                in_code = true;
            },
            MdEvent::CodeEnd => {
                in_code = false;
            },
            MdEvent::Text(t) => {
                if !in_code {
                    let ghost before = cleaned@;
                    let mut k: usize = 0;
                    while k < t.len()
                        invariant
                            k <= t@.len(),
                            cleaned@ == before + t@.take(k as int),
                        decreases t@.len() - k,
                    {
                        cleaned.push(t[k]);
                        proof {
                            assert(before + t@.take(k + 1) =~= (before + t@.take(k as int)).push(
                                t@[k as int],
                            ));
                        }
                        k += 1;
                    }
                    proof {
                        assert(t@.take(t@.len() as int) =~= t@);
                    }
                }
            },
            MdEvent::Break => {
                if !in_code {
                    cleaned.push(' ');
                }
            },
            MdEvent::Other => {},
        }
        i += 1;
    }
    (cleaned, irregular)
}

} // verus!
