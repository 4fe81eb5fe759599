//! The training-corpus sources: one page of projects or devlogs, and the
//! boilerplate stripping that turns them into training texts.
//!
//! Fetching the pages is the host's work; the functions here decide, from the
//! fetched records alone, which texts enter the corpus and in what form.
use vstd::prelude::*;
use crate::chars::{chars_of, string_from_chars};
use crate::net::Pagination;
use crate::text::{remove_all, remove_pat, trim_chars, trim_spec};

verus! {

/// One devlog entry.
#[derive(Clone, Debug, PartialEq, Eq)]
pub struct Devlog {
    pub body: String,
}

/// One page of devlog entries.
#[derive(Clone, Debug, PartialEq, Eq)]
pub struct Devlogs {
    pub devlogs: Vec<Devlog>,
    pub pagination: Pagination,
}

/// One project entry.
#[derive(Clone, Debug, PartialEq, Eq)]
pub struct Project {
    pub description: String,
}

/// One page of project entries.
#[derive(Clone, Debug, PartialEq, Eq)]
pub struct Projects {
    pub projects: Vec<Project>,
    pub pagination: Pagination,
}

impl Devlogs {
    /// The entries of this page.
    pub fn page(self) -> (r: Vec<Devlog>)
        ensures
            r == self.devlogs,
    {
        self.devlogs
    }

    /// The pagination header of this page.
    pub fn pagination(&self) -> (r: &Pagination)
        ensures
            r == self.pagination,
    {
        &self.pagination
    }
}

impl Projects {
    /// The entries of this page.
    pub fn page(self) -> (r: Vec<Project>)
        ensures
            r == self.projects,
    {
        self.projects
    }

    /// The pagination header of this page.
    pub fn pagination(&self) -> (r: &Pagination)
        ensures
            r == self.pagination,
    {
        &self.pagination
    }
}

/// A project description with the onboarding boilerplate removed and
/// whitespace trimmed.
pub open spec fn clean_description_spec(s: Seq<char>) -> Seq<char> {
    trim_spec(
        remove_pat(
            remove_pat(
                remove_pat(s, "This is my first project on Flavortown."@),
                "Im excited to share my progress!"@,
            ),
            "I'm excited to share my progress!"@,
        ),
    )
}

/// A devlog body with the onboarding boilerplate removed and whitespace
/// trimmed.
pub open spec fn clean_body_spec(s: Seq<char>) -> Seq<char> {
    trim_spec(
        remove_pat(
            s,
            "I'm working on my first project! This is so exciting. I can't wait to share more updates as I build."@,
        ),
    )
}

/// Strips the onboarding boilerplate from a project description; a description
/// that is empty afterwards is dropped.
pub fn clean_description(desc: &str) -> (r: Option<String>)
    ensures
        clean_description_spec(desc@).len() == 0 ==> r is None,
        clean_description_spec(desc@).len() > 0 ==> (r matches Some(t) && t@
            == clean_description_spec(desc@)),
{
    proof {
        reveal_strlit("This is my first project on Flavortown.");
        reveal_strlit("Im excited to share my progress!");
        reveal_strlit("I'm excited to share my progress!");
    }
    let v = chars_of(desc);
    let p1 = chars_of("This is my first project on Flavortown.");
    let p2 = chars_of("Im excited to share my progress!");
    let p3 = chars_of("I'm excited to share my progress!");
    let cleaned = trim_chars(&remove_all(&remove_all(&remove_all(&v, &p1), &p2), &p3));
    if cleaned.len() == 0 {
        None
    } else {
        Some(string_from_chars(&cleaned))
    }
}

/// Strips the onboarding boilerplate from a devlog body; a body that is empty
/// afterwards is dropped.
pub fn clean_body(body: &str) -> (r: Option<String>)
    ensures
        clean_body_spec(body@).len() == 0 ==> r is None,
        clean_body_spec(body@).len() > 0 ==> (r matches Some(t) && t@ == clean_body_spec(body@)),
{
    proof {
        reveal_strlit(
            "I'm working on my first project! This is so exciting. I can't wait to share more updates as I build.",
        );
    }
    let v = chars_of(body);
    let p = chars_of(
        "I'm working on my first project! This is so exciting. I can't wait to share more updates as I build.",
    );
    let cleaned = trim_chars(&remove_all(&v, &p));
    if cleaned.len() == 0 {
        None
    } else {
        Some(string_from_chars(&cleaned))
    }
}

/// The corpus texts of a batch of project descriptions: each cleaned, the
/// empty ones dropped, order kept.
pub open spec fn description_texts(ds: Seq<Seq<char>>, i: int) -> Seq<Seq<char>>
    decreases i,
{
    if i <= 0 {
        Seq::empty()
    } else {
        description_texts(ds, i - 1) + if clean_description_spec(ds[i - 1]).len() > 0 {
            seq![clean_description_spec(ds[i - 1])]
        } else {
            Seq::empty()
        }
    }
}

/// The corpus texts of a batch of devlog bodies: each cleaned, the empty ones
/// dropped, order kept.
pub open spec fn body_texts(bs: Seq<Seq<char>>, i: int) -> Seq<Seq<char>>
    decreases i,
{
    if i <= 0 {
        Seq::empty()
    } else {
        body_texts(bs, i - 1) + if clean_body_spec(bs[i - 1]).len() > 0 {
            seq![clean_body_spec(bs[i - 1])]
        } else {
            Seq::empty()
        }
    }
}

/// The views of the fetched project descriptions.
pub open spec fn description_views(ps: Seq<Project>) -> Seq<Seq<char>> {
    ps.map_values(|p: Project| p.description@)
}

/// The views of the fetched devlog bodies.
pub open spec fn body_views(ds: Seq<Devlog>) -> Seq<Seq<char>> {
    ds.map_values(|d: Devlog| d.body@)
}

/// Builds the training corpus from the fetched projects and devlogs: every
/// cleaned, non-empty description, then every cleaned, non-empty body.
pub fn corpus_texts(projects: &Vec<Project>, devlogs: &Vec<Devlog>) -> (r: Vec<String>)
    ensures
        r@.map_values(|t: String| t@) == description_texts(
            description_views(projects@),
            projects@.len() as int,
        ) + body_texts(body_views(devlogs@), devlogs@.len() as int),
{
    let ghost dviews = description_views(projects@);
    let ghost bviews = body_views(devlogs@);
    let mut r: Vec<String> = Vec::new();
    let mut i: usize = 0;
    while i < projects.len()
        invariant
            i <= projects@.len(),
            dviews == description_views(projects@),
            r@.map_values(|t: String| t@) == description_texts(dviews, i as int),
        decreases projects@.len() - i,
    {
        proof {
            assert(dviews[i as int] == projects@[i as int].description@);
        }
        let ghost before = r@;
        match clean_description(projects[i].description.as_str()) {
            Some(t) => {
                r.push(t);
                proof {
                    assert(r@.map_values(|t: String| t@) =~= before.map_values(|t: String| t@)
                        + seq![clean_description_spec(dviews[i as int])]);
                }
            },
            None => {
                proof {
                    assert(description_texts(dviews, i + 1) =~= description_texts(
                        dviews,
                        i as int,
                    ));
                }
            },
        }
        i += 1;
    }
    let ghost half = r@.map_values(|t: String| t@);
    let mut j: usize = 0;
    while j < devlogs.len()
        invariant
            j <= devlogs@.len(),
            bviews == body_views(devlogs@),
            half == description_texts(dviews, projects@.len() as int),
            dviews == description_views(projects@),
            r@.map_values(|t: String| t@) == half + body_texts(bviews, j as int),
        decreases devlogs@.len() - j,
    {
        proof {
            assert(bviews[j as int] == devlogs@[j as int].body@);
        }
        let ghost before = r@;
        match clean_body(devlogs[j].body.as_str()) {
            Some(t) => {
                r.push(t);
                proof {
                    assert(r@.map_values(|t: String| t@) =~= before.map_values(|t: String| t@)
                        + seq![clean_body_spec(bviews[j as int])]);
                    assert(half + body_texts(bviews, j + 1) =~= (half + body_texts(bviews, j as int))
                        + seq![clean_body_spec(bviews[j as int])]);
                }
            },
            None => {
                proof {
                    assert(body_texts(bviews, j + 1) =~= body_texts(bviews, j as int));
                }
            },
        }
        j += 1;
    }
    proof {
        assert(body_texts(bviews, 0) =~= Seq::<Seq<char>>::empty());
        assert(half + Seq::<Seq<char>>::empty() =~= half);
    }
    r
}

} // verus!
