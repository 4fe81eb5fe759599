//! Verified scans over cleaned text: sentence segmentation, label-line
//! detection and hashtag counting.
use vstd::prelude::*;
use crate::chars::{
    alpha_char, is_alpha, is_noncap_start, is_space, is_terminator, noncap_start_char, space_char,
    terminator_char,
};
use crate::text::{subvec, trim_chars, trim_spec};

verus! {

/// State of the sentence scan after some prefix of the text.
pub struct SentState {
    /// Whether the current segment holds a non-whitespace character.
    pub seen: bool,
    /// The first non-whitespace character of the current segment.
    pub first: char,
    /// Closed segments that were not whitespace-only.
    pub count: int,
    /// Closed segments whose first character is a lowercase ASCII letter.
    pub noncap: int,
}

pub open spec fn sent_init() -> SentState {
    SentState { seen: false, first: ' ', count: 0, noncap: 0 }
}

pub open spec fn sent_step(st: SentState, c: char) -> SentState {
    if is_terminator(c) {
        SentState {
            seen: false,
            first: ' ',
            count: st.count + if st.seen { 1int } else { 0int },
            noncap: st.noncap + if st.seen && is_noncap_start(st.first) { 1int } else { 0int },
        }
    } else if !is_space(c) && !st.seen {
        SentState { seen: true, first: c, count: st.count, noncap: st.noncap }
    } else {
        st
    }
}

pub open spec fn sent_scan(s: Seq<char>, i: int) -> SentState
    decreases i,
{
    if i <= 0 {
        sent_init()
    } else {
        sent_step(sent_scan(s, i - 1), s[i - 1])
    }
}

/// Segment counts once the end of the text closes the last segment.
pub open spec fn sent_flush(st: SentState) -> SentState {
    SentState {
        seen: false,
        first: ' ',
        count: st.count + if st.seen { 1int } else { 0int },
        noncap: st.noncap + if st.seen && is_noncap_start(st.first) { 1int } else { 0int },
    }
}

/// The number of non-empty sentence segments of `s`, floored to 1.
pub open spec fn sentence_count_spec(s: Seq<char>) -> int {
    let raw = sent_flush(sent_scan(s, s.len() as int)).count;
    if raw >= 1 {
        raw
    } else {
        1
    }
}

/// The number of non-empty sentence segments of `s` that open with a
/// lowercase ASCII letter: an ASCII letter that is not uppercase.
pub open spec fn noncap_count_spec(s: Seq<char>) -> int {
    sent_flush(sent_scan(s, s.len() as int)).noncap
}

/// Splits `v` on sentence terminators and returns the count of non-empty
/// segments (floored to 1) and the count of those whose first character is an
/// ASCII letter that is not uppercase.
pub fn sentence_scan(v: &Vec<char>) -> (r: (usize, usize))
    ensures
        r.0 == sentence_count_spec(v@),
        r.1 == noncap_count_spec(v@),
        r.0 >= 1,
{
    let n = v.len();
    let mut seen: bool = false;
    let mut first: char = ' ';
    let mut count: usize = 0;
    let mut noncap: usize = 0;
    let mut i: usize = 0;
    while i < n
        invariant
            i <= n == v@.len(),
            sent_scan(v@, i as int) == (SentState {
                seen,
                first,
                count: count as int,
                noncap: noncap as int,
            }),
            2 * count + (if seen { 1int } else { 0int }) <= i,
            noncap <= count,
        decreases n - i,
    {
        let c = v[i];
        if terminator_char(c) {
            if seen {
                if noncap_start_char(first) {
                    noncap += 1;
                }
                count += 1;
            }
            seen = false;
            first = ' ';
        } else if !space_char(c) && !seen {
            seen = true;
            first = c;
        }
        i += 1;
    }
    let raw = if seen {
        if noncap_start_char(first) {
            noncap += 1;
        }
        count + 1
    } else {
        count
    };
    if raw == 0 {
        (1, noncap)
    } else {
        (raw, noncap)
    }
}

/// Index of the first occurrence of `c` in `s`, or `s.len()` if absent.
pub open spec fn find_in(s: Seq<char>, c: char) -> int
    decreases s.len(),
{
    if s.len() == 0 {
        0
    } else if s[0] == c {
        0
    } else {
        1 + find_in(s.drop_first(), c)
    }
}

pub proof fn lemma_find_in(s: Seq<char>, c: char)
    ensures
        0 <= find_in(s, c) <= s.len(),
        find_in(s, c) < s.len() ==> s[find_in(s, c)] == c,
        forall|k: int| 0 <= k < find_in(s, c) ==> s[k] != c,
    decreases s.len(),
{
    if s.len() > 0 && s[0] != c {
        lemma_find_in(s.drop_first(), c);
        assert forall|k: int| 0 <= k < find_in(s, c) implies s[k] != c by {
            if k >= 1 {
                assert(s.drop_first()[k - 1] == s[k]);
            }
        }
    }
}

/// A position with no earlier occurrence that holds `c` (or is the end) is
/// exactly where `find_in` points.
pub proof fn lemma_find_in_unique(s: Seq<char>, c: char, j: int)
    requires
        0 <= j <= s.len(),
        forall|k: int| 0 <= k < j ==> s[k] != c,
        j < s.len() ==> s[j] == c,
    ensures
        find_in(s, c) == j,
    decreases s.len(),
{
    if s.len() > 0 && s[0] != c {
        let t = s.drop_first();
        assert(forall|k: int| 0 <= k < j - 1 ==> t[k] != c);
        lemma_find_in_unique(t, c, j - 1);
    }
}

/// Every character of `s` is whitespace.
pub open spec fn all_space(s: Seq<char>) -> bool {
    forall|k: int| 0 <= k < s.len() ==> is_space(s[k])
}

/// Every character of `s` is alphabetic or whitespace.
pub open spec fn alpha_space_only(s: Seq<char>) -> bool {
    forall|k: int| 0 <= k < s.len() ==> is_alpha(s[k]) || is_space(s[k])
}

pub open spec fn http_chars() -> Seq<char> {
    seq!['h', 't', 't', 'p']
}

pub open spec fn https_chars() -> Seq<char> {
    seq!['h', 't', 't', 'p', 's']
}

/// Whether a line is a label heading: one colon with only whitespace after it,
/// and a non-empty, purely alphabetic-or-whitespace name before it that is not
/// a URL scheme.
pub open spec fn is_label_line(line: Seq<char>) -> bool {
    let j = find_in(line, ':');
    if 0 <= j < line.len() {
        let before = trim_spec(line.take(j));
        all_space(line.skip(j + 1)) && before.len() > 0 && alpha_space_only(before) && before
            != http_chars() && before != https_chars()
    } else {
        false
    }
}

pub open spec fn label_val(line: Seq<char>) -> int {
    if is_label_line(line) {
        1
    } else {
        0
    }
}

/// The number of label lines among the newline-separated lines of `s`.
pub open spec fn labels_spec(s: Seq<char>) -> int
    decreases s.len(),
{
    let e = find_in(s, '\n');
    if 0 <= e < s.len() {
        label_val(s.take(e)) + labels_spec(s.skip(e + 1))
    } else {
        label_val(s)
    }
}

/// Decides [`is_label_line`] for one line.
pub fn line_label(line: &Vec<char>) -> (r: bool)
    ensures
        r == is_label_line(line@),
{
    let n = line.len();
    let mut j: usize = 0;
    while j < n && line[j] != ':'
        invariant
            j <= n == line@.len(),
            forall|k: int| 0 <= k < j ==> line@[k] != ':',
        decreases n - j,
    {
        j += 1;
    }
    proof {
        lemma_find_in_unique(line@, ':', j as int);
    }
    if j == n {
        return false;
    }
    let mut k: usize = j + 1;
    while k < n
        invariant
            j < k <= n == line@.len(),
            find_in(line@, ':') == j as int,
            forall|t: int| j < t < k ==> is_space(line@[t]),
        decreases n - k,
    {
        if !space_char(line[k]) {
            proof {
                assert(line@.skip(j + 1)[k - j - 1] == line@[k as int]);
            }
            return false;
        }
        k += 1;
    }
    proof {
        assert(forall|t: int| 0 <= t < line@.skip(j + 1).len() ==> is_space(
            #[trigger] line@.skip(j + 1)[t],
        ));
    }
    let head = subvec(line, 0, j);
    proof {
        assert(head@ =~= line@.take(j as int));
    }
    let before = trim_chars(&head);
    let m = before.len();
    if m == 0 {
        return false;
    }
    let mut t: usize = 0;
    while t < m
        invariant
            t <= m == before@.len(),
            m >= 1,
            j < n == line@.len(),
            find_in(line@, ':') == j as int,
            before@ == trim_spec(line@.take(j as int)),
            all_space(line@.skip(j + 1)),
            forall|k2: int| 0 <= k2 < t ==> is_alpha(before@[k2]) || is_space(before@[k2]),
        decreases m - t,
    {
        if !alpha_char(before[t]) && !space_char(before[t]) {
            return false;
        }
        t += 1;
    }
    if m == 4 && before[0] == 'h' && before[1] == 't' && before[2] == 't' && before[3] == 'p' {
        proof {
            assert(before@ =~= http_chars());
        }
        return false;
    }
    if m == 5 && before[0] == 'h' && before[1] == 't' && before[2] == 't' && before[3] == 'p'
        && before[4] == 's' {
        proof {
            assert(before@ =~= https_chars());
        }
        return false;
    }
    proof {
        if before@ == http_chars() {
            assert(before@.len() == 4);
            assert(before@[0] == 'h' && before@[1] == 't' && before@[2] == 't' && before@[3]
                == 'p');
        }
        if before@ == https_chars() {
            assert(before@.len() == 5);
        }
    }
    true
}

/// Counts the label lines of `v`.
pub fn count_labels(v: &Vec<char>) -> (r: usize)
    ensures
        r == labels_spec(v@),
{
    let n = v.len();
    let mut pos: usize = 0;
    let mut count: usize = 0;
    proof {
        assert(v@.skip(0) =~= v@);
    }
    loop
        invariant
            pos <= n == v@.len(),
            count <= pos,
            labels_spec(v@) == count + labels_spec(v@.skip(pos as int)),
        decreases n - pos,
    {
        if pos >= n {
            proof {
                assert(v@.skip(pos as int) =~= Seq::<char>::empty());
                lemma_find_in(Seq::<char>::empty(), '\n');
                assert(labels_spec(Seq::<char>::empty()) == label_val(Seq::<char>::empty()));
                lemma_find_in(Seq::<char>::empty(), ':');
            }
            return count;
        }
        let ghost rest = v@.skip(pos as int);
        let mut e: usize = pos;
        while e < n && v[e] != '\n'
            invariant
                pos <= e <= n == v@.len(),
                forall|k: int| pos <= k < e ==> v@[k] != '\n',
            decreases n - e,
        {
            e += 1;
        }
        proof {
            assert(forall|k: int| 0 <= k < e - pos ==> rest[k] == v@[pos + k] && v@[pos + k]
                != '\n');
            lemma_find_in_unique(rest, '\n', e - pos);
        }
        let line = subvec(v, pos, e);
        proof {
            assert(line@ =~= rest.take(e - pos));
        }
        let lab = line_label(&line);
        if e == n {
            proof {
                assert(rest.take(e - pos) =~= rest);
            }
            if lab {
                return count + 1;
            }
            return count;
        }
        proof {
            assert(rest.skip(e - pos + 1) =~= v@.skip(e + 1));
        }
        if lab {
            count += 1;
        }
        pos = e + 1;
    }
}

/// State of the hashtag scan after some prefix of the text.
pub struct TagState {
    /// Whether the scan is inside a whitespace-separated token.
    pub in_word: bool,
    /// Whether the current token opened with `#`.
    pub hash: bool,
    /// Whether the current token has at least two characters.
    pub two: bool,
    /// Closed tokens that opened with `#` and had at least two characters.
    pub count: int,
}

pub open spec fn tag_init() -> TagState {
    TagState { in_word: false, hash: false, two: false, count: 0 }
}

pub open spec fn tag_step(st: TagState, c: char) -> TagState {
    if is_space(c) {
        TagState {
            in_word: false,
            hash: false,
            two: false,
            count: st.count + if st.in_word && st.hash && st.two { 1int } else { 0int },
        }
    } else if !st.in_word {
        TagState { in_word: true, hash: c == '#', two: false, count: st.count }
    } else {
        TagState { in_word: st.in_word, hash: st.hash, two: true, count: st.count }
    }
}

pub open spec fn tag_scan(s: Seq<char>, i: int) -> TagState
    decreases i,
{
    if i <= 0 {
        tag_init()
    } else {
        tag_step(tag_scan(s, i - 1), s[i - 1])
    }
}

/// The number of whitespace-separated tokens of `s` that start with `#` and
/// are longer than one character.
pub open spec fn hashtags_spec(s: Seq<char>) -> int {
    let st = tag_scan(s, s.len() as int);
    st.count + if st.in_word && st.hash && st.two {
        1int
    } else {
        0int
    }
}

pub open spec fn tag_weight(st: TagState) -> int {
    if st.in_word && st.two {
        2
    } else if st.in_word {
        1
    } else {
        0
    }
}

/// Counts the hashtag tokens of `v`.
pub fn count_hashtags(v: &Vec<char>) -> (r: usize)
    ensures
        r == hashtags_spec(v@),
{
    let n = v.len();
    let mut in_word: bool = false;
    let mut hash: bool = false;
    let mut two: bool = false;
    let mut count: usize = 0;
    let mut i: usize = 0;
    while i < n
        invariant
            i <= n == v@.len(),
            tag_scan(v@, i as int) == (TagState { in_word, hash, two, count: count as int }),
            2 * count + tag_weight(tag_scan(v@, i as int)) <= i,
        decreases n - i,
    {
        let c = v[i];
        if space_char(c) {
            if in_word && hash && two {
                count += 1;
            }
            in_word = false;
            hash = false;
            two = false;
        } else if !in_word {
            in_word = true;
            hash = c == '#';
            two = false;
        } else {
            two = true;
        }
        i += 1;
    }
    if in_word && hash && two {
        count += 1;
    }
    count
}

} // verus!
