//! Verified text transformations: trimming, case folding, pattern counting,
//! pattern removal and pair collapsing over character sequences.
use vstd::prelude::*;
use crate::chars::{is_space, lower_char, lower_char_exec, space_char};

verus! {

/// A copy of `v[from..to]`.
pub fn subvec(v: &Vec<char>, from: usize, to: usize) -> (r: Vec<char>)
    requires
        from <= to <= v@.len(),
    ensures
        r@ == v@.subrange(from as int, to as int),
{
    let mut r: Vec<char> = Vec::new();
    let mut i = from;
    while i < to
        invariant
            from <= i <= to <= v@.len(),
            r@ == v@.subrange(from as int, i as int),
        decreases to - i,
    {
        r.push(v[i]);
        proof {
            assert(r@ =~= v@.subrange(from as int, i + 1));
        }
        i += 1;
    }
    r
}

/// Whether `pat` occurs in `v` at position `i`.
pub fn match_at(v: &Vec<char>, pat: &Vec<char>, i: usize) -> (r: bool)
    requires
        i + pat@.len() <= v@.len(),
    ensures
        r == (v@.subrange(i as int, i + pat@.len()) == pat@),
{
    let n = v.len();
    let mut j: usize = 0;
    while j < pat.len()
        invariant
            j <= pat@.len(),
            i + pat@.len() <= v@.len() == n,
            forall|k: int| 0 <= k < j ==> v@[i + k] == pat@[k],
        decreases pat@.len() - j,
    {
        if v[i + j] != pat[j] {
            proof {
                assert(v@.subrange(i as int, i + pat@.len())[j as int] != pat@[j as int]);
            }
            return false;
        }
        j += 1;
    }
    proof {
        assert(v@.subrange(i as int, i + pat@.len()) =~= pat@);
    }
    true
}

/// Count of non-overlapping, leftmost occurrences of `pat` in `s`.
pub open spec fn count_pat(s: Seq<char>, pat: Seq<char>) -> int
    decreases s.len(),
{
    if pat.len() == 0 || s.len() < pat.len() {
        0
    } else if s.take(pat.len() as int) == pat {
        1 + count_pat(s.skip(pat.len() as int), pat)
    } else {
        count_pat(s.skip(1), pat)
    }
}

/// Counts the non-overlapping, leftmost occurrences of `pat` in `v`.
pub fn count_pattern(v: &Vec<char>, pat: &Vec<char>) -> (r: usize)
    requires
        pat@.len() >= 1,
    ensures
        r == count_pat(v@, pat@),
{
    let m = pat.len();
    let mut count: usize = 0;
    let mut i: usize = 0;
    proof {
        assert(v@.skip(0) =~= v@);
    }
    while m <= v.len() && i <= v.len() - m
        invariant
            m == pat@.len() >= 1,
            i <= v@.len(),
            count <= i,
            count_pat(v@, pat@) == count + count_pat(v@.skip(i as int), pat@),
        decreases v@.len() - i,
    {
        let ghost rest = v@.skip(i as int);
        proof {
            assert(rest.take(m as int) =~= v@.subrange(i as int, i + m));
        }
        if match_at(v, pat, i) {
            proof {
                assert(rest.skip(m as int) =~= v@.skip(i + m));
            }
            count += 1;
            i += m;
        } else {
            proof {
                assert(rest.skip(1) =~= v@.skip(i + 1));
            }
            i += 1;
        }
    }
    proof {
        assert(count_pat(v@.skip(i as int), pat@) == 0);
    }
    count
}

/// `s` with every non-overlapping, leftmost occurrence of `pat` removed.
pub open spec fn remove_pat(s: Seq<char>, pat: Seq<char>) -> Seq<char>
    decreases s.len(),
{
    if pat.len() == 0 || s.len() < pat.len() {
        s
    } else if s.take(pat.len() as int) == pat {
        remove_pat(s.skip(pat.len() as int), pat)
    } else {
        seq![s[0]] + remove_pat(s.skip(1), pat)
    }
}

/// Removes every non-overlapping, leftmost occurrence of `pat` from `v`.
pub fn remove_all(v: &Vec<char>, pat: &Vec<char>) -> (r: Vec<char>)
    requires
        pat@.len() >= 1,
    ensures
        r@ == remove_pat(v@, pat@),
{
    let m = pat.len();
    let mut out: Vec<char> = Vec::new();
    let mut i: usize = 0;
    proof {
        assert(v@.skip(0) =~= v@);
    }
    while m <= v.len() && i <= v.len() - m
        invariant
            m == pat@.len() >= 1,
            i <= v@.len(),
            remove_pat(v@, pat@) == out@ + remove_pat(v@.skip(i as int), pat@),
        decreases v@.len() - i,
    {
        let ghost rest = v@.skip(i as int);
        proof {
            assert(rest.take(m as int) =~= v@.subrange(i as int, i + m));
        }
        if match_at(v, pat, i) {
            proof {
                assert(rest.skip(m as int) =~= v@.skip(i + m));
            }
            i += m;
        } else {
            proof {
                assert(rest.skip(1) =~= v@.skip(i + 1));
                assert(rest[0] == v@[i as int]);
                assert(out@ + (seq![v@[i as int]] + remove_pat(v@.skip(i + 1), pat@)) =~= (out@
                    + seq![v@[i as int]]) + remove_pat(v@.skip(i + 1), pat@));
            }
            out.push(v[i]);
            i += 1;
        }
    }
    while i < v.len()
        invariant
            i <= v@.len(),
            v@.len() < i + m,
            m == pat@.len() >= 1,
            remove_pat(v@, pat@) == out@ + remove_pat(v@.skip(i as int), pat@),
        decreases v@.len() - i,
    {
        proof {
            let rest = v@.skip(i as int);
            assert(rest.len() < m);
            assert(remove_pat(rest, pat@) == rest);
            assert(rest.skip(1) =~= v@.skip(i + 1));
            assert(remove_pat(v@.skip(i + 1), pat@) == v@.skip(i + 1));
            assert(out@ + rest =~= (out@ + seq![v@[i as int]]) + v@.skip(i + 1));
        }
        out.push(v[i]);
        i += 1;
    }
    proof {
        assert(v@.skip(i as int) =~= Seq::<char>::empty());
        assert(remove_pat(Seq::<char>::empty(), pat@) == Seq::<char>::empty());
        assert(out@ + Seq::<char>::empty() =~= out@);
    }
    out
}

/// `s` with every non-overlapping, leftmost doubled `c` collapsed to one `c`.
pub open spec fn collapse_pair(s: Seq<char>, c: char) -> Seq<char>
    decreases s.len(),
{
    if s.len() < 2 {
        s
    } else if s[0] == c && s[1] == c {
        seq![c] + collapse_pair(s.skip(2), c)
    } else {
        seq![s[0]] + collapse_pair(s.skip(1), c)
    }
}

/// Collapses every non-overlapping, leftmost doubled `c` in `v` to one `c`.
pub fn collapse_pair_exec(v: &Vec<char>, c: char) -> (r: Vec<char>)
    ensures
        r@ == collapse_pair(v@, c),
{
    let mut out: Vec<char> = Vec::new();
    let mut i: usize = 0;
    proof {
        assert(v@.skip(0) =~= v@);
    }
    while 2 <= v.len() && i <= v.len() - 2
        invariant
            i <= v@.len(),
            collapse_pair(v@, c) == out@ + collapse_pair(v@.skip(i as int), c),
        decreases v@.len() - i,
    {
        let ghost rest = v@.skip(i as int);
        proof {
            assert(rest[0] == v@[i as int]);
            assert(rest[1] == v@[i + 1]);
        }
        if v[i] == c && v[i + 1] == c {
            proof {
                assert(rest.skip(2) =~= v@.skip(i + 2));
                assert(out@ + (seq![c] + collapse_pair(v@.skip(i + 2), c)) =~= (out@ + seq![c])
                    + collapse_pair(v@.skip(i + 2), c));
            }
            out.push(c);
            i += 2;
        } else {
            proof {
                assert(rest.skip(1) =~= v@.skip(i + 1));
                assert(out@ + (seq![v@[i as int]] + collapse_pair(v@.skip(i + 1), c)) =~= (out@
                    + seq![v@[i as int]]) + collapse_pair(v@.skip(i + 1), c));
            }
            out.push(v[i]);
            i += 1;
        }
    }
    while i < v.len()
        invariant
            i <= v@.len(),
            v@.len() < i + 2,
            collapse_pair(v@, c) == out@ + collapse_pair(v@.skip(i as int), c),
        decreases v@.len() - i,
    {
        proof {
            let rest = v@.skip(i as int);
            assert(rest.len() < 2);
            assert(rest.skip(1) =~= v@.skip(i + 1));
            assert(out@ + rest =~= (out@ + seq![v@[i as int]]) + v@.skip(i + 1));
        }
        out.push(v[i]);
        i += 1;
    }
    proof {
        assert(v@.skip(i as int) =~= Seq::<char>::empty());
        assert(out@ + Seq::<char>::empty() =~= out@);
    }
    out
}

/// `s` with every character ASCII-lowercased.
pub open spec fn lower_seq(s: Seq<char>) -> Seq<char> {
    s.map_values(|c: char| lower_char(c))
}

/// ASCII-lowercases every character of `v`.
pub fn to_ascii_lower(v: &Vec<char>) -> (r: Vec<char>)
    ensures
        r@ == lower_seq(v@),
{
    let mut out: Vec<char> = Vec::new();
    let mut i: usize = 0;
    while i < v.len()
        invariant
            i <= v@.len(),
            out@.len() == i,
            forall|k: int| 0 <= k < i ==> out@[k] == lower_char(v@[k]),
        decreases v@.len() - i,
    {
        out.push(lower_char_exec(v[i]));
        i += 1;
    }
    proof {
        assert(out@ =~= lower_seq(v@));
    }
    out
}

/// `s` with every newline replaced by a space.
pub open spec fn newlines_to_spaces(s: Seq<char>) -> Seq<char> {
    s.map_values(|c: char| if c == '\n' { ' ' } else { c })
}

/// Replaces every newline in `v` by a space.
pub fn replace_newlines(v: &Vec<char>) -> (r: Vec<char>)
    ensures
        r@ == newlines_to_spaces(v@),
{
    let mut out: Vec<char> = Vec::new();
    let mut i: usize = 0;
    while i < v.len()
        invariant
            i <= v@.len(),
            out@.len() == i,
            forall|k: int| 0 <= k < i ==> out@[k] == (if v@[k] == '\n' { ' ' } else { v@[k] }),
        decreases v@.len() - i,
    {
        if v[i] == '\n' {
            out.push(' ');
        } else {
            out.push(v[i]);
        }
        i += 1;
    }
    proof {
        assert(out@ =~= newlines_to_spaces(v@));
    }
    out
}

/// `s` without leading and trailing whitespace.
pub open spec fn trim_spec(s: Seq<char>) -> Seq<char>
    decreases s.len(),
{
    if s.len() == 0 {
        s
    } else if is_space(s[0]) {
        trim_spec(s.drop_first())
    } else if is_space(s.last()) {
        trim_spec(s.drop_last())
    } else {
        s
    }
}

proof fn lemma_trim_all_space(s: Seq<char>)
    requires
        forall|k: int| 0 <= k < s.len() ==> is_space(s[k]),
    ensures
        trim_spec(s) == Seq::<char>::empty(),
    decreases s.len(),
{
    if s.len() == 0 {
        assert(s =~= Seq::<char>::empty());
    } else {
        lemma_trim_all_space(s.drop_first());
    }
}

proof fn lemma_trim_window(s: Seq<char>, a: int, b: int)
    requires
        0 <= a <= b < s.len(),
        forall|k: int| 0 <= k < a ==> is_space(s[k]),
        forall|k: int| b < k < s.len() ==> is_space(s[k]),
        !is_space(s[a]),
        !is_space(s[b]),
    ensures
        trim_spec(s) == s.subrange(a, b + 1),
    decreases s.len(),
{
    if a > 0 {
        let t = s.drop_first();
        lemma_trim_window(t, a - 1, b - 1);
        assert(t.subrange(a - 1, b) =~= s.subrange(a, b + 1));
    } else if b < s.len() - 1 {
        let t = s.drop_last();
        lemma_trim_window(t, a, b);
        assert(t.subrange(a, b + 1) =~= s.subrange(a, b + 1));
    } else {
        assert(s.subrange(0, s.len() as int) =~= s);
    }
}

/// Removes leading and trailing whitespace from `v`.
pub fn trim_chars(v: &Vec<char>) -> (r: Vec<char>)
    ensures
        r@ == trim_spec(v@),
{
    let n = v.len();
    let mut a: usize = 0;
    while a < n && space_char(v[a])
        invariant
            a <= n == v@.len(),
            forall|k: int| 0 <= k < a ==> is_space(v@[k]),
        decreases n - a,
    {
        a += 1;
    }
    if a == n {
        proof {
            lemma_trim_all_space(v@);
        }
        let r: Vec<char> = Vec::new();
        return r;
    }
    let mut b: usize = n - 1;
    while b > a && space_char(v[b])
        invariant
            a <= b < n == v@.len(),
            !is_space(v@[a as int]),
            forall|k: int| b < k < n ==> is_space(v@[k]),
        decreases b,
    {
        b -= 1;
    }
    proof {
        lemma_trim_window(v@, a as int, b as int);
    }
    subvec(v, a, b + 1)
}

/// Whether the text ends with a comma.
pub open spec fn ends_with_comma(s: Seq<char>) -> bool {
    s.len() > 0 && s.last() == ','
}

/// Executable test for [`ends_with_comma`].
pub fn ends_with_comma_exec(v: &Vec<char>) -> (r: bool)
    ensures
        r == ends_with_comma(v@),
{
    v.len() > 0 && v[v.len() - 1] == ','
}

} // verus!
