//! A line buffer for code generators, and wildcard matching of service names.

use vstd::prelude::*;
use crate::text::{chars_of, ends_with, join, join_seq, owned, starts_with, str_eq, string_of_range, views};

verus! {

/// Ergonomic code builder: generated source is collected line by line and
/// joined with `\n` at the end.
pub struct CodeBuf {
    lines: Vec<String>,
}

impl View for CodeBuf {
    type V = Seq<Seq<char>>;

    /// The lines collected so far, in order.
    closed spec fn view(&self) -> Seq<Seq<char>> {
        views(self.lines@)
    }
}

/// The text a buffer holding `lines` builds: the lines joined by newlines.
pub open spec fn build_lines(lines: Seq<Seq<char>>) -> Seq<char> {
    join_seq(lines, seq!['\n'])
}

impl CodeBuf {
    /// Creates an empty code buffer.
    pub fn new() -> (r: Self)
        ensures
            r@ == Seq::<Seq<char>>::empty(),
    {
        let r = CodeBuf { lines: Vec::new() };
        assert(r@ =~= Seq::<Seq<char>>::empty());
        r
    }

    /// Creates an empty code buffer with the given capacity hint.
    pub fn with_capacity(cap: usize) -> (r: Self)
        ensures
            r@ == Seq::<Seq<char>>::empty(),
    {
        let r = CodeBuf { lines: Vec::with_capacity(cap) };
        assert(r@ =~= Seq::<Seq<char>>::empty());
        r
    }

    /// Adds a line from an owned `String`.
    pub fn push(&mut self, s: String)
        ensures
            final(self)@ == old(self)@.push(s@),
    {
        self.lines.push(s);
        assert(self@ =~= old(self)@.push(s@));
    }

    /// Adds a literal line.
    pub fn l(&mut self, s: &str) -> (r: &mut Self)
        ensures
            *final(self) == *final(r),
            r@ == old(self)@.push(s@),
    {
        self.push(owned(s));
        self
    }

    /// Adds an already formatted line.
    pub fn f(&mut self, s: String) -> (r: &mut Self)
        ensures
            *final(self) == *final(r),
            r@ == old(self)@.push(s@),
    {
        self.push(s);
        self
    }

    /// Adds a blank line.
    pub fn b(&mut self) -> (r: &mut Self)
        ensures
            *final(self) == *final(r),
            r@ == old(self)@.push(Seq::<char>::empty()),
    {
        self.push(String::new());
        self
    }

    /// Appends all lines from another `CodeBuf`.
    pub fn extend(&mut self, other: CodeBuf) -> (r: &mut Self)
        ensures
            *final(self) == *final(r),
            r@ == old(self)@ + other@,
    {
        self.extend_vec(other.lines);
        self
    }

    /// Appends all strings from a `Vec<String>`.
    pub fn extend_vec(&mut self, v: Vec<String>)
        ensures
            final(self)@ == old(self)@ + views(v@),
    {
        let mut v = v;
        let ghost added = v@;
        self.lines.append(&mut v);
        assert(self@ =~= old(self)@ + views(added));
    }

    /// Returns `true` if no lines have been added.
    pub fn is_empty(&self) -> (r: bool)
        ensures
            r == (self@.len() == 0),
    {
        self.lines.len() == 0
    }

    /// Returns a mutable reference to the inner vector of lines.
    pub fn lines_mut(&mut self) -> (r: &mut Vec<String>)
        ensures
            views(r@) == old(self)@,
            final(self)@ == views(final(r)@),
    {
        &mut self.lines
    }

    /// Returns a mutable reference to the last line, if any.
    pub fn last_mut(&mut self) -> (r: Option<&mut String>)
        ensures
            old(self)@.len() == 0 ==> r is None && final(self)@ == old(self)@,
            old(self)@.len() > 0 ==> r is Some && (*r->0)@ == old(self)@.last() && final(self)@
                == old(self)@.drop_last().push((*final(r->0))@),
    {
        let n = self.lines.len();
        if n == 0 {
            None
        } else {
            Some(&mut self.lines[n - 1])
        }
    }

    /// Returns the number of lines.
    pub fn len(&self) -> (r: usize)
        ensures
            r == self@.len(),
    {
        self.lines.len()
    }

    /// Joins all lines with `\n` and returns the final string.
    pub fn build(self) -> (r: String)
        ensures
            r@ == build_lines(self@),
    {
        proof {
            reveal_strlit("\n");
        }
        let r = join(&self.lines, "\n");
        assert("\n"@ =~= seq!['\n']);
        r
    }
}

/// The position of the first `c` in `s`, if any.
pub open spec fn first_index_of(s: Seq<char>, c: char) -> Option<int>
    decreases s.len(),
{
    if s.len() == 0 {
        None
    } else if s[0] == c {
        Some(0)
    } else {
        match first_index_of(s.drop_first(), c) {
            Some(k) => Some(k + 1),
            None => None,
        }
    }
}

/// Whether `name` matches `pattern`, where every `*` stands for any
/// sequence of characters (possibly empty) and every other character stands
/// for itself.
pub open spec fn wildcard_matches(name: Seq<char>, pattern: Seq<char>) -> bool
    decreases pattern.len(), name.len(),
{
    if pattern.len() == 0 {
        name.len() == 0
    } else if pattern[0] == '*' {
        wildcard_matches(name, pattern.drop_first()) || (name.len() > 0 && wildcard_matches(
            name.drop_first(),
            pattern,
        ))
    } else {
        name.len() > 0 && name[0] == pattern[0] && wildcard_matches(name.drop_first(), pattern.drop_first())
    }
}

pub(crate) proof fn lemma_first_index_of(s: Seq<char>, c: char, k: int)
    requires
        0 <= k <= s.len(),
        forall|j: int| 0 <= j < k ==> s[j] != c,
    ensures
        k < s.len() && s[k] == c ==> first_index_of(s, c) == Some(k),
        k == s.len() ==> first_index_of(s, c) is None,
    decreases k,
{
    if k > 0 {
        lemma_first_index_of(s.drop_first(), c, k - 1);
    } else if s.len() > 0 {
    }
}

/// The matches of the suffixes `name[i..]` against every suffix of the
/// pattern: entry `j` says whether `name[i..]` matches `pattern[j..]`.
fn match_row(nv: &Vec<char>, pv: &Vec<char>, i: usize, next: &Vec<bool>) -> (cur: Vec<bool>)
    requires
        i <= nv@.len(),
        i < nv@.len() ==> next@.len() == pv@.len() + 1,
        i < nv@.len() ==> forall|j: int|
            0 <= j <= pv@.len() ==> next@[j] == wildcard_matches(nv@.skip(i + 1), pv@.skip(j)),
    ensures
        cur@.len() == pv@.len() + 1,
        forall|j: int| 0 <= j <= pv@.len() ==> cur@[j] == wildcard_matches(nv@.skip(i as int), pv@.skip(j)),
{
    let m = pv.len();
    let mut cur: Vec<bool> = Vec::new();
    let mut k: usize = 0;
    while k < m
        invariant
            m == pv@.len(),
            k <= m,
            cur@.len() == k,
        decreases m - k,
    {
        cur.push(false);
        k = k + 1;
    }
    cur.push(false);
    let ghost nm = nv@.skip(i as int);
    proof {
        if i < nv@.len() {
            assert(nm.drop_first() =~= nv@.skip(i + 1));
            assert(nm[0] == nv@[i as int]);
        }
    }
    assert(pv@.skip(m as int) =~= Seq::<char>::empty());
    let at_end = i == nv.len();
    cur.set(m, at_end);
    let mut j: usize = m;
    while j > 0
        invariant
            m == pv@.len(),
            i <= nv@.len(),
            nm == nv@.skip(i as int),
            at_end == (i == nv@.len()),
            i < nv@.len() ==> nm.drop_first() == nv@.skip(i + 1) && nm[0] == nv@[i as int],
            i < nv@.len() ==> next@.len() == pv@.len() + 1,
            i < nv@.len() ==> forall|jj: int|
                0 <= jj <= pv@.len() ==> next@[jj] == wildcard_matches(nv@.skip(i + 1), pv@.skip(jj)),
            j <= m,
            cur@.len() == m + 1,
            forall|jj: int| j <= jj <= m ==> cur@[jj] == wildcard_matches(nm, pv@.skip(jj)),
        decreases j,
    {
        let jj = j - 1;
        let ghost ps = pv@.skip(jj as int);
        assert(ps.drop_first() =~= pv@.skip(j as int));
        assert(ps[0] == pv@[jj as int]);
        let v = if pv[jj] == '*' {
            if at_end {
                cur[j]
            } else {
                cur[j] || next[jj]
            }
        } else if at_end {
            false
        } else {
            nv[i] == pv[jj] && next[j]
        };
        cur.set(jj, v);
        j = jj;
    }
    cur
}

/// Returns `true` if `name` matches the wildcard `pattern`.
///
/// Every `*` matches any sequence of characters: `"user*"` matches
/// `"user_admin"`, `"*admin"` matches `"user_admin"`, `"user*admin"` matches
/// `"user_super_admin"`, `"a*b*"` matches `"a_x_b_y"`, and `"user"` matches
/// only `"user"`.
pub fn matches_wildcard(name: &str, pattern: &str) -> (r: bool)
    ensures
        r == wildcard_matches(name@, pattern@),
{
    let nv = chars_of(name);
    let pv = chars_of(pattern);
    let n = nv.len();
    let empty: Vec<bool> = Vec::new();
    let mut row = match_row(&nv, &pv, n, &empty);
    let mut i: usize = n;
    while i > 0
        invariant
            n == nv@.len(),
            i <= n,
            row@.len() == pv@.len() + 1,
            forall|j: int| 0 <= j <= pv@.len() ==> row@[j] == wildcard_matches(nv@.skip(i as int), pv@.skip(j)),
        decreases i,
    {
        row = match_row(&nv, &pv, i - 1, &row);
        i = i - 1;
    }
    assert(nv@.skip(0) =~= name@);
    assert(pv@.skip(0) =~= pattern@);
    row[0]
}

/// Building after adding a line gives the text built before, then a line
/// break (unless there was nothing before), then the new line.
pub proof fn law_build_after_line(lines: Seq<Seq<char>>, s: Seq<char>)
    ensures
        build_lines(lines.push(s)) == if lines.len() == 0 {
            s
        } else {
            build_lines(lines) + seq!['\n'] + s
        },
{
    assert(lines.push(s).drop_last() =~= lines);
}

proof fn lemma_star_matches_all(name: Seq<char>)
    ensures
        wildcard_matches(name, seq!['*']),
    decreases name.len(),
{
    let s = seq!['*'];
    assert(s.len() == 1 && s[0] == '*');
    assert(s.drop_first() =~= Seq::<char>::empty());
    if name.len() > 0 {
        lemma_star_matches_all(name.drop_first());
    } else {
        assert(wildcard_matches(name, s.drop_first()));
    }
}

/// A pattern that starts with a part without `*` matches exactly the names
/// that start with that part and go on with a match of the rest.
proof fn lemma_literal_prefix(name: Seq<char>, p: Seq<char>, q: Seq<char>)
    requires
        !p.contains('*'),
    ensures
        wildcard_matches(name, p + q) <==> (p.is_prefix_of(name) && wildcard_matches(
            name.skip(p.len() as int),
            q,
        )),
    decreases p.len(),
{
    if p.len() == 0 {
        assert(p + q =~= q);
        assert(name.skip(0) =~= name);
        assert(name.subrange(0, 0) =~= p);
    } else {
        let pq = p + q;
        assert(pq[0] == p[0]);
        assert(p[0] != '*');
        assert(pq.drop_first() =~= p.drop_first() + q);
        assert(!p.drop_first().contains('*')) by {
            if p.drop_first().contains('*') {
                let i = choose|i: int| 0 <= i < p.drop_first().len() && p.drop_first()[i] == '*';
                assert(p[i + 1] == '*');
            }
        }
        if name.len() > 0 {
            let nd = name.drop_first();
            let pd = p.drop_first();
            lemma_literal_prefix(nd, pd, q);
            if p.len() <= name.len() {
                assert(nd.skip(pd.len() as int) =~= name.skip(p.len() as int));
            }
            assert(p.is_prefix_of(name) <==> (name[0] == p[0] && pd.is_prefix_of(nd))) by {
                if p.is_prefix_of(name) {
                    assert(p[0] == name.subrange(0, p.len() as int)[0]);
                    assert(nd.subrange(0, pd.len() as int) =~= pd) by {
                        assert forall|i: int| 0 <= i < pd.len() implies nd.subrange(0, pd.len() as int)[i]
                            == pd[i] by {
                            assert(p[i + 1] == name.subrange(0, p.len() as int)[i + 1]);
                        }
                    }
                }
                if name[0] == p[0] && pd.is_prefix_of(nd) {
                    assert(name.subrange(0, p.len() as int) =~= p) by {
                        assert forall|i: int| 0 <= i < p.len() implies name.subrange(0, p.len() as int)[i]
                            == p[i] by {
                            if i > 0 {
                                assert(pd[i - 1] == nd.subrange(0, pd.len() as int)[i - 1]);
                            }
                        }
                    }
                }
            }
        }
    }
}

/// A pattern without `*` matches exactly the name equal to it.
pub proof fn law_plain_pattern_matches_only_itself(name: Seq<char>, pattern: Seq<char>)
    requires
        !pattern.contains('*'),
    ensures
        wildcard_matches(name, pattern) <==> name == pattern,
{
    lemma_literal_prefix(name, pattern, Seq::empty());
    assert(pattern + Seq::<char>::empty() =~= pattern);
    if name == pattern {
        assert(name.subrange(0, pattern.len() as int) =~= pattern);
        assert(name.skip(pattern.len() as int) =~= Seq::<char>::empty());
    }
    if pattern.is_prefix_of(name) && name.skip(pattern.len() as int).len() == 0 {
        assert(name =~= pattern) by {
            assert forall|i: int| 0 <= i < name.len() implies name[i] == pattern[i] by {
                assert(name.subrange(0, pattern.len() as int)[i] == pattern[i]);
            }
        }
    }
}

/// A `*` followed by the rest of a pattern matches exactly the names of
/// which, after some number of characters (possibly none), the remainder
/// matches the rest.
pub proof fn law_star_matches_any_sequence(name: Seq<char>, rest: Seq<char>)
    ensures
        wildcard_matches(name, seq!['*'] + rest) <==> exists|k: int|
            0 <= k <= name.len() && #[trigger] wildcard_matches(name.skip(k), rest),
    decreases name.len(),
{
    let p = seq!['*'] + rest;
    assert(p[0] == '*');
    assert(p.drop_first() =~= rest);
    assert(name.skip(0) =~= name);
    if wildcard_matches(name, rest) {
        assert(wildcard_matches(name.skip(0), rest));
    }
    if name.len() > 0 {
        let nd = name.drop_first();
        law_star_matches_any_sequence(nd, rest);
        if wildcard_matches(nd, p) {
            let k = choose|k: int| 0 <= k <= nd.len() && #[trigger] wildcard_matches(nd.skip(k), rest);
            assert(nd.skip(k) =~= name.skip(k + 1));
            assert(wildcard_matches(name.skip(k + 1), rest));
        }
        if exists|k: int| 0 <= k <= name.len() && #[trigger] wildcard_matches(name.skip(k), rest) {
            let k = choose|k: int| 0 <= k <= name.len() && #[trigger] wildcard_matches(name.skip(k), rest);
            if k > 0 {
                assert(nd.skip(k - 1) =~= name.skip(k));
                assert(wildcard_matches(nd.skip(k - 1), rest));
            }
        }
    } else {
        if exists|k: int| 0 <= k <= name.len() && #[trigger] wildcard_matches(name.skip(k), rest) {
            let k = choose|k: int| 0 <= k <= name.len() && #[trigger] wildcard_matches(name.skip(k), rest);
            assert(k == 0);
        }
    }
}

/// A pattern ending in `*`, with no other `*`, matches exactly the names
/// that start with the rest of the pattern.
pub proof fn law_trailing_star_is_prefix(name: Seq<char>, start: Seq<char>)
    requires
        !start.contains('*'),
    ensures
        wildcard_matches(name, start.push('*')) <==> start.is_prefix_of(name),
{
    assert(start.push('*') =~= start + seq!['*']);
    lemma_literal_prefix(name, start, seq!['*']);
    lemma_star_matches_all(name.skip(start.len() as int));
}

/// A pattern starting with `*`, with no other `*`, matches exactly the
/// names that end with the rest of the pattern.
pub proof fn law_leading_star_is_suffix(name: Seq<char>, end: Seq<char>)
    requires
        !end.contains('*'),
    ensures
        wildcard_matches(name, seq!['*'] + end) <==> end.is_suffix_of(name),
{
    law_star_matches_any_sequence(name, end);
    if wildcard_matches(name, seq!['*'] + end) {
        let k = choose|k: int| 0 <= k <= name.len() && #[trigger] wildcard_matches(name.skip(k), end);
        law_plain_pattern_matches_only_itself(name.skip(k), end);
        assert(name.subrange(name.len() - end.len(), name.len() as int) =~= end);
    }
    if end.is_suffix_of(name) {
        let k = name.len() - end.len();
        assert(name.skip(k) =~= end);
        law_plain_pattern_matches_only_itself(name.skip(k), end);
        assert(wildcard_matches(name.skip(k), end));
    }
}

/// A pattern with a single `*` matches exactly the names made of the part
/// before the `*`, then any characters, then the part after it.
pub proof fn law_single_star_matches_any_middle(name: Seq<char>, before: Seq<char>, after: Seq<char>)
    requires
        !before.contains('*'),
        !after.contains('*'),
    ensures
        wildcard_matches(name, before + seq!['*'] + after) <==> exists|mid: Seq<char>|
            name == #[trigger] (before + mid + after),
{
    let k = before.len() as int;
    assert(before + seq!['*'] + after =~= before + (seq!['*'] + after));
    lemma_literal_prefix(name, before, seq!['*'] + after);
    let tail = name.skip(k);
    law_leading_star_is_suffix(tail, after);
    if wildcard_matches(name, before + seq!['*'] + after) {
        let mid = tail.subrange(0, tail.len() - after.len());
        assert(tail.subrange(tail.len() - after.len(), tail.len() as int) =~= after);
        assert(name =~= before + mid + after) by {
            assert(name.subrange(0, k) =~= before);
            assert forall|i: int| 0 <= i < name.len() implies name[i] == (before + mid + after)[i] by {
                if i < k {
                    assert(name.subrange(0, k)[i] == before[i]);
                } else if i < name.len() - after.len() {
                    assert(tail[i - k] == name[i]);
                } else {
                    assert(tail[i - k] == name[i]);
                    assert(tail.subrange(tail.len() - after.len(), tail.len() as int)[i - k - (tail.len()
                        - after.len())] == tail[i - k]);
                }
            }
        }
    }
    if exists|mid: Seq<char>| name == #[trigger] (before + mid + after) {
        let mid = choose|mid: Seq<char>| name == #[trigger] (before + mid + after);
        assert(name.subrange(0, k) =~= before);
        assert(tail =~= mid + after);
        assert(tail.subrange(tail.len() - after.len(), tail.len() as int) =~= after);
    }
}

/// A name matches the concatenation of two patterns exactly when it splits
/// into a part matching the first and a part matching the second.
proof fn lemma_concat(name: Seq<char>, p: Seq<char>, q: Seq<char>)
    ensures
        wildcard_matches(name, p + q) <==> exists|i: int|
            0 <= i <= name.len() && #[trigger] wildcard_matches(name.take(i), p) && wildcard_matches(
                name.skip(i),
                q,
            ),
    decreases p.len(), name.len(),
{
    let pq = p + q;
    if p.len() == 0 {
        assert(pq =~= q);
        assert(name.skip(0) =~= name);
        assert(name.take(0).len() == 0);
        assert(wildcard_matches(name.take(0), p));
        if wildcard_matches(name, q) {
            assert(wildcard_matches(name.skip(0), q));
        }
        if exists|i: int|
            0 <= i <= name.len() && #[trigger] wildcard_matches(name.take(i), p) && wildcard_matches(
                name.skip(i),
                q,
            ) {
            let i = choose|i: int|
                0 <= i <= name.len() && #[trigger] wildcard_matches(name.take(i), p) && wildcard_matches(
                    name.skip(i),
                    q,
                );
            assert(name.take(i).len() == 0);
        }
    } else {
        assert(pq[0] == p[0]);
        assert(pq.drop_first() =~= p.drop_first() + q);
        let pd = p.drop_first();
        lemma_concat(name, pd, q);
        if name.len() > 0 {
            let nd = name.drop_first();
            lemma_concat(nd, p, q);
            lemma_concat(nd, pd, q);
        }
        // The right-hand side, one step unfolded.
        assert forall|i: int| 1 <= i <= name.len() implies #[trigger] name.take(i).drop_first()
            == name.drop_first().take(i - 1) && name.skip(i) == name.drop_first().skip(i - 1) by {
            assert(name.take(i).drop_first() =~= name.drop_first().take(i - 1));
            assert(name.skip(i) =~= name.drop_first().skip(i - 1));
        }
        if wildcard_matches(name, pq) {
            if p[0] == '*' {
                if wildcard_matches(name, pd + q) {
                    let i = choose|i: int|
                        0 <= i <= name.len() && #[trigger] wildcard_matches(name.take(i), pd)
                            && wildcard_matches(name.skip(i), q);
                    assert(wildcard_matches(name.take(i), p));
                } else {
                    let nd = name.drop_first();
                    let i = choose|i: int|
                        0 <= i <= nd.len() && #[trigger] wildcard_matches(nd.take(i), p)
                            && wildcard_matches(nd.skip(i), q);
                    assert(name.take(i + 1).drop_first() == nd.take(i));
                    assert(name.take(i + 1).len() > 0);
                    assert(wildcard_matches(name.take(i + 1), p));
                }
            } else {
                let nd = name.drop_first();
                let i = choose|i: int|
                    0 <= i <= nd.len() && #[trigger] wildcard_matches(nd.take(i), pd) && wildcard_matches(
                        nd.skip(i),
                        q,
                    );
                assert(name.take(i + 1).drop_first() == nd.take(i));
                assert(name.take(i + 1)[0] == name[0]);
                assert(wildcard_matches(name.take(i + 1), p));
            }
        }
        if exists|i: int|
            0 <= i <= name.len() && #[trigger] wildcard_matches(name.take(i), p) && wildcard_matches(
                name.skip(i),
                q,
            ) {
            let i = choose|i: int|
                0 <= i <= name.len() && #[trigger] wildcard_matches(name.take(i), p) && wildcard_matches(
                    name.skip(i),
                    q,
                );
            let t = name.take(i);
            if p[0] == '*' {
                if wildcard_matches(t, pd) {
                    assert(wildcard_matches(name, pd + q));
                } else {
                    let nd = name.drop_first();
                    assert(t.drop_first() == nd.take(i - 1));
                    assert(wildcard_matches(nd.take(i - 1), p));
                    assert(wildcard_matches(nd, pq));
                }
            } else {
                let nd = name.drop_first();
                assert(t.drop_first() == nd.take(i - 1));
                assert(t[0] == name[0]);
                assert(wildcard_matches(nd.take(i - 1), pd));
                assert(wildcard_matches(nd, pd + q));
            }
        }
    }
}

/// Every `*` of a pattern matches any sequence of characters: a name
/// matches `p*q` exactly when it is a part matching `p`, then any
/// characters, then a part matching `q`.
pub proof fn law_every_star_matches_any_sequence(name: Seq<char>, p: Seq<char>, q: Seq<char>)
    ensures
        wildcard_matches(name, p + seq!['*'] + q) <==> exists|i: int, j: int|
            0 <= i <= j <= name.len() && #[trigger] wildcard_matches(name.take(i), p)
                && #[trigger] wildcard_matches(name.skip(j), q),
{
    assert(p + seq!['*'] + q =~= p + (seq!['*'] + q));
    lemma_concat(name, p, seq!['*'] + q);
    if wildcard_matches(name, p + seq!['*'] + q) {
        let i = choose|i: int|
            0 <= i <= name.len() && #[trigger] wildcard_matches(name.take(i), p) && wildcard_matches(
                name.skip(i),
                seq!['*'] + q,
            );
        law_star_matches_any_sequence(name.skip(i), q);
        let k = choose|k: int|
            0 <= k <= name.skip(i).len() && #[trigger] wildcard_matches(name.skip(i).skip(k), q);
        assert(name.skip(i).skip(k) =~= name.skip(i + k));
        assert(wildcard_matches(name.take(i), p) && wildcard_matches(name.skip(i + k), q));
    }
    if exists|i: int, j: int|
        0 <= i <= j <= name.len() && #[trigger] wildcard_matches(name.take(i), p)
            && #[trigger] wildcard_matches(name.skip(j), q) {
        let (i, j) = choose|i: int, j: int|
            0 <= i <= j <= name.len() && #[trigger] wildcard_matches(name.take(i), p)
                && #[trigger] wildcard_matches(name.skip(j), q);
        law_star_matches_any_sequence(name.skip(i), q);
        assert(name.skip(i).skip(j - i) =~= name.skip(j));
        assert(wildcard_matches(name.skip(i).skip(j - i), q));
        assert(wildcard_matches(name.skip(i), seq!['*'] + q));
    }
}

/// The lines of a buffer after a run of calls that each append lines:
/// `calls[i]` are the lines the `i`-th call appends (one for `push`, `l`,
/// `f` and `b`; those of the other buffer for `extend` and `extend_vec`).
pub open spec fn after_calls(lines: Seq<Seq<char>>, calls: Seq<Seq<Seq<char>>>) -> Seq<Seq<char>>
    decreases calls.len(),
{
    if calls.len() == 0 {
        lines
    } else {
        after_calls(lines, calls.drop_last()) + calls.last()
    }
}

/// The number of lines a run of calls appends.
pub open spec fn lines_added(calls: Seq<Seq<Seq<char>>>) -> nat
    decreases calls.len(),
{
    if calls.len() == 0 {
        0
    } else {
        lines_added(calls.drop_last()) + calls.last().len()
    }
}

/// After any run of appending calls, a buffer holds its old lines, in
/// place, followed by the appended ones; its length is the old length plus
/// the number of lines the calls appended (one per `push`, `l`, `f` and
/// `b`, the other buffer's count per `extend` and `extend_vec`).
pub proof fn law_line_count_after_calls(lines: Seq<Seq<char>>, calls: Seq<Seq<Seq<char>>>)
    ensures
        lines.is_prefix_of(after_calls(lines, calls)),
        after_calls(lines, calls).len() == lines.len() + lines_added(calls),
    decreases calls.len(),
{
    if calls.len() == 0 {
        assert(lines.subrange(0, lines.len() as int) =~= lines);
    } else {
        law_line_count_after_calls(lines, calls.drop_last());
        let a = after_calls(lines, calls.drop_last());
        let r = a + calls.last();
        assert(r.subrange(0, lines.len() as int) =~= lines) by {
            assert forall|i: int| 0 <= i < lines.len() implies r.subrange(0, lines.len() as int)[i]
                == lines[i] by {
                assert(a.subrange(0, lines.len() as int)[i] == lines[i]);
            }
        }
    }
}

} // verus!
