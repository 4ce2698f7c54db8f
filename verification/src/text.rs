//! Character-level string primitives with their mathematical meaning.
//!
//! Every generator in this crate works on `Seq<char>` views of strings;
//! the functions here are the executable building blocks those generators
//! use, each tied to a spec function over `Seq<char>`.

use vstd::prelude::*;

verus! {

/// The strings of a sequence, taken by their views.
pub open spec fn views(v: Seq<String>) -> Seq<Seq<char>> {
    v.map_values(|s: String| s@)
}

/// `parts` joined with `sep` between consecutive elements.
pub open spec fn join_seq(parts: Seq<Seq<char>>, sep: Seq<char>) -> Seq<char>
    decreases parts.len(),
{
    if parts.len() == 0 {
        Seq::empty()
    } else if parts.len() == 1 {
        parts[0]
    } else {
        join_seq(parts.drop_last(), sep) + sep + parts.last()
    }
}

/// All parts concatenated, with nothing between them.
pub open spec fn concat_seq(parts: Seq<Seq<char>>) -> Seq<char>
    decreases parts.len(),
{
    if parts.len() == 0 {
        Seq::empty()
    } else {
        concat_seq(parts.drop_last()) + parts.last()
    }
}

/// Unicode `White_Space`, the set that `str::trim` removes.
pub open spec fn is_ws(c: char) -> bool {
    ||| (c as u32) >= 0x09 && (c as u32) <= 0x0D
    ||| c == ' '
    ||| (c as u32) == 0x85
    ||| (c as u32) == 0xA0
    ||| (c as u32) == 0x1680
    ||| (c as u32) >= 0x2000 && (c as u32) <= 0x200A
    ||| (c as u32) == 0x2028
    ||| (c as u32) == 0x2029
    ||| (c as u32) == 0x202F
    ||| (c as u32) == 0x205F
    ||| (c as u32) == 0x3000
}

/// `s` without its leading white space.
pub open spec fn trim_front(s: Seq<char>) -> Seq<char>
    decreases s.len(),
{
    if s.len() > 0 && is_ws(s[0]) {
        trim_front(s.drop_first())
    } else {
        s
    }
}

/// `s` without its trailing white space.
pub open spec fn trim_back(s: Seq<char>) -> Seq<char>
    decreases s.len(),
{
    if s.len() > 0 && is_ws(s.last()) {
        trim_back(s.drop_last())
    } else {
        s
    }
}

/// `s` without leading and trailing white space.
pub open spec fn trim_seq(s: Seq<char>) -> Seq<char> {
    trim_back(trim_front(s))
}

/// `s` without its leading copies of `c` (`str::trim_start_matches` with a char).
pub open spec fn trim_start_char(s: Seq<char>, c: char) -> Seq<char>
    decreases s.len(),
{
    if s.len() > 0 && s[0] == c {
        trim_start_char(s.drop_first(), c)
    } else {
        s
    }
}

/// `s` without its trailing copies of `c` (`str::trim_end_matches` with a char).
pub open spec fn trim_end_char(s: Seq<char>, c: char) -> Seq<char>
    decreases s.len(),
{
    if s.len() > 0 && s.last() == c {
        trim_end_char(s.drop_last(), c)
    } else {
        s
    }
}

/// `s` without its leading repetitions of the non-empty pattern `p`
/// (`str::trim_start_matches` with a string).
pub open spec fn trim_start_str(s: Seq<char>, p: Seq<char>) -> Seq<char>
    decreases s.len(),
{
    if p.len() > 0 && p.is_prefix_of(s) {
        trim_start_str(s.skip(p.len() as int), p)
    } else {
        s
    }
}

/// `s` with the prefix `p` removed when present (`strip_prefix(..).unwrap_or(s)`).
pub open spec fn strip_prefix_or_keep(s: Seq<char>, p: Seq<char>) -> Seq<char> {
    if p.is_prefix_of(s) {
        s.skip(p.len() as int)
    } else {
        s
    }
}

/// Left-to-right replacement of every non-overlapping occurrence of `from`
/// by `to` (`str::replace` for a non-empty pattern).
pub open spec fn replace_seq(s: Seq<char>, from: Seq<char>, to: Seq<char>) -> Seq<char>
    decreases s.len(),
{
    if s.len() == 0 || from.len() == 0 {
        s
    } else if from.is_prefix_of(s) {
        to + replace_seq(s.skip(from.len() as int), from, to)
    } else {
        seq![s[0]] + replace_seq(s.drop_first(), from, to)
    }
}

/// Every occurrence of the character `c` replaced by `to`.
pub open spec fn replace_char_seq(s: Seq<char>, c: char, to: Seq<char>) -> Seq<char>
    decreases s.len(),
{
    if s.len() == 0 {
        s
    } else if s[0] == c {
        to + replace_char_seq(s.drop_first(), c, to)
    } else {
        seq![s[0]] + replace_char_seq(s.drop_first(), c, to)
    }
}

/// The decimal digit for `d < 10`.
pub open spec fn digit(d: nat) -> char {
    if d == 0 { '0' }
    else if d == 1 { '1' }
    else if d == 2 { '2' }
    else if d == 3 { '3' }
    else if d == 4 { '4' }
    else if d == 5 { '5' }
    else if d == 6 { '6' }
    else if d == 7 { '7' }
    else if d == 8 { '8' }
    else { '9' }
}

/// The decimal representation of `n` without leading zeros.
pub open spec fn dec_nat(n: nat) -> Seq<char>
    decreases n,
{
    if n < 10 {
        seq![digit(n)]
    } else {
        dec_nat(n / 10).push(digit(n % 10))
    }
}

/// The decimal representation of `i`, with a leading `-` when negative.
pub open spec fn dec_int(i: int) -> Seq<char> {
    if i < 0 {
        seq!['-'] + dec_nat((-i) as nat)
    } else {
        dec_nat(i as nat)
    }
}

/// Appends `c` to `s` (`String::push`).
#[verifier::external_body]
pub(crate) fn push_char(s: &mut String, c: char)
    ensures
        final(s)@ == old(s)@.push(c),
{
    s.push(c);
}

/// The characters of `s`, in order.
pub fn chars_of(s: &str) -> (v: Vec<char>)
    ensures
        v@ == s@,
{
    let n = s.unicode_len();
    let mut v: Vec<char> = Vec::new();
    let mut i: usize = 0;
    while i < n
        invariant
            n == s@.len(),
            i <= n,
            v@ == s@.subrange(0, i as int),
        decreases n - i,
    {
        let c = s.get_char(i);
        v.push(c);
        i = i + 1;
        assert(v@ =~= s@.subrange(0, i as int));
    }
    assert(v@ =~= s@);
    v
}

/// The string made of the characters `v[lo..hi]`.
pub fn string_of_range(v: &Vec<char>, lo: usize, hi: usize) -> (r: String)
    requires
        lo <= hi <= v@.len(),
    ensures
        r@ == v@.subrange(lo as int, hi as int),
{
    let mut r = String::new();
    let mut i = lo;
    while i < hi
        invariant
            lo <= i <= hi <= v@.len(),
            r@ == v@.subrange(lo as int, i as int),
        decreases hi - i,
    {
        push_char(&mut r, v[i]);
        i = i + 1;
        assert(r@ =~= v@.subrange(lo as int, i as int));
    }
    r
}

/// An owned copy of `s`.
pub fn owned(s: &str) -> (r: String)
    ensures
        r@ == s@,
{
    let mut r = String::new();
    r.append(s);
    assert(r@ =~= s@);
    r
}

/// `a` followed by `b`.
pub fn cat2(a: &str, b: &str) -> (r: String)
    ensures
        r@ == a@ + b@,
{
    let mut r = String::new();
    r.append(a);
    r.append(b);
    assert(r@ =~= a@ + b@);
    r
}

/// `a`, `b`, `c` in order.
pub fn cat3(a: &str, b: &str, c: &str) -> (r: String)
    ensures
        r@ == a@ + b@ + c@,
{
    let mut r = cat2(a, b);
    r.append(c);
    r
}

/// `a`, `b`, `c`, `d` in order.
pub fn cat4(a: &str, b: &str, c: &str, d: &str) -> (r: String)
    ensures
        r@ == a@ + b@ + c@ + d@,
{
    let mut r = cat3(a, b, c);
    r.append(d);
    r
}

/// `a` through `e` in order.
pub fn cat5(a: &str, b: &str, c: &str, d: &str, e: &str) -> (r: String)
    ensures
        r@ == a@ + b@ + c@ + d@ + e@,
{
    let mut r = cat4(a, b, c, d);
    r.append(e);
    r
}

/// `a` through `f` in order.
pub fn cat6(a: &str, b: &str, c: &str, d: &str, e: &str, f: &str) -> (r: String)
    ensures
        r@ == a@ + b@ + c@ + d@ + e@ + f@,
{
    let mut r = cat5(a, b, c, d, e);
    r.append(f);
    r
}

/// `a` through `g` in order.
pub fn cat7(a: &str, b: &str, c: &str, d: &str, e: &str, f: &str, g: &str) -> (r: String)
    ensures
        r@ == a@ + b@ + c@ + d@ + e@ + f@ + g@,
{
    let mut r = cat6(a, b, c, d, e, f);
    r.append(g);
    r
}

/// Whether `a` and `b` hold the same characters.
pub fn str_eq(a: &str, b: &str) -> (r: bool)
    ensures
        r == (a@ == b@),
{
    let va = chars_of(a);
    let vb = chars_of(b);
    if va.len() != vb.len() {
        return false;
    }
    let mut i: usize = 0;
    while i < va.len()
        invariant
            va@ == a@,
            vb@ == b@,
            va@.len() == vb@.len(),
            i <= va@.len(),
            forall|j: int| 0 <= j < i ==> va@[j] == vb@[j],
        decreases va@.len() - i,
    {
        if va[i] != vb[i] {
            return false;
        }
        i = i + 1;
    }
    assert(a@ =~= b@);
    true
}

/// Whether `p` is a prefix of `v[from..]`.
pub fn has_prefix_at(v: &Vec<char>, from: usize, p: &Vec<char>) -> (r: bool)
    requires
        from <= v@.len(),
    ensures
        r == p@.is_prefix_of(v@.skip(from as int)),
{
    if p.len() > v.len() - from {
        return false;
    }
    let mut i: usize = 0;
    while i < p.len()
        invariant
            from <= v@.len(),
            p@.len() <= v@.len() - from,
            i <= p@.len(),
            forall|j: int| 0 <= j < i ==> p@[j] == v@[from + j],
        decreases p@.len() - i,
    {
        let n = v.len();
        assert(from + i < n);
        if p[i] != v[from + i] {
            assert(p@[i as int] != v@.skip(from as int)[i as int]);
            return false;
        }
        i = i + 1;
    }
    assert(p@.is_prefix_of(v@.skip(from as int)));
    true
}

/// Whether `s` begins with `p` (`str::starts_with`).
pub fn starts_with(s: &str, p: &str) -> (r: bool)
    ensures
        r == p@.is_prefix_of(s@),
{
    let v = chars_of(s);
    let pv = chars_of(p);
    let r = has_prefix_at(&v, 0, &pv);
    assert(v@.skip(0) =~= v@);
    r
}

/// Whether `s` ends with `p` (`str::ends_with`).
pub fn ends_with(s: &str, p: &str) -> (r: bool)
    ensures
        r == p@.is_suffix_of(s@),
{
    let v = chars_of(s);
    let pv = chars_of(p);
    if pv.len() > v.len() {
        return false;
    }
    let from = v.len() - pv.len();
    let r = has_prefix_at(&v, from, &pv);
    assert(v@.skip(from as int).len() == pv@.len());
    if r {
        assert(v@.skip(from as int) =~= v@.subrange(from as int, v@.len() as int));
    } else {
        assert(v@.skip(from as int) =~= v@.subrange(from as int, v@.len() as int));
    }
    r
}

/// Whether `s` ends with the character `c`.
pub fn ends_with_char(s: &str, c: char) -> (r: bool)
    ensures
        r == (s@.len() > 0 && s@.last() == c),
{
    let n = s.unicode_len();
    if n == 0 {
        false
    } else {
        s.get_char(n - 1) == c
    }
}

/// Whether `s` is empty.
pub fn is_empty(s: &str) -> (r: bool)
    ensures
        r == (s@.len() == 0),
{
    s.unicode_len() == 0
}

/// `s` without leading and trailing Unicode white space (`str::trim`).
pub fn trim(s: &str) -> (r: String)
    ensures
        r@ == trim_seq(s@),
{
    let v = chars_of(s);
    let mut lo: usize = 0;
    assert(v@.skip(0) =~= v@);
    while lo < v.len() && is_ws_char(v[lo])
        invariant
            v@ == s@,
            lo <= v@.len(),
            trim_front(s@) == trim_front(v@.skip(lo as int)),
        decreases v@.len() - lo,
    {
        assert(v@.skip(lo as int).drop_first() =~= v@.skip(lo + 1));
        lo = lo + 1;
    }
    assert(trim_front(s@) == v@.skip(lo as int));
    assert(v@.skip(lo as int) =~= v@.subrange(lo as int, v@.len() as int));
    let mut hi: usize = v.len();
    while hi > lo && is_ws_char(v[hi - 1])
        invariant
            v@ == s@,
            lo <= hi <= v@.len(),
            trim_seq(s@) == trim_back(v@.subrange(lo as int, hi as int)),
        decreases hi,
    {
        assert(v@.subrange(lo as int, hi as int).drop_last() =~= v@.subrange(lo as int, hi - 1));
        hi = hi - 1;
    }
    assert(v@.skip(lo as int) =~= v@.subrange(lo as int, v@.len() as int));
    string_of_range(&v, lo, hi)
}

/// Whether `c` is Unicode white space.
pub fn is_ws_char(c: char) -> (r: bool)
    ensures
        r == is_ws(c),
{
    let u = c as u32;
    (u >= 0x09 && u <= 0x0D) || u == 0x20 || u == 0x85 || u == 0xA0 || u == 0x1680 || (u
        >= 0x2000 && u <= 0x200A) || u == 0x2028 || u == 0x2029 || u == 0x202F || u == 0x205F
        || u == 0x3000
}

/// `s` without the prefix `p` when it begins with it, else `s` unchanged.
pub fn strip_prefix_or_self(s: &str, p: &str) -> (r: String)
    ensures
        r@ == strip_prefix_or_keep(s@, p@),
{
    let v = chars_of(s);
    let pv = chars_of(p);
    assert(v@.skip(0) =~= v@);
    if has_prefix_at(&v, 0, &pv) {
        let r = string_of_range(&v, pv.len(), v.len());
        assert(r@ =~= s@.skip(p@.len() as int));
        r
    } else {
        owned(s)
    }
}

/// `s` without its leading copies of `c`.
pub fn trim_start_matches(s: &str, c: char) -> (r: String)
    ensures
        r@ == trim_start_char(s@, c),
{
    let v = chars_of(s);
    let mut lo: usize = 0;
    assert(v@.skip(0) =~= v@);
    while lo < v.len() && v[lo] == c
        invariant
            v@ == s@,
            lo <= v@.len(),
            trim_start_char(s@, c) == trim_start_char(v@.skip(lo as int), c),
        decreases v@.len() - lo,
    {
        assert(v@.skip(lo as int).drop_first() =~= v@.skip(lo + 1));
        lo = lo + 1;
    }
    let r = string_of_range(&v, lo, v.len());
    assert(r@ =~= v@.skip(lo as int));
    r
}

/// `s` without its leading repetitions of the pattern `p`.
pub fn trim_start_matches_str(s: &str, p: &str) -> (r: String)
    ensures
        r@ == trim_start_str(s@, p@),
{
    let v = chars_of(s);
    let pv = chars_of(p);
    let mut lo: usize = 0;
    assert(v@.skip(0) =~= v@);
    while pv.len() > 0 && lo <= v.len() && has_prefix_at(&v, lo, &pv)
        invariant
            v@ == s@,
            pv@ == p@,
            lo <= v@.len(),
            trim_start_str(s@, p@) == trim_start_str(v@.skip(lo as int), p@),
        decreases v@.len() - lo,
    {
        assert(v@.skip(lo as int).skip(pv@.len() as int) =~= v@.skip(lo + pv@.len()));
        lo = lo + pv.len();
    }
    let r = string_of_range(&v, lo, v.len());
    assert(r@ =~= v@.skip(lo as int));
    r
}

/// `s` without its trailing copies of `c`.
pub fn trim_end_matches(s: &str, c: char) -> (r: String)
    ensures
        r@ == trim_end_char(s@, c),
{
    let v = chars_of(s);
    let mut hi: usize = v.len();
    assert(v@.subrange(0, v@.len() as int) =~= v@);
    while hi > 0 && v[hi - 1] == c
        invariant
            v@ == s@,
            hi <= v@.len(),
            trim_end_char(s@, c) == trim_end_char(v@.subrange(0, hi as int), c),
        decreases hi,
    {
        assert(v@.subrange(0, hi as int).drop_last() =~= v@.subrange(0, hi - 1));
        hi = hi - 1;
    }
    assert(v@.subrange(0, v@.len() as int) =~= v@);
    string_of_range(&v, 0, hi)
}

proof fn lemma_replace_step(s: Seq<char>, i: int, from: Seq<char>, to: Seq<char>)
    requires
        0 <= i < s.len(),
        from.len() > 0,
    ensures
        from.is_prefix_of(s.skip(i)) ==> replace_seq(s.skip(i), from, to) == to + replace_seq(
            s.skip(i + from.len()),
            from,
            to,
        ),
        !from.is_prefix_of(s.skip(i)) ==> replace_seq(s.skip(i), from, to) == seq![s[i]]
            + replace_seq(s.skip(i + 1), from, to),
{
    if from.is_prefix_of(s.skip(i)) {
        assert(s.skip(i).skip(from.len() as int) =~= s.skip(i + from.len()));
    } else {
        assert(s.skip(i).drop_first() =~= s.skip(i + 1));
    }
}

/// Every non-overlapping occurrence of `from` in `s`, scanning left to
/// right, replaced by `to` (`str::replace` for a non-empty pattern).
pub fn replace(s: &str, from: &str, to: &str) -> (r: String)
    requires
        from@.len() > 0,
    ensures
        r@ == replace_seq(s@, from@, to@),
{
    let v = chars_of(s);
    let fv = chars_of(from);
    let mut r = String::new();
    let mut i: usize = 0;
    assert(v@.skip(0) =~= v@);
    while i < v.len()
        invariant
            v@ == s@,
            fv@ == from@,
            from@.len() > 0,
            i <= v@.len(),
            r@ + replace_seq(v@.skip(i as int), fv@, to@) == replace_seq(s@, from@, to@),
        decreases v@.len() - i,
    {
        proof {
            lemma_replace_step(v@, i as int, fv@, to@);
        }
        if has_prefix_at(&v, i, &fv) {
            let ghost old_r = r@;
            r.append(to);
            assert(r@ == old_r + to@);
            assert(r@ + replace_seq(v@.skip(i + fv@.len()), fv@, to@) =~= old_r + (to@
                + replace_seq(v@.skip(i + fv@.len()), fv@, to@)));
            i = i + fv.len();
        } else {
            let ghost old_r = r@;
            push_char(&mut r, v[i]);
            assert(r@ + replace_seq(v@.skip(i + 1), fv@, to@) =~= old_r + (seq![v@[i as int]]
                + replace_seq(v@.skip(i + 1), fv@, to@)));
            i = i + 1;
        }
    }
    assert(v@.skip(i as int).len() == 0);
    assert(r@ =~= replace_seq(s@, from@, to@));
    r
}

/// Every occurrence of `c` in `s` replaced by `to`.
pub fn replace_char(s: &str, c: char, to: &str) -> (r: String)
    ensures
        r@ == replace_char_seq(s@, c, to@),
{
    let v = chars_of(s);
    let mut r = String::new();
    let mut i: usize = 0;
    assert(v@.skip(0) =~= v@);
    while i < v.len()
        invariant
            v@ == s@,
            i <= v@.len(),
            r@ + replace_char_seq(v@.skip(i as int), c, to@) == replace_char_seq(s@, c, to@),
        decreases v@.len() - i,
    {
        assert(v@.skip(i as int).drop_first() =~= v@.skip(i + 1));
        let ghost old_r = r@;
        if v[i] == c {
            r.append(to);
            assert(r@ + replace_char_seq(v@.skip(i + 1), c, to@) =~= old_r + (to@
                + replace_char_seq(v@.skip(i + 1), c, to@)));
        } else {
            push_char(&mut r, v[i]);
            assert(r@ + replace_char_seq(v@.skip(i + 1), c, to@) =~= old_r + (seq![v@[i as int]]
                + replace_char_seq(v@.skip(i + 1), c, to@)));
        }
        i = i + 1;
    }
    assert(r@ =~= replace_char_seq(s@, c, to@));
    r
}

/// The decimal digit character for `d < 10`.
pub fn digit_char(d: u64) -> (c: char)
    requires
        d < 10,
    ensures
        c == digit(d as nat),
{
    if d == 0 { '0' }
    else if d == 1 { '1' }
    else if d == 2 { '2' }
    else if d == 3 { '3' }
    else if d == 4 { '4' }
    else if d == 5 { '5' }
    else if d == 6 { '6' }
    else if d == 7 { '7' }
    else if d == 8 { '8' }
    else { '9' }
}

/// The decimal text of `n` (`u64::to_string`).
pub fn dec_u64(n: u64) -> (r: String)
    ensures
        r@ == dec_nat(n as nat),
    decreases n,
{
    if n < 10 {
        let mut r = String::new();
        push_char(&mut r, digit_char(n));
        assert(r@ =~= seq![digit(n as nat)]);
        r
    } else {
        let mut r = dec_u64(n / 10);
        push_char(&mut r, digit_char(n % 10));
        r
    }
}

/// The decimal text of `n` (`usize::to_string`).
pub fn dec_usize(n: usize) -> (r: String)
    ensures
        r@ == dec_nat(n as nat),
{
    dec_u64(n as u64)
}

/// The decimal text of `n`, with `-` before negative values (`i64::to_string`).
pub fn dec_i64(n: i64) -> (r: String)
    ensures
        r@ == dec_int(n as int),
{
    if n < 0 {
        let m: u64 = if n == i64::MIN {
            9223372036854775808u64
        } else {
            (-n) as u64
        };
        let d = dec_u64(m);
        let mut r = String::new();
        push_char(&mut r, '-');
        r.append(d.as_str());
        assert(r@ =~= seq!['-'] + dec_nat(m as nat));
        r
    } else {
        dec_u64(n as u64)
    }
}

/// The strings of `parts` joined by `sep` (`[String]::join`).
pub fn join(parts: &Vec<String>, sep: &str) -> (r: String)
    ensures
        r@ == join_seq(views(parts@), sep@),
{
    let mut r = String::new();
    let mut i: usize = 0;
    while i < parts.len()
        invariant
            i <= parts@.len(),
            r@ == join_seq(views(parts@.subrange(0, i as int)), sep@),
        decreases parts@.len() - i,
    {
        let ghost old_r = r@;
        if i > 0 {
            r.append(sep);
        }
        r.append(parts[i].as_str());
        proof {
            let pre = views(parts@.subrange(0, i as int));
            let post = views(parts@.subrange(0, i + 1));
            assert(post.drop_last() =~= pre);
            assert(post.last() == parts@[i as int]@);
            if i == 0 {
                assert(post.len() == 1);
            }
        }
        i = i + 1;
    }
    assert(parts@.subrange(0, parts@.len() as int) =~= parts@);
    r
}

/// Whether `s` is one of the strings of `v`.
pub fn contains_str(v: &Vec<String>, s: &str) -> (r: bool)
    ensures
        r == views(v@).contains(s@),
{
    let mut i: usize = 0;
    while i < v.len()
        invariant
            i <= v@.len(),
            forall|j: int| 0 <= j < i ==> v@[j]@ != s@,
        decreases v@.len() - i,
    {
        if str_eq(v[i].as_str(), s) {
            assert(views(v@)[i as int] == s@);
            return true;
        }
        i = i + 1;
    }
    assert forall|j: int| 0 <= j < views(v@).len() implies views(v@)[j] != s@ by {
        assert(views(v@)[j] == v@[j]@);
    }
    false
}

} // verus!
