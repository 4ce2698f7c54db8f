//! Naming conventions of the generated clients: PascalCase, camelCase and
//! snake_case identifiers, handler prefixes and derived type names.

use vstd::prelude::*;
use crate::text::{
    cat2, chars_of, concat_seq, dec_nat, dec_usize, owned, push_char, replace_char,
    replace_char_seq, starts_with, str_eq, string_of_range, trim_start_char, trim_start_matches,
};

verus! {

/// What `char::to_uppercase` yields for `c` (Unicode case tables).
pub uninterp spec fn char_upper(c: char) -> Seq<char>;

/// What `char::to_lowercase` yields for `c` (Unicode case tables).
pub uninterp spec fn char_lower(c: char) -> Seq<char>;

/// Whether `c` has the Unicode `Uppercase` property (`char::is_uppercase`).
pub uninterp spec fn char_is_upper(c: char) -> bool;

/// Whether `c` is an ASCII character.
pub open spec fn is_ascii_char(c: char) -> bool {
    (c as u32) < 128
}

/// The ASCII case mapping to upper case.
pub open spec fn ascii_upper(c: char) -> char {
    if 'a' <= c && c <= 'z' {
        ((c as u32) - 32) as char
    } else {
        c
    }
}

/// The ASCII case mapping to lower case.
pub open spec fn ascii_lower(c: char) -> char {
    if 'A' <= c && c <= 'Z' {
        ((c as u32) + 32) as char
    } else {
        c
    }
}

/// The upper-case form of `c` (`char::to_uppercase`, collected).
/// For ASCII characters this is the single ASCII upper-case character.
#[verifier::external_body]
fn upper_of(c: char) -> (r: String)
    ensures
        r@ == char_upper(c),
        is_ascii_char(c) ==> r@ == seq![ascii_upper(c)],
{
    c.to_uppercase().collect::<String>()
}

/// The lower-case form of `c` (`char::to_lowercase`, collected).
/// It is never empty, and for ASCII characters it is the single ASCII
/// lower-case character.
#[verifier::external_body]
fn lower_of(c: char) -> (r: String)
    ensures
        r@ == char_lower(c),
        r@.len() >= 1,
        is_ascii_char(c) ==> r@ == seq![ascii_lower(c)],
{
    c.to_lowercase().collect::<String>()
}

/// Whether `c` is upper case (`char::is_uppercase`); for ASCII characters
/// exactly the letters `A` to `Z`.
#[verifier::external_body]
fn is_upper(c: char) -> (r: bool)
    ensures
        r == char_is_upper(c),
        is_ascii_char(c) ==> r == ('A' <= c && c <= 'Z'),
{
    c.is_uppercase()
}

/// PascalCase of `s` from the state "at the start of a word" (`at_start`):
/// `_` separates words and is dropped, the first character of every word
/// is upper-cased, the others are kept.
pub open spec fn pascal_from(s: Seq<char>, at_start: bool) -> Seq<char>
    decreases s.len(),
{
    if s.len() == 0 {
        Seq::empty()
    } else if s[0] == '_' {
        pascal_from(s.drop_first(), true)
    } else if at_start {
        char_upper(s[0]) + pascal_from(s.drop_first(), false)
    } else {
        seq![s[0]] + pascal_from(s.drop_first(), false)
    }
}

/// PascalCase of a snake_case name: the `_`-separated words of `s`, each
/// with its first character upper-cased, concatenated.
pub open spec fn pascal(s: Seq<char>) -> Seq<char> {
    pascal_from(s, true)
}

/// camelCase of a snake_case name; names starting with `__` are kept.
pub open spec fn camel(s: Seq<char>) -> Seq<char> {
    if seq!['_', '_'].is_prefix_of(s) {
        s
    } else {
        let p = pascal(s);
        if p.len() == 0 {
            p
        } else {
            char_lower(p[0]) + p.drop_first()
        }
    }
}

/// The first character of the lower-case form of `c`.
pub open spec fn first_lower(c: char) -> char {
    if char_lower(c).len() > 0 {
        char_lower(c)[0]
    } else {
        c
    }
}

/// snake_case of the first `n` characters of `s`: every character is
/// lower-cased, and upper-case characters after the first get a `_` before.
pub open spec fn snake_upto(s: Seq<char>, n: int) -> Seq<char>
    decreases n,
{
    if n <= 0 {
        Seq::empty()
    } else {
        let c = s[n - 1];
        let sep = if char_is_upper(c) && n - 1 > 0 {
            seq!['_']
        } else {
            Seq::empty()
        };
        snake_upto(s, n - 1) + sep + seq![first_lower(c)]
    }
}

/// snake_case of a CamelCase name.
pub open spec fn snake(s: Seq<char>) -> Seq<char> {
    snake_upto(s, s.len() as int)
}

/// Every character of `s` is ASCII.
pub open spec fn all_ascii(s: Seq<char>) -> bool {
    forall|i: int| 0 <= i < s.len() ==> is_ascii_char(#[trigger] s[i])
}

/// [`pascal_from`] for ASCII text, where upper-casing is the ASCII mapping.
pub open spec fn pascal_ascii_from(s: Seq<char>, at_start: bool) -> Seq<char>
    decreases s.len(),
{
    if s.len() == 0 {
        Seq::empty()
    } else if s[0] == '_' {
        pascal_ascii_from(s.drop_first(), true)
    } else if at_start {
        seq![ascii_upper(s[0])] + pascal_ascii_from(s.drop_first(), false)
    } else {
        seq![s[0]] + pascal_ascii_from(s.drop_first(), false)
    }
}

/// [`pascal`] for ASCII text.
pub open spec fn pascal_ascii(s: Seq<char>) -> Seq<char> {
    pascal_ascii_from(s, true)
}

/// [`camel`] for ASCII text.
pub open spec fn camel_ascii(s: Seq<char>) -> Seq<char> {
    if seq!['_', '_'].is_prefix_of(s) {
        s
    } else {
        let p = pascal_ascii(s);
        if p.len() == 0 {
            p
        } else {
            seq![ascii_lower(p[0])] + p.drop_first()
        }
    }
}

/// [`snake_upto`] for ASCII text: the upper-case letters are `A` to `Z`.
pub open spec fn snake_ascii_upto(s: Seq<char>, n: int) -> Seq<char>
    decreases n,
{
    if n <= 0 {
        Seq::empty()
    } else {
        let c = s[n - 1];
        let sep = if 'A' <= c && c <= 'Z' && n - 1 > 0 {
            seq!['_']
        } else {
            Seq::empty()
        };
        snake_ascii_upto(s, n - 1) + sep + seq![ascii_lower(c)]
    }
}

/// [`snake`] for ASCII text.
pub open spec fn snake_ascii(s: Seq<char>) -> Seq<char> {
    snake_ascii_upto(s, s.len() as int)
}

/// Converts a snake_case string to PascalCase.
pub fn to_pascal_case(s: &str) -> (r: String)
    ensures
        r@ == pascal(s@),
        all_ascii(s@) ==> r@ == pascal_ascii(s@),
{
    let v = chars_of(s);
    let mut r = String::new();
    let mut at_start = true;
    let mut i: usize = 0;
    assert(v@.skip(0) =~= v@);
    while i < v.len()
        invariant
            v@ == s@,
            i <= v@.len(),
            r@ + pascal_from(v@.skip(i as int), at_start) == pascal(s@),
            all_ascii(s@) ==> r@ + pascal_ascii_from(v@.skip(i as int), at_start) == pascal_ascii(s@),
        decreases v@.len() - i,
    {
        let c = v[i];
        let ghost old_r = r@;
        assert(v@.skip(i as int).drop_first() =~= v@.skip(i + 1));
        assert(v@.skip(i as int)[0] == c);
        assert(all_ascii(s@) ==> is_ascii_char(c));
        if c == '_' {
            at_start = true;
        } else if at_start {
            let u = upper_of(c);
            r.append(u.as_str());
            at_start = false;
            assert(r@ + pascal_from(v@.skip(i + 1), false) =~= old_r + (char_upper(c)
                + pascal_from(v@.skip(i + 1), false)));
            proof {
                if all_ascii(s@) {
                    assert(r@ + pascal_ascii_from(v@.skip(i + 1), false) =~= old_r + (seq![
                        ascii_upper(c),
                    ] + pascal_ascii_from(v@.skip(i + 1), false)));
                }
            }
        } else {
            push_char(&mut r, c);
            assert(r@ + pascal_from(v@.skip(i + 1), false) =~= old_r + (seq![c] + pascal_from(
                v@.skip(i + 1),
                false,
            )));
            assert(r@ + pascal_ascii_from(v@.skip(i + 1), false) =~= old_r + (seq![c]
                + pascal_ascii_from(v@.skip(i + 1), false)));
        }
        i = i + 1;
    }
    assert(r@ =~= pascal(s@));
    assert(all_ascii(s@) ==> r@ =~= pascal_ascii(s@));
    r
}

/// Converts a snake_case string to camelCase; names starting with `__`
/// are returned unchanged.
pub fn to_camel_case(s: &str) -> (r: String)
    ensures
        r@ == camel(s@),
        all_ascii(s@) ==> r@ == camel_ascii(s@),
{
    proof {
        reveal_strlit("__");
    }
    if starts_with(s, "__") {
        assert("__"@ =~= seq!['_', '_']);
        return owned(s);
    }
    assert("__"@ =~= seq!['_', '_']);
    let p = to_pascal_case(s);
    let pv = chars_of(p.as_str());
    if pv.len() == 0 {
        return p;
    }
    proof {
        if all_ascii(s@) {
            lemma_pascal_ascii_all(s@, true);
            assert(is_ascii_char(pv@[0]));
        }
    }
    let mut r = lower_of(pv[0]);
    let rest = string_of_range(&pv, 1, pv.len());
    r.append(rest.as_str());
    assert(rest@ =~= p@.drop_first());
    r
}

/// Converts a CamelCase string to snake_case.
pub fn to_snake_case(s: &str) -> (r: String)
    ensures
        r@ == snake(s@),
        all_ascii(s@) ==> r@ == snake_ascii(s@),
{
    let v = chars_of(s);
    let mut r = String::new();
    let mut i: usize = 0;
    while i < v.len()
        invariant
            v@ == s@,
            i <= v@.len(),
            r@ == snake_upto(s@, i as int),
            all_ascii(s@) ==> r@ == snake_ascii_upto(s@, i as int),
        decreases v@.len() - i,
    {
        let c = v[i];
        assert(all_ascii(s@) ==> is_ascii_char(s@[i as int]));
        if is_upper(c) && i > 0 {
            push_char(&mut r, '_');
        }
        let low = lower_of(c);
        let lv = chars_of(low.as_str());
        push_char(&mut r, lv[0]);
        proof {
            let sep = if char_is_upper(c) && i > 0 {
                seq!['_']
            } else {
                Seq::empty()
            };
            assert(r@ =~= snake_upto(s@, i as int) + sep + seq![first_lower(c)]);
            if all_ascii(s@) {
                let sep2 = if 'A' <= c && c <= 'Z' && i > 0 {
                    seq!['_']
                } else {
                    Seq::empty()
                };
                assert(r@ =~= snake_ascii_upto(s@, i as int) + sep2 + seq![ascii_lower(c)]);
            }
        }
        i = i + 1;
    }
    r
}

/// The position just past the leading run of ASCII characters of `p`.
pub open spec fn ascii_run(p: Seq<char>) -> int
    decreases p.len(),
{
    if p.len() == 0 || !is_ascii_char(p[0]) {
        0
    } else {
        1 + ascii_run(p.drop_first())
    }
}

/// The end of the scan for a suffix of `prefix` overlapping the start of
/// a type name: the byte positions tried are exactly the character
/// positions up to the first non-ASCII character, which ends the scan.
pub open spec fn overlap_limit(prefix: Seq<char>) -> int {
    if ascii_run(prefix) == prefix.len() {
        prefix.len() as int
    } else {
        ascii_run(prefix) + 1
    }
}

/// The first `k` in `[k, lim)` such that `prefix[k..]` begins `ty_name`.
pub open spec fn first_overlap(prefix: Seq<char>, ty_name: Seq<char>, k: int, lim: int) -> Option<
    int,
>
    decreases lim - k,
{
    if k >= lim {
        None
    } else if prefix.skip(k).is_prefix_of(ty_name) {
        Some(k)
    } else {
        first_overlap(prefix, ty_name, k + 1, lim)
    }
}

/// The inputs on which the prefixing terminates normally: when the scan
/// would reach a non-ASCII character before finding an overlap, the
/// byte-indexed slicing it performs falls inside a character.
pub open spec fn prefixed_type_ok(prefix: Seq<char>, ty_name: Seq<char>) -> bool {
    ||| prefix.is_prefix_of(ty_name)
    ||| ascii_run(prefix) == prefix.len()
    ||| first_overlap(prefix, ty_name, 1, overlap_limit(prefix)) is Some
}

/// `ty_name` prefixed by `prefix`, without repeating an overlap: a type
/// name already starting with the prefix is kept, one that starts with a
/// proper suffix of the prefix gets only the missing front part.
pub open spec fn prefixed(prefix: Seq<char>, ty_name: Seq<char>) -> Seq<char> {
    if prefix.is_prefix_of(ty_name) {
        ty_name
    } else {
        match first_overlap(prefix, ty_name, 1, overlap_limit(prefix)) {
            Some(k) => prefix.take(k) + ty_name,
            None => prefix + ty_name,
        }
    }
}

pub(crate) proof fn lemma_ascii_run(p: Seq<char>, k: int)
    requires
        0 <= k <= p.len(),
        forall|j: int| 0 <= j < k ==> is_ascii_char(p[j]),
    ensures
        k == p.len() ==> ascii_run(p) == p.len(),
        k < p.len() && !is_ascii_char(p[k]) ==> ascii_run(p) == k,
    decreases k,
{
    if k > 0 {
        lemma_ascii_run(p.drop_first(), k - 1);
    }
}

pub(crate) proof fn lemma_first_overlap_skip(prefix: Seq<char>, ty_name: Seq<char>, k: int, lim: int)
    requires
        1 <= k <= lim,
        forall|j: int| 1 <= j < k ==> !prefix.skip(j).is_prefix_of(ty_name),
    ensures
        first_overlap(prefix, ty_name, 1, lim) == first_overlap(prefix, ty_name, k, lim),
    decreases k,
{
    if k > 1 {
        lemma_first_overlap_skip(prefix, ty_name, k - 1, lim);
    }
}

/// Combines a handler path prefix with a type name, dropping an overlap
/// between a suffix of the prefix and the start of the type name.
pub fn prefixed_type(prefix: &str, ty_name: &str) -> (r: String)
    requires
        prefixed_type_ok(prefix@, ty_name@),
    ensures
        r@ == prefixed(prefix@, ty_name@),
{
    if starts_with(ty_name, prefix) {
        return owned(ty_name);
    }
    let pv = chars_of(prefix);
    let n = pv.len();
    let mut m: usize = 0;
    while m < n && (pv[m] as u32) < 128
        invariant
            pv@ == prefix@,
            n == pv@.len(),
            m <= n,
            forall|j: int| 0 <= j < m ==> is_ascii_char(pv@[j]),
        decreases n - m,
    {
        m = m + 1;
    }
    proof {
        lemma_ascii_run(prefix@, m as int);
    }
    let lim: usize = if m == n { n } else { m + 1 };
    let mut k: usize = 1;
    while k < lim
        invariant
            pv@ == prefix@,
            lim == overlap_limit(prefix@),
            !prefix@.is_prefix_of(ty_name@),
            lim <= n,
            n == pv@.len(),
            1 <= k,
            forall|j: int| 1 <= j < k ==> !prefix@.skip(j).is_prefix_of(ty_name@),
        decreases lim - k,
    {
        let suffix = string_of_range(&pv, k, n);
        assert(suffix@ =~= prefix@.skip(k as int));
        if starts_with(ty_name, suffix.as_str()) {
            proof {
                lemma_first_overlap_skip(prefix@, ty_name@, k as int, lim as int);
                assert(first_overlap(prefix@, ty_name@, k as int, lim as int) == Some(k as int));
            }
            let head = string_of_range(&pv, 0, k);
            assert(head@ =~= prefix@.take(k as int));
            return cat2(head.as_str(), ty_name);
        }
        k = k + 1;
    }
    proof {
        if lim >= 1 {
            lemma_first_overlap_skip(prefix@, ty_name@, lim as int, lim as int);
        }
    }
    cat2(prefix, ty_name)
}

/// The PascalCase prefix of a handler path: every segment without its
/// leading `:` characters, in PascalCase, concatenated.
pub open spec fn handler_prefix_of(path: Seq<Seq<char>>) -> Seq<char> {
    concat_seq(path.map_values(|s: Seq<char>| pascal(trim_start_char(s, ':'))))
}

/// Builds the type-name prefix for a handler from its path segments.
pub fn handler_prefix(path: &Vec<String>) -> (r: String)
    ensures
        r@ == handler_prefix_of(crate::text::views(path@)),
{
    let mut r = String::new();
    let mut i: usize = 0;
    while i < path.len()
        invariant
            i <= path@.len(),
            r@ == handler_prefix_of(crate::text::views(path@.subrange(0, i as int))),
        decreases path@.len() - i,
    {
        let seg = trim_start_matches(path[i].as_str(), ':');
        let p = to_pascal_case(seg.as_str());
        r.append(p.as_str());
        proof {
            let f = |s: Seq<char>| pascal(trim_start_char(s, ':'));
            let pre = crate::text::views(path@.subrange(0, i as int)).map_values(f);
            let post = crate::text::views(path@.subrange(0, i + 1)).map_values(f);
            assert(post.drop_last() =~= pre);
        }
        i = i + 1;
    }
    assert(path@.subrange(0, path@.len() as int) =~= path@);
    r
}

/// The suffix naming an ordinary handler's generated type for an extractor:
/// the first `Data` is `Request`, later ones `Request2`, `Request3`, ...
pub open spec fn ordinary_suffix_of(extractor: Seq<char>, data_idx: nat) -> Seq<char> {
    if extractor == "Data"@ && data_idx == 0 {
        "Request"@
    } else if extractor == "Data"@ {
        "Request"@ + dec_nat(data_idx + 1)
    } else if extractor == "Query"@ {
        "Query"@
    } else if extractor == "Param"@ {
        "PathParams"@
    } else if extractor == "Body"@ {
        "Body"@
    } else {
        "Response"@
    }
}

/// Produces the suffix appended to handler-prefixed type names of ordinary
/// HTTP handlers.
pub fn ordinary_suffix(extractor: &str, data_idx: usize) -> (r: String)
    requires
        data_idx < usize::MAX,
    ensures
        r@ == ordinary_suffix_of(extractor@, data_idx as nat),
{
    if str_eq(extractor, "Data") && data_idx == 0 {
        owned("Request")
    } else if str_eq(extractor, "Data") {
        let n = dec_usize(data_idx + 1);
        cat2("Request", n.as_str())
    } else if str_eq(extractor, "Query") {
        owned("Query")
    } else if str_eq(extractor, "Param") {
        owned("PathParams")
    } else if str_eq(extractor, "Body") {
        owned("Body")
    } else {
        owned("Response")
    }
}

/// The HTTP header name for a struct field: `_` becomes `-`.
pub open spec fn header_name_of(field_name: Seq<char>) -> Seq<char> {
    replace_char_seq(field_name, '_', "-"@)
}

/// Converts a snake_case field name to its HTTP header name.
pub fn to_header_name(field_name: &str) -> (r: String)
    ensures
        r@ == header_name_of(field_name@),
{
    replace_char(field_name, '_', "-")
}


proof fn lemma_first_overlap_found(prefix: Seq<char>, ty_name: Seq<char>, k: int, lim: int)
    ensures
        first_overlap(prefix, ty_name, k, lim) matches Some(j) ==> k <= j < lim && prefix.skip(j).is_prefix_of(
            ty_name,
        ),
    decreases lim - k,
{
    if k < lim {
        lemma_first_overlap_found(prefix, ty_name, k + 1, lim);
    }
}

proof fn lemma_ascii_run_le(p: Seq<char>)
    ensures
        0 <= ascii_run(p) <= p.len(),
    decreases p.len(),
{
    if p.len() > 0 {
        lemma_ascii_run_le(p.drop_first());
    }
}

/// A prefixed type name starts with the whole prefix and ends with the
/// whole type name, and prefixing it again changes nothing.
pub proof fn law_prefixed_keeps_prefix_and_name(prefix: Seq<char>, ty_name: Seq<char>)
    ensures
        prefix.is_prefix_of(prefixed(prefix, ty_name)),
        ty_name.is_suffix_of(prefixed(prefix, ty_name)),
        prefixed(prefix, prefixed(prefix, ty_name)) == prefixed(prefix, ty_name),
{
    let r = prefixed(prefix, ty_name);
    lemma_ascii_run_le(prefix);
    lemma_first_overlap_found(prefix, ty_name, 1, overlap_limit(prefix));
    if !prefix.is_prefix_of(ty_name) {
        match first_overlap(prefix, ty_name, 1, overlap_limit(prefix)) {
            Some(k) => {
                assert(r == prefix.take(k) + ty_name);
                assert forall|i: int| 0 <= i < prefix.len() implies r[i] == prefix[i] by {
                    if i >= k {
                        assert(prefix.skip(k)[i - k] == ty_name[i - k]);
                    }
                }
                assert(r.subrange(r.len() - ty_name.len(), r.len() as int) =~= ty_name);
            },
            None => {
                assert(r == prefix + ty_name);
                assert(r.subrange(r.len() - ty_name.len(), r.len() as int) =~= ty_name);
            },
        }
    } else {
        assert(r.subrange(r.len() - ty_name.len(), r.len() as int) =~= ty_name);
    }
}

/// A snake_case name: non-empty `_`-separated words of ASCII lower-case
/// letters and digits, each word starting with a letter.
pub open spec fn snake_name(s: Seq<char>) -> bool {
    &&& s.len() > 0
    &&& 'a' <= s[0] && s[0] <= 'z'
    &&& snake_tail_ok(s)
}

/// Every character is a lower-case letter, a digit or a `_` followed by a
/// lower-case letter.
pub open spec fn snake_tail_ok(s: Seq<char>) -> bool {
    forall|i: int|
        0 <= i < s.len() ==> {
            let c = #[trigger] s[i];
            ('a' <= c && c <= 'z') || ('0' <= c && c <= '9') || (c == '_' && i + 1 < s.len() && 'a'
                <= s[i + 1] && s[i + 1] <= 'z')
        }
}

/// [`snake_ascii`] written from the front; `first` tells whether the text
/// starts the name.
spec fn snake_front(t: Seq<char>, first: bool) -> Seq<char>
    decreases t.len(),
{
    if t.len() == 0 {
        Seq::empty()
    } else {
        let c = t[0];
        let sep = if 'A' <= c && c <= 'Z' && !first {
            seq!['_']
        } else {
            Seq::empty()
        };
        sep + seq![ascii_lower(c)] + snake_front(t.drop_first(), false)
    }
}

spec fn snake_piece(c: char, first: bool) -> Seq<char> {
    (if 'A' <= c && c <= 'Z' && !first {
        seq!['_']
    } else {
        Seq::empty()
    }) + seq![ascii_lower(c)]
}

proof fn lemma_snake_front_push(u: Seq<char>, c: char, first: bool)
    ensures
        snake_front(u.push(c), first) == snake_front(u, first) + snake_piece(c, first && u.len() == 0),
    decreases u.len(),
{
    if u.len() == 0 {
        assert(u.push(c).drop_first() =~= Seq::<char>::empty());
        assert(snake_front(u.push(c).drop_first(), false) == Seq::<char>::empty());
        assert(u.push(c)[0] == c);
        assert(snake_front(u.push(c), first) =~= snake_piece(c, first));
        assert(snake_front(u, first) + snake_piece(c, first) =~= snake_piece(c, first));
    } else {
        assert(u.push(c).drop_first() =~= u.drop_first().push(c));
        assert(u.push(c)[0] == u[0]);
        lemma_snake_front_push(u.drop_first(), c, false);
        let sep = if 'A' <= u[0] && u[0] <= 'Z' && !first {
            seq!['_']
        } else {
            Seq::<char>::empty()
        };
        assert(snake_front(u.push(c), first) =~= sep + seq![ascii_lower(u[0])] + (snake_front(
            u.drop_first(),
            false,
        ) + snake_piece(c, false)));
    }
}

proof fn lemma_snake_ascii_front(t: Seq<char>, n: int)
    requires
        0 <= n <= t.len(),
    ensures
        snake_ascii_upto(t, n) == snake_front(t.take(n), true),
    decreases n,
{
    if n > 0 {
        lemma_snake_ascii_front(t, n - 1);
        assert(t.take(n) =~= t.take(n - 1).push(t[n - 1]));
        lemma_snake_front_push(t.take(n - 1), t[n - 1], true);
        assert(snake_ascii_upto(t, n) =~= snake_front(t.take(n - 1), true) + snake_piece(
            t[n - 1],
            n - 1 == 0,
        ));
    } else {
        assert(t.take(0) =~= Seq::<char>::empty());
    }
}

proof fn lemma_snake_tail_ok_rest(s: Seq<char>)
    requires
        s.len() > 0,
        snake_tail_ok(s),
    ensures
        snake_tail_ok(s.drop_first()),
{
    assert forall|i: int| 0 <= i < s.drop_first().len() implies {
        let c = #[trigger] s.drop_first()[i];
        ('a' <= c && c <= 'z') || ('0' <= c && c <= '9') || (c == '_' && i + 1 < s.drop_first().len()
            && 'a' <= s.drop_first()[i + 1] && s.drop_first()[i + 1] <= 'z')
    } by {
        assert(s.drop_first()[i] == s[i + 1]);
        let c = s[i + 1];
        if c == '_' {
            assert(s.drop_first()[i + 1] == s[i + 2]);
        }
    }
}

proof fn lemma_snake_of_pascal(s: Seq<char>, at_start: bool, first: bool)
    requires
        snake_tail_ok(s),
        at_start && s.len() > 0 && s[0] != '_' ==> 'a' <= s[0] && s[0] <= 'z',
        first ==> s.len() == 0 || s[0] != '_',
    ensures
        snake_front(pascal_ascii_from(s, at_start), first) == if at_start && !first && s.len() > 0
            && s[0] != '_' {
            seq!['_'] + s
        } else {
            s
        },
    decreases s.len(),
{
    if s.len() > 0 {
        let c = s[0];
        let rest = s.drop_first();
        lemma_snake_tail_ok_rest(s);
        assert(s =~= seq![c] + rest);
        if c == '_' {
            assert(1 < s.len() && 'a' <= s[1] && s[1] <= 'z');
            assert(rest[0] == s[1]);
            lemma_snake_of_pascal(rest, true, first);
        } else if at_start {
            let u = ascii_upper(c);
            assert('A' <= u && u <= 'Z');
            assert(ascii_lower(u) == c);
            if rest.len() > 0 && rest[0] == '_' {
                assert(rest[0] == s[1]);
            }
            lemma_snake_of_pascal(rest, false, false);
            let p = seq![u] + pascal_ascii_from(rest, false);
            assert(p[0] == u);
            assert(p.drop_first() =~= pascal_ascii_from(rest, false));
        } else {
            assert(('a' <= c && c <= 'z') || ('0' <= c && c <= '9'));
            assert(ascii_lower(c) == c);
            lemma_snake_of_pascal(rest, false, false);
            let p = seq![c] + pascal_ascii_from(rest, false);
            assert(p[0] == c);
            assert(p.drop_first() =~= pascal_ascii_from(rest, false));
        }
    }
}

proof fn lemma_pascal_ascii_all(s: Seq<char>, at_start: bool)
    requires
        all_ascii(s),
    ensures
        all_ascii(pascal_ascii_from(s, at_start)),
    decreases s.len(),
{
    if s.len() > 0 {
        assert(is_ascii_char(s[0]));
        assert forall|i: int| 0 <= i < s.drop_first().len() implies is_ascii_char(#[trigger] s.drop_first()[i]) by {
            assert(s.drop_first()[i] == s[i + 1]);
        }
        lemma_pascal_ascii_all(s.drop_first(), true);
        lemma_pascal_ascii_all(s.drop_first(), false);
        if 'a' <= s[0] && s[0] <= 'z' {
            assert(((s[0] as u32) - 32) < 128);
        }
        let r = pascal_ascii_from(s, at_start);
        assert forall|i: int| 0 <= i < r.len() implies is_ascii_char(#[trigger] r[i]) by {
            if s[0] != '_' && i > 0 {
                assert(r[i] == pascal_ascii_from(s.drop_first(), false)[i - 1]);
            }
        }
    }
}

/// Turning a snake_case name to PascalCase and back gives the name again;
/// the PascalCase form is ASCII too, so the ASCII forms of the conversions
/// apply to it.
pub proof fn law_snake_pascal_roundtrip(s: Seq<char>)
    requires
        snake_name(s),
    ensures
        all_ascii(s),
        all_ascii(pascal_ascii(s)),
        snake_ascii(pascal_ascii(s)) == s,
{
    assert forall|i: int| 0 <= i < s.len() implies is_ascii_char(#[trigger] s[i]) by {
        let c = s[i];
        assert(('a' <= c && c <= 'z') || ('0' <= c && c <= '9') || c == '_');
    }
    lemma_pascal_ascii_all(s, true);
    let p = pascal_ascii(s);
    lemma_snake_ascii_front(p, p.len() as int);
    assert(p.take(p.len() as int) =~= p);
    lemma_snake_of_pascal(s, true, true);
}

} // verus!
