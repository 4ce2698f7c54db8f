//! HTTP header names that clients set on their own.

use vstd::prelude::*;

verus! {

/// The lower-case names of the headers that a browser or an HTTP library
/// sets itself, so that generated clients need not expose them.
pub open spec fn standard_headers() -> Seq<Seq<char>> {
    seq![
        "accept"@,
        "accept-encoding"@,
        "accept-language"@,
        "authorization"@,
        "cache-control"@,
        "connection"@,
        "content-length"@,
        "content-type"@,
        "cookie"@,
        "host"@,
        "origin"@,
        "referer"@,
        "user-agent"@,
    ]
}

/// Whether `name` is one of the [`standard_headers`].
pub open spec fn standard_header(name: Seq<char>) -> bool {
    standard_headers().contains(name)
}

/// Returns whether `name` is a header that clients set on their own.
pub fn is_standard_header(name: &str) -> (r: bool)
    ensures
        r == standard_header(name@),
{
    let list: [&str; 13] = [
        "accept",
        "accept-encoding",
        "accept-language",
        "authorization",
        "cache-control",
        "connection",
        "content-length",
        "content-type",
        "cookie",
        "host",
        "origin",
        "referer",
        "user-agent",
    ];
    let ghost names = standard_headers();
    assert(list@.map_values(|s: &str| s@) =~= names);
    let mut i: usize = 0;
    while i < 13
        invariant
            i <= 13,
            list@.map_values(|s: &str| s@) == names,
            names == standard_headers(),
            forall|j: int| 0 <= j < i ==> names[j] != name@,
        decreases 13 - i,
    {
        if crate::text::str_eq(list[i], name) {
            assert(names[i as int] == name@);
            return true;
        }
        i = i + 1;
    }
    assert(!names.contains(name@));
    false
}

} // verus!
