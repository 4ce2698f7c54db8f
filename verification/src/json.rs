//! A minimal JSON writer for the schema embedded in the documentation page.

use vstd::prelude::*;
use crate::text::{chars_of, dec_i64, dec_int, push_char};

verus! {

/// The JSON (and HTML-safe) escape of one character of a string value.
pub open spec fn escape_char(c: char) -> Seq<char> {
    if c == '"' {
        seq!['\\', '"']
    } else if c == '\\' {
        seq!['\\', '\\']
    } else if c == '\n' {
        seq!['\\', 'n']
    } else if c == '\r' {
        seq!['\\', 'r']
    } else if c == '\t' {
        seq!['\\', 't']
    } else if c == '<' {
        seq!['\\', 'u', '0', '0', '3', 'c']
    } else if c == '>' {
        seq!['\\', 'u', '0', '0', '3', 'e']
    } else if c == '&' {
        seq!['\\', 'u', '0', '0', '2', '6']
    } else {
        seq![c]
    }
}

/// The escape of every character of `s`, in order.
pub open spec fn escape(s: Seq<char>) -> Seq<char>
    decreases s.len(),
{
    if s.len() == 0 {
        Seq::empty()
    } else {
        escape(s.drop_last()) + escape_char(s.last())
    }
}

/// `s` as a JSON string literal.
pub open spec fn json_string(s: Seq<char>) -> Seq<char> {
    seq!['"'] + escape(s) + seq!['"']
}

/// `k` as an object key, followed by the `:`.
pub open spec fn json_key(k: Seq<char>) -> Seq<char> {
    seq!['"'] + k + seq!['"', ':']
}

/// Minimal JSON serializer used to build the schema data embedded in the
/// generated documentation page.
pub struct JsonBuilder {
    buf: String,
}

impl View for JsonBuilder {
    type V = Seq<char>;

    /// The text written so far.
    closed spec fn view(&self) -> Seq<char> {
        self.buf@
    }
}

impl JsonBuilder {
    /// An empty writer.
    pub fn new() -> (r: Self)
        ensures
            r@ == Seq::<char>::empty(),
    {
        JsonBuilder { buf: String::new() }
    }

    /// Writes `{`.
    pub fn object_start(&mut self)
        ensures
            final(self)@ == old(self)@.push('{'),
    {
        push_char(&mut self.buf, '{');
    }

    /// Writes `}`.
    pub fn object_end(&mut self)
        ensures
            final(self)@ == old(self)@.push('}'),
    {
        push_char(&mut self.buf, '}');
    }

    /// Writes `[`.
    pub fn array_start(&mut self)
        ensures
            final(self)@ == old(self)@.push('['),
    {
        push_char(&mut self.buf, '[');
    }

    /// Writes `]`.
    pub fn array_end(&mut self)
        ensures
            final(self)@ == old(self)@.push(']'),
    {
        push_char(&mut self.buf, ']');
    }

    /// Writes `k` as an object key followed by `:`; the key is written as is.
    pub fn key(&mut self, k: &str)
        ensures
            final(self)@ == old(self)@ + json_key(k@),
    {
        push_char(&mut self.buf, '"');
        self.buf.append(k);
        push_char(&mut self.buf, '"');
        push_char(&mut self.buf, ':');
        assert(self.buf@ =~= old(self)@ + json_key(k@));
    }

    /// Writes `v` as a string literal, escaping quotes, backslashes, line
    /// breaks, tabs and the HTML-significant `<`, `>` and `&`.
    pub fn string(&mut self, v: &str)
        ensures
            final(self)@ == old(self)@ + json_string(v@),
    {
        push_char(&mut self.buf, '"');
        let cs = chars_of(v);
        let mut i: usize = 0;
        while i < cs.len()
            invariant
                cs@ == v@,
                i <= cs@.len(),
                self.buf@ == old(self)@ + seq!['"'] + escape(v@.subrange(0, i as int)),
            decreases cs@.len() - i,
        {
            let c = cs[i];
            let ghost before = self.buf@;
            if c == '"' {
                push_char(&mut self.buf, '\\');
                push_char(&mut self.buf, '"');
            } else if c == '\\' {
                push_char(&mut self.buf, '\\');
                push_char(&mut self.buf, '\\');
            } else if c == '\n' {
                push_char(&mut self.buf, '\\');
                push_char(&mut self.buf, 'n');
            } else if c == '\r' {
                push_char(&mut self.buf, '\\');
                push_char(&mut self.buf, 'r');
            } else if c == '\t' {
                push_char(&mut self.buf, '\\');
                push_char(&mut self.buf, 't');
            } else if c == '<' {
                self.push_unicode_escape('3', 'c');
            } else if c == '>' {
                self.push_unicode_escape('3', 'e');
            } else if c == '&' {
                self.push_unicode_escape('2', '6');
            } else {
                push_char(&mut self.buf, c);
            }
            proof {
                assert(v@.subrange(0, i + 1).drop_last() =~= v@.subrange(0, i as int));
                assert(v@.subrange(0, i + 1).last() == c);
                assert(self.buf@ =~= before + escape_char(c));
            }
            i = i + 1;
        }
        push_char(&mut self.buf, '"');
        assert(v@.subrange(0, v@.len() as int) =~= v@);
        assert(self.buf@ =~= old(self)@ + json_string(v@));
    }

    /// Writes `\u00` and the two given hex digits.
    fn push_unicode_escape(&mut self, h: char, l: char)
        ensures
            final(self)@ == old(self)@ + seq!['\\', 'u', '0', '0', h, l],
    {
        push_char(&mut self.buf, '\\');
        push_char(&mut self.buf, 'u');
        push_char(&mut self.buf, '0');
        push_char(&mut self.buf, '0');
        push_char(&mut self.buf, h);
        push_char(&mut self.buf, l);
        assert(self.buf@ =~= old(self)@ + seq!['\\', 'u', '0', '0', h, l]);
    }

    /// Writes an integer in decimal.
    pub fn number(&mut self, v: i64)
        ensures
            final(self)@ == old(self)@ + dec_int(v as int),
    {
        let s = dec_i64(v);
        self.buf.append(s.as_str());
    }

    /// Writes an integer in decimal.
    pub fn i64(&mut self, v: i64)
        ensures
            final(self)@ == old(self)@ + dec_int(v as int),
    {
        let s = dec_i64(v);
        self.buf.append(s.as_str());
    }

    /// Writes a floating-point value given by its decimal text.
    pub fn float_text(&mut self, v: &str)
        ensures
            final(self)@ == old(self)@ + v@,
    {
        self.buf.append(v);
    }

    /// Writes `true` or `false`.
    pub fn bool(&mut self, v: bool)
        ensures
            final(self)@ == old(self)@ + (if v {
                "true"@
            } else {
                "false"@
            }),
    {
        self.buf.append(if v {
            "true"
        } else {
            "false"
        });
    }

    /// Writes `null`.
    pub fn null(&mut self)
        ensures
            final(self)@ == old(self)@ + "null"@,
    {
        self.buf.append("null");
    }

    /// Writes `,`.
    pub fn comma(&mut self)
        ensures
            final(self)@ == old(self)@.push(','),
    {
        push_char(&mut self.buf, ',');
    }

    /// Writes `s` unchanged.
    pub fn raw(&mut self, s: &str)
        ensures
            final(self)@ == old(self)@ + s@,
    {
        self.buf.append(s);
    }

    /// The text written.
    pub fn build(self) -> (r: String)
        ensures
            r@ == self@,
    {
        self.buf
    }
}


/// The characters an escaped character is written with.
proof fn lemma_escape_char_safe(c: char, i: int)
    requires
        0 <= i < escape_char(c).len(),
    ensures
        escape_char(c)[i] != '<' && escape_char(c)[i] != '>' && escape_char(c)[i] != '&'
            && escape_char(c)[i] != '\n' && escape_char(c)[i] != '\r' && escape_char(c)[i] != '\t',
{
}

/// An escaped string holds no raw `<`, `>`, `&`, line break, carriage
/// return or tab: a string value cannot end the script element it is
/// embedded in, nor break its line.
pub proof fn law_escape_is_html_safe(s: Seq<char>)
    ensures
        forall|i: int|
            0 <= i < escape(s).len() ==> {
                let c = #[trigger] escape(s)[i];
                c != '<' && c != '>' && c != '&' && c != '\n' && c != '\r' && c != '\t'
            },
    decreases s.len(),
{
    if s.len() > 0 {
        law_escape_is_html_safe(s.drop_last());
        let a = escape(s.drop_last());
        let b = escape_char(s.last());
        assert forall|i: int| 0 <= i < escape(s).len() implies {
            let c = #[trigger] escape(s)[i];
            c != '<' && c != '>' && c != '&' && c != '\n' && c != '\r' && c != '\t'
        } by {
            if i < a.len() {
                assert(escape(s)[i] == a[i]);
            } else {
                assert(escape(s)[i] == b[i - a.len()]);
                lemma_escape_char_safe(s.last(), i - a.len());
            }
        }
    }
}

/// The value of a hexadecimal digit.
pub open spec fn hex_digit(c: char) -> Option<int> {
    if '0' <= c && c <= '9' {
        Some(c as int - '0' as int)
    } else if 'a' <= c && c <= 'f' {
        Some(c as int - 'a' as int + 10)
    } else if 'A' <= c && c <= 'F' {
        Some(c as int - 'A' as int + 10)
    } else {
        None
    }
}

/// The character of a `\uXXXX` escape whose four digits start `t`, unless
/// they are not hexadecimal or name a surrogate (pairs are not read).
pub open spec fn unicode_escape(t: Seq<char>) -> Option<char> {
    if t.len() >= 4 && hex_digit(t[0]) is Some && hex_digit(t[1]) is Some && hex_digit(t[2]) is Some
        && hex_digit(t[3]) is Some {
        let v = 4096 * hex_digit(t[0])->0 + 256 * hex_digit(t[1])->0 + 16 * hex_digit(t[2])->0
            + hex_digit(t[3])->0;
        if 0xD800 <= v && v <= 0xDFFF {
            None
        } else {
            Some(v as char)
        }
    } else {
        None
    }
}

/// The character a two-character escape `\e` stands for.
pub open spec fn short_escape(e: char) -> Option<char> {
    if e == '"' {
        Some('"')
    } else if e == '\\' {
        Some('\\')
    } else if e == '/' {
        Some('/')
    } else if e == 'b' {
        Some('\u{8}')
    } else if e == 'f' {
        Some('\u{c}')
    } else if e == 'n' {
        Some('\n')
    } else if e == 'r' {
        Some('\r')
    } else if e == 't' {
        Some('\t')
    } else {
        None
    }
}

/// `c` put in front of a decoded text, if there is one.
pub open spec fn prepend(c: char, rest: Option<Seq<char>>) -> Option<Seq<char>> {
    match rest {
        Some(r) => Some(seq![c] + r),
        None => None,
    }
}

/// The characters a JSON decoder reads from the contents `t` of a string
/// literal (between its quotes), or `None` where `t` is not such contents:
/// an unescaped `"` or control character, or a malformed escape.
pub open spec fn json_unescape(t: Seq<char>) -> Option<Seq<char>>
    decreases t.len(),
{
    if t.len() == 0 {
        Some(Seq::empty())
    } else if t[0] == '\\' {
        if t.len() >= 2 && short_escape(t[1]) is Some {
            prepend(short_escape(t[1])->0, json_unescape(t.skip(2)))
        } else if t.len() >= 6 && t[1] == 'u' && unicode_escape(t.subrange(2, 6)) is Some {
            prepend(unicode_escape(t.subrange(2, 6))->0, json_unescape(t.skip(6)))
        } else {
            None
        }
    } else if t[0] == '"' || (t[0] as u32) < 0x20 {
        None
    } else {
        prepend(t[0], json_unescape(t.drop_first()))
    }
}

/// The characters that JSON requires escaped and that [`escape`] writes as
/// themselves: the control characters other than line break, carriage
/// return and tab.
pub open spec fn unescaped_control(c: char) -> bool {
    (c as u32) < 0x20 && c != '\n' && c != '\r' && c != '\t'
}

proof fn lemma_escape_front(s: Seq<char>)
    requires
        s.len() > 0,
    ensures
        escape(s) == escape_char(s[0]) + escape(s.drop_first()),
    decreases s.len(),
{
    if s.len() == 1 {
        assert(s.drop_last() =~= Seq::<char>::empty());
        assert(s.drop_first() =~= Seq::<char>::empty());
        assert(escape(s.drop_last()) == Seq::<char>::empty());
        assert(escape(s.drop_first()) == Seq::<char>::empty());
        assert(s.last() == s[0]);
        assert(escape(s) =~= escape_char(s[0]));
    } else {
        lemma_escape_front(s.drop_last());
        assert(s.drop_last().drop_first() =~= s.drop_first().drop_last());
        assert(s.drop_first().last() == s.last());
        assert(s.drop_last()[0] == s[0]);
        assert(escape(s) =~= escape_char(s[0]) + escape(s.drop_first()));
    }
}

proof fn lemma_unescape_char(c: char, rest: Seq<char>)
    requires
        !unescaped_control(c),
    ensures
        json_unescape(escape_char(c) + rest) == prepend(c, json_unescape(rest)),
{
    let t = escape_char(c) + rest;
    let e = escape_char(c);
    if e.len() == 2 {
        assert(t[0] == '\\' && t[1] == e[1]);
        assert(t.skip(2) =~= rest);
    } else if e.len() == 6 {
        assert(t[0] == '\\' && t[1] == 'u');
        assert(t.subrange(2, 6) =~= e.subrange(2, 6));
        assert(t.skip(6) =~= rest);
        assert(short_escape('u') is None);
        let d = e.subrange(2, 6);
        assert(d[0] == '0' && d[1] == '0');
        if c == '<' {
            assert(d[2] == '3' && d[3] == 'c');
            assert(unicode_escape(d) == Some(60int as char));
            assert((60int as char) == '<');
        } else if c == '>' {
            assert(d[2] == '3' && d[3] == 'e');
            assert(unicode_escape(d) == Some(62int as char));
            assert((62int as char) == '>');
        } else {
            assert(d[2] == '2' && d[3] == '6');
            assert(unicode_escape(d) == Some(38int as char));
            assert((38int as char) == '&');
        }
    } else {
        assert(e == seq![c]);
        assert(t[0] == c);
        assert(t.drop_first() =~= rest);
    }
}

/// A string written by the builder reads back, with a JSON decoder, as the
/// string itself, as long as it holds no control character that JSON
/// requires escaped and that the builder leaves as it is (other than line
/// break, carriage return and tab, which it escapes).
pub proof fn law_json_string_decodes(v: Seq<char>)
    requires
        forall|i: int| 0 <= i < v.len() ==> !unescaped_control(#[trigger] v[i]),
    ensures
        json_string(v) == seq!['"'] + escape(v) + seq!['"'],
        json_unescape(escape(v)) == Some(v),
    decreases v.len(),
{
    if v.len() > 0 {
        let rest = v.drop_first();
        assert forall|i: int| 0 <= i < rest.len() implies !unescaped_control(#[trigger] rest[i]) by {
            assert(rest[i] == v[i + 1]);
        }
        law_json_string_decodes(rest);
        lemma_escape_front(v);
        assert(!unescaped_control(v[0]));
        lemma_unescape_char(v[0], escape(rest));
        assert(seq![v[0]] + rest =~= v);
    }
}

} // verus!
