//! The HTML pages of the documentation: the index of the services and a
//! page per service with its endpoint explorer.

use vstd::prelude::*;
use vstd::utf8::encode_utf8;
use crate::buf::build_lines;
use crate::code::find_service;
use crate::doc::assets::{css, css_text, ui_js, ui_js_text};
use crate::doc::schema::{build_schema, schema_json};
use crate::js::service::{generate_service_js, service_js_lines, service_js_ok};
use crate::model::{Handler, JsTsCallType, Service};
use crate::naming::{pascal, to_pascal_case};
use crate::text::{
    cat2, cat3, cat4, cat5, cat6, cat7, chars_of, dec_nat, dec_u64, dec_usize, is_ws, is_ws_char, join, join_seq,
    owned, push_char, replace, replace_seq, str_eq, string_of_range,
};

verus! {

/// The start of the index page, up to the favicon.
pub const INDEX_0: &'static str = "<!-- Auto-generated by afast. DO NOT EDIT. -->
<!DOCTYPE html>
<html lang=\"en\" data-theme=\"dark\">
<head>
<meta charset=\"UTF-8\">
<meta name=\"viewport\" content=\"width=device-width, initial-scale=1.0\">
<link rel=\"icon\" type=\"image/svg+xml\" href=\"";

/// The text of the index page between the favicon and the page title.
pub const INDEX_1: &'static str = "\">
<title>";

/// The text of the index page between the page title and the css.
pub const INDEX_2: &'static str = "</title>
<style>";

/// The text of the index page between the css and the h1 title.
pub const INDEX_3: &'static str = "</style>
</head>
<body>
<div class=\"header\">
    <h1>";

/// The text of the index page between the h1 title and the theme icon.
pub const INDEX_4: &'static str = "</h1>
    <button id=\"theme-toggle\">";

/// The text of the index page between the theme icon and the cards.
pub const INDEX_5: &'static str = "</button>
</div>
<div class=\"content\" style=\"max-width:700px;margin:0 auto;padding:32px 24px;\">
    <div class=\"service-list\">";

/// The end of the index page, after the cards.
pub const INDEX_6: &'static str = "</div>
</div>
<script>
(function(){
    const saved = localStorage.getItem('afast-doc-theme') || 'dark';
    document.documentElement.setAttribute('data-theme', saved);
    document.getElementById('theme-toggle').textContent = saved === 'dark' ? '\u{2600}\u{fe0f}' : '\u{1f319}';
    document.getElementById('theme-toggle').addEventListener('click', function(){
        const c = document.documentElement.getAttribute('data-theme');
        const n = c === 'dark' ? 'light' : 'dark';
        document.documentElement.setAttribute('data-theme', n);
        this.textContent = n === 'dark' ? '\u{2600}\u{fe0f}' : '\u{1f319}';
        localStorage.setItem('afast-doc-theme', n);
    });
})();
</script>
</body>
</html>";

/// The start of the service page, up to the favicon.
pub const PAGE_0: &'static str = "<!-- Auto-generated by afast. DO NOT EDIT. -->
<!DOCTYPE html>
<html lang=\"en\" data-theme=\"dark\">
<head>
<meta charset=\"UTF-8\">
<meta name=\"viewport\" content=\"width=device-width, initial-scale=1.0\">
<link rel=\"icon\" type=\"image/svg+xml\" href=\"";

/// The text of the service page between the favicon and the title.
pub const PAGE_1: &'static str = "\">
<title>";

/// The text of the service page between the title and the css.
pub const PAGE_2: &'static str = "</title>
<style>";

/// The text of the service page between the css and the service name.
pub const PAGE_3: &'static str = "</style>
</head>
<body>
<div class=\"header\">
    <div style=\"display:flex;align-items:baseline;\">
        <h1>";

/// The text of the service page between the service name and the desc line.
pub const PAGE_4: &'static str = "</h1>
        <span class=\"subtitle\">API Documentation</span>
    </div>
    ";

/// The text of the service page between the desc line and the theme icon.
pub const PAGE_5: &'static str = "
    <div class=\"header-controls\">
        <a href=\"/doc\" class=\"btn btn-secondary header-btn\">All Services</a>
        <select id=\"transport-select\" class=\"header-input\">
            <option value=\"ws\">ws</option>
            <option value=\"fetch\">http</option>
        </select>
        <label class=\"header-checkbox\" title=\"Use secure connection (wss/https)\">
            <input type=\"checkbox\" id=\"secure-check\"> TLS
        </label>
        <input id=\"host-input\" type=\"text\" placeholder=\"localhost\" class=\"header-input\" style=\"width:140px;\">
        <span class=\"header-sep\">:</span>
        <input id=\"port-input\" type=\"text\" placeholder=\"3000\" class=\"header-input\" style=\"width:64px;\">
        <button id=\"connect-btn\" class=\"btn btn-primary header-btn\">Save</button>
        <button id=\"disconnect-btn\" class=\"btn header-btn hidden\">Disconnect</button>
        <button id=\"theme-toggle\" class=\"header-input\">";

/// The text of the service page between the theme icon and the schema json.
pub const PAGE_6: &'static str = "</button>
    </div>
</div>
<div class=\"main\">
    <nav class=\"sidebar\" id=\"sidebar\"></nav>
    <div class=\"content\">
        <div class=\"panel\" id=\"customs-panel\">
            <div class=\"collapsible-header\" id=\"customs-toggle\">
                <h2>Custom Parameters</h2>
                <span class=\"collapsible-arrow\" id=\"customs-arrow\">\u{25b6}</span>
            </div>
            <div class=\"collapsible-body\" id=\"customs-body\">
                <p class=\"text-secondary\" style=\"font-size:13px;margin:8px 0 12px;\">These values are sent with every request and saved to localStorage.</p>
                <div id=\"customs-fields\"></div>
                <div class=\"btn-row\">
                    <button class=\"btn btn-primary\" id=\"customs-save\">Save</button>
                </div>
            </div>
        </div>
        <div class=\"panel\" id=\"headers-panel\">
            <div class=\"collapsible-header\" id=\"headers-toggle\">
                <h2>Header Parameters</h2>
                <span class=\"collapsible-arrow\" id=\"headers-arrow\">\u{25b6}</span>
            </div>
            <div class=\"collapsible-body\" id=\"headers-body\">
                <p class=\"text-secondary\" style=\"font-size:13px;margin:8px 0 12px;\">These values are sent as HTTP headers with every ordinary request and saved to localStorage.</p>
                <div id=\"headers-fields\"></div>
                <div class=\"btn-row\">
                    <button class=\"btn btn-primary\" id=\"headers-save\">Save</button>
                </div>
            </div>
        </div>
        <div id=\"endpoints\"></div>
    </div>
</div>

<!-- JSON Edit Modal -->
<div class=\"modal-overlay\" id=\"json-modal\">
    <div class=\"modal-content\">
        <h3>Edit JSON</h3>
        <textarea id=\"json-modal-text\"></textarea>
        <div class=\"modal-actions\">
            <button class=\"btn btn-secondary\" id=\"json-modal-close\">Cancel</button>
            <button class=\"btn btn-primary\" id=\"json-modal-apply\">Apply</button>
        </div>
    </div>
</div>

<!-- Schema Data -->
<script id=\"schema-data\" type=\"application/json\">
";

/// The text of the service page between the schema json and the js client.
pub const PAGE_7: &'static str = "
</script>

<!-- Embedded JS Client -->
<script>
";

/// The text of the service page between the js client and the ui js.
pub const PAGE_8: &'static str = "
</script>

<!-- WebComponent + UI Logic -->
<script>
";

/// The end of the service page, after the ui js.
pub const PAGE_9: &'static str = "
</script>
</body>
</html>";

/// The value of a run of ASCII digits.
pub open spec fn digits_value(s: Seq<char>) -> int
    decreases s.len(),
{
    if s.len() == 0 {
        0
    } else {
        digits_value(s.drop_last()) * 10 + ((s.last() as int) - ('0' as int))
    }
}

/// Every character is an ASCII digit.
pub open spec fn all_digits(s: Seq<char>) -> bool {
    forall|i: int| 0 <= i < s.len() ==> '0' <= #[trigger] s[i] <= '9'
}

/// The `u16` a text denotes the way `str::parse::<u16>` reads it: an
/// optional `+`, then one or more ASCII digits whose value fits.
pub open spec fn parse_u16_spec(s: Seq<char>) -> Option<u16> {
    let d = if s.len() > 0 && s[0] == '+' {
        s.drop_first()
    } else {
        s
    };
    if d.len() > 0 && all_digits(d) && digits_value(d) <= 65535 {
        Some(digits_value(d) as u16)
    } else {
        None
    }
}

proof fn lemma_digits_nonneg(s: Seq<char>)
    requires
        all_digits(s),
    ensures
        digits_value(s) >= 0,
    decreases s.len(),
{
    if s.len() > 0 {
        lemma_digits_nonneg(s.drop_last());
    }
}

/// Reads a `u16` the way `str::parse::<u16>` does.
pub fn parse_u16(s: &str) -> (r: Option<u16>)
    ensures
        r == parse_u16_spec(s@),
{
    let v = chars_of(s);
    let mut start: usize = 0;
    if v.len() > 0 && v[0] == '+' {
        start = 1;
    }
    let ghost d = if s@.len() > 0 && s@[0] == '+' {
        s@.drop_first()
    } else {
        s@
    };
    assert(d =~= s@.subrange(start as int, s@.len() as int));
    if start >= v.len() {
        return None;
    }
    let mut acc: u32 = 0;
    let mut i: usize = start;
    while i < v.len()
        invariant
            v@ == s@,
            start <= i <= v@.len(),
            d == s@.subrange(start as int, s@.len() as int),
            parse_u16_spec(s@) == (if d.len() > 0 && all_digits(d) && digits_value(d) <= 65535 {
                Some(digits_value(d) as u16)
            } else {
                None
            }),
            all_digits(s@.subrange(start as int, i as int)),
            acc <= 65535 ==> acc == digits_value(s@.subrange(start as int, i as int)),
            acc > 65535 <==> digits_value(s@.subrange(start as int, i as int)) > 65535,
            acc <= 65536,
        decreases v@.len() - i,
    {
        let c = v[i];
        let ghost pre = s@.subrange(start as int, i as int);
        let ghost next = s@.subrange(start as int, i + 1);
        assert(next.drop_last() =~= pre);
        assert(next.last() == c);
        if c < '0' || c > '9' {
            assert(!all_digits(d)) by {
                assert(d[(i - start) as int] == c);
            }
            return None;
        }
        proof {
            lemma_digits_nonneg(pre);
        }
        if acc <= 65535 {
            let dv: u32 = (c as u32) - ('0' as u32);
            let n: u32 = acc * 10 + dv;
            if n > 65535 {
                acc = 65536;
            } else {
                acc = n;
            }
        }
        assert(all_digits(next));
        i = i + 1;
    }
    assert(s@.subrange(start as int, v@.len() as int) == d);
    if acc > 65535 {
        None
    } else {
        Some(acc as u16)
    }
}

/// The text after the last `:` of an address (all of it when there is
/// none): its port.
pub open spec fn after_colon(s: Seq<char>) -> Seq<char>
    decreases s.len(),
{
    if s.len() == 0 || s.last() == ':' {
        Seq::empty()
    } else {
        after_colon(s.drop_last()).push(s.last())
    }
}

/// The port an address gives the page: its text after the last `:`, read
/// as a `u16`.
pub open spec fn port_of(addr: Seq<char>) -> Option<u16> {
    parse_u16_spec(after_colon(addr))
}

fn after_colon_text(s: &str) -> (r: String)
    ensures
        r@ == after_colon(s@),
{
    let v = chars_of(s);
    let n = v.len();
    let mut k: usize = n;
    assert(s@.subrange(0, n as int) =~= s@);
    assert(s@.subrange(n as int, n as int) =~= Seq::<char>::empty());
    assert(after_colon(s@) + Seq::<char>::empty() =~= after_colon(s@));
    while k > 0 && v[k - 1] != ':'
        invariant
            v@ == s@,
            n == v@.len(),
            k <= n,
            after_colon(s@) == after_colon(s@.subrange(0, k as int)) + s@.subrange(k as int, n as int),
        decreases k,
    {
        let ghost pre = s@.subrange(0, k as int);
        assert(pre.drop_last() =~= s@.subrange(0, k - 1));
        assert(pre.last() == v@[k - 1]);
        assert(s@.subrange(k - 1, n as int) =~= seq![v@[k - 1]] + s@.subrange(k as int, n as int));
        assert(after_colon(pre) == after_colon(s@.subrange(0, k - 1)).push(v@[k - 1]));
        assert(after_colon(pre) + s@.subrange(k as int, n as int) =~= after_colon(s@.subrange(0, k - 1))
            + s@.subrange(k - 1, n as int));
        k = k - 1;
    }
    proof {
        let pre = s@.subrange(0, k as int);
        if k > 0 {
            assert(pre.last() == v@[k - 1]);
        }
        assert(after_colon(pre) =~= Seq::<char>::empty());
    }
    assert(s@.subrange(0, n as int) =~= s@);
    let r = string_of_range(&v, k, n);
    assert(r@ =~= after_colon(s@));
    r
}

/// Reads the port of an address.
pub fn port_of_addr(addr: &str) -> (r: Option<u16>)
    ensures
        r == port_of(addr@),
{
    let b = after_colon_text(addr);
    parse_u16(b.as_str())
}

/// The maximal runs of non-white-space characters of `s`, in order: the
/// pieces `split_whitespace` yields.
pub open spec fn words(s: Seq<char>) -> Seq<Seq<char>>
    decreases s.len(),
{
    if s.len() == 0 {
        Seq::empty()
    } else {
        let w = words(s.drop_last());
        let c = s.last();
        if is_ws(c) {
            w
        } else if s.len() > 1 && !is_ws(s[s.len() - 2]) && w.len() > 0 {
            w.update(w.len() - 1, w.last().push(c))
        } else {
            w.push(seq![c])
        }
    }
}

fn words_of(s: &str) -> (r: Vec<String>)
    ensures
        crate::text::views(r@) == words(s@),
{
    let v = chars_of(s);
    let mut r: Vec<String> = Vec::new();
    let mut i: usize = 0;
    assert(crate::text::views(r@) =~= words(s@.subrange(0, 0)));
    while i < v.len()
        invariant
            v@ == s@,
            i <= v@.len(),
            crate::text::views(r@) == words(s@.subrange(0, i as int)),
        decreases v@.len() - i,
    {
        let c = v[i];
        let ghost pre = s@.subrange(0, i as int);
        let ghost next = s@.subrange(0, i + 1);
        assert(next.drop_last() =~= pre);
        assert(next.last() == c);
        let ghost w = crate::text::views(r@);
        if is_ws_char(c) {
        } else if i > 0 && !is_ws_char(v[i - 1]) && r.len() > 0 {
            assert(next[next.len() - 2] == v@[i - 1]);
            let mut last = r.pop().unwrap();
            let ghost l0 = last@;
            push_char(&mut last, c);
            r.push(last);
            assert(crate::text::views(r@) =~= w.update(w.len() - 1, w.last().push(c)));
        } else {
            if i > 0 {
                assert(next[next.len() - 2] == v@[i - 1]);
            }
            let mut one = String::new();
            push_char(&mut one, c);
            r.push(one);
            assert(crate::text::views(r@) =~= w.push(seq![c]));
        }
        i = i + 1;
    }
    assert(s@.subrange(0, v@.len() as int) =~= s@);
    r
}

/// The text that stands for one byte of the icon in the data URI: the
/// characters a URI cannot hold as they are are percent-encoded, any
/// other byte becomes the character with that code.
pub open spec fn uri_byte(b: u8) -> Seq<char> {
    if b == 0x23 {
        "%23"@
    } else if b == 0x3C {
        "%3C"@
    } else if b == 0x3E {
        "%3E"@
    } else if b == 0x22 {
        "%22"@
    } else if b == 0x20 {
        "%20"@
    } else {
        seq![b as char]
    }
}

/// The texts of all bytes, in order.
pub open spec fn uri_bytes(bs: Seq<u8>) -> Seq<char>
    decreases bs.len(),
{
    if bs.len() == 0 {
        Seq::empty()
    } else {
        uri_bytes(bs.drop_last()) + uri_byte(bs.last())
    }
}

/// The data URI of an SVG icon: its white-space runs squeezed to single
/// spaces, then its UTF-8 bytes encoded one by one.
pub open spec fn favicon_uri(svg: Seq<char>) -> Seq<char> {
    "data:image/svg+xml,"@ + uri_bytes(encode_utf8(join_seq(words(svg), " "@)))
}

/// Returns the data URI under which the page embeds its icon.
pub fn favicon_data_uri(svg: &str) -> (r: String)
    ensures
        r@ == favicon_uri(svg@),
{
    let ws = words_of(svg);
    let squeezed = join(&ws, " ");
    let bytes = squeezed.as_str().as_bytes();
    assert(bytes@ == encode_utf8(squeezed@));
    let mut out = owned("data:image/svg+xml,");
    let mut i: usize = 0;
    while i < bytes.len()
        invariant
            i <= bytes@.len(),
            bytes@ == encode_utf8(join_seq(words(svg@), " "@)),
            out@ == "data:image/svg+xml,"@ + uri_bytes(bytes@.subrange(0, i as int)),
        decreases bytes@.len() - i,
    {
        let b = bytes[i];
        let ghost before = out@;
        if b == 0x23 {
            out.append("%23");
        } else if b == 0x3C {
            out.append("%3C");
        } else if b == 0x3E {
            out.append("%3E");
        } else if b == 0x22 {
            out.append("%22");
        } else if b == 0x20 {
            out.append("%20");
        } else {
            push_char(&mut out, b as char);
        }
        proof {
            assert(bytes@.subrange(0, i + 1).drop_last() =~= bytes@.subrange(0, i as int));
            assert(bytes@.subrange(0, i + 1).last() == b);
            assert(out@ =~= before + uri_byte(b));
        }
        i = i + 1;
    }
    assert(bytes@.subrange(0, bytes@.len() as int) =~= bytes@);
    out
}

/// The number of handlers (nodes with a function) in a tree.
pub open spec fn handler_count(hs: Seq<Handler>) -> nat
    decreases hs,
{
    if hs.len() == 0 {
        0
    } else {
        let h = hs.last();
        handler_count(hs.drop_last()) + (if h.meta.name@.len() > 0 {
            1nat
        } else {
            0nat
        }) + handler_count(h.children@)
    }
}

proof fn lemma_count_prefix(hs: Seq<Handler>, k: int)
    requires
        0 <= k <= hs.len(),
    ensures
        handler_count(hs.subrange(0, k)) <= handler_count(hs),
    decreases hs.len() - k,
{
    if k == hs.len() {
        assert(hs.subrange(0, k) =~= hs);
    } else {
        lemma_count_prefix(hs, k + 1);
        assert(hs.subrange(0, k + 1).drop_last() =~= hs.subrange(0, k));
    }
}

/// Counts the handlers (nodes with a function) of a tree.
pub fn count_handlers(handlers: &Vec<Handler>) -> (r: usize)
    requires
        handler_count(handlers@) <= usize::MAX,
    ensures
        r == handler_count(handlers@),
    decreases handlers,
{
    let mut n: usize = 0;
    let mut i: usize = 0;
    while i < handlers.len()
        invariant
            i <= handlers@.len(),
            handler_count(handlers@) <= usize::MAX,
            n == handler_count(handlers@.subrange(0, i as int)),
        decreases handlers@.len() - i,
    {
        let h = &handlers[i];
        proof {
            lemma_count_prefix(handlers@, i + 1);
            assert(handlers@.subrange(0, i + 1).drop_last() =~= handlers@.subrange(0, i as int));
            assert(handlers@.subrange(0, i + 1).last() == *h);
            assert(handler_count(handlers@.subrange(0, i + 1)) <= handler_count(handlers@));
        }
        if h.meta.name.unicode_len() > 0 {
            n = n + 1;
        }
        assert(decreases_to!(handlers => h.children));
        let c = count_handlers(&h.children);
        n = n + c;
        i = i + 1;
    }
    assert(handlers@.subrange(0, handlers@.len() as int) =~= handlers@);
    n
}

/// Counts the handlers of a tree, or gives `None` when their number does
/// not fit in a `usize`.
pub fn count_handlers_checked(handlers: &Vec<Handler>) -> (r: Option<usize>)
    ensures
        match r {
            Some(n) => n == handler_count(handlers@),
            None => handler_count(handlers@) > usize::MAX,
        },
    decreases handlers,
{
    let mut n: usize = 0;
    let mut i: usize = 0;
    while i < handlers.len()
        invariant
            i <= handlers@.len(),
            n == handler_count(handlers@.subrange(0, i as int)),
        decreases handlers@.len() - i,
    {
        let h = &handlers[i];
        proof {
            lemma_count_prefix(handlers@, i + 1);
            assert(handlers@.subrange(0, i + 1).drop_last() =~= handlers@.subrange(0, i as int));
            assert(handlers@.subrange(0, i + 1).last() == *h);
        }
        if h.meta.name.unicode_len() > 0 {
            if n == usize::MAX {
                return None;
            }
            n = n + 1;
        }
        assert(decreases_to!(handlers => h.children));
        match count_handlers_checked(&h.children) {
            None => {
                return None;
            },
            Some(c) => {
                if c > usize::MAX - n {
                    return None;
                }
                n = n + c;
            },
        }
        i = i + 1;
    }
    assert(handlers@.subrange(0, handlers@.len() as int) =~= handlers@);
    Some(n)
}

/// Whether every service's handlers can be counted.
pub fn counts_are_ok(services: &Vec<Service>) -> (r: bool)
    ensures
        r == counts_fit(services@),
{
    let mut i: usize = 0;
    while i < services.len()
        invariant
            i <= services@.len(),
            forall|j: int| 0 <= j < i ==> #[trigger] handler_count(services@[j].handlers@) <= usize::MAX,
        decreases services@.len() - i,
    {
        if count_handlers_checked(&services[i].handlers).is_none() {
            return false;
        }
        i = i + 1;
    }
    true
}

/// The JavaScript client of a service as the page embeds it: generated
/// with debug output, without `export`, its classes put on `window`.
pub open spec fn js_client(svc: Service, calls: Seq<JsTsCallType>) -> Seq<char> {
    let cn = pascal(svc.name@);
    replace_seq(build_lines(service_js_lines(svc, calls, true)), "export class "@, "class "@)
        + "\nwindow['Socket'] = Socket;\nwindow['"@ + cn + "Client'] = "@ + cn + "Client;"@
}

/// Returns the JavaScript client of a service as the page embeds it.
pub fn embed_js_client(svc: &Service, calls: &Vec<JsTsCallType>) -> (r: String)
    requires
        service_js_ok(*svc),
    ensures
        r@ == js_client(*svc, calls@),
{
    proof {
        reveal_strlit("export class ");
    }
    let js = generate_service_js(svc, calls, true);
    let js = replace(js.as_str(), "export class ", "class ");
    let cn = to_pascal_case(svc.name.as_str());
    let r = cat7(js.as_str(), "\nwindow['Socket'] = Socket;\nwindow['", cn.as_str(), "Client'] = ", cn.as_str(), "Client;", "");
    assert(""@ =~= Seq::<char>::empty()) by {
        reveal_strlit("");
    }
    assert(r@ =~= js_client(*svc, calls@));
    r
}

/// Why a documentation page could not be generated.
pub enum DocError {
    /// No registered service has the requested name.
    ServiceNotFound(String),
}

/// The text describing an error.
pub open spec fn doc_error_text(e: DocError) -> Seq<char> {
    match e {
        DocError::ServiceNotFound(name) => "service '"@ + name@ + "' not found"@,
    }
}

impl DocError {
    /// Returns the text describing the error.
    pub fn message(&self) -> (r: String)
        ensures
            r@ == doc_error_text(*self),
    {
        match self {
            DocError::ServiceNotFound(name) => cat3("service '", name.as_str(), "' not found"),
        }
    }
}

/// The button label of the theme switch.
pub open spec fn theme_icon() -> Seq<char> {
    "\u{2600}\u{fe0f}"@
}

/// The card of a service on the index page: its name linking to its page,
/// its description when it has one, and its number of handlers.
pub open spec fn service_card(svc: Service) -> Seq<char> {
    let desc_html = if svc.desc@.len() == 0 {
        Seq::empty()
    } else {
        "<p class=\"service-desc\">"@ + svc.desc@ + "</p>"@
    };
    "<a href=\"/doc/"@ + svc.name@ + "\" class=\"service-card\"><h2>"@ + svc.name@ + "</h2>"@ + desc_html + "<p>"@
        + dec_nat(handler_count(svc.handlers@)) + " handler(s)</p></a>"@
}

/// The cards of the named services, in order.
pub open spec fn service_cards(svcs: Seq<Service>) -> Seq<char>
    decreases svcs.len(),
{
    if svcs.len() == 0 {
        Seq::empty()
    } else {
        service_cards(svcs.drop_last()) + if svcs.last().name@.len() > 0 {
            service_card(svcs.last())
        } else {
            Seq::empty()
        }
    }
}

/// The view of an optional text.
pub open spec fn opt_view(o: Option<&str>) -> Option<Seq<char>> {
    match o {
        Some(t) => Some(t@),
        None => None,
    }
}

/// The index page: a card per named service, under the given title (or
/// the default ones).
pub open spec fn index_html(svcs: Seq<Service>, doc_title: Option<Seq<char>>, favicon_svg: Seq<char>) -> Seq<char> {
    let page_title = match doc_title {
        Some(t) => t,
        None => "afast \u{2014} API Documentation"@,
    };
    let h1_title = match doc_title {
        Some(t) => t,
        None => "afast API Documentation"@,
    };
    INDEX_0@ + favicon_uri(favicon_svg) + INDEX_1@ + page_title + INDEX_2@ + css_text() + INDEX_3@ + h1_title
        + INDEX_4@ + theme_icon() + INDEX_5@ + service_cards(svcs) + INDEX_6@
}

/// The services' handler trees are small enough to be counted.
pub open spec fn counts_fit(svcs: Seq<Service>) -> bool {
    forall|i: int| 0 <= i < svcs.len() ==> #[trigger] handler_count(svcs[i].handlers@) <= usize::MAX
}

fn service_card_text(svc: &Service) -> (r: String)
    requires
        handler_count(svc.handlers@) <= usize::MAX,
    ensures
        r@ == service_card(*svc),
{
    let desc_html = if svc.desc.unicode_len() == 0 {
        String::new()
    } else {
        cat3("<p class=\"service-desc\">", svc.desc.as_str(), "</p>")
    };
    let count = count_handlers(&svc.handlers);
    let n = dec_usize(count);
    let a = cat6("<a href=\"/doc/", svc.name.as_str(), "\" class=\"service-card\"><h2>", svc.name.as_str(), "</h2>", desc_html.as_str());
    let r = cat4(a.as_str(), "<p>", n.as_str(), " handler(s)</p></a>");
    assert(r@ =~= service_card(*svc));
    r
}

/// Generates the index page of the documentation: a card per named
/// service, linking to its page, with its description and its number of
/// handlers.
pub fn generate_index_html(services: &Vec<Service>, doc_title: Option<&str>, favicon_svg: &str) -> (r: String)
    requires
        counts_fit(services@),
    ensures
        r@ == index_html(services@, opt_view(doc_title), favicon_svg@),
{
    let page_title = match doc_title {
        Some(t) => t,
        None => "afast \u{2014} API Documentation",
    };
    let h1_title = match doc_title {
        Some(t) => t,
        None => "afast API Documentation",
    };
    let mut cards = String::new();
    let mut i: usize = 0;
    while i < services.len()
        invariant
            i <= services@.len(),
            counts_fit(services@),
            cards@ == service_cards(services@.subrange(0, i as int)),
        decreases services@.len() - i,
    {
        let svc = &services[i];
        proof {
            assert(services@.subrange(0, i + 1).drop_last() =~= services@.subrange(0, i as int));
            assert(handler_count(services@[i as int].handlers@) <= usize::MAX);
        }
        let ghost before = cards@;
        if svc.name.unicode_len() > 0 {
            let card = service_card_text(svc);
            cards.append(card.as_str());
        }
        assert(cards@ =~= before + if svc.name@.len() > 0 {
            service_card(*svc)
        } else {
            Seq::empty()
        });
        i = i + 1;
    }
    assert(services@.subrange(0, services@.len() as int) =~= services@);
    let favicon = favicon_data_uri(favicon_svg);
    let style = css();
    let a = cat7(INDEX_0, favicon.as_str(), INDEX_1, page_title, INDEX_2, style.as_str(), INDEX_3);
    let r = cat7(a.as_str(), h1_title, INDEX_4, "\u{2600}\u{fe0f}", INDEX_5, cards.as_str(), INDEX_6);
    assert(r@ =~= index_html(services@, opt_view(doc_title), favicon_svg@));
    r
}

/// The title of a service's page.
pub open spec fn page_title(name: Seq<char>, doc_title: Option<Seq<char>>) -> Seq<char> {
    match doc_title {
        Some(t) => name + " \u{2014} "@ + t,
        None => name + " \u{2014} API Documentation"@,
    }
}

/// The line under a service's name on its page: its description, when it
/// has one.
pub open spec fn desc_line(desc: Seq<char>) -> Seq<char> {
    if desc.len() == 0 {
        Seq::empty()
    } else {
        "<p style=\"margin:0;color:var(--text-secondary);font-size:13px;\">"@ + desc + "</p>"@
    }
}

/// The decimal text of a port, or of its default.
pub open spec fn port_text(p: Option<u16>, default: nat) -> Seq<char> {
    dec_nat(
        match p {
            Some(v) => v as nat,
            None => default,
        },
    )
}

/// The page script with the default WebSocket and HTTP ports taken from
/// the addresses (3000 and 5000 when an address gives none).
pub open spec fn page_script(http_addr: Seq<char>, ws_addr: Option<Seq<char>>) -> Seq<char> {
    let ws = port_text(
        match ws_addr {
            Some(a) => port_of(a),
            None => None,
        },
        3000,
    );
    let http = port_text(port_of(http_addr), 5000);
    replace_seq(
        replace_seq(ui_js_text(), "'3000' : '5000'"@, "'"@ + ws + "' : '"@ + http + "'"@),
        "? 3000 : 5000)"@,
        "? "@ + ws + " : "@ + http + ")"@,
    )
}

/// The documentation page of a service: its schema, its embedded client
/// (over HTTP and WebSocket) and the explorer script.
pub open spec fn page_html(
    svc: Service,
    doc_title: Option<Seq<char>>,
    http_addr: Seq<char>,
    ws_addr: Option<Seq<char>>,
    favicon_svg: Seq<char>,
) -> Seq<char> {
    PAGE_0@ + favicon_uri(favicon_svg) + PAGE_1@ + page_title(svc.name@, doc_title) + PAGE_2@ + css_text()
        + PAGE_3@ + svc.name@ + PAGE_4@ + desc_line(svc.desc@) + PAGE_5@ + theme_icon() + PAGE_6@ + schema_json(
        svc,
    ) + PAGE_7@ + js_client(svc, seq![JsTsCallType::Fetch, JsTsCallType::Ws]) + PAGE_8@ + page_script(
        http_addr,
        ws_addr,
    ) + PAGE_9@
}

fn port_text_exec(p: Option<u16>, default: u64) -> (r: String)
    ensures
        r@ == port_text(p, default as nat),
{
    match p {
        Some(v) => dec_u64(v as u64),
        None => dec_u64(default),
    }
}

fn page_script_text(http_addr: &str, ws_addr: Option<&str>) -> (r: String)
    ensures
        r@ == page_script(http_addr@, opt_view(ws_addr)),
{
    proof {
        reveal_strlit("'3000' : '5000'");
        reveal_strlit("? 3000 : 5000)");
    }
    let ws_port = match ws_addr {
        Some(a) => port_of_addr(a),
        None => None,
    };
    let http_port = port_of_addr(http_addr);
    let ws = port_text_exec(ws_port, 3000);
    let http = port_text_exec(http_port, 5000);
    let first = cat5("'", ws.as_str(), "' : '", http.as_str(), "'");
    let second = cat5("? ", ws.as_str(), " : ", http.as_str(), ")");
    let ui = ui_js();
    let a = replace(ui.as_str(), "'3000' : '5000'", first.as_str());
    replace(a.as_str(), "? 3000 : 5000)", second.as_str())
}

/// Generates the documentation page of the first service named
/// `service_name`: its endpoint explorer with the service's schema, its
/// JavaScript client and the default ports taken from the addresses.
pub fn generate_service_html(
    services: &Vec<Service>,
    service_name: &str,
    doc_title: Option<&str>,
    http_addr: &str,
    ws_addr: Option<&str>,
    favicon_svg: &str,
) -> (r: Result<String, DocError>)
    requires
        forall|i: int|
            0 <= i < services@.len() && #[trigger] services@[i].name@ == service_name@ ==> service_js_ok(
                services@[i],
            ),
    ensures
        find_service(services@, service_name@) is None ==> (r matches Err(DocError::ServiceNotFound(n))
            && n@ == service_name@),
        find_service(services@, service_name@) is Some ==> (r matches Ok(t) && t@ == page_html(
            services@[find_service(services@, service_name@)->0],
            opt_view(doc_title),
            http_addr@,
            opt_view(ws_addr),
            favicon_svg@,
        )),
{
    let idx = crate::code::find_service_exec(services, service_name);
    let i = match idx {
        None => {
            return Err(DocError::ServiceNotFound(owned(service_name)));
        },
        Some(i) => i,
    };
    proof {
        crate::code::lemma_find_service(services@, service_name@);
    }
    let svc = &services[i];
    let mut calls: Vec<JsTsCallType> = Vec::new();
    calls.push(JsTsCallType::Fetch);
    calls.push(JsTsCallType::Ws);
    assert(calls@ =~= seq![JsTsCallType::Fetch, JsTsCallType::Ws]);
    let client = embed_js_client(svc, &calls);
    let schema = build_schema(svc);
    let title = match doc_title {
        Some(t) => cat3(svc.name.as_str(), " \u{2014} ", t),
        None => cat2(svc.name.as_str(), " \u{2014} API Documentation"),
    };
    let desc = if svc.desc.unicode_len() == 0 {
        String::new()
    } else {
        cat3("<p style=\"margin:0;color:var(--text-secondary);font-size:13px;\">", svc.desc.as_str(), "</p>")
    };
    proof {
        reveal_strlit("");
    }
    assert(desc@ =~= desc_line(svc.desc@));
    let script = page_script_text(http_addr, ws_addr);
    let favicon = favicon_data_uri(favicon_svg);
    let style = css();
    let a = cat7(PAGE_0, favicon.as_str(), PAGE_1, title.as_str(), PAGE_2, style.as_str(), PAGE_3);
    let b = cat7(a.as_str(), svc.name.as_str(), PAGE_4, desc.as_str(), PAGE_5, "\u{2600}\u{fe0f}", PAGE_6);
    let c = cat7(b.as_str(), schema.as_str(), PAGE_7, client.as_str(), PAGE_8, script.as_str(), PAGE_9);
    assert(c@ =~= page_html(*svc, opt_view(doc_title), http_addr@, opt_view(ws_addr), favicon_svg@));
    Ok(c)
}


proof fn lemma_digit_value(d: nat)
    requires
        d < 10,
    ensures
        (crate::text::digit(d) as int) - ('0' as int) == d,
        '0' <= crate::text::digit(d) <= '9',
{
}

proof fn lemma_dec_digits(n: nat)
    ensures
        dec_nat(n).len() > 0,
        all_digits(dec_nat(n)),
        digits_value(dec_nat(n)) == n,
    decreases n,
{
    if n < 10 {
        lemma_digit_value(n);
        assert(dec_nat(n).drop_last() =~= Seq::<char>::empty());
        assert(digits_value(Seq::<char>::empty()) == 0);
        assert(digits_value(dec_nat(n)) == digits_value(dec_nat(n).drop_last()) * 10 + ((dec_nat(n).last() as int)
            - ('0' as int)));
    } else {
        lemma_dec_digits(n / 10);
        lemma_digit_value(n % 10);
        let s = dec_nat(n / 10);
        assert(dec_nat(n).drop_last() =~= s);
        assert((n / 10) * 10 + n % 10 == n);
        assert(digits_value(dec_nat(n)) == digits_value(dec_nat(n).drop_last()) * 10 + ((dec_nat(n).last() as int)
            - ('0' as int)));
        assert forall|i: int| 0 <= i < dec_nat(n).len() implies '0' <= #[trigger] dec_nat(n)[i] <= '9' by {
            if i < s.len() {
                assert(dec_nat(n)[i] == s[i]);
            }
        }
    }
}

proof fn lemma_no_colon(s: Seq<char>)
    requires
        !s.contains(':'),
    ensures
        after_colon(s) == s,
    decreases s.len(),
{
    if s.len() > 0 {
        assert(s.last() == s[s.len() - 1]);
        assert(!s.drop_last().contains(':')) by {
            if s.drop_last().contains(':') {
                let i = choose|i: int| 0 <= i < s.drop_last().len() && s.drop_last()[i] == ':';
                assert(s[i] == ':');
            }
        }
        lemma_no_colon(s.drop_last());
        assert(s.drop_last().push(s.last()) =~= s);
    }
}

proof fn lemma_after_last_colon(host: Seq<char>, port: Seq<char>)
    requires
        !port.contains(':'),
    ensures
        after_colon(host + seq![':'] + port) == port,
    decreases port.len(),
{
    let a = host + seq![':'] + port;
    if port.len() == 0 {
        assert(a.last() == ':');
    } else {
        assert(!port.drop_last().contains(':')) by {
            if port.drop_last().contains(':') {
                let i = choose|i: int| 0 <= i < port.drop_last().len() && port.drop_last()[i] == ':';
                assert(port[i] == ':');
            }
        }
        lemma_after_last_colon(host, port.drop_last());
        assert(a.drop_last() =~= host + seq![':'] + port.drop_last());
        assert(a.last() == port[port.len() - 1]);
        assert(port.drop_last().push(port.last()) =~= port);
    }
}

proof fn lemma_digits_no_colon(s: Seq<char>)
    requires
        all_digits(s),
    ensures
        !s.contains(':'),
{
    if s.contains(':') {
        let i = choose|i: int| 0 <= i < s.len() && s[i] == ':';
        assert('0' <= s[i] <= '9');
    }
}

/// A port printed in decimal is read back as the same port, alone or as
/// the part of an address after its last `:`, whatever the host before it.
pub proof fn law_port_roundtrip(p: u16, host: Seq<char>)
    ensures
        parse_u16_spec(dec_nat(p as nat)) == Some(p),
        port_of(dec_nat(p as nat)) == Some(p),
        port_of(host + seq![':'] + dec_nat(p as nat)) == Some(p),
{
    let s = dec_nat(p as nat);
    lemma_dec_digits(p as nat);
    assert('0' <= s[0] <= '9');
    lemma_digits_no_colon(s);
    lemma_no_colon(s);
    lemma_after_last_colon(host, s);
}

proof fn lemma_uri_bytes_safe(bs: Seq<u8>)
    ensures
        forall|i: int|
            0 <= i < uri_bytes(bs).len() ==> {
                let c = #[trigger] uri_bytes(bs)[i];
                c != '#' && c != '<' && c != '>' && c != '"' && c != ' '
            },
    decreases bs.len(),
{
    reveal_strlit("%23");
    reveal_strlit("%3C");
    reveal_strlit("%3E");
    reveal_strlit("%22");
    reveal_strlit("%20");
    if bs.len() > 0 {
        lemma_uri_bytes_safe(bs.drop_last());
        let a = uri_bytes(bs.drop_last());
        let b = uri_byte(bs.last());
        assert forall|i: int| 0 <= i < uri_bytes(bs).len() implies {
            let c = #[trigger] uri_bytes(bs)[i];
            c != '#' && c != '<' && c != '>' && c != '"' && c != ' '
        } by {
            if i < a.len() {
                assert(uri_bytes(bs)[i] == a[i]);
            } else {
                assert(uri_bytes(bs)[i] == b[i - a.len()]);
            }
        }
    }
}

/// The icon's data URI holds none of the characters that would end the
/// attribute it stands in or that a URI must encode: no `#`, `<`, `>`,
/// `"` or space.
pub proof fn law_favicon_uri_is_attribute_safe(svg: Seq<char>)
    ensures
        forall|i: int|
            0 <= i < favicon_uri(svg).len() ==> {
                let c = #[trigger] favicon_uri(svg)[i];
                c != '#' && c != '<' && c != '>' && c != '"' && c != ' '
            },
{
    reveal_strlit("data:image/svg+xml,");
    let bs = encode_utf8(join_seq(words(svg), " "@));
    lemma_uri_bytes_safe(bs);
    let a = "data:image/svg+xml,"@;
    assert forall|i: int| 0 <= i < favicon_uri(svg).len() implies {
        let c = #[trigger] favicon_uri(svg)[i];
        c != '#' && c != '<' && c != '>' && c != '"' && c != ' '
    } by {
        if i >= a.len() {
            assert(favicon_uri(svg)[i] == uri_bytes(bs)[i - a.len()]);
        }
    }
}

} // verus!
