//! HTML page assembly and human-readable file sizes.

use vstd::prelude::*;
use crate::param::{reason_phrase, reason_phrase_spec};
use crate::text::{chars_of, decimal, digit_char, push_char, push_decimal, string_of};

verus! {

/// A page under construction: title, style sheet, script and body markup.
pub struct HtmlBuilder {
    title: String,
    css: String,
    script: String,
    body: String,
}

/// Abstract content of an [`HtmlBuilder`].
pub struct HtmlView {
    pub title: Seq<char>,
    pub css: Seq<char>,
    pub script: Seq<char>,
    pub body: Seq<char>,
}

impl View for HtmlBuilder {
    type V = HtmlView;

    closed spec fn view(&self) -> HtmlView {
        HtmlView { title: self.title@, css: self.css@, script: self.script@, body: self.body@ }
    }
}

pub open spec fn status_css() -> Seq<char> {
    "
            body {
                width: 35em;
                margin: 0 auto;
                font-family: Tahoma, Verdana, Arial, sans-serif;
            }
            "@
}

/// Body markup of a status page.
pub open spec fn status_body(code: u16, description: Seq<char>) -> Seq<char> {
    "
            <h1>"@ + decimal(code as nat) + "</h1>
            <p>"@ + description + "</p>
            "@
}

/// The complete HTML document for a page.
pub open spec fn page_text(v: HtmlView) -> Seq<char> {
    "<!DOCTYPE html>
            <!-- 本文件由shaneyale的Rust Webserver自动生成 -->
            <html>
                <head>
                    <meta charset=\"utf-8\">
                    <script>"@ + v.script + "</script>
                    <title>"@ + v.title + "</title>
                    <style>"@ + v.css + "</style>
                </head>
                <body>
                "@ + v.body + "
                </body>
            </html>"@
}

/// Description shown on a status page: the note, else the reason phrase.
pub open spec fn status_description(code: u16, note: Option<Seq<char>>) -> Seq<char> {
    match note {
        Some(n) => n,
        None => reason_phrase_spec(code)->0,
    }
}

pub open spec fn opt_str_view(note: Option<&str>) -> Option<Seq<char>> {
    match note {
        Some(n) => Some(n@),
        None => None,
    }
}

impl HtmlBuilder {
    /// A status page for `code`, described by `note` or, without one, by the
    /// code's reason phrase (which must then exist).
    pub fn from_status_code(code: u16, note: Option<&str>) -> (r: Self)
        requires
            note is Some || reason_phrase_spec(code) is Some,
        ensures
            r@.title == decimal(code as nat),
            r@.css == status_css(),
            r@.script == Seq::<char>::empty(),
            r@.body == status_body(code, status_description(code, opt_str_view(note))),
    {
        let mut title = String::new();
        push_decimal(&mut title, code as u64);
        let description: &str = match note {
            Some(n) => n,
            None => match reason_phrase(code) {
                Some(d) => d,
                None => "",
            },
        };
        let mut body = String::from_str("
            <h1>");
        push_decimal(&mut body, code as u64);
        body.append("</h1>
            <p>");
        body.append(description);
        body.append("</p>
            ");
        assert(body@ =~= status_body(code, status_description(code, opt_str_view(note))));
        HtmlBuilder {
            title,
            css: String::from_str("
            body {
                width: 35em;
                margin: 0 auto;
                font-family: Tahoma, Verdana, Arial, sans-serif;
            }
            "),
            script: String::new(),
            body,
        }
    }

    /// Assembles the full HTML document.
    pub fn build(&self) -> (r: String)
        ensures
            r@ == page_text(self@),
    {
        let mut s = String::from_str("<!DOCTYPE html>
            <!-- 本文件由shaneyale的Rust Webserver自动生成 -->
            <html>
                <head>
                    <meta charset=\"utf-8\">
                    <script>");
        s.append(self.script.as_str());
        s.append("</script>
                    <title>");
        s.append(self.title.as_str());
        s.append("</title>
                    <style>");
        s.append(self.css.as_str());
        s.append("</style>
                </head>
                <body>
                ");
        s.append(self.body.as_str());
        s.append("
                </body>
            </html>");
        assert(s@ =~= page_text(self@));
        s
    }
}

/// The scale `p` (a power of two, starting from `p`) at which `n / p` fits in
/// the 53-bit significand of a double.
pub open spec fn significand_scale(n: nat, p: nat) -> nat
    decreases n - p,
{
    if p == 0 || 2 * p > n || n / p < 9007199254740992 {
        p
    } else {
        significand_scale(n, 2 * p)
    }
}

/// `n` rounded to the nearest double (ties to even), as `u64 as f64` does.
pub open spec fn as_double(n: nat) -> nat {
    let p = significand_scale(n, 1);
    let q = n / p;
    let rem = n % p;
    if p <= 1 {
        n
    } else if rem > p / 2 || (rem == p / 2 && q % 2 == 1) {
        (q + 1) * p
    } else {
        q * p
    }
}

/// Number of divisions by 1024 before the value drops below 1024 (at most 4).
pub open spec fn unit_index(v: nat) -> nat {
    if v >= 1099511627776 {
        4
    } else if v >= 1073741824 {
        3
    } else if v >= 1048576 {
        2
    } else if v >= 1024 {
        1
    } else {
        0
    }
}

pub open spec fn unit_scale(k: nat) -> nat {
    if k == 0 {
        1
    } else if k == 1 {
        1024
    } else if k == 2 {
        1048576
    } else if k == 3 {
        1073741824
    } else {
        1099511627776
    }
}

pub open spec fn unit_name(k: nat) -> Seq<char> {
    if k == 0 {
        "B"@
    } else if k == 1 {
        "KB"@
    } else if k == 2 {
        "MB"@
    } else if k == 3 {
        "GB"@
    } else {
        "TB"@
    }
}

/// `num / den` rounded to the nearest integer, ties to even.
pub open spec fn div_round_even(num: nat, den: nat) -> nat {
    let q = num / den;
    let r = num % den;
    if 2 * r > den || (2 * r == den && q % 2 == 1) {
        q + 1
    } else {
        q
    }
}

/// Tenths of a unit shown for `size` bytes.
pub open spec fn size_tenths(size: nat) -> nat {
    let v = as_double(size);
    div_round_even(v * 10, unit_scale(unit_index(v)))
}

/// Text of `format!("{:.1} {}", size as f64 / 1024^k, unit)`.
pub open spec fn file_size_text(size: nat) -> Seq<char> {
    let t = size_tenths(size);
    decimal(t / 10) + seq!['.', digit_char(t % 10), ' '] + unit_name(unit_index(as_double(size)))
}

fn unit_name_exec(k: u128) -> (r: &'static str)
    requires
        k <= 4,
    ensures
        r@ == unit_name(k as nat),
{
    if k == 0 {
        "B"
    } else if k == 1 {
        "KB"
    } else if k == 2 {
        "MB"
    } else if k == 3 {
        "GB"
    } else {
        "TB"
    }
}

fn double_value(size: u64) -> (v: u128)
    ensures
        v as nat == as_double(size as nat),
        v <= 2 * size + 1,
{
    let n: u128 = size as u128;
    let mut p: u128 = 1;
    while 2 * p <= n && n / p >= 9007199254740992
        invariant
            1 <= p <= n + 1,
            n == size as u128,
            significand_scale(n as nat, p as nat) == significand_scale(n as nat, 1),
        decreases n + 1 - p,
    {
        p = p * 2;
    }
    let q: u128 = n / p;
    let rem: u128 = n % p;
    proof {
        vstd::arithmetic::div_mod::lemma_fundamental_div_mod(n as int, p as int);
    }
    if p <= 1 {
        n
    } else if rem > p / 2 || (rem == p / 2 && q % 2 == 1) {
        assert((q + 1) * p <= n + p) by (nonlinear_arith)
            requires
                n == p * q + rem,
                0 <= rem < p,
        ;
        (q + 1) * p
    } else {
        assert(q * p <= n) by (nonlinear_arith)
            requires
                n == p * q + rem,
                0 <= rem,
        ;
        q * p
    }
}

fn tenths_of(v: u128) -> (r: (u128, u128))
    requires
        v <= 2 * 18446744073709551615u128 + 1,
    ensures
        r.0 as nat == unit_index(v as nat),
        r.1 as nat == div_round_even(v as nat * 10, unit_scale(unit_index(v as nat))),
        r.1 <= 400000001,
{
    let k: u128 = if v >= 1099511627776 {
        4
    } else if v >= 1073741824 {
        3
    } else if v >= 1048576 {
        2
    } else if v >= 1024 {
        1
    } else {
        0
    };
    let den: u128 = if k == 0 {
        1
    } else if k == 1 {
        1024
    } else if k == 2 {
        1048576
    } else if k == 3 {
        1073741824
    } else {
        1099511627776
    };
    let num: u128 = v * 10;
    let t0: u128 = num / den;
    let r0: u128 = num % den;
    if k == 4 {
        assert(t0 <= 400000000) by (nonlinear_arith)
            requires
                t0 == num / den,
                num <= 10 * (2 * 18446744073709551615u128 + 1),
                den == 1099511627776,
        ;
    } else {
        assert(t0 < 10240) by (nonlinear_arith)
            requires
                t0 == num / den,
                num < 10240 * den,
                den >= 1,
        ;
    }
    let t: u128 = if 2 * r0 > den || (2 * r0 == den && t0 % 2 == 1) {
        t0 + 1
    } else {
        t0
    };
    (k, t)
}

/// Human-readable size with one decimal and a binary unit (B, KB, MB, GB,
/// TB): the text of `format!("{:.1} {}", size as f64 / 1024^k, unit)`.
pub fn format_file_size(size: u64) -> (r: String)
    ensures
        r@ == file_size_text(size as nat),
{
    let v = double_value(size);
    let (k, t) = tenths_of(v);
    let mut s = String::new();
    push_decimal(&mut s, (t / 10) as u64);
    push_char(&mut s, '.');
    let d: u64 = (t % 10) as u64;
    let mut tail = String::new();
    push_decimal(&mut tail, d);
    assert(decimal(d as nat) == seq![digit_char(d as nat)]);
    s.append(tail.as_str());
    push_char(&mut s, ' ');
    s.append(unit_name_exec(k));
    assert(s@ =~= file_size_text(size as nat));
    s
}


/// Column headings and the parent-directory link of a listing table.
pub const LISTING_HEAD_ROWS: &'static str = "\n            <tr>\n                <td>文件名</td>\n                <td>大小</td>\n                <td>修改时间</td>\n            </tr>\n            <tr>\n                <td><a href=\"../\">..</a></td>\n                <td></td>\n                <td></td>\n            </tr>\n            ";

pub const FILE_ROW_OPEN: &'static str = "\n                    <tr>\n                        <td><a href=\"";

pub const DIR_ROW_OPEN: &'static str = "\n                    <tr>\n                    <td><a href=\"";

pub const ROW_MID: &'static str = "\">";

pub const FILE_ROW_SIZE: &'static str = "</a></td>\n                        <td>";

pub const FILE_ROW_TIME: &'static str = "</td>\n                        <td>";

pub const DIR_ROW_TIME: &'static str = "</a></td>\n                        <td>文件夹</td>\n                        <td>";

pub const ROW_CLOSE: &'static str = "</td>\n                    </tr>\n                    ";

/// Style sheet of a listing page.
pub const LISTING_CSS: &'static str = "\n            table {\n                border-collapse: collapse;\n                width: 100%;\n            }\n\n            td {\n                padding: 8px;\n                white-space: pre-wrap; /* 保留换行符和空格 */\n                border: none; /* 隐藏单元格边框 */\n            }\n\n            th {\n                padding: 8px;\n                border: none; /* 隐藏表头边框 */\n            }";

/// Suffix of a listing's heading and title.
pub const LISTING_SUFFIX: &'static str = "的文件列表";

/// One entry of a directory listing, with its modification time already
/// formatted for display.
#[derive(Debug, Clone)]
pub struct DirEntry {
    pub name: String,
    pub is_dir: bool,
    pub size: u64,
    pub modified: String,
}

/// Lexicographic order of character sequences by code point (the byte
/// order of their UTF-8 encodings).
pub open spec fn chars_le(a: Seq<char>, b: Seq<char>) -> bool
    decreases a.len(),
{
    if a.len() == 0 {
        true
    } else if b.len() == 0 {
        false
    } else if a[0] != b[0] {
        (a[0] as u32) < (b[0] as u32)
    } else {
        chars_le(a.drop_first(), b.drop_first())
    }
}

/// Listing order: directories first, then by name.
pub open spec fn entry_le(a: DirEntry, b: DirEntry) -> bool {
    (a.is_dir && !b.is_dir) || (a.is_dir == b.is_dir && chars_le(a.name@, b.name@))
}

pub open spec fn listing_sorted(s: Seq<DirEntry>) -> bool {
    forall|i: int| 0 <= i < s.len() - 1 ==> entry_le(#[trigger] s[i], s[i + 1])
}

proof fn lemma_chars_le_total(a: Seq<char>, b: Seq<char>)
    ensures
        chars_le(a, b) || chars_le(b, a),
    decreases a.len(),
{
    if a.len() > 0 && b.len() > 0 {
        if a[0] == b[0] {
            lemma_chars_le_total(a.drop_first(), b.drop_first());
        } else {
            vstd::utf8::char_u32_cast(a[0], a[0] as u32);
            vstd::utf8::char_u32_cast(b[0], b[0] as u32);
        }
    }
}

fn chars_le_exec(a: &String, b: &String) -> (r: bool)
    ensures
        r == chars_le(a@, b@),
{
    let x = chars_of(a.as_str());
    let y = chars_of(b.as_str());
    let mut i: usize = 0;
    assert(x@.skip(0) =~= x@);
    assert(y@.skip(0) =~= y@);
    while i < x.len() && i < y.len() && x[i] == y[i]
        invariant
            x@ == a@,
            y@ == b@,
            i <= x@.len(),
            i <= y@.len(),
            chars_le(a@, b@) == chars_le(x@.skip(i as int), y@.skip(i as int)),
        decreases x.len() - i,
    {
        assert(x@.skip(i as int).drop_first() =~= x@.skip(i + 1));
        assert(y@.skip(i as int).drop_first() =~= y@.skip(i + 1));
        i = i + 1;
    }
    if i == x.len() {
        true
    } else if i == y.len() {
        false
    } else {
        (x[i] as u32) < (y[i] as u32)
    }
}

fn entry_le_exec(a: &DirEntry, b: &DirEntry) -> (r: bool)
    ensures
        r == entry_le(*a, *b),
{
    (a.is_dir && !b.is_dir) || (a.is_dir == b.is_dir && chars_le_exec(&a.name, &b.name))
}

/// Sorts a listing: directories before files, each group by name.
pub fn sort_dir_entries(vec: &mut Vec<DirEntry>)
    ensures
        listing_sorted(final(vec)@),
        final(vec)@.to_multiset() == old(vec)@.to_multiset(),
{
    broadcast use vstd::seq_lib::group_to_multiset_ensures, vstd::multiset::group_multiset_axioms;

    let mut out: Vec<DirEntry> = Vec::new();
    let ghost orig = vec@;
    while vec.len() > 0
        invariant
            listing_sorted(out@),
            out@.to_multiset().add(vec@.to_multiset()) == orig.to_multiset(),
        decreases vec.len(),
    {
        let ghost before = vec@;
        let x = vec.remove(0);
        assert(before.to_multiset() == vec@.to_multiset().insert(x)) by {
            assert(before.remove(0) =~= vec@);
            vstd::seq_lib::to_multiset_remove(before, 0);
            vstd::seq_lib::to_multiset_contains(before, x);
            assert(before.to_multiset() =~= before.to_multiset().remove(x).insert(x));
        }
        let mut pos: usize = 0;
        while pos < out.len() && entry_le_exec(&out[pos], &x)
            invariant
                pos <= out@.len(),
                forall|k: int| 0 <= k < pos ==> entry_le(#[trigger] out@[k], x),
            decreases out.len() - pos,
        {
            pos = pos + 1;
        }
        let ghost o = out@;
        out.insert(pos, x);
        proof {
            if pos < o.len() {
                lemma_chars_le_total(o[pos as int].name@, x.name@);
            }
            assert forall|i: int| 0 <= i < out@.len() - 1 implies entry_le(#[trigger] out@[i], out@[i + 1]) by {
                if i < pos - 1 {
                    assert(out@[i] == o[i] && out@[i + 1] == o[i + 1]);
                } else if i == pos - 1 {
                    assert(out@[i] == o[i]);
                } else if i == pos {
                    assert(out@[i + 1] == o[i]);
                } else {
                    assert(out@[i] == o[i - 1] && out@[i + 1] == o[i]);
                }
            }
            vstd::seq_lib::to_multiset_insert(o, pos as int, x);
            assert(out@.to_multiset() == o.to_multiset().insert(x));
            assert(out@.to_multiset().add(vec@.to_multiset()) =~= o.to_multiset().add(before.to_multiset()));
        }
    }
    assert(vec@ =~= Seq::<DirEntry>::empty());
    assert(out@.to_multiset() =~= orig.to_multiset());
    *vec = out;
}


/// One table row of a listing.
pub open spec fn entry_row(e: DirEntry) -> Seq<char> {
    if e.is_dir {
        DIR_ROW_OPEN@ + e.name@ + "/"@ + ROW_MID@ + e.name@ + "/"@ + DIR_ROW_TIME@ + e.modified@ + ROW_CLOSE@
    } else {
        FILE_ROW_OPEN@ + e.name@ + ROW_MID@ + e.name@ + FILE_ROW_SIZE@ + file_size_text(e.size as nat)
            + FILE_ROW_TIME@ + e.modified@ + ROW_CLOSE@
    }
}

pub open spec fn listing_rows(s: Seq<DirEntry>) -> Seq<char>
    decreases s.len(),
{
    if s.len() == 0 {
        Seq::empty()
    } else {
        listing_rows(s.drop_last()) + entry_row(s.last())
    }
}

/// The path as shown in a listing heading: one trailing slash removed.
pub open spec fn shown_path(p: Seq<char>) -> Seq<char> {
    if p.len() > 0 && p.last() == '/' {
        p.drop_last()
    } else {
        p
    }
}

pub open spec fn listing_body(path: Seq<char>, s: Seq<DirEntry>) -> Seq<char> {
    "<h1>"@ + shown_path(path) + LISTING_SUFFIX@ + "</h1><hr>"@ + "<table>"@ + LISTING_HEAD_ROWS@
        + listing_rows(s) + "</table>"@
}

fn append_row(body: &mut String, e: &DirEntry)
    ensures
        final(body)@ == old(body)@ + entry_row(*e),
{
    if e.is_dir {
        body.append(DIR_ROW_OPEN);
        body.append(e.name.as_str());
        body.append("/");
        body.append(ROW_MID);
        body.append(e.name.as_str());
        body.append("/");
        body.append(DIR_ROW_TIME);
    } else {
        body.append(FILE_ROW_OPEN);
        body.append(e.name.as_str());
        body.append(ROW_MID);
        body.append(e.name.as_str());
        body.append(FILE_ROW_SIZE);
        let size = format_file_size(e.size);
        body.append(size.as_str());
        body.append(FILE_ROW_TIME);
    }
    body.append(e.modified.as_str());
    body.append(ROW_CLOSE);
    assert(final(body)@ =~= old(body)@ + entry_row(*e));
}

impl HtmlBuilder {
    /// A listing page for the directory at `path`: `dir_vec` is sorted
    /// (directories first, then by name) and rendered as table rows after a
    /// parent-directory link.
    pub fn from_dir(path: &str, dir_vec: &mut Vec<DirEntry>) -> (r: Self)
        ensures
            listing_sorted(final(dir_vec)@),
            final(dir_vec)@.to_multiset() == old(dir_vec)@.to_multiset(),
            r@.title == path@ + LISTING_SUFFIX@,
            r@.css == LISTING_CSS@,
            r@.script == Seq::<char>::empty(),
            r@.body == listing_body(path@, final(dir_vec)@),
    {
        sort_dir_entries(dir_vec);
        let p = chars_of(path);
        let shown_len: usize = if p.len() > 0 && p[p.len() - 1] == '/' {
            p.len() - 1
        } else {
            p.len()
        };
        let mut body = String::from_str("<h1>");
        body.append(string_of(&p, 0, shown_len).as_str());
        body.append(LISTING_SUFFIX);
        body.append("</h1><hr>");
        body.append("<table>");
        body.append(LISTING_HEAD_ROWS);
        let ghost head = body@;
        assert(p@.subrange(0, shown_len as int) =~= shown_path(path@));
        let mut i: usize = 0;
        while i < dir_vec.len()
            invariant
                i <= dir_vec@.len(),
                body@ == head + listing_rows(dir_vec@.take(i as int)),
            decreases dir_vec.len() - i,
        {
            append_row(&mut body, &dir_vec[i]);
            assert(dir_vec@.take(i + 1).drop_last() =~= dir_vec@.take(i as int));
            i = i + 1;
            assert(body@ =~= head + listing_rows(dir_vec@.take(i as int)));
        }
        assert(dir_vec@.take(dir_vec@.len() as int) =~= dir_vec@);
        body.append("</table>");
        assert(body@ =~= listing_body(path@, dir_vec@));
        let mut title = String::from_str(path);
        title.append(LISTING_SUFFIX);
        HtmlBuilder { title, css: String::from_str(LISTING_CSS), script: String::new(), body }
    }
}

} // verus!
