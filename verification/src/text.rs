//! Building the text of the views: numbers, padded columns, section rules,
//! joined lists, and the two tests that the annotation list applies.

use vstd::prelude::*;
use vstd::string::*;
use vstd::utf8::*;

verus! {

broadcast use vstd::string::group_string_axioms, vstd::utf8::encode_utf8_valid_utf8,
    vstd::utf8::encode_utf8_decode_utf8;

/// The width of the label column of a `label  value` line.
pub const LABEL_WIDTH: usize = 28;

/// Appends one line.
pub fn push_line(lines: &mut Vec<String>, line: String)
    ensures
        final(lines).deep_view() == old(lines).deep_view().push(line@),
{
    let ghost before = lines.deep_view();
    let ghost l = line@;
    lines.push(line);
    proof {
        assert(lines.deep_view() =~= before.push(l));
    }
}

/// A copy of a string slice.
pub fn string_of(s: &str) -> (r: String)
    ensures
        r@ == s@,
{
    String::from_str(s)
}

/// The decimal digit `d` (which is below ten).
pub open spec fn digit_char(d: nat) -> char {
    if d == 0 {
        '0'
    } else if d == 1 {
        '1'
    } else if d == 2 {
        '2'
    } else if d == 3 {
        '3'
    } else if d == 4 {
        '4'
    } else if d == 5 {
        '5'
    } else if d == 6 {
        '6'
    } else if d == 7 {
        '7'
    } else if d == 8 {
        '8'
    } else {
        '9'
    }
}

/// The decimal text of a natural number, without leading zeros.
pub open spec fn nat_text(n: nat) -> Seq<char>
    decreases n,
{
    if n < 10 {
        seq![digit_char(n)]
    } else {
        nat_text(n / 10).push(digit_char(n % 10))
    }
}

/// The decimal text of an integer, with a minus sign when it is negative.
pub open spec fn int_text(n: int) -> Seq<char> {
    if n < 0 {
        seq!['-'] + nat_text((-n) as nat)
    } else {
        nat_text(n as nat)
    }
}

fn digit_str(d: u64) -> (r: &'static str)
    requires
        d < 10,
    ensures
        r@ == seq![digit_char(d as nat)],
{
    proof {
        reveal_strlit("0");
        reveal_strlit("1");
        reveal_strlit("2");
        reveal_strlit("3");
        reveal_strlit("4");
        reveal_strlit("5");
        reveal_strlit("6");
        reveal_strlit("7");
        reveal_strlit("8");
        reveal_strlit("9");
    }
    if d == 0 {
        "0"
    } else if d == 1 {
        "1"
    } else if d == 2 {
        "2"
    } else if d == 3 {
        "3"
    } else if d == 4 {
        "4"
    } else if d == 5 {
        "5"
    } else if d == 6 {
        "6"
    } else if d == 7 {
        "7"
    } else if d == 8 {
        "8"
    } else {
        "9"
    }
}

/// Appends the decimal text of `n`.
pub fn append_nat(s: &mut String, n: u64)
    ensures
        final(s)@ == old(s)@ + nat_text(n as nat),
    decreases n,
{
    if n >= 10 {
        append_nat(s, n / 10);
        s.append(digit_str(n % 10));
        proof {
            assert(nat_text(n as nat) == nat_text((n / 10) as nat).push(digit_char((n % 10) as nat)));
        }
    } else {
        s.append(digit_str(n));
    }
}

/// The decimal text of a signed integer (what `to_string` gives).
pub fn int_string(n: i64) -> (r: String)
    ensures
        r@ == int_text(n as int),
{
    let mut r = String::new();
    if n < 0 {
        proof {
            reveal_strlit("-");
        }
        r.append("-");
        let m: u64 = (-(n as i128)) as u64;
        append_nat(&mut r, m);
    } else {
        append_nat(&mut r, n as u64);
    }
    r
}

/// The text of a truth value (what `to_string` gives).
pub open spec fn bool_text(b: bool) -> Seq<char> {
    if b {
        "true"@
    } else {
        "false"@
    }
}

/// The text of a truth value.
pub fn bool_string(b: bool) -> (r: String)
    ensures
        r@ == bool_text(b),
{
    if b {
        string_of("true")
    } else {
        string_of("false")
    }
}

/// `n` spaces.
pub open spec fn spaces(n: nat) -> Seq<char> {
    Seq::new(n, |i: int| ' ')
}

/// `s` filled with spaces on the right up to `width` characters (a longer
/// `s` is kept whole), as the `{:<width}` format does.
pub open spec fn padded(s: Seq<char>, width: nat) -> Seq<char> {
    if s.len() < width {
        s + spaces((width - s.len()) as nat)
    } else {
        s
    }
}

/// Appends `s` filled up to `width` characters.
pub fn append_padded(out: &mut String, s: &str, width: usize)
    ensures
        final(out)@ == old(out)@ + padded(s@, width as nat),
{
    out.append(s);
    let n = s.unicode_len();
    if n < width {
        let mut k: usize = n;
        proof {
            reveal_strlit(" ");
            assert(old(out)@ + s@ + spaces((k - n) as nat) =~= old(out)@ + s@);
        }
        while k < width
            invariant
                n <= k <= width,
                n == s@.len(),
                out@ == old(out)@ + s@ + spaces((k - n) as nat),
                " "@ == seq![' '],
            decreases width - k,
        {
            out.append(" ");
            proof {
                assert(out@ =~= old(out)@ + s@ + spaces((k + 1 - n) as nat));
            }
            k += 1;
        }
        proof {
            assert(out@ =~= old(out)@ + padded(s@, width as nat));
        }
    } else {
        proof {
            assert(out@ =~= old(out)@ + padded(s@, width as nat));
        }
    }
}

/// A `label  value` line: two spaces, the label filled to the label column,
/// two spaces, the value.
pub open spec fn field_text(label: Seq<char>, value: Seq<char>) -> Seq<char> {
    "  "@ + padded(label, LABEL_WIDTH as nat) + "  "@ + value
}

/// A line that continues the value of the line above it: the label column
/// is blank.
pub open spec fn continued_text(value: Seq<char>) -> Seq<char> {
    field_text(Seq::empty(), value)
}

/// The `label  value` line.
pub fn field_line(label: &str, value: &str) -> (r: String)
    ensures
        r@ == field_text(label@, value@),
{
    let mut r = string_of("  ");
    append_padded(&mut r, label, LABEL_WIDTH);
    r.append("  ");
    r.append(value);
    r
}

/// Appends the `label  value` line.
pub fn field(lines: &mut Vec<String>, label: &str, value: &str)
    ensures
        final(lines).deep_view() == old(lines).deep_view().push(field_text(label@, value@)),
{
    let l = field_line(label, value);
    push_line(lines, l);
}

/// Appends a line that continues the value of the line above it.
pub fn continued(lines: &mut Vec<String>, value: &str)
    ensures
        final(lines).deep_view() == old(lines).deep_view().push(continued_text(value@)),
{
    proof {
        reveal_strlit("");
    }
    field(lines, "", value);
}

/// `s` written `n` times.
pub open spec fn repeat_text(s: Seq<char>, n: nat) -> Seq<char>
    decreases n,
{
    if n == 0 {
        Seq::empty()
    } else {
        repeat_text(s, (n - 1) as nat) + s
    }
}

/// Appends `s` written `n` times.
pub fn append_repeated(out: &mut String, s: &str, n: usize)
    ensures
        final(out)@ == old(out)@ + repeat_text(s@, n as nat),
{
    let mut k: usize = 0;
    proof {
        assert(old(out)@ + repeat_text(s@, 0) =~= old(out)@);
    }
    while k < n
        invariant
            k <= n,
            out@ == old(out)@ + repeat_text(s@, k as nat),
        decreases n - k,
    {
        out.append(s);
        proof {
            assert(out@ =~= old(out)@ + repeat_text(s@, (k + 1) as nat));
        }
        k += 1;
    }
}

/// The number of bytes of the UTF-8 encoding of `s`, as `str::len` gives it.
pub open spec fn byte_len(s: Seq<char>) -> usize {
    encode_utf8(s).len() as usize
}

/// The rule character of a section heading: heavy for a bold section.
pub open spec fn rule_text(is_bold: bool) -> Seq<char> {
    if is_bold {
        "━"@
    } else {
        "─"@
    }
}

/// The width that the rule right of a title fills: 54 less the title's
/// length in bytes, and nothing once the title is that long.
pub open spec fn rule_fill(title: Seq<char>) -> nat {
    if byte_len(title) < 54 {
        (54 - byte_len(title)) as nat
    } else {
        0
    }
}

/// A section heading: three rule characters, the title, and a rule that
/// fills up to 54 bytes' worth of title.
pub open spec fn section_heading(title: Seq<char>, is_bold: bool) -> Seq<char> {
    repeat_text(rule_text(is_bold), 3) + " "@ + title + " "@ + repeat_text(
        rule_text(is_bold),
        rule_fill(title),
    )
}

/// The lines that open a section: a blank line and the heading.
pub open spec fn section_lines(title: Seq<char>, is_bold: bool) -> Seq<Seq<char>> {
    seq![Seq::empty(), section_heading(title, is_bold)]
}

/// Appends the opening lines of a section.
pub fn section(lines: &mut Vec<String>, title: &str, is_bold: bool)
    ensures
        final(lines).deep_view() == old(lines).deep_view() + section_lines(title@, is_bold),
{
    let line_char: &str = if is_bold {
        "━"
    } else {
        "─"
    };
    push_line(lines, String::new());
    let mut heading = String::new();
    append_repeated(&mut heading, line_char, 3);
    heading.append(" ");
    heading.append(title);
    heading.append(" ");
    let fill = 54usize.saturating_sub(title.len());
    append_repeated(&mut heading, line_char, fill);
    proof {
        assert(fill == rule_fill(title@));
        assert(heading@ == section_heading(title@, is_bold));
    }
    push_line(lines, heading);
    proof {
        assert(lines.deep_view() =~= old(lines).deep_view() + section_lines(title@, is_bold));
    }
}

/// The closing lines of every view: two blank lines and the key help.
pub open spec fn bottom_lines() -> Seq<Seq<char>> {
    seq![Seq::empty(), Seq::empty()] + section_lines("Navigational Tips"@, false) + seq![
        "  Esc / q — close   ↑ ↓ PgDn PgUp Home End — navigate"@,
    ]
}

/// Appends the closing lines of a view.
pub fn bottom_section(lines: &mut Vec<String>)
    ensures
        final(lines).deep_view() == old(lines).deep_view() + bottom_lines(),
{
    push_line(lines, String::new());
    push_line(lines, String::new());
    section(lines, "Navigational Tips", false);
    push_line(lines, string_of("  Esc / q — close   ↑ ↓ PgDn PgUp Home End — navigate"));
    proof {
        assert(lines.deep_view() =~= old(lines).deep_view() + bottom_lines());
    }
}

/// The items joined with `sep` between each two of them.
pub open spec fn join_text(items: Seq<Seq<char>>, sep: Seq<char>) -> Seq<char>
    decreases items.len(),
{
    if items.len() == 0 {
        Seq::empty()
    } else if items.len() == 1 {
        items[0]
    } else {
        join_text(items.drop_last(), sep) + sep + items.last()
    }
}

/// The strings joined with `sep` between each two of them.
pub fn join(items: &Vec<String>, sep: &str) -> (r: String)
    ensures
        r@ == join_text(items.deep_view(), sep@),
{
    let mut r = String::new();
    let n = items.len();
    let mut i: usize = 0;
    proof {
        assert(items.deep_view().take(0) =~= Seq::<Seq<char>>::empty());
    }
    while i < n
        invariant
            n == items@.len(),
            i <= n,
            r@ == join_text(items.deep_view().take(i as int), sep@),
        decreases n - i,
    {
        let ghost before = items.deep_view().take(i as int);
        if i > 0 {
            r.append(sep);
        }
        r.append(items[i].as_str());
        proof {
            let now = items.deep_view().take(i + 1);
            assert(now.drop_last() =~= before);
            if i == 0 {
                assert(r@ =~= now[0]);
            }
        }
        i += 1;
    }
    proof {
        assert(items.deep_view().take(n as int) =~= items.deep_view());
    }
    r
}

/// A character that `str::trim` removes: one with the Unicode White_Space
/// property.
pub open spec fn is_white_space(c: char) -> bool {
    let u = c as u32;
    ||| 0x9 <= u <= 0xD
    ||| u == 0x20
    ||| u == 0x85
    ||| u == 0xA0
    ||| u == 0x1680
    ||| 0x2000 <= u <= 0x200A
    ||| u == 0x2028
    ||| u == 0x2029
    ||| u == 0x202F
    ||| u == 0x205F
    ||| u == 0x3000
}

fn is_white_space_char(c: char) -> (r: bool)
    ensures
        r == is_white_space(c),
{
    let u = c as u32;
    (0x9 <= u && u <= 0xD) || u == 0x20 || u == 0x85 || u == 0xA0 || u == 0x1680 || (0x2000 <= u
        && u <= 0x200A) || u == 0x2028 || u == 0x2029 || u == 0x202F || u == 0x205F || u == 0x3000
}

/// The number of white space characters at the start of `s`.
pub open spec fn leading_white(s: Seq<char>) -> nat
    decreases s.len(),
{
    if s.len() > 0 && is_white_space(s[0]) {
        1 + leading_white(s.drop_first())
    } else {
        0
    }
}

/// The number of white space characters at the end of `s`.
pub open spec fn trailing_white(s: Seq<char>) -> nat
    decreases s.len(),
{
    if s.len() > 0 && is_white_space(s.last()) {
        1 + trailing_white(s.drop_last())
    } else {
        0
    }
}

/// `s` without the white space at either end (what `str::trim` gives).
pub open spec fn trimmed(s: Seq<char>) -> Seq<char> {
    let rest = s.skip(leading_white(s) as int);
    rest.take(rest.len() - trailing_white(rest))
}

/// A value that reads as a JSON object or array: once trimmed, it starts
/// with `{` and ends with `}`, or starts with `[` and ends with `]`.
pub open spec fn is_json_blob_text(v: Seq<char>) -> bool {
    let t = trimmed(v);
    t.len() > 0 && ((t[0] == '{' && t.last() == '}') || (t[0] == '[' && t.last() == ']'))
}

/// Whether the value reads as a JSON object or array.
pub fn is_json_blob(v: &str) -> (r: bool)
    ensures
        r == is_json_blob_text(v@),
{
    let n = v.unicode_len();
    let mut a: usize = 0;
    proof {
        assert(v@.skip(0) =~= v@);
    }
    while a < n && is_white_space_char(v.get_char(a))
        invariant
            n == v@.len(),
            a <= n,
            leading_white(v@) == a + leading_white(v@.skip(a as int)),
        decreases n - a,
    {
        proof {
            assert(v@.skip(a as int).drop_first() =~= v@.skip(a + 1));
        }
        a += 1;
    }
    proof {
        if a < n {
            assert(v@.skip(a as int)[0] == v@[a as int]);
        }
        assert(leading_white(v@) == a);
    }
    let ghost rest = v@.skip(a as int);
    let mut b: usize = n;
    proof {
        assert(rest.take(b - a) =~= rest);
    }
    while b > a && is_white_space_char(v.get_char(b - 1))
        invariant
            n == v@.len(),
            a <= b <= n,
            rest == v@.skip(a as int),
            trailing_white(rest) == (n - b) + trailing_white(rest.take(b - a)),
        decreases b - a,
    {
        proof {
            assert(rest.take(b - a).drop_last() =~= rest.take(b - a - 1));
            assert(rest.take(b - a).last() == v@[b - 1]);
        }
        b -= 1;
    }
    proof {
        if b > a {
            assert(rest.take(b - a).last() == v@[b - 1]);
        }
        assert(trailing_white(rest) == n - b);
        assert(trimmed(v@) =~= v@.subrange(a as int, b as int));
    }
    if a < b {
        let first = v.get_char(a);
        let last = v.get_char(b - 1);
        (first == '{' && last == '}') || (first == '[' && last == ']')
    } else {
        false
    }
}

/// The longest value that an annotation line shows, in bytes.
pub const TRUNCATE_BYTES: usize = 120;

/// The value as an annotation line shows it: when the first 120 bytes of it
/// end on a character boundary, those bytes and an ellipsis; otherwise the
/// whole value (what `v.get(..120)` decides).
pub open spec fn truncated_text(v: Seq<char>) -> Seq<char> {
    let b = encode_utf8(v);
    if is_char_boundary(b, TRUNCATE_BYTES as int) {
        decode_utf8(b.subrange(0, TRUNCATE_BYTES as int)) + "…"@
    } else {
        v
    }
}

/// The value shortened for an annotation line.
pub fn truncate(v: &str) -> (r: String)
    ensures
        r@ == truncated_text(v@),
{
    if v.is_char_boundary(TRUNCATE_BYTES) {
        let (head, _tail) = v.split_at(TRUNCATE_BYTES);
        proof {
            assert(head@ == decode_utf8(encode_utf8(head@)));
        }
        let mut r = string_of(head);
        r.append("…");
        r
    } else {
        string_of(v)
    }
}

/// The lower case text of `s`, as `str::to_lowercase` gives it.
pub uninterp spec fn lowercase_text(s: Seq<char>) -> Seq<char>;

/// Whether every character of `s` is ASCII.
pub open spec fn is_ascii_text(s: Seq<char>) -> bool {
    forall|i: int| 0 <= i < s.len() ==> (#[trigger] s[i] as u32) < 128
}

/// The lower case of an ASCII character: `A` to `Z` become `a` to `z`, every
/// other character stays.
pub open spec fn ascii_lower(c: char) -> char {
    if 'A' <= c && c <= 'Z' {
        ((c as u32) + 32) as char
    } else {
        c
    }
}

/// Calls `str::to_lowercase`. The contract claims that the result is a
/// function of the text, and that a text of ASCII characters has its
/// letters `A` to `Z` lowered to `a` to `z` and keeps every other character
/// (the Unicode lower case of the ASCII characters); the Unicode case tables
/// beyond ASCII are left unsaid.
#[verifier::external_body]
pub(crate) fn lowercase(s: &str) -> (r: String)
    ensures
        r@ == lowercase_text(s@),
        is_ascii_text(s@) ==> r@ == Seq::new(s@.len(), |i: int| ascii_lower(s@[i])),
{
    s.to_lowercase()
}

/// The `Debug` text of a string: the string quoted, with its special
/// characters escaped.
pub uninterp spec fn debug_text(s: Seq<char>) -> Seq<char>;

/// Formats a string with `{:?}`, which calls `<str as Debug>::fmt`. The
/// contract claims only that the result is a function of the text; the
/// escaping rules are left unsaid.
#[verifier::external_body]
pub(crate) fn debug_string(s: &str) -> (r: String)
    ensures
        r@ == debug_text(s@),
{
    format!("{:?}", s)
}

} // verus!
