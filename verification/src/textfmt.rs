//! Pure text formatting of log lines.

use vstd::prelude::*;
use vstd::string::*;

use crate::logger::{Color, Level, Record, spec_color_of, color_of};

verus! {

/// The decimal digit character of a value below ten.
pub open spec fn spec_digit(d: int) -> char {
    if d == 0 { '0' }
    else if d == 1 { '1' }
    else if d == 2 { '2' }
    else if d == 3 { '3' }
    else if d == 4 { '4' }
    else if d == 5 { '5' }
    else if d == 6 { '6' }
    else if d == 7 { '7' }
    else if d == 8 { '8' }
    else { '9' }
}

/// Decimal rendering of a natural number, most significant digit first.
pub open spec fn spec_dec(n: nat) -> Seq<char>
    decreases n,
{
    if n < 10 {
        seq![spec_digit(n as int)]
    } else {
        spec_dec(n / 10) + seq![spec_digit((n % 10) as int)]
    }
}

/// The one-character string of a decimal digit.
fn digit_str(d: u32) -> (r: &'static str)
    requires
        d < 10,
    ensures
        r@ == seq![spec_digit(d as int)],
{
    proof {
        reveal_strlit("0");
        reveal_strlit("1");
        reveal_strlit("2");
        reveal_strlit("3");
        reveal_strlit("4");
        reveal_strlit("5");
        reveal_strlit("6");
        reveal_strlit("7");
        reveal_strlit("8");
        reveal_strlit("9");
        assert("0"@ =~= seq![spec_digit(0)]);
        assert("1"@ =~= seq![spec_digit(1)]);
        assert("2"@ =~= seq![spec_digit(2)]);
        assert("3"@ =~= seq![spec_digit(3)]);
        assert("4"@ =~= seq![spec_digit(4)]);
        assert("5"@ =~= seq![spec_digit(5)]);
        assert("6"@ =~= seq![spec_digit(6)]);
        assert("7"@ =~= seq![spec_digit(7)]);
        assert("8"@ =~= seq![spec_digit(8)]);
        assert("9"@ =~= seq![spec_digit(9)]);
    }
    match d {
        0 => "0",
        1 => "1",
        2 => "2",
        3 => "3",
        4 => "4",
        5 => "5",
        6 => "6",
        7 => "7",
        8 => "8",
        _ => "9",
    }
}

/// Renders a number in decimal.
pub fn u32_to_string(n: u32) -> (r: String)
    ensures
        r@ == spec_dec(n as nat),
    decreases n,
{
    if n < 10 {
        digit_str(n).to_owned()
    } else {
        let mut r = u32_to_string(n / 10);
        r.append(digit_str(n % 10));
        r
    }
}

/// A run of spaces.
pub open spec fn spec_spaces(n: nat) -> Seq<char> {
    Seq::new(n, |i: int| ' ')
}

/// A string padded with spaces on the left up to the given width; content
/// wider than the width is kept whole.
pub open spec fn spec_pad_left(s: Seq<char>, w: nat) -> Seq<char> {
    if s.len() >= w {
        s
    } else {
        spec_spaces((w - s.len()) as nat) + s
    }
}

/// A string padded with spaces on the right up to the given width; content
/// wider than the width is kept whole.
pub open spec fn spec_pad_right(s: Seq<char>, w: nat) -> Seq<char> {
    if s.len() >= w {
        s
    } else {
        s + spec_spaces((w - s.len()) as nat)
    }
}

/// Right-aligns a string to the given width.
pub fn pad_left(s: &str, width: usize) -> (r: String)
    ensures
        r@ == spec_pad_left(s@, width as nat),
{
    let n: usize = s.unicode_len();
    let mut r = String::new();
    let mut k: usize = n;
    while k < width
        invariant
            n == s@.len(),
            n <= k,
            n < width ==> k <= width,
            n >= width ==> k == n,
            r@ =~= spec_spaces((k - n) as nat),
        decreases width - k,
    {
        proof {
            reveal_strlit(" ");
        }
        r.append(" ");
        proof {
            assert(" "@ =~= seq![' ']);
            assert(r@ =~= spec_spaces((k + 1 - n) as nat));
        }
        k = k + 1;
    }
    r.append(s);
    proof {
        assert(r@ =~= spec_pad_left(s@, width as nat));
    }
    r
}

/// Left-aligns a string to the given width.
pub fn pad_right(s: &str, width: usize) -> (r: String)
    ensures
        r@ == spec_pad_right(s@, width as nat),
{
    let n: usize = s.unicode_len();
    let mut r = s.to_owned();
    let mut k: usize = n;
    while k < width
        invariant
            n == s@.len(),
            n <= k,
            n < width ==> k <= width,
            n >= width ==> k == n,
            r@ =~= s@ + spec_spaces((k - n) as nat),
        decreases width - k,
    {
        proof {
            reveal_strlit(" ");
        }
        r.append(" ");
        proof {
            assert(" "@ =~= seq![' ']);
            assert(r@ =~= s@ + spec_spaces((k + 1 - n) as nat));
        }
        k = k + 1;
    }
    proof {
        assert(r@ =~= spec_pad_right(s@, width as nat));
    }
    r
}

/// The namespace separator `::` starts at position `i` of `s`.
pub open spec fn sep_at(s: Seq<char>, i: int) -> bool {
    0 <= i && i + 2 <= s.len() && s[i] == ':' && s[i + 1] == ':'
}

/// `s` contains the namespace separator somewhere.
pub open spec fn has_sep(s: Seq<char>) -> bool {
    exists|i: int| sep_at(s, i)
}

/// The last segment of a namespaced identifier: what follows the final
/// separator of a left-to-right, non-overlapping split on `::`; the whole
/// string when no separator occurs.
pub open spec fn spec_last_segment(s: Seq<char>) -> Seq<char>
    decreases s.len(),
{
    if !has_sep(s) {
        s
    } else if sep_at(s, 0) {
        spec_last_segment(s.skip(2))
    } else {
        spec_last_segment(s.skip(1))
    }
}

/// Skipping a prefix shifts where the separator is seen.
proof fn lemma_sep_at_skip(s: Seq<char>, d: int, j: int)
    requires
        0 <= d <= s.len(),
        0 <= j,
    ensures
        sep_at(s.skip(d), j) <==> sep_at(s, j + d),
{
    if j + d + 2 <= s.len() {
        assert(s.skip(d)[j] == s[j + d]);
        assert(s.skip(d)[j + 1] == s[j + d + 1]);
    }
}

/// Up to the leftmost separator the last segment is unchanged: when the
/// separator first occurs at `k`, the last segment is that of the text
/// after it.
proof fn lemma_last_segment_past_sep(s: Seq<char>, k: int)
    requires
        sep_at(s, k),
        forall|j: int| 0 <= j < k ==> !sep_at(s, j),
    ensures
        spec_last_segment(s) == spec_last_segment(s.skip(k + 2)),
    decreases k,
{
    assert(has_sep(s));
    if k == 0 {
    } else {
        assert(!sep_at(s, 0));
        let t = s.skip(1);
        assert(sep_at(t, k - 1)) by {
            lemma_sep_at_skip(s, 1, k - 1);
        }
        assert forall|j: int| 0 <= j < k - 1 implies !sep_at(t, j) by {
            lemma_sep_at_skip(s, 1, j);
        }
        lemma_last_segment_past_sep(t, k - 1);
        assert(t.skip(k + 1) =~= s.skip(k + 2));
    }
}

/// A text with no separator is its own last segment, once seen through a
/// skipped prefix.
proof fn lemma_last_segment_no_sep(s: Seq<char>, d: int)
    requires
        0 <= d <= s.len(),
        forall|j: int| d <= j ==> !sep_at(s, j),
    ensures
        spec_last_segment(s.skip(d)) == s.skip(d),
{
    let t = s.skip(d);
    assert forall|j: int| !sep_at(t, j) by {
        if 0 <= j {
            lemma_sep_at_skip(s, d, j);
        }
    }
    assert(!has_sep(t));
}

/// Takes the last `::`-separated segment of a namespaced identifier.
pub fn last_segment(s: &str) -> (r: String)
    ensures
        r@ == spec_last_segment(s@),
{
    let n: usize = s.unicode_len();
    let mut i: usize = 0;
    let mut start: usize = 0;
    proof {
        assert(s@.skip(0) =~= s@);
    }
    while n - i > 1
        invariant
            n == s@.len(),
            start <= i,
            i <= n,
            forall|j: int| start <= j < i ==> !sep_at(s@, j),
            spec_last_segment(s@) == spec_last_segment(s@.skip(start as int)),
        decreases n - i,
    {
        let c1 = s.get_char(i);
        let c2 = s.get_char(i + 1);
        if c1 == ':' && c2 == ':' {
            proof {
                let t = s@.skip(start as int);
                let k = i - start;
                assert(sep_at(t, k)) by {
                    lemma_sep_at_skip(s@, start as int, k);
                }
                assert forall|j: int| 0 <= j < k implies !sep_at(t, j) by {
                    lemma_sep_at_skip(s@, start as int, j);
                }
                lemma_last_segment_past_sep(t, k);
                assert(t.skip(k + 2) =~= s@.skip(i + 2));
            }
            i = i + 2;
            start = i;
        } else {
            i = i + 1;
        }
    }
    proof {
        assert forall|j: int| start <= j implies !sep_at(s@, j) by {
            if sep_at(s@, j) {
                assert(j + 2 <= n);
                assert(j < i);
            }
        }
        lemma_last_segment_no_sep(s@, start as int);
    }
    let tail = s.substring_char(start, n);
    proof {
        assert(s@.subrange(start as int, n as int) =~= s@.skip(start as int));
    }
    tail.to_owned()
}

/// The shortened target of a record: last segment, a colon, and the source
/// line number.
pub open spec fn spec_target_line(target: Seq<char>, line: nat) -> Seq<char> {
    spec_last_segment(target) + seq![':'] + spec_dec(line)
}

/// Renders the shortened target: `a::b::c` at line 42 becomes `c:42`.
pub fn target_with_line(target: &str, line: u32) -> (r: String)
    ensures
        r@ == spec_target_line(target@, line as nat),
{
    let mut r = last_segment(target);
    proof {
        reveal_strlit(":");
        assert(":"@ =~= seq![':']);
    }
    r.append(":");
    let num = u32_to_string(line);
    r.append(num.as_str());
    proof {
        assert(r@ =~= spec_target_line(target@, line as nat));
    }
    r
}

/// The display name of a severity, as the logging facade prints it.
pub open spec fn spec_level_name(l: Level) -> Seq<char> {
    match l {
        Level::Trace => seq!['T', 'R', 'A', 'C', 'E'],
        Level::Debug => seq!['D', 'E', 'B', 'U', 'G'],
        Level::Info => seq!['I', 'N', 'F', 'O'],
        Level::Warn => seq!['W', 'A', 'R', 'N'],
        Level::Error => seq!['E', 'R', 'R', 'O', 'R'],
    }
}

/// Renders the display name of a severity.
pub fn level_name(l: Level) -> (r: &'static str)
    ensures
        r@ == spec_level_name(l),
{
    proof {
        reveal_strlit("TRACE");
        reveal_strlit("DEBUG");
        reveal_strlit("INFO");
        reveal_strlit("WARN");
        reveal_strlit("ERROR");
        assert("TRACE"@ =~= spec_level_name(Level::Trace));
        assert("DEBUG"@ =~= spec_level_name(Level::Debug));
        assert("INFO"@ =~= spec_level_name(Level::Info));
        assert("WARN"@ =~= spec_level_name(Level::Warn));
        assert("ERROR"@ =~= spec_level_name(Level::Error));
    }
    match l {
        Level::Trace => "TRACE",
        Level::Debug => "DEBUG",
        Level::Info => "INFO",
        Level::Warn => "WARN",
        Level::Error => "ERROR",
    }
}

/// The ANSI escape that switches to the color with the given parameter.
pub open spec fn spec_esc(n: nat) -> Seq<char> {
    seq!['\u{1b}', '['] + spec_dec(n) + seq!['m']
}

/// The ANSI escape that resets the color.
pub open spec fn spec_reset() -> Seq<char> {
    seq!['\u{1b}', '[', '0', 'm']
}

/// The plain formatted line of the console bridge: the timestamp, the
/// severity right-aligned to 5, the shortened target left-aligned to 14, and
/// the message.
pub open spec fn spec_plain_line(
    ts: Seq<char>,
    l: Level,
    target: Seq<char>,
    line: nat,
    msg: Seq<char>,
) -> Seq<char> {
    ts + seq![' '] + spec_pad_left(spec_level_name(l), 5) + seq![' ']
        + spec_pad_right(spec_target_line(target, line), 14) + seq![' ', '-', '-', '-', ' '] + msg
}

/// The colorized formatted line of the terminal sink: as the plain line,
/// with the severity wrapped in its color escape and the target wrapped in
/// cyan.
pub open spec fn spec_colored_line(
    ts: Seq<char>,
    l: Level,
    target: Seq<char>,
    line: nat,
    msg: Seq<char>,
) -> Seq<char> {
    ts + seq![' '] + spec_esc(spec_color_of(l).spec_v() as nat)
        + spec_pad_left(spec_level_name(l), 5) + spec_reset() + seq![' '] + spec_esc(36)
        + spec_pad_right(spec_target_line(target, line), 14) + spec_reset()
        + seq![' ', '-', '-', '-', ' '] + msg
}

/// Renders a record as the plain line of the console bridge.
pub fn format_plain_line(ts: &str, rec: &Record) -> (r: String)
    ensures
        r@ == spec_plain_line(ts@, rec.level, rec.target@, rec.line as nat, rec.message@),
{
    proof {
        reveal_strlit(" ");
        reveal_strlit(" --- ");
        assert(" "@ =~= seq![' ']);
        assert(" --- "@ =~= seq![' ', '-', '-', '-', ' ']);
    }
    let mut r = ts.to_owned();
    r.append(" ");
    let lvl = pad_left(level_name(rec.level), 5);
    r.append(lvl.as_str());
    r.append(" ");
    let tl = target_with_line(rec.target.as_str(), rec.line);
    let tlp = pad_right(tl.as_str(), 14);
    r.append(tlp.as_str());
    r.append(" --- ");
    r.append(rec.message.as_str());
    proof {
        assert(r@ =~= spec_plain_line(ts@, rec.level, rec.target@, rec.line as nat,
            rec.message@));
    }
    r
}

/// Renders the escape that switches to the given color.
fn esc(c: Color) -> (r: String)
    ensures
        r@ == spec_esc(c.spec_v() as nat),
{
    proof {
        reveal_strlit("\u{1b}[");
        reveal_strlit("m");
        assert("\u{1b}["@ =~= seq!['\u{1b}', '[']);
        assert("m"@ =~= seq!['m']);
    }
    let mut r = "\u{1b}[".to_owned();
    let num = u32_to_string(c.v() as u32);
    r.append(num.as_str());
    r.append("m");
    proof {
        assert(r@ =~= spec_esc(c.spec_v() as nat));
    }
    r
}

/// Renders a record as the colorized line of the terminal sink.
pub fn format_colored_line(ts: &str, rec: &Record) -> (r: String)
    ensures
        r@ == spec_colored_line(ts@, rec.level, rec.target@, rec.line as nat, rec.message@),
{
    proof {
        reveal_strlit(" ");
        reveal_strlit(" --- ");
        reveal_strlit("\u{1b}[0m");
        assert(" "@ =~= seq![' ']);
        assert(" --- "@ =~= seq![' ', '-', '-', '-', ' ']);
        assert("\u{1b}[0m"@ =~= spec_reset());
    }
    let mut r = ts.to_owned();
    r.append(" ");
    let lev_color = esc(color_of(rec.level));
    r.append(lev_color.as_str());
    let lvl = pad_left(level_name(rec.level), 5);
    r.append(lvl.as_str());
    r.append("\u{1b}[0m");
    r.append(" ");
    let target_color = esc(Color::Cyan);
    r.append(target_color.as_str());
    let tl = target_with_line(rec.target.as_str(), rec.line);
    let tlp = pad_right(tl.as_str(), 14);
    r.append(tlp.as_str());
    r.append("\u{1b}[0m");
    r.append(" --- ");
    r.append(rec.message.as_str());
    proof {
        assert(spec_esc((Color::Cyan).spec_v() as nat) == spec_esc(36));
        assert(r@ =~= spec_colored_line(ts@, rec.level, rec.target@, rec.line as nat,
            rec.message@));
    }
    r
}

/// The severity field of a formatted line is exactly 5 characters wide for
/// every severity, whatever the rest of the record holds.
pub proof fn lemma_severity_field_width(l: Level)
    ensures
        spec_pad_left(spec_level_name(l), 5).len() == 5,
{
}

/// The shortened-target field of a formatted line is left-aligned to width
/// 14: it is never narrower, and exactly 14 unless the shortened target
/// itself is longer.
pub proof fn lemma_target_field_width(target: Seq<char>, line: nat)
    ensures
        spec_pad_right(spec_target_line(target, line), 14).len() >= 14,
        spec_target_line(target, line).len() <= 14 ==> spec_pad_right(
            spec_target_line(target, line),
            14,
        ).len() == 14,
{
}

/// Relies on chrono's `Local::now` and `DateTime::format`: the current local
/// time rendered as `YYYY-MM-DD HH:MM:SS.mmm`.  The result depends on the
/// clock, so nothing is assumed of it.
#[verifier::external_body]
pub(crate) fn now_timestamp() -> String {
    chrono::Local::now().format("%Y-%m-%d %H:%M:%S%.3f").to_string()
}

} // verus!
