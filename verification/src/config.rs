//! The settings of the reader, and the colours that they name.
//!
//! A colour is written as one of sixteen names, as `#` and six hexadecimal
//! digits, or as three decimal numbers from 0 to 255 with commas between
//! them. Whatever else is written stands for cyan.

use crate::color::{Color, NamedColor};
use crate::words::{is_whitespace, is_whitespace_char};
use vstd::prelude::*;

verus! {

/// The lower-case form of a text, as `str::to_lowercase` gives it.
pub uninterp spec fn lowercase(s: Seq<char>) -> Seq<char>;

/// `str::to_lowercase` gives the lower-case form of the text, by the rules
/// of Unicode. Which characters that changes is not stated here.
#[verifier::external_body]
fn to_lowercase(s: &str) -> (lower: String)
    ensures
        lower@ == lowercase(s@),
{
    s.to_lowercase()
}

/// The settings.
#[derive(Clone, Debug, PartialEq, Eq)]
pub struct Config {
    /// The colour of the border, as written.
    pub border_color: String,
    /// The colour of the progress indicator, as written.
    pub progress_bar_color: String,
    /// Whether the border is drawn.
    pub show_border: bool,
    /// Whether the progress indicator is drawn.
    pub show_progress_bar: bool,
    /// Whether anything moves but the words.
    pub enable_animations: bool,
    /// Whether the reader keeps to a few lines instead of the full screen.
    pub inline: bool,
}

/// The border's colour where none is set: a muted cyan.
pub fn default_border_color() -> (color: String)
    ensures
        color@ == "60,100,100"@,
{
    "60,100,100".to_owned()
}

/// The progress indicator's colour where none is set: that of the border.
pub fn default_progress_bar_color() -> (color: String)
    ensures
        color@ == "60,100,100"@,
{
    "60,100,100".to_owned()
}

/// The border is drawn unless the settings say otherwise.
pub fn default_show_border() -> (show: bool)
    ensures
        show,
{
    true
}

/// The progress indicator is drawn unless the settings say otherwise.
pub fn default_show_progress_bar() -> (show: bool)
    ensures
        show,
{
    true
}

/// Animations run unless the settings say otherwise.
pub fn default_enable_animations() -> (enable: bool)
    ensures
        enable,
{
    true
}

/// The reader is inline unless the settings say otherwise.
pub fn default_inline() -> (inline: bool)
    ensures
        inline,
{
    true
}

impl Default for Config {
    fn default() -> (config: Config)
        ensures
            config.border_color@ == "60,100,100"@,
            config.progress_bar_color@ == "60,100,100"@,
            config.show_border,
            config.show_progress_bar,
            config.enable_animations,
            config.inline,
    {
        Config {
            border_color: default_border_color(),
            progress_bar_color: default_progress_bar_color(),
            show_border: default_show_border(),
            show_progress_bar: default_show_progress_bar(),
            enable_animations: default_enable_animations(),
            inline: default_inline(),
        }
    }
}

/// The colour that stands for whatever cannot be read.
pub open spec fn fallback_color() -> Color {
    Color::Named(NamedColor::Cyan)
}

/// The palette colour that `s` names, if it is one of the sixteen names in
/// lower case.
pub open spec fn named_color(s: Seq<char>) -> Option<NamedColor> {
    if s == "black"@ {
        Some(NamedColor::Black)
    } else if s == "red"@ {
        Some(NamedColor::Red)
    } else if s == "green"@ {
        Some(NamedColor::Green)
    } else if s == "yellow"@ {
        Some(NamedColor::Yellow)
    } else if s == "blue"@ {
        Some(NamedColor::Blue)
    } else if s == "magenta"@ {
        Some(NamedColor::Magenta)
    } else if s == "cyan"@ {
        Some(NamedColor::Cyan)
    } else if s == "gray"@ {
        Some(NamedColor::Gray)
    } else if s == "darkgray"@ {
        Some(NamedColor::DarkGray)
    } else if s == "lightred"@ {
        Some(NamedColor::LightRed)
    } else if s == "lightgreen"@ {
        Some(NamedColor::LightGreen)
    } else if s == "lightyellow"@ {
        Some(NamedColor::LightYellow)
    } else if s == "lightblue"@ {
        Some(NamedColor::LightBlue)
    } else if s == "lightmagenta"@ {
        Some(NamedColor::LightMagenta)
    } else if s == "lightcyan"@ {
        Some(NamedColor::LightCyan)
    } else if s == "white"@ {
        Some(NamedColor::White)
    } else {
        None
    }
}

/// The value of a hexadecimal digit, in either case.
pub open spec fn hex_digit(c: char) -> Option<u8> {
    if '0' <= c <= '9' {
        Some((c as u32 - '0' as u32) as u8)
    } else if 'a' <= c <= 'f' {
        Some((c as u32 - 'a' as u32 + 10) as u8)
    } else if 'A' <= c <= 'F' {
        Some((c as u32 - 'A' as u32 + 10) as u8)
    } else {
        None
    }
}

/// The number from 0 to 255 that two hexadecimal digits write; nothing
/// where one of the two characters is no such digit.
pub open spec fn hex_pair(hi: char, lo: char) -> Option<u8> {
    match (hex_digit(hi), hex_digit(lo)) {
        (Some(h), Some(l)) => Some((16 * h + l) as u8),
        _ => None,
    }
}

/// The colour that a text writes in hexadecimal: `#` and three pairs of
/// hexadecimal digits, for red, green and blue. Any other text writes none.
pub open spec fn hex_color(s: Seq<char>) -> Option<Color> {
    if s.len() == 7 && s[0] == '#' {
        match (hex_pair(s[1], s[2]), hex_pair(s[3], s[4]), hex_pair(s[5], s[6])) {
            (Some(r), Some(g), Some(b)) => Some(Color::Rgb(r, g, b)),
            _ => None,
        }
    } else {
        None
    }
}

/// Whether `c` is one of the digits `0` to `9`.
pub open spec fn is_digit(c: char) -> bool {
    '0' <= c <= '9'
}

/// The value of a decimal digit; zero for any other character.
pub open spec fn digit_value(c: char) -> nat {
    if is_digit(c) {
        (c as u32 - '0' as u32) as nat
    } else {
        0
    }
}

/// The number that a run of decimal digits writes.
pub open spec fn digits_value(d: Seq<char>) -> nat
    decreases d.len(),
{
    if d.len() == 0 {
        0
    } else {
        digits_value(d.drop_last()) * 10 + digit_value(d.last())
    }
}

/// Whether every character of `d` is a decimal digit.
pub open spec fn all_digits(d: Seq<char>) -> bool {
    forall|i: int| 0 <= i < d.len() ==> is_digit(#[trigger] d[i])
}

/// `s` without the whitespace at its start.
pub open spec fn trim_start(s: Seq<char>) -> Seq<char>
    decreases s.len(),
{
    if s.len() > 0 && is_whitespace_char(s[0]) {
        trim_start(s.skip(1))
    } else {
        s
    }
}

/// `s` without the whitespace at its end.
pub open spec fn trim_end(s: Seq<char>) -> Seq<char>
    decreases s.len(),
{
    if s.len() > 0 && is_whitespace_char(s.last()) {
        trim_end(s.drop_last())
    } else {
        s
    }
}

/// The number from 0 to 255 that a text writes in decimal: whitespace
/// around it is dropped, one plus sign may stand before the digits, and at
/// least one digit must be there. Any other text writes none, and so does
/// one that writes a number above 255.
pub open spec fn component(p: Seq<char>) -> Option<u8> {
    let t = trim_end(trim_start(p));
    let d = if t.len() > 0 && t[0] == '+' {
        t.skip(1)
    } else {
        t
    };
    if d.len() > 0 && all_digits(d) && digits_value(d) <= 255 {
        Some(digits_value(d) as u8)
    } else {
        None
    }
}

/// The position of the first comma of `s` at or after `from`; the length of
/// `s` if there is none.
pub open spec fn find_comma(s: Seq<char>, from: int) -> int
    decreases s.len() - from,
{
    if from >= s.len() {
        s.len() as int
    } else if s[from] == ',' {
        from
    } else {
        find_comma(s, from + 1)
    }
}

/// The colour that a text writes in decimal: three numbers from 0 to 255
/// for red, green and blue, with a comma after the first and after the
/// second. A text with more or fewer commas writes none, and neither does
/// one in which a part is no such number.
pub open spec fn triple_color(s: Seq<char>) -> Option<Color> {
    let len = s.len() as int;
    let first = find_comma(s, 0);
    let second = find_comma(s, first + 1);
    let third = find_comma(s, second + 1);
    if first < len && second < len && third == len {
        match (
            component(s.subrange(0, first)),
            component(s.subrange(first + 1, second)),
            component(s.subrange(second + 1, len)),
        ) {
            (Some(r), Some(g), Some(b)) => Some(Color::Rgb(r, g, b)),
            _ => None,
        }
    } else {
        None
    }
}

/// The colour that a text in lower case writes: the palette colour that it
/// names, or the colour that it writes in hexadecimal or in decimal. A text
/// that is none of these stands for the fallback, whatever it holds.
pub open spec fn color_of(s: Seq<char>) -> Color {
    match named_color(s) {
        Some(name) => Color::Named(name),
        None => match hex_color(s) {
            Some(color) => color,
            None => match triple_color(s) {
                Some(color) => color,
                None => fallback_color(),
            },
        },
    }
}

/// A colour in hexadecimal is read as written: each pair gives its channel.
pub proof fn lemma_hex_color_reads_pairs(s: Seq<char>)
    requires
        hex_color(s) is Some,
    ensures
        named_color(s) is None ==> color_of(s) == hex_color(s)->0,
        hex_color(s)->0 == Color::Rgb(
            hex_pair(s[1], s[2])->0,
            hex_pair(s[3], s[4])->0,
            hex_pair(s[5], s[6])->0,
        ),
        triple_color(s) is None,
{
    lemma_no_comma_among_digits(s);
}

proof fn lemma_no_comma_among_digits(s: Seq<char>)
    requires
        hex_color(s) is Some,
    ensures
        find_comma(s, 0) == s.len(),
{
    reveal_with_fuel(find_comma, 8);
}

/// Whatever is no name and writes no colour stands for the fallback.
pub proof fn lemma_malformed_is_fallback(s: Seq<char>)
    requires
        named_color(s) is None,
        hex_color(s) is None,
        triple_color(s) is None,
    ensures
        color_of(s) == fallback_color(),
{
}

/// The characters of a text, one by one.
fn chars_of(s: &str) -> (chars: Vec<char>)
    ensures
        chars@ == s@,
{
    let mut chars: Vec<char> = Vec::new();
    for c in it: s.chars()
        invariant
            it.seq() == s@,
            chars@ == s@.take(it.index()),
    {
        chars.push(c);
        assert(s@.take(it.index() + 1) == s@.take(it.index()).push(c));
    }
    assert(s@.take(s@.len() as int) == s@);
    chars
}

/// Whether `chars` spell `name`.
fn spells(chars: &Vec<char>, name: &str) -> (same: bool)
    ensures
        same == (chars@ == name@),
{
    let n: usize = name.unicode_len();
    if chars.len() != n {
        return false;
    }
    let mut i: usize = 0;
    while i < n
        invariant
            i <= n,
            n == name@.len(),
            n == chars@.len(),
            forall|j: int| 0 <= j < i ==> chars@[j] == name@[j],
        decreases n - i,
    {
        if chars[i] != name.get_char(i) {
            return false;
        }
        i = i + 1;
    }
    assert(chars@ =~= name@);
    true
}

/// The palette colour that `chars` name.
fn lookup_name(chars: &Vec<char>) -> (name: Option<NamedColor>)
    ensures
        name == named_color(chars@),
{
    if spells(chars, "black") {
        Some(NamedColor::Black)
    } else if spells(chars, "red") {
        Some(NamedColor::Red)
    } else if spells(chars, "green") {
        Some(NamedColor::Green)
    } else if spells(chars, "yellow") {
        Some(NamedColor::Yellow)
    } else if spells(chars, "blue") {
        Some(NamedColor::Blue)
    } else if spells(chars, "magenta") {
        Some(NamedColor::Magenta)
    } else if spells(chars, "cyan") {
        Some(NamedColor::Cyan)
    } else if spells(chars, "gray") {
        Some(NamedColor::Gray)
    } else if spells(chars, "darkgray") {
        Some(NamedColor::DarkGray)
    } else if spells(chars, "lightred") {
        Some(NamedColor::LightRed)
    } else if spells(chars, "lightgreen") {
        Some(NamedColor::LightGreen)
    } else if spells(chars, "lightyellow") {
        Some(NamedColor::LightYellow)
    } else if spells(chars, "lightblue") {
        Some(NamedColor::LightBlue)
    } else if spells(chars, "lightmagenta") {
        Some(NamedColor::LightMagenta)
    } else if spells(chars, "lightcyan") {
        Some(NamedColor::LightCyan)
    } else if spells(chars, "white") {
        Some(NamedColor::White)
    } else {
        None
    }
}

fn hex_digit_of(c: char) -> (v: Option<u8>)
    ensures
        v == hex_digit(c),
{
    if '0' <= c && c <= '9' {
        Some((c as u32 - '0' as u32) as u8)
    } else if 'a' <= c && c <= 'f' {
        Some((c as u32 - 'a' as u32 + 10) as u8)
    } else if 'A' <= c && c <= 'F' {
        Some((c as u32 - 'A' as u32 + 10) as u8)
    } else {
        None
    }
}

fn hex_pair_of(hi: char, lo: char) -> (v: Option<u8>)
    ensures
        v == hex_pair(hi, lo),
{
    match (hex_digit_of(hi), hex_digit_of(lo)) {
        (Some(h), Some(l)) => Some(16 * h + l),
        _ => None,
    }
}

/// The colour that `chars` write in hexadecimal.
fn parse_hex(chars: &Vec<char>) -> (color: Option<Color>)
    ensures
        color == hex_color(chars@),
{
    if chars.len() == 7 && chars[0] == '#' {
        match (
            hex_pair_of(chars[1], chars[2]),
            hex_pair_of(chars[3], chars[4]),
            hex_pair_of(chars[5], chars[6]),
        ) {
            (Some(r), Some(g), Some(b)) => Some(Color::Rgb(r, g, b)),
            _ => None,
        }
    } else {
        None
    }
}

fn find_comma_from(chars: &Vec<char>, from: usize) -> (at: usize)
    requires
        from <= chars@.len(),
    ensures
        at == find_comma(chars@, from as int),
        from <= at <= chars@.len(),
{
    let mut i: usize = from;
    while i < chars.len()
        invariant
            from <= i <= chars@.len(),
            find_comma(chars@, from as int) == find_comma(chars@, i as int),
        decreases chars@.len() - i,
    {
        if chars[i] == ',' {
            return i;
        }
        i = i + 1;
    }
    i
}

proof fn lemma_digits_value_grows(d: Seq<char>, k: int)
    requires
        0 <= k <= d.len(),
    ensures
        digits_value(d.take(k)) <= digits_value(d),
    decreases d.len() - k,
{
    if k < d.len() {
        lemma_digits_value_grows(d, k + 1);
        assert(d.take(k + 1).drop_last() == d.take(k));
    } else {
        assert(d.take(k) == d);
    }
}

/// The number that the characters of `chars` from `from` up to `to` write.
fn parse_component(chars: &Vec<char>, from: usize, to: usize) -> (v: Option<u8>)
    requires
        from <= to <= chars@.len(),
    ensures
        v == component(chars@.subrange(from as int, to as int)),
{
    let ghost p = chars@.subrange(from as int, to as int);
    let mut a: usize = from;
    while a < to && is_whitespace(chars[a])
        invariant
            from <= a <= to <= chars@.len(),
            trim_start(p) == trim_start(chars@.subrange(a as int, to as int)),
        decreases to - a,
    {
        assert(chars@.subrange(a as int, to as int).skip(1) == chars@.subrange(
            a as int + 1,
            to as int,
        ));
        a = a + 1;
    }
    assert(trim_start(p) == chars@.subrange(a as int, to as int));
    let mut b: usize = to;
    while a < b && is_whitespace(chars[b - 1])
        invariant
            a <= b <= to <= chars@.len(),
            trim_end(trim_start(p)) == trim_end(chars@.subrange(a as int, b as int)),
        decreases b - a,
    {
        assert(chars@.subrange(a as int, b as int).drop_last() == chars@.subrange(
            a as int,
            b as int - 1,
        ));
        b = b - 1;
    }
    let ghost t = chars@.subrange(a as int, b as int);
    assert(trim_end(trim_start(p)) == t);
    let start: usize = if a < b && chars[a] == '+' {
        a + 1
    } else {
        a
    };
    let ghost d = chars@.subrange(start as int, b as int);
    assert(d == if t.len() > 0 && t[0] == '+' {
        t.skip(1)
    } else {
        t
    });
    let ghost wanted = component(p);
    assert(wanted == if d.len() > 0 && all_digits(d) && digits_value(d) <= 255 {
        Some(digits_value(d) as u8)
    } else {
        None
    });
    if start == b {
        return None;
    }
    let mut acc: u32 = 0;
    let mut i: usize = start;
    while i < b
        invariant
            start <= i <= b <= chars@.len(),
            d == chars@.subrange(start as int, b as int),
            wanted == if d.len() > 0 && all_digits(d) && digits_value(d) <= 255 {
                Some(digits_value(d) as u8)
            } else {
                None
            },
            wanted == component(chars@.subrange(from as int, to as int)),
            all_digits(d.take(i - start)),
            acc == digits_value(d.take(i - start)),
            acc <= 255,
        decreases b - i,
    {
        let c: char = chars[i];
        let ghost k = i - start;
        assert(d[k] == c);
        if !('0' <= c && c <= '9') {
            return None;
        }
        let digit: u32 = c as u32 - '0' as u32;
        proof {
            assert(d.take(k + 1).drop_last() == d.take(k));
            assert(d.take(k + 1).last() == c);
            assert forall|j: int| 0 <= j < k + 1 implies is_digit(#[trigger] d.take(k + 1)[j]) by {
                if j < k {
                    assert(d.take(k)[j] == d[j]);
                }
            }
        }
        acc = acc * 10 + digit;
        if acc > 255 {
            proof {
                lemma_digits_value_grows(d, k + 1);
            }
            return None;
        }
        i = i + 1;
    }
    assert(d.take(b - start) == d);
    Some(acc as u8)
}

/// The colour that `chars` write in decimal.
fn parse_triple(chars: &Vec<char>) -> (color: Option<Color>)
    ensures
        color == triple_color(chars@),
{
    let len: usize = chars.len();
    let first: usize = find_comma_from(chars, 0);
    if first >= len {
        return None;
    }
    let second: usize = find_comma_from(chars, first + 1);
    if second >= len {
        return None;
    }
    let third: usize = find_comma_from(chars, second + 1);
    if third < len {
        return None;
    }
    match (
        parse_component(chars, 0, first),
        parse_component(chars, first + 1, second),
        parse_component(chars, second + 1, len),
    ) {
        (Some(r), Some(g), Some(b)) => Some(Color::Rgb(r, g, b)),
        _ => None,
    }
}

/// Reads a colour from a text in lower case. A text that names no colour
/// and writes none gives the fallback.
pub fn parse_lowercase(s: &str) -> (color: Color)
    ensures
        color == color_of(s@),
{
    let chars = chars_of(s);
    match lookup_name(&chars) {
        Some(name) => Color::Named(name),
        None => match parse_hex(&chars) {
            Some(color) => color,
            None => match parse_triple(&chars) {
                Some(color) => color,
                None => Color::Named(NamedColor::Cyan),
            },
        },
    }
}

impl Config {
    /// Reads a colour from a text, whatever its case: the text is put in
    /// lower case and then read.
    pub fn parse_color_string(color_str: &str) -> (color: Color)
        ensures
            color == color_of(lowercase(color_str@)),
    {
        let lower = to_lowercase(color_str);
        parse_lowercase(lower.as_str())
    }

    /// The colour of the border.
    pub fn parse_border_color(&self) -> (color: Color)
        ensures
            color == color_of(lowercase(self.border_color@)),
    {
        Self::parse_color_string(self.border_color.as_str())
    }

    /// The colour of the progress indicator.
    pub fn parse_progress_bar_color(&self) -> (color: Color)
        ensures
            color == color_of(lowercase(self.progress_bar_color@)),
    {
        Self::parse_color_string(self.progress_bar_color.as_str())
    }
}

} // verus!
