//! The layout of a frame: where the word stands, and where its focus
//! character comes to lie.

use vstd::prelude::*;

verus! {

/// A rectangle of cells on the screen.
#[derive(Clone, Copy, Debug, PartialEq, Eq, Structural)]
pub struct Rect {
    /// The column of the left edge.
    pub x: u16,
    /// The row of the top edge.
    pub y: u16,
    /// The number of columns.
    pub width: u16,
    /// The number of rows.
    pub height: u16,
}

/// How much room a row of the layout asks for.
#[derive(Clone, Copy, Debug, PartialEq, Eq, Structural)]
pub enum RowConstraint {
    /// A share of the whole, in percent.
    Percentage(u16),
    /// At least so many cells.
    Min(u16),
    /// Exactly so many cells.
    Length(u16),
}

/// The four rows of the display: room above, the word, the progress
/// indicator, room below.
#[derive(Clone, Copy, Debug, PartialEq, Eq)]
pub struct UIConstraints {
    /// The rows from top to bottom.
    pub constraints: [RowConstraint; 4],
}

/// The share of the screen that is left free above and below the word.
pub open spec fn margin_percent(is_inline: bool) -> u16 {
    if is_inline {
        10
    } else {
        50
    }
}

impl UIConstraints {
    /// The rows of the display: a margin of 50 percent above and below on
    /// the full screen and of 10 percent inline, one line at least for the
    /// word, and two lines for the progress indicator.
    pub fn new(is_inline: bool) -> (ui: UIConstraints)
        ensures
            ui.constraints@ == seq![
                RowConstraint::Percentage(margin_percent(is_inline)),
                RowConstraint::Min(1),
                RowConstraint::Length(2),
                RowConstraint::Percentage(margin_percent(is_inline)),
            ],
    {
        let constraints = if !is_inline {
            [
                RowConstraint::Percentage(50),
                RowConstraint::Min(1),
                RowConstraint::Length(2),
                RowConstraint::Percentage(50),
            ]
        } else {
            [
                RowConstraint::Percentage(10),
                RowConstraint::Min(1),
                RowConstraint::Length(2),
                RowConstraint::Percentage(10),
            ]
        };
        UIConstraints { constraints }
    }
}

/// Whether `row` lies between the upper and the lower edge of `area`.
pub open spec fn within_rows(row: Rect, area: Rect) -> bool {
    area.y <= row.y && row.y + row.height <= area.y + area.height
}

/// `Layout::split` of a vertical layout without margin cuts `area` into one
/// row for each constraint, here the four of the display. Every row keeps
/// the left edge and the width of `area` and lies between its upper and its
/// lower edge; where in between the solver puts it is not stated.
#[verifier::external_body]
fn split_rows(area: Rect, constraints: &[RowConstraint; 4]) -> (rows: Vec<Rect>)
    ensures
        rows@.len() == 4,
        forall|i: int|
            0 <= i < rows@.len() ==> (#[trigger] rows@[i]).x == area.x && rows@[i].width
                == area.width && within_rows(rows@[i], area),
{
    let outer =
        ratatui::layout::Rect { x: area.x, y: area.y, width: area.width, height: area.height };
    let wanted = constraints.iter().map(|c| match *c {
        RowConstraint::Percentage(p) => ratatui::layout::Constraint::Percentage(p),
        RowConstraint::Min(n) => ratatui::layout::Constraint::Min(n),
        RowConstraint::Length(n) => ratatui::layout::Constraint::Length(n),
    });
    let rows = ratatui::layout::Layout::default()
        .direction(ratatui::layout::Direction::Vertical)
        .constraints(wanted)
        .split(outer);
    rows.iter().map(|r| Rect { x: r.x, y: r.y, width: r.width, height: r.height }).collect()
}

/// The highlight position for a word of `len` characters.
pub open spec fn focus_index(len: nat) -> nat {
    if len == 1 {
        0
    } else if 2 <= len <= 5 {
        1
    } else if 6 <= len <= 9 {
        2
    } else if 10 <= len <= 13 {
        3
    } else {
        4
    }
}

/// The highlight position of a word lies inside the word, and it never
/// moves left as words grow.
pub proof fn lemma_focus_index_in_word(len: nat, longer: nat)
    ensures
        len > 0 ==> focus_index(len) < len,
        0 < len <= longer ==> focus_index(len) <= focus_index(longer),
        focus_index(len) <= 4,
{
}

/// Finds the character of `word` that the eye should rest on, counted in
/// characters from zero.
pub fn find_focus_point(word: &str) -> (idx: usize)
    ensures
        idx == focus_index(word@.len()),
        word@.len() > 0 ==> idx < word@.len(),
{
    let len: usize = word.unicode_len();
    if len == 1 {
        0
    } else if 2 <= len && len <= 5 {
        1
    } else if 6 <= len && len <= 9 {
        2
    } else if 10 <= len && len <= 13 {
        3
    } else {
        4
    }
}

/// A word laid out in a line: blanks, then the word in three parts.
#[derive(Clone, Debug, PartialEq, Eq)]
pub struct WordLine {
    /// The number of blanks before the word.
    pub padding_left: usize,
    /// The characters before the focus character.
    pub before: String,
    /// The focus character; empty only for the empty word.
    pub focus: String,
    /// The characters after the focus character.
    pub after: String,
}

/// A line as a mathematical value.
pub struct WordLineView {
    /// The number of blanks before the word.
    pub padding_left: nat,
    /// The characters before the focus character.
    pub before: Seq<char>,
    /// The focus character, or nothing.
    pub focus: Seq<char>,
    /// The characters after the focus character.
    pub after: Seq<char>,
}

impl View for WordLine {
    type V = WordLineView;

    open spec fn view(&self) -> WordLineView {
        WordLineView {
            padding_left: self.padding_left as nat,
            before: self.before@,
            focus: self.focus@,
            after: self.after@,
        }
    }
}

/// The midpoint of a region `width` cells wide.
pub open spec fn midpoint(width: u16) -> nat {
    (width / 2) as nat
}

/// The line for `word` in a region `width` cells wide: the word is cut at
/// its focus character, and as many blanks go before it as bring that
/// character to the midpoint. A word whose part before the focus is longer
/// than half the region starts at the left edge.
pub open spec fn word_line(word: Seq<char>, width: u16) -> WordLineView {
    let focus = focus_index(word.len()) as int;
    if focus < word.len() {
        WordLineView {
            padding_left: if midpoint(width) > focus {
                (midpoint(width) - focus) as nat
            } else {
                0
            },
            before: word.subrange(0, focus as int),
            focus: word.subrange(focus as int, focus + 1),
            after: word.subrange(focus + 1, word.len() as int),
        }
    } else {
        WordLineView {
            padding_left: midpoint(width),
            before: word,
            focus: Seq::empty(),
            after: Seq::empty(),
        }
    }
}

/// The parts of a line make up the word, and the focus character of a word
/// that fits stands at the midpoint of the region.
pub proof fn lemma_word_line_centres_focus(word: Seq<char>, width: u16)
    ensures
        word_line(word, width).before + word_line(word, width).focus + word_line(
            word,
            width,
        ).after == word,
        word.len() > 0 ==> word_line(word, width).focus == seq![
            word[focus_index(word.len()) as int],
        ],
        word.len() > 0 && focus_index(word.len()) <= midpoint(width) ==> word_line(
            word,
            width,
        ).padding_left + word_line(word, width).before.len() == midpoint(width),
{
}

/// Lays `word` out in a region `width` cells wide.
pub fn layout_word(word: &str, width: u16) -> (line: WordLine)
    ensures
        line@ == word_line(word@, width),
{
    let len: usize = word.unicode_len();
    let focus: usize = find_focus_point(word);
    let middle: usize = (width / 2) as usize;
    if focus < len {
        let padding_left: usize = if middle > focus {
            middle - focus
        } else {
            0
        };
        WordLine {
            padding_left,
            before: word.substring_char(0, focus).to_owned(),
            focus: word.substring_char(focus, focus + 1).to_owned(),
            after: word.substring_char(focus + 1, len).to_owned(),
        }
    } else {
        WordLine {
            padding_left: middle,
            before: word.to_owned(),
            focus: String::new(),
            after: String::new(),
        }
    }
}

/// What a frame shows: the word in its row, and the progress through the
/// text in the row below.
#[derive(Clone, Debug, PartialEq, Eq)]
pub struct WordDisplay {
    /// The row of the word.
    pub text_area: Rect,
    /// The word, laid out for that row.
    pub line: WordLine,
    /// The row of the progress indicator.
    pub gauge_area: Rect,
    /// The number of the word on screen, counted from one.
    pub position: usize,
    /// The number of words in the text.
    pub total: usize,
}

/// Puts a frame together from the rows that the layout gave: the word goes
/// to the second row and the progress indicator to the third.
pub fn compose_word_display(
    rows: &Vec<Rect>,
    word: &str,
    current_word: usize,
    total_words: usize,
) -> (display: WordDisplay)
    requires
        rows@.len() == 4,
        current_word < total_words,
    ensures
        display.text_area == rows@[1],
        display.line@ == word_line(word@, rows@[1].width),
        display.gauge_area == rows@[2],
        display.position == current_word + 1,
        display.total == total_words,
{
    let text_area = rows[1];
    WordDisplay {
        text_area,
        line: layout_word(word, text_area.width),
        gauge_area: rows[2],
        position: current_word + 1,
        total: total_words,
    }
}

/// Lays out a frame for `area`: the layout solver cuts `area` into the rows
/// that `constraints` ask for, the word is centred on its focus character
/// in the second of them, and the progress indicator, which counts the word
/// on screen from one, goes to the third. Both rows are as wide as `area`
/// and lie inside it.
pub fn render_word_display(
    area: Rect,
    word: &str,
    current_word: usize,
    total_words: usize,
    constraints: &UIConstraints,
) -> (display: WordDisplay)
    requires
        current_word < total_words,
    ensures
        display.line@ == word_line(word@, area.width),
        display.text_area.x == area.x,
        display.text_area.width == area.width,
        within_rows(display.text_area, area),
        display.gauge_area.x == area.x,
        display.gauge_area.width == area.width,
        within_rows(display.gauge_area, area),
        display.position == current_word + 1,
        display.total == total_words,
{
    let rows = split_rows(area, &constraints.constraints);
    compose_word_display(&rows, word, current_word, total_words)
}

} // verus!
