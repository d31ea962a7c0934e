use spr_reader::ui::{
    compose_word_display, find_focus_point, layout_word, render_word_display, Rect,
    RowConstraint, UIConstraints,
};

fn word_of(len: usize) -> String {
    "x".repeat(len)
}

#[test]
fn focus_index_length_bands() {
    assert_eq!(find_focus_point(&word_of(1)), 0);
    assert_eq!(find_focus_point(&word_of(5)), 1);
    assert_eq!(find_focus_point(&word_of(9)), 2);
    assert_eq!(find_focus_point(&word_of(13)), 3);
    assert_eq!(find_focus_point(&word_of(20)), 4);
}

#[test]
fn focus_index_band_edges() {
    assert_eq!(find_focus_point(&word_of(2)), 1);
    assert_eq!(find_focus_point(&word_of(6)), 2);
    assert_eq!(find_focus_point(&word_of(10)), 3);
    assert_eq!(find_focus_point(&word_of(14)), 4);
    assert_eq!(find_focus_point(&word_of(1000)), 4);
}

#[test]
fn focus_index_of_empty_word() {
    assert_eq!(find_focus_point(""), 4);
}

#[test]
fn focus_index_counts_characters_not_bytes() {
    // Five characters, ten bytes.
    assert_eq!(find_focus_point("\u{e9}\u{e9}\u{e9}\u{e9}\u{e9}"), 1);
    // Two characters, eight bytes.
    assert_eq!(find_focus_point("\u{1f600}\u{1f600}"), 1);
}

#[test]
fn focus_index_lies_in_the_word() {
    for len in 1..40 {
        assert!(find_focus_point(&word_of(len)) < len);
    }
}

#[test]
fn layout_word_centres_the_focus_character() {
    let line = layout_word("reading", 80);
    assert_eq!(line.before, "re");
    assert_eq!(line.focus, "a");
    assert_eq!(line.after, "ding");
    assert_eq!(line.padding_left, 38);
    assert_eq!(line.padding_left + line.before.chars().count(), 40);
}

#[test]
fn layout_word_in_a_narrow_region() {
    let line = layout_word("extraordinarily", 6);
    assert_eq!(line.before, "extr");
    assert_eq!(line.focus, "a");
    assert_eq!(line.after, "ordinarily");
    assert_eq!(line.padding_left, 0);
}

#[test]
fn layout_word_in_no_room() {
    let line = layout_word("word", 0);
    assert_eq!(line.padding_left, 0);
    assert_eq!(line.before, "w");
    assert_eq!(line.focus, "o");
    assert_eq!(line.after, "rd");
}

#[test]
fn layout_word_one_letter() {
    let line = layout_word("I", 11);
    assert_eq!(line.padding_left, 5);
    assert_eq!(line.before, "");
    assert_eq!(line.focus, "I");
    assert_eq!(line.after, "");
}

#[test]
fn layout_word_empty() {
    let line = layout_word("", 10);
    assert_eq!(line.padding_left, 5);
    assert_eq!(line.before, "");
    assert_eq!(line.focus, "");
    assert_eq!(line.after, "");
}

#[test]
fn layout_word_counts_characters() {
    let line = layout_word("\u{fc}ber\u{e4}ll", 20);
    assert_eq!(line.before, "\u{fc}b");
    assert_eq!(line.focus, "e");
    assert_eq!(line.after, "r\u{e4}ll");
    assert_eq!(line.padding_left, 8);
}

#[test]
fn ui_constraints_full_screen() {
    let ui = UIConstraints::new(false);
    assert_eq!(
        ui.constraints,
        [
            RowConstraint::Percentage(50),
            RowConstraint::Min(1),
            RowConstraint::Length(2),
            RowConstraint::Percentage(50),
        ]
    );
}

#[test]
fn ui_constraints_inline() {
    let ui = UIConstraints::new(true);
    assert_eq!(
        ui.constraints,
        [
            RowConstraint::Percentage(10),
            RowConstraint::Min(1),
            RowConstraint::Length(2),
            RowConstraint::Percentage(10),
        ]
    );
}

#[test]
fn compose_word_display_uses_second_and_third_row() {
    let rows = vec![
        Rect { x: 3, y: 0, width: 40, height: 10 },
        Rect { x: 3, y: 10, width: 40, height: 1 },
        Rect { x: 3, y: 11, width: 40, height: 2 },
        Rect { x: 3, y: 13, width: 40, height: 10 },
    ];
    let display = compose_word_display(&rows, "hello", 4, 9);
    assert_eq!(display.text_area, rows[1]);
    assert_eq!(display.gauge_area, rows[2]);
    assert_eq!(display.position, 5);
    assert_eq!(display.total, 9);
    assert_eq!(display.line.before, "h");
    assert_eq!(display.line.focus, "e");
    assert_eq!(display.line.after, "llo");
    assert_eq!(display.line.padding_left, 19);
}

#[test]
fn render_word_display_splits_the_area_into_rows() {
    let area = Rect { x: 2, y: 1, width: 80, height: 24 };
    let display = render_word_display(area, "hello", 0, 3, &UIConstraints::new(false));
    assert_eq!(display.text_area.x, 2);
    assert_eq!(display.text_area.width, 80);
    assert_eq!(display.gauge_area.x, 2);
    assert_eq!(display.gauge_area.width, 80);
    // The rows are parts of the area, the word above the indicator.
    assert_ne!(display.text_area, area);
    assert!(display.text_area.y >= 1);
    assert!(display.text_area.height >= 1);
    assert_eq!(display.gauge_area.height, 2);
    assert_eq!(display.gauge_area.y, display.text_area.y + display.text_area.height);
    assert!(display.gauge_area.y + display.gauge_area.height <= 25);
    assert_eq!(display.position, 1);
    assert_eq!(display.total, 3);
    assert_eq!(display.line.padding_left, 39);
    assert_eq!(display.line.focus, "e");
}

#[test]
fn render_word_display_inline() {
    let area = Rect { x: 0, y: 7, width: 31, height: 5 };
    let display = render_word_display(area, "a", 2, 3, &UIConstraints::new(true));
    assert_eq!(display.text_area.width, 31);
    assert_eq!(display.gauge_area.height, 2);
    assert!(display.text_area.y >= 7);
    assert_eq!(display.line.padding_left, 15);
    assert_eq!(display.position, 3);
}

#[test]
fn render_word_display_in_an_empty_area() {
    let area = Rect { x: 0, y: 0, width: 0, height: 0 };
    let display = render_word_display(area, "word", 0, 1, &UIConstraints::new(false));
    assert_eq!(display.text_area.width, 0);
    assert_eq!(display.gauge_area.width, 0);
    assert_eq!(display.line.padding_left, 0);
}

#[test]
fn render_word_display_goes_by_the_constraints() {
    let area = Rect { x: 0, y: 0, width: 80, height: 24 };
    let full = render_word_display(area, "hello", 0, 3, &UIConstraints::new(false));
    let inline = render_word_display(area, "hello", 0, 3, &UIConstraints::new(true));
    assert_ne!(full.text_area, inline.text_area);
    let tall = UIConstraints {
        constraints: [
            RowConstraint::Length(3),
            RowConstraint::Length(4),
            RowConstraint::Length(5),
            RowConstraint::Min(0),
        ],
    };
    let display = render_word_display(area, "hello", 0, 3, &tall);
    assert_eq!(display.text_area, Rect { x: 0, y: 3, width: 80, height: 4 });
    assert_eq!(display.gauge_area, Rect { x: 0, y: 7, width: 80, height: 5 });
}

#[test]
fn render_word_display_keeps_the_rows_inside_the_area() {
    for (y, height) in [(0u16, 0u16), (0, 1), (5, 2), (7, 3), (100, 24), (u16::MAX - 4, 4)] {
        for inline in [false, true] {
            let area = Rect { x: 3, y, width: 40, height };
            let display = render_word_display(area, "word", 0, 1, &UIConstraints::new(inline));
            for row in [display.text_area, display.gauge_area] {
                assert!(row.y >= y);
                assert!(u32::from(row.y) + u32::from(row.height) <= u32::from(y) + u32::from(height));
                assert_eq!((row.x, row.width), (3, 40));
            }
        }
    }
}
