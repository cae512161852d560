use hello_rs::failure::Failure;
use hello_rs::layout::{
    bottom_border, calc_whitespace, calc_with_hostname, capped_line, frame, pad_cells, render,
    shorten, top_border, DisplayLine, INNER_WIDTH, TEXT_BUDGET, TOP_WIDTH,
};
use hello_rs::segment::{grapheme_count, Cells};
use unicode_segmentation::UnicodeSegmentation;

fn width(text: &str) -> usize {
    text.graphemes(true).count()
}

#[test]
fn pads_plain_text_to_the_inner_width() {
    let row = calc_whitespace("│ hello".to_string()).unwrap();
    assert_eq!(row, format!("│ hello{}│", " ".repeat(38)));
    assert_eq!(row.chars().count(), 46);
}

#[test]
fn counts_an_emoji_with_selector_as_one_cell() {
    let row = calc_whitespace("│ 🖥️ Gnome".to_string()).unwrap();
    assert_eq!(row, format!("│ 🖥️ Gnome{}│", " ".repeat(36)));
    assert_eq!(grapheme_count("🖥️"), 1);
    assert_eq!(grapheme_count("1️⃣"), 1);
    assert_eq!(grapheme_count("e\u{301}x"), 2);
    assert_eq!(grapheme_count(""), 0);
}

#[test]
fn refuses_a_text_wider_than_the_box() {
    let text = "x".repeat(46);
    assert_eq!(calc_whitespace(text), Err(Failure::LineTooLong));
    assert_eq!(calc_whitespace("x".repeat(45)), Ok(format!("{}│", "x".repeat(45))));
    assert_eq!(calc_with_hostname("y".repeat(56)), Err(Failure::LineTooLong));
}

#[test]
fn fills_the_top_border_with_rules() {
    let top = calc_with_hostname("╭─\x1b[32mme@box\x1b[0m".to_string()).unwrap();
    assert_eq!(top, format!("╭─\x1b[32mme@box\x1b[0m{}╮", "─".repeat(55 - 17)));
    assert_eq!(top_border("me@box"), Ok(top));
}

#[test]
fn every_row_has_the_frame_width() {
    assert_eq!((INNER_WIDTH, TOP_WIDTH), (45, 55));
    for n in 0..=INNER_WIDTH {
        let row = calc_whitespace("é".repeat(n)).unwrap();
        assert_eq!(width(&row), INNER_WIDTH + 1);
    }
    for n in 0..=(INNER_WIDTH - 4) {
        let line = DisplayLine::new("💻", &"x".repeat(n));
        let rows = frame(&vec![line], INNER_WIDTH).unwrap();
        assert_eq!(rows.len(), 1);
        assert_eq!(width(&rows[0]), INNER_WIDTH + 1);
    }
}

#[test]
fn a_prepending_mark_is_padded_by_its_own_cells() {
    let text = "ab\u{0600}";
    assert_eq!(grapheme_count(text), 3);
    let row = calc_whitespace(text.to_string()).unwrap();
    assert_eq!(row, format!("ab\u{0600}{}│", " ".repeat(42)));
    assert_eq!(width(&row), INNER_WIDTH);
}

#[test]
fn a_long_text_keeps_the_budget_and_gets_an_ellipsis() {
    assert_eq!(TEXT_BUDGET, 37);
    let long = "a".repeat(60);
    let cut = shorten(&long, TEXT_BUDGET);
    assert_eq!(cut, format!("{}...", "a".repeat(37)));
    assert_eq!(width(&cut), TEXT_BUDGET + 3);
    assert_eq!(shorten("a👩‍👩‍👧bc", 2), "a👩‍👩‍👧...");
    assert_eq!(shorten(&"b".repeat(38), TEXT_BUDGET), format!("{}...", "b".repeat(37)));
}

#[test]
fn a_text_within_the_budget_stays_whole() {
    assert_eq!(shorten("short", TEXT_BUDGET), "short");
    assert_eq!(shorten(&"c".repeat(37), TEXT_BUDGET), "c".repeat(37));
    assert_eq!(shorten("", 0), "");
    assert_eq!(shorten("abc", 0), "...");
}

#[test]
fn a_capped_line_never_overflows() {
    for n in [0usize, 1, 37, 38, 41, 45, 200] {
        let line = capped_line("🖥️", &"w".repeat(n));
        let rows = frame(&vec![line], INNER_WIDTH).unwrap();
        assert_eq!(width(&rows[0]), INNER_WIDTH + 1);
    }
    let cut = Cells::measure(&"z".repeat(50)).shortened(37);
    assert_eq!(cut.width(), 40);
}

#[test]
fn hidden_lines_give_no_row() {
    let lines = vec![
        DisplayLine::new("💻", "one"),
        DisplayLine::hidden(),
        DisplayLine::unless_empty("🎵", ""),
        DisplayLine::unless_empty("🎵", "two"),
    ];
    let rows = frame(&lines, INNER_WIDTH).unwrap();
    assert_eq!(rows.len(), 2);
    assert_eq!(rows[0], format!("│ 💻 one{}│", " ".repeat(38)));
    assert_eq!(rows[1], format!("│ 🎵 two{}│", " ".repeat(38)));
}

#[test]
fn a_line_that_does_not_fit_fails_the_frame() {
    let lines = vec![DisplayLine::new("💻", "ok"), DisplayLine::new("💻", &"x".repeat(42))];
    assert_eq!(frame(&lines, INNER_WIDTH), Err(Failure::LineTooLong));
    let fits = vec![DisplayLine::new("💻", &"x".repeat(41))];
    assert!(frame(&fits, INNER_WIDTH).is_ok());
    let mut unseen = DisplayLine::new("💻", &"x".repeat(100));
    unseen.visible = false;
    assert_eq!(frame(&vec![unseen], INNER_WIDTH), Ok(Vec::new()));
    assert_eq!(frame(&lines, 10), Err(Failure::LineTooLong));
}

#[test]
fn the_inner_width_sets_the_padding() {
    let rows = frame(&vec![DisplayLine::new("i", "t")], 8).unwrap();
    assert_eq!(rows, vec!["│ i t   │".to_string()]);
    assert_eq!(bottom_border(3), "╰───╯");
    assert_eq!(bottom_border(0), "╰╯");
}

#[test]
fn the_box_has_a_top_the_rows_and_a_bottom() {
    let lines = vec![DisplayLine::new("🧠", "2 GB Used"), DisplayLine::hidden()];
    let rows = render("me@box", &lines).unwrap();
    assert_eq!(rows.len(), 3);
    assert_eq!(rows[0], format!("╭─\x1b[32mme@box\x1b[0m{}╮", "─".repeat(38)));
    assert_eq!(rows[1], format!("│ 🧠 2 GB Used{}│", " ".repeat(32)));
    assert_eq!(rows[2], "╰─────────────────────────────────────────────╯");
    assert_eq!(render(&"h".repeat(45), &lines), Err(Failure::LineTooLong));
    assert!(render(&"h".repeat(44), &lines).is_ok());
}

#[test]
fn cells_can_be_built_by_hand() {
    let mut cells = Cells::new();
    cells.push_glyph("a");
    cells.push_glyphs("-", 2);
    cells.extend(&Cells::measure("é!"));
    assert_eq!(cells.width(), 5);
    assert_eq!(cells.to_text(), "a--é!");
    let padded = pad_cells(&cells, 7, ".", "|").unwrap();
    assert_eq!(padded.to_text(), "a--é!..|");
    assert_eq!(padded.width(), 8);
    assert_eq!(pad_cells(&cells, 4, ".", "|").unwrap_err(), Failure::LineTooLong);
}
