use nanogpt_cli::tui::editor::{Edit, LineEditor};
use nanogpt_cli::tui::layout::{centered_rect, place_cursor, Area};
use nanogpt_cli::tui::markdown::render_markdown_block;
use nanogpt_cli::tui::slash::{
    can_autocomplete_slash, filtered_slash_suggestions, has_active_slash_suggestions,
    move_slash_suggestion, slash_token_is_exact_command, sync_slash_suggestion_index,
    take_suggestion,
};
use nanogpt_cli::tui::style::{truncate_middle, ui_theme, Line, Rgb, Style, Tone};

fn text_of(line: &Line) -> String {
    line.spans.iter().map(|s| s.text.as_str()).collect()
}

fn rendered(content: &str) -> Vec<String> {
    render_markdown_block(content, Style::ink(Tone::Text)).iter().map(text_of).collect()
}

#[test]
fn a_line_is_edited() {
    let mut line = LineEditor::new();
    for c in "abc".chars() {
        line.edit(Edit::Insert(c));
    }
    line.edit(Edit::Left);
    line.edit(Edit::Backspace);
    assert_eq!((line.text.as_str(), line.cursor), ("ac", 1));
    line.edit(Edit::Delete);
    line.edit(Edit::Delete);
    assert_eq!((line.text.as_str(), line.cursor), ("a", 1));
    line.edit(Edit::Right);
    line.edit(Edit::Insert('z'));
    line.edit(Edit::Backspace);
    assert_eq!((line.text.as_str(), line.cursor), ("a", 1));
    line.clear();
    line.edit(Edit::Left);
    line.edit(Edit::Backspace);
    assert_eq!((line.text.as_str(), line.cursor), ("", 0));
}

#[test]
fn a_cursor_inside_a_character_edits_nothing() {
    let mut line = LineEditor::new();
    line.edit(Edit::Insert('é'));
    assert_eq!((line.text.as_str(), line.cursor), ("é", 1));
    assert!(!line.can(Edit::Insert('x')));
    assert!(!line.can(Edit::Delete));
    assert!(line.can(Edit::Backspace));
    assert!(line.can(Edit::Left));
    let end = LineEditor::at_end("né".to_string());
    assert_eq!(end.cursor, 3);
    assert!(!end.can(Edit::Backspace));
}

#[test]
fn long_texts_lose_their_middle() {
    assert_eq!(truncate_middle("abcdefghij", 10), "abcdefghij");
    assert_eq!(truncate_middle("abcdefghijk", 10), "abc...hijk");
    assert_eq!(truncate_middle("abcdef", 3), "...");
    assert_eq!(truncate_middle("éééééé", 5), "é...é");
}

#[test]
fn colours_are_those_of_the_theme() {
    assert_eq!(ui_theme(Tone::Canvas), Rgb { red: 12, green: 14, blue: 20 });
    assert_eq!(ui_theme(Tone::SelectedFg), Rgb { red: 246, green: 250, blue: 255 });
}

#[test]
fn commands_are_suggested() {
    let names = |input: &str| -> Vec<&'static str> {
        filtered_slash_suggestions(input).iter().map(|s| s.command).collect()
    };
    assert_eq!(names("/").len(), 9);
    assert_eq!(names("/mo"), ["/model", "/models"]);
    assert_eq!(names("/S"), ["/system", "/save"]);
    assert!(names("/model x").is_empty());
    assert!(names("hi").is_empty());
    assert!(has_active_slash_suggestions("/h"));
    assert!(!has_active_slash_suggestions("/zzz"));
    assert!(slash_token_is_exact_command("/Model"));
    assert!(!slash_token_is_exact_command("/mod"));
    assert!(can_autocomplete_slash("/mo"));
    assert!(!can_autocomplete_slash("/mo x"));
    assert_eq!(sync_slash_suggestion_index("/mo", 7), 1);
    assert_eq!(sync_slash_suggestion_index("x", 7), 0);
    assert_eq!(move_slash_suggestion("/mo", 0, true), 1);
    assert_eq!(move_slash_suggestion("/mo", 1, true), 1);
    assert_eq!(move_slash_suggestion("/mo", 1, false), 0);
    assert_eq!(take_suggestion("/mo", 0).as_deref(), Some("/model "));
    assert_eq!(take_suggestion("/mo", 9).as_deref(), Some("/models"));
    assert_eq!(take_suggestion("hi", 0), None);
}

#[test]
fn markdown_is_drawn() {
    assert_eq!(rendered(""), Vec::<String>::new());
    assert_eq!(rendered("plain"), ["plain"]);
    assert_eq!(rendered("a **b** c"), ["a b c"]);
    assert_eq!(rendered("one\ntwo"), ["one", "two"]);
    let bold = render_markdown_block("**b**", Style::ink(Tone::Text));
    assert!(bold[0].spans.iter().any(|s| s.text == "b" && s.style.bold));
    let code = render_markdown_block("`x`", Style::ink(Tone::Text));
    assert!(code[0].spans.iter().any(|s| s.text.contains('x')));
}

#[test]
fn the_middle_of_the_screen_is_found() {
    let screen = Area { x: 0, y: 0, width: 100, height: 50 };
    let middle = centered_rect(screen, 70, 30);
    assert_eq!(middle, Area { x: 15, y: 18, width: 70, height: 15 });
    let tiny = centered_rect(Area { x: 3, y: 4, width: 0, height: 1 }, 90, 85);
    assert!(tiny.x == 3 && tiny.width == 0 && tiny.y >= 4 && tiny.y + tiny.height <= 5);
}

fn middle_of(start: u32, extent: u32, percent: u32) -> (u32, u32) {
    let beside = (100 - percent) / 2 * extent;
    let first = (100 * start + beside + 50) / 100;
    let end = (100 * start + beside + percent * extent + 50) / 100;
    (first, end - first)
}

#[test]
fn the_middle_is_rounded_to_cells() {
    for extent in 0..240u16 {
        for percent in [0, 1, 30, 33, 60, 70, 75, 78, 80, 85, 86, 90, 99, 100] {
            let area = Area { x: 7, y: extent, width: extent, height: extent + 3 };
            let middle = centered_rect(area, percent, 100 - percent);
            let across = middle_of(7, extent.into(), percent.into());
            let down = middle_of(extent.into(), (extent + 3).into(), (100 - percent).into());
            assert_eq!((u32::from(middle.x), u32::from(middle.width)), across);
            assert_eq!((u32::from(middle.y), u32::from(middle.height)), down);
        }
    }
}

#[test]
fn the_cursor_stays_before_the_border() {
    let area = Area { x: 10, y: 0, width: 20, height: 3 };
    assert_eq!(place_cursor(area, 0, 0), 11);
    assert_eq!(place_cursor(area, 9, 3), 23);
    assert_eq!(place_cursor(area, 0, 500), 28);
    assert_eq!(place_cursor(Area { x: 10, y: 0, width: 1, height: 3 }, 0, 4), 10);
    assert_eq!(place_cursor(area, 0, 65_536), 11);
}

#[test]
fn markdown_blocks_are_told_apart() {
    assert_eq!(rendered("## A *b*"), ["## A b"]);
    assert_eq!(rendered("####### x"), ["####### x"]);
    assert_eq!(rendered("#x"), ["#x"]);
    assert_eq!(rendered("* item"), ["- item"]);
    assert_eq!(rendered("12. item"), ["12. item"]);
    assert_eq!(rendered("12.item"), ["12.item"]);
    assert_eq!(rendered("> > quoted"), [">> quoted"]);
    assert_eq!(rendered("- - -"), ["--------------------"]);
    assert_eq!(rendered(">***"), ["> --------------------"]);
    assert_eq!(rendered("--"), ["--"]);
    assert_eq!(rendered("  \nx"), ["", "x"]);
    assert_eq!(
        rendered("```rust\nlet **x**;\n```\nend"),
        ["[code: rust]", "│ let **x**;", "end"]
    );
    assert_eq!(rendered("```\n  a"), ["│   a"]);
}

#[test]
fn markdown_marks_become_styles() {
    let line = &render_markdown_block("a~~b~~*c*`d*`[e](f)[g]()[h", Style::ink(Tone::Text))[0];
    let parts: Vec<(&str, bool, bool, bool, bool)> = line
        .spans
        .iter()
        .map(|s| {
            (
                s.text.as_str(),
                s.style.bold,
                s.style.italic,
                s.style.crossed_out,
                s.style.underlined,
            )
        })
        .collect();
    assert_eq!(
        parts,
        [
            ("a", false, false, false, false),
            ("b", false, false, true, false),
            ("c", false, true, false, false),
            ("d*", false, false, false, false),
            ("e", true, false, false, true),
            (" (f)", false, false, false, false),
            ("g", true, false, false, true),
            ("[h", false, false, false, false),
        ]
    );
    assert_eq!(line.spans[3].style.bg, Some(Tone::PanelAlt));
    assert_eq!(line.spans[4].style.fg, Some(Tone::Accent));
}
