use mdnotes::calendar::DAY_FORMAT;
use mdnotes::input::UserAction;
use mdnotes::layout::{Area, Panes};
use mdnotes::note::{Note, Timestamp};
use mdnotes::render::{
    draw, entry_label, list_entries, note_label, render, show_message, Alignment, Body, Color,
    DrawCall,
    ListEntry, Style, CONTENT_TITLE, DELETED_MESSAGE, KEYBINDS_TEXT, KEYBINDS_TITLE,
    LABEL_SEPARATOR, LIST_TITLE, MESSAGE_BOX_HEIGHT,
};
use mdnotes::viewer::ViewerState;

const SELECTED: Style = Style { color: Color::LightMagenta, bold: true };
const NORMAL: Style = Style { color: Color::White, bold: false };

fn dated(title: &str, content: &str, secs: i64) -> Note {
    Note {
        title: title.to_string(),
        content: content.to_string(),
        date: Timestamp { secs, nanos: 0 },
    }
}

fn cells(x: u16, y: u16, width: u16, height: u16) -> Area {
    Area { x, y, width, height }
}

fn panes() -> Panes {
    Panes { list: cells(0, 0, 40, 19), content: cells(40, 0, 40, 19), keybinds: cells(0, 19, 80, 5) }
}

fn screen() -> Area {
    cells(0, 0, 80, 24)
}

fn list_box(entries: Vec<ListEntry>) -> DrawCall {
    DrawCall { area: panes().list, title: Some("Notas".to_string()), body: Body::List(entries) }
}

fn content_box(text: &str) -> DrawCall {
    DrawCall {
        area: panes().content,
        title: Some("Conte\u{fa}do".to_string()),
        body: Body::Text {
            text: text.to_string(),
            style: Style { color: Color::Default, bold: false },
            alignment: Alignment::Left,
        },
    }
}

fn keybinds_box() -> DrawCall {
    DrawCall {
        area: panes().keybinds,
        title: Some("Teclas de Atalho".to_string()),
        body: Body::Text {
            text: KEYBINDS_TEXT.to_string(),
            style: Style { color: Color::Black, bold: false },
            alignment: Alignment::Left,
        },
    }
}

#[test]
fn texts_of_the_screen() {
    assert_eq!(LIST_TITLE, "Notas");
    assert_eq!(CONTENT_TITLE, "Conte\u{fa}do");
    assert_eq!(KEYBINDS_TITLE, "Teclas de Atalho");
    assert_eq!(DELETED_MESSAGE, "Nota deletada com sucesso!");
    assert_eq!(LABEL_SEPARATOR, " - ");
    assert_eq!(MESSAGE_BOX_HEIGHT, 3);
    assert_eq!(
        KEYBINDS_TEXT,
        "\u{2191}/k: Mover para cima\n    \u{2193}/j: Mover para baixo\n    Enter: Abrir nota\n    x: Deletar nota\n    ?: Mostrar teclas de atalho \n    q/Esc: Sair"
    );
}

#[test]
fn entry_label_joins_title_and_day() {
    assert_eq!(entry_label("todo", Some("2023-11-14".to_string())), "todo - 2023-11-14");
    assert_eq!(entry_label("", Some("d".to_string())), " - d");
}

#[test]
fn entry_label_without_day_is_the_title() {
    assert_eq!(entry_label("todo", None), "todo");
    assert_eq!(entry_label("", None), "");
}

#[test]
fn note_label_shows_the_utc_day() {
    assert_eq!(note_label(&dated("todo", "", 1_700_000_000)), "todo - 2023-11-14");
    assert_eq!(note_label(&dated("epoch", "", 0)), "epoch - 1970-01-01");
    assert_eq!(note_label(&dated("late", "", 86_399)), "late - 1970-01-01");
    assert_eq!(note_label(&dated("next", "", 86_400)), "next - 1970-01-02");
    assert_eq!(note_label(&dated("before", "", -1)), "before - 1969-12-31");
    assert_eq!(note_label(&dated("leap", "", 1_709_164_800)), "leap - 2024-02-29");
}

#[test]
fn note_label_ignores_the_nanoseconds_within_a_second() {
    let note = Note {
        title: "n".to_string(),
        content: String::new(),
        date: Timestamp { secs: 1_700_000_000, nanos: 999_999_999 },
    };
    assert_eq!(note_label(&note), "n - 2023-11-14");
}

#[test]
fn note_label_without_a_representable_instant_is_the_title() {
    let bad_nanos = Note {
        title: "odd".to_string(),
        content: String::new(),
        date: Timestamp { secs: 0, nanos: 2_000_000_000 },
    };
    assert_eq!(note_label(&bad_nanos), "odd");
    assert_eq!(note_label(&dated("far", "", i64::MAX)), "far");
    assert_eq!(note_label(&dated("long ago", "", i64::MIN)), "long ago");
}

#[test]
fn list_entries_emphasise_the_selected_note() {
    let notes =
        vec![dated("a", "", 0), dated("b", "", 86_400), dated("c", "", 1_700_000_000)];
    assert_eq!(
        list_entries(&notes, 1),
        vec![
            ListEntry { label: "a - 1970-01-01".to_string(), style: NORMAL },
            ListEntry { label: "b - 1970-01-02".to_string(), style: SELECTED },
            ListEntry { label: "c - 2023-11-14".to_string(), style: NORMAL },
        ]
    );
}

#[test]
fn list_entries_with_selection_out_of_range_are_all_normal() {
    let notes = vec![dated("a", "", 0), dated("b", "", 0)];
    let entries = list_entries(&notes, 2);
    assert_eq!(entries.len(), 2);
    assert!(entries.iter().all(|e| e.style == NORMAL));
}

#[test]
fn list_entries_of_no_notes_are_none() {
    assert_eq!(list_entries(&Vec::new(), 0), Vec::new());
}

#[test]
fn render_browsing_draws_list_content_and_key_help() {
    let mut state = ViewerState::new(vec![
        dated("a", "alpha", 0),
        dated("b", "beta", 86_400),
    ]);
    state.handle(UserAction::MoveDown);
    assert_eq!(
        render(&state, screen(), panes()),
        vec![
            list_box(vec![
                ListEntry { label: "a - 1970-01-01".to_string(), style: NORMAL },
                ListEntry { label: "b - 1970-01-02".to_string(), style: SELECTED },
            ]),
            content_box("beta"),
            keybinds_box(),
        ]
    );
}

#[test]
fn render_without_key_help_draws_two_panes() {
    let mut state = ViewerState::new(vec![dated("a", "alpha", 0)]);
    state.handle(UserAction::ToggleKeybinds);
    assert_eq!(
        render(&state, screen(), panes()),
        vec![
            list_box(vec![ListEntry { label: "a - 1970-01-01".to_string(), style: SELECTED }]),
            content_box("alpha"),
        ]
    );
}

#[test]
fn render_of_empty_viewer_draws_empty_panes() {
    let state = ViewerState::new(Vec::new());
    assert_eq!(
        render(&state, screen(), panes()),
        vec![list_box(Vec::new()), content_box(""), keybinds_box()]
    );
}

#[test]
fn render_after_delete_draws_only_the_message() {
    let mut state = ViewerState::new(vec![dated("a", "alpha", 0), dated("b", "beta", 0)]);
    state.handle(UserAction::Delete);
    assert_eq!(
        render(&state, screen(), panes()),
        vec![DrawCall {
            area: cells(26, 10, 28, 3),
            title: None,
            body: Body::Text {
                text: "Nota deletada com sucesso!".to_string(),
                style: Style { color: Color::Green, bold: false },
                alignment: Alignment::Center,
            },
        }]
    );
    state.dismiss_message();
    assert_eq!(
        render(&state, screen(), panes()),
        vec![
            list_box(vec![ListEntry { label: "b - 1970-01-01".to_string(), style: SELECTED }]),
            content_box("beta"),
            keybinds_box(),
        ]
    );
}

fn message_box(text: &str, style: Style, area: Area) -> DrawCall {
    DrawCall {
        area,
        title: None,
        body: Body::Text { text: text.to_string(), style, alignment: Alignment::Center },
    }
}

#[test]
fn show_message_stands_in_the_middle() {
    let style = Style { color: Color::Green, bold: false };
    assert_eq!(
        show_message("done", style, cells(0, 0, 80, 24)),
        message_box("done", style, cells(37, 10, 6, 3))
    );
    assert_eq!(
        show_message("done", style, cells(10, 5, 80, 24)),
        message_box("done", style, cells(47, 15, 6, 3))
    );
}

#[test]
fn show_message_gives_the_odd_cell_to_the_right_and_the_bottom() {
    let style = Style::success();
    assert_eq!(
        show_message("odd", style, cells(0, 0, 80, 24)),
        message_box("odd", style, cells(37, 10, 5, 3))
    );
    assert_eq!(
        show_message("done", style, cells(0, 0, 81, 25)),
        message_box("done", style, cells(37, 11, 6, 3))
    );
}

#[test]
fn show_message_is_cut_down_to_a_small_screen() {
    let style = Style::success();
    assert_eq!(
        show_message("a long message", style, cells(2, 3, 10, 2)),
        message_box("a long message", style, cells(2, 3, 10, 2))
    );
    assert_eq!(
        show_message("x", style, cells(0, 0, 0, 0)),
        message_box("x", style, cells(0, 0, 0, 0))
    );
}

#[test]
fn show_message_counts_characters_not_bytes() {
    let style = Style::success();
    assert_eq!(
        show_message("\u{e1}\u{e9}\u{ed}", style, cells(0, 0, 21, 5)),
        message_box("\u{e1}\u{e9}\u{ed}", style, cells(8, 1, 5, 3))
    );
    assert_eq!(
        show_message("", style, cells(0, 0, 20, 5)),
        message_box("", style, cells(9, 1, 2, 3))
    );
}

#[test]
fn show_message_at_the_far_corner_of_the_grid() {
    let style = Style::success();
    assert_eq!(
        show_message("done", style, cells(65_435, 65_511, 100, 24)),
        message_box("done", style, cells(65_482, 65_521, 6, 3))
    );
}

#[test]
fn styles_of_the_screen() {
    assert_eq!(Style::selected(), Style { color: Color::LightMagenta, bold: true });
    assert_eq!(Style::normal(), Style { color: Color::White, bold: false });
    assert_eq!(Style::keybinds(), Style { color: Color::Black, bold: false });
    assert_eq!(Style::success(), Style { color: Color::Green, bold: false });
    assert_eq!(Style::plain(), Style { color: Color::Default, bold: false });
    assert_ne!(Style::selected(), Style::normal());
}

#[test]
fn note_label_of_a_year_past_four_digits() {
    assert_eq!(note_label(&dated("y", "", 253_402_300_800)), "y - +10000-01-01");
}

#[test]
fn draw_lays_out_and_renders() {
    let mut state = ViewerState::new(vec![dated("a", "alpha", 0)]);
    assert_eq!(
        draw(&state, screen()),
        vec![
            list_box(vec![ListEntry { label: "a - 1970-01-01".to_string(), style: SELECTED }]),
            content_box("alpha"),
            keybinds_box(),
        ]
    );
    state.handle(UserAction::ToggleKeybinds);
    assert_eq!(draw(&state, screen()), render(&state, screen(), panes()));
    assert_eq!(draw(&state, screen()).len(), 2);
}

#[test]
fn draw_of_a_message_needs_no_layout() {
    let mut state = ViewerState::new(vec![dated("a", "alpha", 0)]);
    state.handle(UserAction::Delete);
    let wide = cells(0, 0, 65535, 65535);
    assert!(!wide.splittable());
    assert!(wide.bounded());
    assert_eq!(
        draw(&state, wide),
        vec![show_message("Nota deletada com sucesso!", Style::success(), wide)]
    );
    assert_eq!(draw(&state, wide)[0].area, cells(32_753, 32_766, 28, 3));
}

#[test]
fn day_format_is_year_month_day() {
    assert_eq!(DAY_FORMAT, "%Y-%m-%d");
}
