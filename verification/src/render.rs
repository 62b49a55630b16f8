//! What the viewer puts on screen: a list of draw calls computed from the
//! viewer's state, for the caller to hand to the terminal.

use vstd::prelude::*;
use vstd::string::{StrSliceExecFns, StringExecFns};
use crate::calendar::{day_text, format_instant, DAY_FORMAT};
use crate::layout::{arranged, layout, Area, Panes};
use crate::note::Note;
use crate::viewer::{Mode, ViewerModel, ViewerState};

verus! {

/// Title of the list pane.
pub const LIST_TITLE: &'static str = "Notas";

/// Title of the content pane.
pub const CONTENT_TITLE: &'static str = "Conteúdo";

/// Title of the key help.
pub const KEYBINDS_TITLE: &'static str = "Teclas de Atalho";

/// The key help.
pub const KEYBINDS_TEXT: &'static str =
    "↑/k: Mover para cima\n    ↓/j: Mover para baixo\n    Enter: Abrir nota\n    x: Deletar nota\n    ?: Mostrar teclas de atalho \n    q/Esc: Sair";

/// Shown after a note was deleted.
pub const DELETED_MESSAGE: &'static str = "Nota deletada com sucesso!";

/// Between a note's title and its day in a list entry.
pub const LABEL_SEPARATOR: &'static str = " - ";

/// Rows of the message box: its two borders and one line of text.
pub const MESSAGE_BOX_HEIGHT: u16 = 3;

/// Columns that the two borders of a box take.
pub const BORDER_COLUMNS: u16 = 2;

/// Foreground colour of a piece of text.
#[derive(Clone, Copy, Debug, PartialEq, Eq, Structural)]
pub enum Color {
    /// The terminal's own.
    Default,
    White,
    Black,
    Green,
    LightMagenta,
}

/// How a piece of text is drawn.
#[derive(Clone, Copy, Debug, PartialEq, Eq, Structural)]
pub struct Style {
    pub color: Color,
    pub bold: bool,
}

impl Style {
    /// Style of the selected list entry.
    pub open spec fn spec_selected() -> Style {
        Style { color: Color::LightMagenta, bold: true }
    }

    /// Style of every other list entry.
    pub open spec fn spec_normal() -> Style {
        Style { color: Color::White, bold: false }
    }

    /// Style of the key help.
    pub open spec fn spec_keybinds() -> Style {
        Style { color: Color::Black, bold: false }
    }

    /// Style of the message after a deletion.
    pub open spec fn spec_success() -> Style {
        Style { color: Color::Green, bold: false }
    }

    /// Style of a note's content.
    pub open spec fn spec_plain() -> Style {
        Style { color: Color::Default, bold: false }
    }

    /// Style of the selected list entry: light magenta, bold.
    #[verifier::when_used_as_spec(spec_selected)]
    pub fn selected() -> (style: Style)
        ensures
            style == Style::spec_selected(),
    {
        Style { color: Color::LightMagenta, bold: true }
    }

    /// Style of every other list entry: white.
    #[verifier::when_used_as_spec(spec_normal)]
    pub fn normal() -> (style: Style)
        ensures
            style == Style::spec_normal(),
    {
        Style { color: Color::White, bold: false }
    }

    /// Style of the key help: black.
    #[verifier::when_used_as_spec(spec_keybinds)]
    pub fn keybinds() -> (style: Style)
        ensures
            style == Style::spec_keybinds(),
    {
        Style { color: Color::Black, bold: false }
    }

    /// Style of the message after a deletion: green.
    #[verifier::when_used_as_spec(spec_success)]
    pub fn success() -> (style: Style)
        ensures
            style == Style::spec_success(),
    {
        Style { color: Color::Green, bold: false }
    }

    /// Style of a note's content: the terminal's own colour.
    #[verifier::when_used_as_spec(spec_plain)]
    pub fn plain() -> (style: Style)
        ensures
            style == Style::spec_plain(),
    {
        Style { color: Color::Default, bold: false }
    }
}

/// One line of the list.
#[derive(Debug, PartialEq, Eq)]
pub struct ListEntry {
    pub label: String,
    pub style: Style,
}

/// What a [`ListEntry`] means in contracts.
pub ghost struct ListEntryView {
    pub label: Seq<char>,
    pub style: Style,
}

impl View for ListEntry {
    type V = ListEntryView;

    open spec fn view(&self) -> ListEntryView {
        ListEntryView { label: self.label@, style: self.style }
    }
}

/// The entries of a list as mathematical values, in their order.
pub open spec fn entries_view(entries: Seq<ListEntry>) -> Seq<ListEntryView> {
    entries.map_values(|e: ListEntry| e@)
}

/// Where the lines of a text stand between the borders of their box.
#[derive(Clone, Copy, Debug, PartialEq, Eq, Structural)]
pub enum Alignment {
    /// From the left border on.
    Left,
    /// In the middle.
    Center,
}

/// What fills a bordered box.
#[derive(Debug, PartialEq, Eq)]
pub enum Body {
    /// Entries, one per line.
    List(Vec<ListEntry>),
    /// Running text in one style.
    Text { text: String, style: Style, alignment: Alignment },
}

/// What a [`Body`] means in contracts.
pub ghost enum BodyView {
    List(Seq<ListEntryView>),
    Text { text: Seq<char>, style: Style, alignment: Alignment },
}

impl View for Body {
    type V = BodyView;

    open spec fn view(&self) -> BodyView {
        match self {
            Body::List(entries) => BodyView::List(entries_view(entries@)),
            Body::Text { text, style, alignment } => BodyView::Text {
                text: text@,
                style: *style,
                alignment: *alignment,
            },
        }
    }
}

/// One draw call: a box with borders on all sides, drawn over `area`.
#[derive(Debug, PartialEq, Eq)]
pub struct DrawCall {
    pub area: Area,
    /// Title on the top border, if any.
    pub title: Option<String>,
    pub body: Body,
}

/// What a [`DrawCall`] means in contracts.
pub ghost struct DrawCallView {
    pub area: Area,
    pub title: Option<Seq<char>>,
    pub body: BodyView,
}

impl View for DrawCall {
    type V = DrawCallView;

    open spec fn view(&self) -> DrawCallView {
        DrawCallView {
            area: self.area,
            title: match self.title {
                Some(t) => Some(t@),
                None => None,
            },
            body: self.body@,
        }
    }
}

/// The draw calls of a frame as mathematical values, in drawing order.
pub open spec fn frame_view(calls: Seq<DrawCall>) -> Seq<DrawCallView> {
    calls.map_values(|c: DrawCall| c@)
}

/// The text of a list entry: the title, then, where the note's day is
/// known, the separator and the day.
pub open spec fn label_of(title: Seq<char>, day: Option<Seq<char>>) -> Seq<char> {
    match day {
        Some(day) => title + LABEL_SEPARATOR@ + day,
        None => title,
    }
}

/// The list entry for note `i` of the viewer.
pub open spec fn entry_of(notes: Seq<Note>, selected: int, i: int) -> ListEntryView {
    ListEntryView {
        label: label_of(notes[i].title@, day_text(notes[i].date)),
        style: if i == selected {
            Style::selected()
        } else {
            Style::normal()
        },
    }
}

/// The list entries for `notes`, in their order.
pub open spec fn entries_of(notes: Seq<Note>, selected: int) -> Seq<ListEntryView> {
    Seq::new(notes.len(), |i: int| entry_of(notes, selected, i))
}

/// The text of the content pane: the selected note's content, or nothing
/// where no note is selected.
pub open spec fn content_of(m: ViewerModel) -> Seq<char> {
    if m.has_selection() {
        m.notes[m.selected].content@
    } else {
        Seq::empty()
    }
}

/// The list pane.
pub open spec fn list_call(m: ViewerModel, area: Area) -> DrawCallView {
    DrawCallView {
        area,
        title: Some(LIST_TITLE@),
        body: BodyView::List(entries_of(m.notes, m.selected)),
    }
}

/// The content pane.
pub open spec fn content_call(m: ViewerModel, area: Area) -> DrawCallView {
    DrawCallView {
        area,
        title: Some(CONTENT_TITLE@),
        body: BodyView::Text {
            text: content_of(m),
            style: Style::plain(),
            alignment: Alignment::Left,
        },
    }
}

/// The key help.
pub open spec fn keybinds_call(area: Area) -> DrawCallView {
    DrawCallView {
        area,
        title: Some(KEYBINDS_TITLE@),
        body: BodyView::Text {
            text: KEYBINDS_TEXT@,
            style: Style::keybinds(),
            alignment: Alignment::Left,
        },
    }
}

/// Width of the box around one line of `length` characters: the line and
/// the two borders, as far as 16 bits count.
pub open spec fn box_width(length: nat) -> u16 {
    if length + BORDER_COLUMNS <= u16::MAX {
        (length + BORDER_COLUMNS) as u16
    } else {
        u16::MAX
    }
}

/// The message box: a box without title around the one line of `text`,
/// in the middle of the screen, the text centered in it.
pub open spec fn message_call(text: Seq<char>, style: Style, screen: Area) -> DrawCallView {
    DrawCallView {
        area: screen.centered(box_width(text.len()), MESSAGE_BOX_HEIGHT),
        title: None,
        body: BodyView::Text { text, style, alignment: Alignment::Center },
    }
}

/// The frame for a state. While a message shows, the message box alone,
/// in the middle of an otherwise empty screen. Otherwise the list, then
/// the content, then the key help if it is switched on.
pub open spec fn frame_of(m: ViewerModel, screen: Area, panes: Panes) -> Seq<DrawCallView> {
    if m.mode is ShowingMessage {
        seq![message_call(DELETED_MESSAGE@, Style::success(), screen)]
    } else if m.show_keybinds {
        seq![
            list_call(m, panes.list),
            content_call(m, panes.content),
            keybinds_call(panes.keybinds),
        ]
    } else {
        seq![list_call(m, panes.list), content_call(m, panes.content)]
    }
}

/// The text of a list entry, from the note's title and its day.
pub fn entry_label(title: &str, day: Option<String>) -> (label: String)
    ensures
        label@ == label_of(
            title@,
            match day {
                Some(d) => Some(d@),
                None => None,
            },
        ),
{
    let mut label = String::from_str(title);
    match day {
        Some(d) => {
            label.append(LABEL_SEPARATOR);
            label.append(d.as_str());
        },
        None => {},
    }
    label
}

/// The text of the list entry for `note`.
pub fn note_label(note: &Note) -> (label: String)
    ensures
        label@ == label_of(note.title@, day_text(note.date)),
{
    entry_label(note.title.as_str(), format_instant(note.date, DAY_FORMAT))
}

/// The list entries for `notes`, the one at `selected` emphasised.
pub fn list_entries(notes: &Vec<Note>, selected: usize) -> (entries: Vec<ListEntry>)
    ensures
        entries_view(entries@) == entries_of(notes@, selected as int),
{
    let mut entries: Vec<ListEntry> = Vec::new();
    let mut i: usize = 0;
    while i < notes.len()
        invariant
            i <= notes.len(),
            entries@.len() == i,
            forall|j: int| 0 <= j < i ==> (#[trigger] entries@[j])@ == entry_of(notes@, selected as int, j),
        decreases notes.len() - i,
    {
        let style = if i == selected {
            Style::selected()
        } else {
            Style::normal()
        };
        entries.push(ListEntry { label: note_label(&notes[i]), style });
        i = i + 1;
    }
    entries
}

/// The message box in the middle of the screen. It is the only thing to
/// draw: the caller clears the screen first.
pub fn show_message(message: &str, style: Style, screen: Area) -> (call: DrawCall)
    requires
        screen.bounded(),
    ensures
        call@ == message_call(message@, style, screen),
{
    let length = message.unicode_len();
    let width: u16 = if length <= (u16::MAX - BORDER_COLUMNS) as usize {
        length as u16 + BORDER_COLUMNS
    } else {
        u16::MAX
    };
    DrawCall {
        area: screen.center(width, MESSAGE_BOX_HEIGHT),
        title: None,
        body: Body::Text {
            text: String::from_str(message),
            style,
            alignment: Alignment::Center,
        },
    }
}

/// The draw calls for `state`, in drawing order. The browsing screen is
/// laid out over `panes`; a message stands in the middle of `screen`.
pub fn render(state: &ViewerState, screen: Area, panes: Panes) -> (calls: Vec<DrawCall>)
    requires
        state@.mode is ShowingMessage ==> screen.bounded(),
    ensures
        frame_view(calls@) == frame_of(state@, screen, panes),
        calls@.len() == frame_of(state@, screen, panes).len(),
{
    let mut calls: Vec<DrawCall> = Vec::new();
    match state.mode() {
        Mode::ShowingMessage => {
            calls.push(show_message(DELETED_MESSAGE, Style::success(), screen));
        },
        Mode::Browsing => {
            let content = match state.selected_note() {
                Some(note) => note.content.clone(),
                None => String::new(),
            };
            calls.push(
                DrawCall {
                    area: panes.list,
                    title: Some(String::from_str(LIST_TITLE)),
                    body: Body::List(list_entries(state.notes(), state.selected_index())),
                },
            );
            calls.push(
                DrawCall {
                    area: panes.content,
                    title: Some(String::from_str(CONTENT_TITLE)),
                    body: Body::Text {
                        text: content,
                        style: Style::plain(),
                        alignment: Alignment::Left,
                    },
                },
            );
            if state.show_keybinds() {
                calls.push(
                    DrawCall {
                        area: panes.keybinds,
                        title: Some(String::from_str(KEYBINDS_TITLE)),
                        body: Body::Text {
                            text: String::from_str(KEYBINDS_TEXT),
                            style: Style::keybinds(),
                            alignment: Alignment::Left,
                        },
                    },
                );
            }
        },
    }
    calls
}

/// The draw calls for `state` on a terminal of the size of `screen`: the
/// screen is laid out anew, then rendered. While a message shows there is
/// nothing to lay out, and any screen whose edges are coordinates will do.
pub fn draw(state: &ViewerState, screen: Area) -> (calls: Vec<DrawCall>)
    requires
        state@.mode is Browsing ==> screen.splittable(),
        state@.mode is ShowingMessage ==> screen.bounded(),
    ensures
        state@.mode is ShowingMessage ==> frame_view(calls@) == seq![
            message_call(DELETED_MESSAGE@, Style::success(), screen),
        ],
        state@.mode is Browsing ==> exists|panes: Panes|
            arranged(panes, screen) && frame_view(calls@) == #[trigger] frame_of(
                state@,
                screen,
                panes,
            ),
{
    match state.mode() {
        Mode::ShowingMessage => {
            let nowhere = Area { x: 0, y: 0, width: 0, height: 0 };
            render(state, screen, Panes { list: nowhere, content: nowhere, keybinds: nowhere })
        },
        Mode::Browsing => {
            let panes = layout(screen);
            render(state, screen, panes)
        },
    }
}

} // verus!
