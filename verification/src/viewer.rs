//! The list viewer as a state machine: a working copy of the notes, the
//! selection, and the transitions that input events cause.
//!
//! The caller owns the loop. It draws the state, reads one input event,
//! hands the action to [`ViewerState::handle`] and carries out the
//! [`Effect`] that comes back before it reads again.

use vstd::prelude::*;
use crate::input::UserAction;
use crate::note::{note_path, path_of, Note};
use crate::store::{loaded, saved, StoreError};

verus! {

/// Seconds for which the message after a deletion stays on screen.
pub const MESSAGE_SECONDS: u64 = 1;

/// Whether the viewer takes input.
#[derive(Clone, Copy, Debug, PartialEq, Eq, Structural)]
pub enum Mode {
    /// The list is shown and input is handled.
    Browsing,
    /// A message covers the screen; input is ignored until it is dismissed.
    ShowingMessage,
}

/// What the caller must do after a transition, before the next input.
#[derive(Debug, PartialEq, Eq)]
pub enum Effect {
    /// Nothing: draw again and read the next input.
    Continue,
    /// Leave the loop and restore the terminal.
    Quit,
    /// Run the editor on the file at this path and wait for it. The
    /// note's content in memory stays as it was.
    Edit(String),
    /// A note left the list. Remove the file at this path, persist the
    /// notes that remain, show the message for [`MESSAGE_SECONDS`], then
    /// call [`ViewerState::dismiss_message`]. A removal or a write that
    /// fails ends the viewer.
    Deleted(String),
}

/// What an [`Effect`] means in contracts.
pub ghost enum EffectView {
    Continue,
    Quit,
    Edit(Seq<char>),
    Deleted(Seq<char>),
}

impl View for Effect {
    type V = EffectView;

    open spec fn view(&self) -> EffectView {
        match self {
            Effect::Continue => EffectView::Continue,
            Effect::Quit => EffectView::Quit,
            Effect::Edit(path) => EffectView::Edit(path@),
            Effect::Deleted(path) => EffectView::Deleted(path@),
        }
    }
}

/// The viewer's state as a mathematical value.
pub ghost struct ViewerModel {
    pub notes: Seq<Note>,
    pub selected: int,
    pub show_keybinds: bool,
    pub mode: Mode,
}

impl ViewerModel {
    /// The selection points at a note, or is 0 when there is none.
    pub open spec fn wf(self) -> bool {
        0 <= self.selected && (self.selected < self.notes.len() || self.selected == 0)
    }

    /// The state a viewer starts in.
    pub open spec fn initial(notes: Seq<Note>) -> ViewerModel {
        ViewerModel { notes, selected: 0, show_keybinds: true, mode: Mode::Browsing }
    }

    /// Whether the selection points at a note. Of a well-formed state this
    /// holds exactly when there is a note at all.
    pub open spec fn has_selection(self) -> bool {
        0 <= self.selected < self.notes.len()
    }

    /// Whether `action` does anything in this state: the viewer is
    /// browsing, and the action has what it needs.
    pub open spec fn enabled(self, action: UserAction) -> bool {
        self.mode is Browsing && match action {
            UserAction::MoveUp => self.selected > 0,
            UserAction::MoveDown => self.selected < self.notes.len() - 1,
            UserAction::Open | UserAction::Delete => self.has_selection(),
            UserAction::ToggleKeybinds | UserAction::Quit => true,
            UserAction::Nothing => false,
        }
    }

    /// The notes and the selection once the selected note is gone. The
    /// selection steps back only if it would point past the last note.
    pub open spec fn without_selected(self) -> ViewerModel {
        let rest = self.notes.remove(self.selected);
        let selected = if self.selected >= rest.len() && rest.len() > 0 {
            self.selected - 1
        } else {
            self.selected
        };
        ViewerModel { notes: rest, selected, ..self }
    }

    /// The state after `action`.
    pub open spec fn step(self, action: UserAction) -> ViewerModel {
        if !self.enabled(action) {
            self
        } else {
            match action {
                UserAction::MoveUp => ViewerModel { selected: self.selected - 1, ..self },
                UserAction::MoveDown => ViewerModel { selected: self.selected + 1, ..self },
                UserAction::Delete => ViewerModel {
                    mode: Mode::ShowingMessage,
                    ..self.without_selected()
                },
                UserAction::ToggleKeybinds => ViewerModel {
                    show_keybinds: !self.show_keybinds,
                    ..self
                },
                UserAction::Open | UserAction::Quit | UserAction::Nothing => self,
            }
        }
    }

    /// What `action` leaves the caller to do.
    pub open spec fn effect(self, action: UserAction) -> EffectView {
        if !self.enabled(action) {
            EffectView::Continue
        } else {
            match action {
                UserAction::Quit => EffectView::Quit,
                UserAction::Open => EffectView::Edit(path_of(self.notes[self.selected].title@)),
                UserAction::Delete => EffectView::Deleted(
                    path_of(self.notes[self.selected].title@),
                ),
                _ => EffectView::Continue,
            }
        }
    }

    /// The state once the message has been shown for its time.
    pub open spec fn dismissed(self) -> ViewerModel {
        ViewerModel { mode: Mode::Browsing, ..self }
    }

    /// The state after `actions`, applied in order.
    pub open spec fn run(self, actions: Seq<UserAction>) -> ViewerModel
        decreases actions.len(),
    {
        if actions.len() == 0 {
            self
        } else {
            self.run(actions.drop_last()).step(actions.last())
        }
    }
}

/// Whether `action` only moves the selection.
pub open spec fn is_move(action: UserAction) -> bool {
    action is MoveUp || action is MoveDown
}

/// Every transition keeps the selection on a note, or at 0 where no note
/// is left.
pub proof fn law_step_keeps_wf(m: ViewerModel, action: UserAction)
    requires
        m.wf(),
    ensures
        m.step(action).wf(),
{
}

/// Whatever the actions, the selection stays on a note, or at 0 where no
/// note is left.
pub proof fn law_run_keeps_wf(m: ViewerModel, actions: Seq<UserAction>)
    requires
        m.wf(),
    ensures
        m.run(actions).wf(),
    decreases actions.len(),
{
    if actions.len() > 0 {
        law_run_keeps_wf(m, actions.drop_last());
        law_step_keeps_wf(m.run(actions.drop_last()), actions.last());
    }
}

/// Moving up and down, in any order and any number of times, changes no
/// note and keeps the selection at or above 0 and below the number of
/// notes, or below 1 where there are none.
pub proof fn law_moves_keep_selection_in_bounds(m: ViewerModel, moves: Seq<UserAction>)
    requires
        m.wf(),
        forall|i: int| 0 <= i < moves.len() ==> is_move(#[trigger] moves[i]),
    ensures
        m.run(moves).notes == m.notes,
        0 <= m.run(moves).selected,
        m.run(moves).selected < if m.notes.len() > 1 {
            m.notes.len()
        } else {
            1
        },
    decreases moves.len(),
{
    if moves.len() > 0 {
        law_moves_keep_selection_in_bounds(m, moves.drop_last());
    }
}

/// With no notes, moving, opening and deleting change nothing and leave
/// nothing to do.
pub proof fn law_empty_viewer_ignores(m: ViewerModel, action: UserAction)
    requires
        m.wf(),
        m.notes.len() == 0,
        is_move(action) || action is Open || action is Delete,
    ensures
        m.step(action) == m,
        m.effect(action) == EffectView::Continue,
{
}

/// Deleting, while browsing, the selected note of a well-formed viewer
/// removes exactly that note, from the working copy and from the index
/// that is saved from it: the notes before it keep their place, the notes
/// after it move up by one. The selection steps back only if it was on
/// the last of several notes. The file to remove is the deleted note's.
pub proof fn law_delete_is_consistent(m: ViewerModel)
    requires
        m.wf(),
        m.mode is Browsing,
        m.notes.len() > 0,
    ensures
        ({
            let after = m.step(UserAction::Delete);
            let i = m.selected;
            &&& after.notes == m.notes.remove(i)
            &&& after.notes.len() == m.notes.len() - 1
            &&& forall|j: int| 0 <= j < i ==> after.notes[j] == m.notes[j]
            &&& forall|j: int| i <= j < after.notes.len() ==> after.notes[j] == m.notes[j + 1]
            &&& loaded(saved(after.notes)) == Ok::<Seq<Note>, StoreError>(m.notes.remove(i))
            &&& after.selected == if i == m.notes.len() - 1 && m.notes.len() > 1 {
                i - 1
            } else {
                i
            }
            &&& after.wf()
            &&& m.effect(UserAction::Delete) == EffectView::Deleted(path_of(m.notes[i].title@))
        }),
{
}

/// Removes the note at `index`, if there is one, and gives the path of
/// its Markdown file, which the caller is to remove from disk.
pub fn delete_note(notes: &mut Vec<Note>, index: usize) -> (removed: Option<String>)
    ensures
        final(notes)@ == if index < old(notes)@.len() {
            old(notes)@.remove(index as int)
        } else {
            old(notes)@
        },
        match removed {
            Some(path) => index < old(notes)@.len() && path@ == path_of(
                old(notes)@[index as int].title@,
            ),
            None => index >= old(notes)@.len(),
        },
{
    if index < notes.len() {
        let path = note_path(notes[index].title.as_str());
        let _ = notes.remove(index);
        Some(path)
    } else {
        None
    }
}

/// The viewer: the notes it lists, which one is selected, whether the key
/// help is shown, and whether a message is on screen.
///
/// A state made by [`ViewerState::new`] is well-formed, and every method
/// keeps it so.
#[derive(Debug)]
pub struct ViewerState {
    notes: Vec<Note>,
    selected_index: usize,
    show_keybinds: bool,
    mode: Mode,
}

impl View for ViewerState {
    type V = ViewerModel;

    closed spec fn view(&self) -> ViewerModel {
        ViewerModel {
            notes: self.notes@,
            selected: self.selected_index as int,
            show_keybinds: self.show_keybinds,
            mode: self.mode,
        }
    }
}

impl ViewerState {
    /// A viewer over `notes`: browsing, the first note selected, the key
    /// help shown.
    pub fn new(notes: Vec<Note>) -> (state: ViewerState)
        ensures
            state@ == ViewerModel::initial(notes@),
            state@.wf(),
    {
        ViewerState { notes, selected_index: 0, show_keybinds: true, mode: Mode::Browsing }
    }

    /// The notes the viewer lists, in display order.
    pub fn notes(&self) -> (notes: &Vec<Note>)
        ensures
            notes@ == self@.notes,
    {
        &self.notes
    }

    /// Index of the selected note; 0 where there is none.
    pub fn selected_index(&self) -> (index: usize)
        ensures
            index == self@.selected,
    {
        self.selected_index
    }

    /// The selected note, where the selection points at one.
    pub fn selected_note(&self) -> (note: Option<&Note>)
        ensures
            match note {
                Some(n) => self@.has_selection() && *n == self@.notes[self@.selected],
                None => !self@.has_selection(),
            },
    {
        if self.selected_index < self.notes.len() {
            Some(&self.notes[self.selected_index])
        } else {
            None
        }
    }

    /// Whether the key help is shown.
    pub fn show_keybinds(&self) -> (shown: bool)
        ensures
            shown == self@.show_keybinds,
    {
        self.show_keybinds
    }

    /// Whether the viewer browses or shows a message.
    pub fn mode(&self) -> (mode: Mode)
        ensures
            mode == self@.mode,
    {
        self.mode
    }

    /// Applies one action. Outside browsing, and where the action lacks
    /// what it needs (a note to open or delete, a row to move to), nothing
    /// changes and the effect is [`Effect::Continue`].
    pub fn handle(&mut self, action: UserAction) -> (effect: Effect)
        ensures
            final(self)@ == old(self)@.step(action),
            effect@ == old(self)@.effect(action),
            old(self)@.wf() ==> final(self)@.wf(),
    {
        match self.mode {
            Mode::ShowingMessage => {
                return Effect::Continue;
            },
            Mode::Browsing => {},
        }
        match action {
            UserAction::MoveUp => {
                if self.selected_index > 0 {
                    self.selected_index = self.selected_index - 1;
                }
                Effect::Continue
            },
            UserAction::MoveDown => {
                if self.notes.len() > 0 && self.selected_index < self.notes.len() - 1 {
                    self.selected_index = self.selected_index + 1;
                }
                Effect::Continue
            },
            UserAction::Quit => Effect::Quit,
            UserAction::Open => match self.selected_note() {
                Some(note) => Effect::Edit(note_path(note.title.as_str())),
                None => Effect::Continue,
            },
            UserAction::Delete => {
                match delete_note(&mut self.notes, self.selected_index) {
                    Some(path) => {
                        if self.selected_index >= self.notes.len() && self.notes.len() > 0 {
                            self.selected_index = self.selected_index - 1;
                        }
                        self.mode = Mode::ShowingMessage;
                        Effect::Deleted(path)
                    },
                    None => Effect::Continue,
                }
            },
            UserAction::ToggleKeybinds => {
                self.show_keybinds = !self.show_keybinds;
                Effect::Continue
            },
            UserAction::Nothing => Effect::Continue,
        }
    }

    /// Takes the message off the screen: the viewer browses again.
    pub fn dismiss_message(&mut self)
        ensures
            final(self)@ == old(self)@.dismissed(),
    {
        self.mode = Mode::Browsing;
    }
}

} // verus!
