//! The interactive controller: the screen state machine.
//!
//! `classify` turns a key press into an action, depending only on the active
//! screen; `App::handle_action` performs the action, mutating the cached
//! collection, the edit buffers and the screen, and calling the store.  The
//! step relation `step_ok` states exactly what each action does; the
//! invariant `App::inv` — valid cursor, cache equal to the store's rows —
//! holds at startup and is preserved by every action.

use vstd::prelude::*;
use crate::db::{
    Database, StoreError, fresh_id, replace_by_id, lemma_push_fresh_sorted, lemma_remove_sorted,
    lemma_replace_sorted, lemma_replace_at_index,
};
use crate::editor::EditBuffer;
use crate::models::{
    NoteList, NoteView, views, sorted_by_id, cursor_down, cursor_up, cursor_after_delete,
    lemma_views_push, lemma_views_remove, lemma_views_update,
};

verus! {

/// The mutually exclusive UI modes; exactly one is active, and it gates
/// which keys mean what.
pub enum Screen {
    List,
    Form,
    ExitConfirm,
}

/// Which form field receives text input while the form is active.
pub enum FocusedInput {
    Title,
    Content,
}

/// A key, as the controller models it: the discrete keys the screens react
/// to, and `Other` for everything else.
#[derive(Clone, Copy)]
pub enum Key {
    Char(char),
    Up,
    Down,
    Left,
    Right,
    Enter,
    Tab,
    Esc,
    Backspace,
    Other,
}

/// One key press: the key and whether the control modifier was held.
#[derive(Clone, Copy)]
pub struct KeyInput {
    pub code: Key,
    pub ctrl: bool,
}

/// Actions available on the list screen.
#[derive(Clone, Copy)]
pub enum ListAction {
    MoveUp,
    MoveDown,
    AddNote,
    SelectNote,
    DeleteNote,
    Quit,
}

/// Actions available on the form screen.
#[derive(Clone, Copy)]
pub enum FormAction {
    Save,
    ToggleInput,
    UpdateInput(KeyInput),
    Exit,
}

/// Actions available on the exit-confirmation screen.
#[derive(Clone, Copy)]
pub enum ExitAction {
    Confirm,
    Cancel,
}

/// A classified intent, derived from a key press on some screen.
#[derive(Clone, Copy)]
pub enum Action {
    List(ListAction),
    Form(FormAction),
    Exit(ExitAction),
}

/// The focus not currently held.
pub open spec fn other_focus(f: FocusedInput) -> FocusedInput {
    match f {
        FocusedInput::Title => FocusedInput::Content,
        FocusedInput::Content => FocusedInput::Title,
    }
}

/// What a key press means on each screen.  Pure: no state is read beyond
/// the active screen, none is changed.
pub open spec fn classify(screen: Screen, key: KeyInput) -> Option<Action> {
    match screen {
        Screen::List => match key.code {
            Key::Char(c) => if c == 'q' {
                Option::Some(Action::List(ListAction::Quit))
            } else if c == 'j' {
                Option::Some(Action::List(ListAction::MoveDown))
            } else if c == 'k' {
                Option::Some(Action::List(ListAction::MoveUp))
            } else if c == 'e' {
                Option::Some(Action::List(ListAction::SelectNote))
            } else if c == 'a' || c == 'i' {
                Option::Some(Action::List(ListAction::AddNote))
            } else if c == 'd' {
                Option::Some(Action::List(ListAction::DeleteNote))
            } else {
                Option::None
            },
            Key::Esc => Option::Some(Action::List(ListAction::Quit)),
            Key::Down => Option::Some(Action::List(ListAction::MoveDown)),
            Key::Up => Option::Some(Action::List(ListAction::MoveUp)),
            Key::Enter => Option::Some(Action::List(ListAction::SelectNote)),
            _ => Option::None,
        },
        Screen::Form => if key.ctrl && (key.code matches Key::Char(c) && c == 's') {
            Option::Some(Action::Form(FormAction::Save))
        } else if key.code is Tab {
            Option::Some(Action::Form(FormAction::ToggleInput))
        } else if key.code is Esc {
            Option::Some(Action::Form(FormAction::Exit))
        } else {
            Option::Some(Action::Form(FormAction::UpdateInput(key)))
        },
        Screen::ExitConfirm => match key.code {
            Key::Esc => Option::Some(Action::Exit(ExitAction::Cancel)),
            Key::Char(c) => if c == 'q' {
                Option::Some(Action::Exit(ExitAction::Confirm))
            } else {
                Option::None
            },
            _ => Option::None,
        },
    }
}

/// How one key press moves an edit buffer: insert the character at the
/// cursor, delete backward, move the cursor, or nothing for any other key.
pub open spec fn edit_step(pre: EditBuffer, post: EditBuffer, key: KeyInput) -> bool {
    match key.code {
        Key::Char(c) => if key.ctrl {
            post.text() == pre.text() && post.caret() == pre.caret()
        } else {
            post.text() == pre.text().insert(pre.caret() as int, c) && post.caret() == pre.caret()
                + 1
        },
        Key::Backspace => if pre.caret() == 0 {
            post.text() == pre.text() && post.caret() == pre.caret()
        } else {
            post.text() == pre.text().remove(pre.caret() - 1) && post.caret() == pre.caret() - 1
        },
        Key::Left => post.text() == pre.text() && post.caret() == if pre.caret() == 0 {
            0
        } else {
            (pre.caret() - 1) as nat
        },
        Key::Right => post.text() == pre.text() && post.caret() == if pre.caret()
            == pre.text().len() {
            pre.caret()
        } else {
            pre.caret() + 1
        },
        _ => post.text() == pre.text() && post.caret() == pre.caret(),
    }
}

/// Route one key press to an edit buffer as a text edit.
pub fn apply_edit(buf: &mut EditBuffer, key: KeyInput)
    requires
        old(buf).wf(),
    ensures
        final(buf).wf(),
        edit_step(*old(buf), *final(buf), key),
{
    match key.code {
        Key::Char(c) => {
            if !key.ctrl {
                buf.insert_char(c);
            }
        },
        Key::Backspace => {
            buf.delete_backward();
        },
        Key::Left => {
            buf.move_left();
        },
        Key::Right => {
            buf.move_right();
        },
        _ => {},
    }
}

/// The controller state: the store below, the cached collection with its
/// cursor, the active screen, the two form buffers and the focused field,
/// and the quit flag the event loop watches.
pub struct App {
    pub db: Database,
    pub notes: NoteList,
    pub current_screen: Screen,
    pub title_input: EditBuffer,
    pub content_input: EditBuffer,
    pub focused_input: FocusedInput,
    pub should_quit: bool,
}

/// The cached collection and its cursor are unchanged.
pub open spec fn same_notes(pre: App, post: App) -> bool {
    post.notes.items@ == pre.notes.items@ && post.notes.selected == pre.notes.selected
}

/// The store's rows are unchanged.
pub open spec fn same_store(pre: App, post: App) -> bool {
    post.db.rows() == pre.db.rows()
}

/// Both edit buffers are unchanged.
pub open spec fn same_buffers(pre: App, post: App) -> bool {
    post.title_input == pre.title_input && post.content_input == pre.content_input
}

/// Focus and quit flag are unchanged.
pub open spec fn same_chrome(pre: App, post: App) -> bool {
    post.focused_input == pre.focused_input && post.should_quit == pre.should_quit
}

/// Everything but the active screen is unchanged.
pub open spec fn same_but_screen(pre: App, post: App) -> bool {
    same_notes(pre, post) && same_store(pre, post) && same_buffers(pre, post) && same_chrome(
        pre,
        post,
    )
}

/// Nothing at all is changed.
pub open spec fn same_app(pre: App, post: App) -> bool {
    same_but_screen(pre, post) && post.current_screen == pre.current_screen
}

/// The actions that reach the store from state `pre` — creating, and
/// saving or deleting with a selection — and so the only ones that can
/// fail.
pub open spec fn may_hit_store(pre: App, action: Action) -> bool {
    match action {
        Action::List(ListAction::AddNote) => true,
        Action::List(ListAction::DeleteNote) => pre.notes.selected is Some,
        Action::Form(FormAction::Save) => pre.notes.selected is Some,
        _ => false,
    }
}

/// What a successful action does: the transition relation of the state
/// machine, one case per action.
pub open spec fn step_ok(pre: App, post: App, action: Action) -> bool {
    match action {
        Action::List(la) => match la {
            ListAction::Quit => same_but_screen(pre, post) && post.current_screen is ExitConfirm,
            ListAction::MoveDown => {
                &&& same_store(pre, post)
                &&& same_buffers(pre, post)
                &&& same_chrome(pre, post)
                &&& post.current_screen == pre.current_screen
                &&& post.notes.items@ == pre.notes.items@
                &&& post.notes.selected == cursor_down(
                    pre.notes.selected,
                    pre.notes.items@.len() as int,
                )
            },
            ListAction::MoveUp => {
                &&& same_store(pre, post)
                &&& same_buffers(pre, post)
                &&& same_chrome(pre, post)
                &&& post.current_screen == pre.current_screen
                &&& post.notes.items@ == pre.notes.items@
                &&& post.notes.selected == cursor_up(
                    pre.notes.selected,
                    pre.notes.items@.len() as int,
                )
            },
            ListAction::SelectNote => match pre.notes.selected {
                Option::None => same_app(pre, post),
                Option::Some(i) => {
                    &&& same_notes(pre, post)
                    &&& same_store(pre, post)
                    &&& same_chrome(pre, post)
                    &&& post.current_screen is Form
                    &&& post.title_input.text() == pre.notes.items@[i as int].title@
                    &&& post.title_input.caret() == pre.notes.items@[i as int].title@.len()
                    &&& post.content_input.text() == pre.notes.items@[i as int].content@
                    &&& post.content_input.caret() == pre.notes.items@[i as int].content@.len()
                },
            },
            ListAction::AddNote => {
                &&& post.notes.items@.len() == pre.notes.items@.len() + 1
                &&& ({
                    let nv = post.notes.items@.last()@;
                    &&& nv.title == "New note"@
                    &&& nv.content.len() == 0
                    &&& fresh_id(nv.id, views(pre.notes.items@))
                    &&& views(post.notes.items@) == views(pre.notes.items@).push(nv)
                    &&& post.db.rows() == pre.db.rows().push(nv)
                })
                &&& post.notes.selected matches Option::Some(s) && s as int
                    == pre.notes.items@.len()
                &&& post.title_input.text().len() == 0 && post.title_input.caret() == 0
                &&& post.content_input.text().len() == 0 && post.content_input.caret() == 0
                &&& post.current_screen is Form
                &&& same_chrome(pre, post)
            },
            ListAction::DeleteNote => match pre.notes.selected {
                Option::None => same_app(pre, post),
                Option::Some(i) => {
                    &&& post.notes.items@ == pre.notes.items@.remove(i as int)
                    &&& post.db.rows() == pre.db.rows().remove(i as int)
                    &&& post.notes.selected == cursor_after_delete(
                        i as int,
                        pre.notes.items@.len() - 1,
                    )
                    &&& same_buffers(pre, post)
                    &&& same_chrome(pre, post)
                    &&& post.current_screen == pre.current_screen
                },
            },
        },
        Action::Form(fa) => match fa {
            FormAction::Save => match pre.notes.selected {
                Option::None => same_app(pre, post),
                Option::Some(i) => {
                    let id = pre.notes.items@[i as int]@.id;
                    let nv = (NoteView {
                        id,
                        title: pre.title_input.text(),
                        content: pre.content_input.text(),
                    });
                    &&& views(post.notes.items@) == views(pre.notes.items@).update(i as int, nv)
                    &&& post.db.rows() == replace_by_id(
                        pre.db.rows(),
                        id,
                        pre.title_input.text(),
                        pre.content_input.text(),
                    )
                    &&& post.notes.selected == pre.notes.selected
                    &&& same_buffers(pre, post)
                    &&& same_chrome(pre, post)
                    &&& post.current_screen == pre.current_screen
                },
            },
            FormAction::ToggleInput => {
                &&& same_notes(pre, post)
                &&& same_store(pre, post)
                &&& same_buffers(pre, post)
                &&& post.current_screen == pre.current_screen
                &&& post.focused_input == other_focus(pre.focused_input)
                &&& post.should_quit == pre.should_quit
            },
            FormAction::UpdateInput(key) => {
                &&& same_notes(pre, post)
                &&& same_store(pre, post)
                &&& same_chrome(pre, post)
                &&& post.current_screen == pre.current_screen
                &&& match pre.focused_input {
                    FocusedInput::Title => edit_step(pre.title_input, post.title_input, key)
                        && post.content_input == pre.content_input,
                    FocusedInput::Content => edit_step(pre.content_input, post.content_input, key)
                        && post.title_input == pre.title_input,
                }
            },
            FormAction::Exit => same_but_screen(pre, post) && post.current_screen is List,
        },
        Action::Exit(ea) => match ea {
            ExitAction::Confirm => {
                &&& same_notes(pre, post)
                &&& same_store(pre, post)
                &&& same_buffers(pre, post)
                &&& post.current_screen == pre.current_screen
                &&& post.focused_input == pre.focused_input
                &&& post.should_quit == true
            },
            ExitAction::Cancel => same_but_screen(pre, post) && post.current_screen is List,
        },
    }
}

impl App {
    /// The reachable-state invariant: the cursor is a valid index exactly
    /// when the collection is non-empty, the cached collection is exactly
    /// the store's rows in ascending id order, and both buffers are
    /// well-formed.
    pub open spec fn inv(self) -> bool {
        &&& self.notes.wf()
        &&& views(self.notes.items@) == self.db.rows()
        &&& sorted_by_id(self.db.rows())
        &&& self.title_input.wf()
        &&& self.content_input.wf()
    }

    /// Start a session on an opened store: read every note, select the
    /// first if any exist, and enter the list screen.
    pub fn new(db: Database) -> (r: Result<App, StoreError>)
        ensures
            match r {
                Ok(app) => {
                    &&& app.inv()
                    &&& app.db.rows() == db.rows()
                    &&& views(app.notes.items@) == db.rows()
                    &&& app.notes.selected == (if db.rows().len() == 0 {
                        Option::<usize>::None
                    } else {
                        Option::Some(0usize)
                    })
                    &&& app.current_screen is List
                    &&& app.focused_input is Title
                    &&& !app.should_quit
                    &&& app.title_input.text().len() == 0 && app.title_input.caret() == 0
                    &&& app.content_input.text().len() == 0 && app.content_input.caret() == 0
                },
                Err(_) => true,
            },
    {
        let items = match db.get_all_notes() {
            Ok(v) => v,
            Err(e) => {
                return Err(e);
            },
        };
        let selected = if items.len() > 0 {
            Option::Some(0usize)
        } else {
            Option::None
        };
        Ok(
            App {
                db,
                notes: NoteList { items, selected },
                current_screen: Screen::List,
                title_input: EditBuffer::new(),
                content_input: EditBuffer::new(),
                focused_input: FocusedInput::Title,
                should_quit: false,
            },
        )
    }

    /// Classify one key press on the active screen into an action, if it
    /// means one.  Pure: the controller is not changed.
    pub fn handle_key(&self, key: KeyInput) -> (r: Option<Action>)
        ensures
            r == classify(self.current_screen, key),
    {
        match self.current_screen {
            Screen::List => match key.code {
                Key::Char(c) => if c == 'q' {
                    Option::Some(Action::List(ListAction::Quit))
                } else if c == 'j' {
                    Option::Some(Action::List(ListAction::MoveDown))
                } else if c == 'k' {
                    Option::Some(Action::List(ListAction::MoveUp))
                } else if c == 'e' {
                    Option::Some(Action::List(ListAction::SelectNote))
                } else if c == 'a' || c == 'i' {
                    Option::Some(Action::List(ListAction::AddNote))
                } else if c == 'd' {
                    Option::Some(Action::List(ListAction::DeleteNote))
                } else {
                    Option::None
                },
                Key::Esc => Option::Some(Action::List(ListAction::Quit)),
                Key::Down => Option::Some(Action::List(ListAction::MoveDown)),
                Key::Up => Option::Some(Action::List(ListAction::MoveUp)),
                Key::Enter => Option::Some(Action::List(ListAction::SelectNote)),
                _ => Option::None,
            },
            Screen::Form => {
                let save = match key.code {
                    Key::Char(c) => key.ctrl && c == 's',
                    _ => false,
                };
                if save {
                    Option::Some(Action::Form(FormAction::Save))
                } else {
                    match key.code {
                        Key::Tab => Option::Some(Action::Form(FormAction::ToggleInput)),
                        Key::Esc => Option::Some(Action::Form(FormAction::Exit)),
                        _ => Option::Some(Action::Form(FormAction::UpdateInput(key))),
                    }
                }
            },
            Screen::ExitConfirm => match key.code {
                Key::Esc => Option::Some(Action::Exit(ExitAction::Cancel)),
                Key::Char(c) => if c == 'q' {
                    Option::Some(Action::Exit(ExitAction::Confirm))
                } else {
                    Option::None
                },
                _ => Option::None,
            },
        }
    }

    /// Flip the focused form field.
    pub fn toggle_input(&mut self)
        ensures
            final(self).focused_input == other_focus(old(self).focused_input),
            final(self).notes == old(self).notes,
            final(self).db == old(self).db,
            final(self).current_screen == old(self).current_screen,
            final(self).title_input == old(self).title_input,
            final(self).content_input == old(self).content_input,
            final(self).should_quit == old(self).should_quit,
    {
        self.focused_input = match self.focused_input {
            FocusedInput::Title => FocusedInput::Content,
            FocusedInput::Content => FocusedInput::Title,
        };
    }

    /// Create a note titled "New note" with empty content in the store,
    /// append it to the cached collection, and select it.  On a store
    /// failure nothing changes.
    pub fn add_note(&mut self) -> (r: Result<(), StoreError>)
        requires
            old(self).inv(),
        ensures
            final(self).inv(),
            match r {
                Ok(_) => {
                    &&& final(self).notes.items@.len() == old(self).notes.items@.len() + 1
                    &&& ({
                        let nv = final(self).notes.items@.last()@;
                        &&& nv.title == "New note"@
                        &&& nv.content.len() == 0
                        &&& fresh_id(nv.id, views(old(self).notes.items@))
                        &&& views(final(self).notes.items@) == views(old(self).notes.items@).push(
                            nv,
                        )
                        &&& final(self).db.rows() == old(self).db.rows().push(nv)
                    })
                    &&& final(self).notes.selected matches Option::Some(s) && s as int == old(
                        self,
                    ).notes.items@.len()
                    &&& final(self).current_screen == old(self).current_screen
                    &&& final(self).title_input == old(self).title_input
                    &&& final(self).content_input == old(self).content_input
                    &&& final(self).focused_input == old(self).focused_input
                    &&& final(self).should_quit == old(self).should_quit
                },
                Err(_) => same_app(*old(self), *final(self)),
            },
    {
        match self.db.add_note("New note", "") {
            Ok(n) => {
                proof {
                    reveal_strlit("");
                    lemma_push_fresh_sorted(old(self).db.rows(), n@);
                    lemma_views_push(old(self).notes.items@, n);
                }
                self.notes.items.push(n);
                let len = self.notes.items.len();
                self.notes.selected = Option::Some(len - 1);
                Ok(())
            },
            Err(e) => Err(e),
        }
    }

    /// Remove the selected note from the store and the cached collection,
    /// and re-clamp the cursor: to the previous entry unless the removed
    /// entry stood first, to none when the collection empties.  A no-op
    /// without a selection; on a store failure nothing changes.
    pub fn delete_note(&mut self) -> (r: Result<(), StoreError>)
        requires
            old(self).inv(),
        ensures
            final(self).inv(),
            match r {
                Ok(_) => match old(self).notes.selected {
                    Option::None => same_app(*old(self), *final(self)),
                    Option::Some(i) => {
                        &&& final(self).notes.items@ == old(self).notes.items@.remove(i as int)
                        &&& final(self).db.rows() == old(self).db.rows().remove(i as int)
                        &&& final(self).notes.selected == cursor_after_delete(
                            i as int,
                            old(self).notes.items@.len() - 1,
                        )
                        &&& final(self).current_screen == old(self).current_screen
                        &&& final(self).title_input == old(self).title_input
                        &&& final(self).content_input == old(self).content_input
                        &&& final(self).focused_input == old(self).focused_input
                        &&& final(self).should_quit == old(self).should_quit
                    },
                },
                Err(_) => same_app(*old(self), *final(self)) && old(self).notes.selected is Some,
            },
    {
        match self.notes.selected {
            Option::None => Ok(()),
            Option::Some(i) => {
                let id = self.notes.items[i].id;
                match self.db.delete_note(id) {
                    Ok(_) => {
                        proof {
                            assert(old(self).db.rows()[i as int] == views(
                                old(self).notes.items@,
                            )[i as int]);
                            assert(old(self).db.rows()[i as int].id == id as int);
                            assert(self.db.rows() == old(self).db.rows().remove(i as int));
                            lemma_remove_sorted(old(self).db.rows(), i as int);
                            lemma_views_remove(old(self).notes.items@, i as int);
                        }
                        self.notes.items.remove(i);
                        let n = self.notes.items.len();
                        if n == 0 {
                            self.notes.selected = Option::None;
                        } else if i == 0 {
                            self.notes.selected = Option::Some(0);
                        } else {
                            self.notes.selected = Option::Some(i - 1);
                        }
                        Ok(())
                    },
                    Err(e) => Err(e),
                }
            },
        }
    }

    /// Write the buffers' text to the selected note: the store row with
    /// that id is overwritten, and the cached note replaced by the row as
    /// stored — same id, new title and content.  A no-op without a
    /// selection; on a store failure nothing changes.
    pub fn save_note(&mut self) -> (r: Result<(), StoreError>)
        requires
            old(self).inv(),
        ensures
            final(self).inv(),
            match r {
                Ok(_) => match old(self).notes.selected {
                    Option::None => same_app(*old(self), *final(self)),
                    Option::Some(i) => {
                        let id = old(self).notes.items@[i as int]@.id;
                        let nv = (NoteView {
                            id,
                            title: old(self).title_input.text(),
                            content: old(self).content_input.text(),
                        });
                        &&& views(final(self).notes.items@) == views(
                            old(self).notes.items@,
                        ).update(i as int, nv)
                        &&& final(self).db.rows() == replace_by_id(
                            old(self).db.rows(),
                            id,
                            old(self).title_input.text(),
                            old(self).content_input.text(),
                        )
                        &&& final(self).notes.selected == old(self).notes.selected
                        &&& final(self).current_screen == old(self).current_screen
                        &&& final(self).title_input == old(self).title_input
                        &&& final(self).content_input == old(self).content_input
                        &&& final(self).focused_input == old(self).focused_input
                        &&& final(self).should_quit == old(self).should_quit
                    },
                },
                Err(_) => same_app(*old(self), *final(self)) && old(self).notes.selected is Some,
            },
    {
        match self.notes.selected {
            Option::None => Ok(()),
            Option::Some(i) => {
                let title = self.title_input.value();
                let content = self.content_input.value();
                let id = self.notes.items[i].id;
                match self.db.update_note(id, title.as_str(), content.as_str()) {
                    Ok(n) => {
                        proof {
                            assert(old(self).db.rows()[i as int] == views(
                                old(self).notes.items@,
                            )[i as int]);
                            lemma_replace_at_index(
                                old(self).db.rows(),
                                i as int,
                                title@,
                                content@,
                            );
                            lemma_replace_sorted(old(self).db.rows(), id as int, title@, content@);
                            lemma_views_update(old(self).notes.items@, i as int, n);
                        }
                        self.notes.items[i] = n;
                        Ok(())
                    },
                    Err(e) => Err(e),
                }
            },
        }
    }

    /// Perform one classified action: mutate the state as the transition
    /// table says, calling the store first where the action persists, and
    /// hand back a follow-up action for chained processing — none, in every
    /// case of this design.  On a store failure the controller is left
    /// exactly as it was.
    pub fn handle_action(&mut self, action: Action) -> (r: Result<Option<Action>, StoreError>)
        requires
            old(self).inv(),
        ensures
            final(self).inv(),
            match r {
                Ok(next) => next is None && step_ok(*old(self), *final(self), action),
                Err(_) => same_app(*old(self), *final(self)) && may_hit_store(*old(self), action),
            },
    {
        match action {
            Action::List(la) => match la {
                ListAction::Quit => {
                    self.current_screen = Screen::ExitConfirm;
                    Ok(Option::None)
                },
                ListAction::MoveUp => {
                    self.notes.select_previous();
                    Ok(Option::None)
                },
                ListAction::MoveDown => {
                    self.notes.select_next();
                    Ok(Option::None)
                },
                ListAction::AddNote => {
                    match self.add_note() {
                        Ok(_) => {},
                        Err(e) => {
                            return Err(e);
                        },
                    }
                    self.title_input.reset();
                    self.content_input.reset();
                    self.current_screen = Screen::Form;
                    Ok(Option::None)
                },
                ListAction::DeleteNote => match self.delete_note() {
                    Ok(_) => Ok(Option::None),
                    Err(e) => Err(e),
                },
                ListAction::SelectNote => {
                    match self.notes.selected {
                        Option::None => {},
                        Option::Some(i) => {
                            self.title_input.set_text(self.notes.items[i].title.as_str());
                            self.content_input.set_text(self.notes.items[i].content.as_str());
                            self.current_screen = Screen::Form;
                        },
                    }
                    Ok(Option::None)
                },
            },
            Action::Form(fa) => match fa {
                FormAction::Save => match self.save_note() {
                    Ok(_) => Ok(Option::None),
                    Err(e) => Err(e),
                },
                FormAction::ToggleInput => {
                    self.toggle_input();
                    Ok(Option::None)
                },
                FormAction::UpdateInput(key) => {
                    match self.focused_input {
                        FocusedInput::Title => apply_edit(&mut self.title_input, key),
                        FocusedInput::Content => apply_edit(&mut self.content_input, key),
                    }
                    Ok(Option::None)
                },
                FormAction::Exit => {
                    self.current_screen = Screen::List;
                    Ok(Option::None)
                },
            },
            Action::Exit(ea) => match ea {
                ExitAction::Confirm => {
                    self.should_quit = true;
                    Ok(Option::None)
                },
                ExitAction::Cancel => {
                    self.current_screen = Screen::List;
                    Ok(Option::None)
                },
            },
        }
    }
}

/// In every reachable state — the invariant holds at startup and every
/// action preserves it — a non-empty collection carries a valid selection
/// index, and an empty one carries none.
pub proof fn lemma_selection_valid(app: App)
    requires
        app.inv(),
    ensures
        app.notes.items@.len() > 0 ==> (app.notes.selected matches Option::Some(i) && i
            < app.notes.items@.len()),
        app.notes.items@.len() == 0 ==> app.notes.selected is None,
{
}

/// In every reachable state the cached collection is exactly what the store
/// would list: the same ids, titles and contents, in ascending id order.
pub proof fn lemma_cache_matches_store(app: App)
    requires
        app.inv(),
    ensures
        views(app.notes.items@) == app.db.rows(),
        sorted_by_id(app.db.rows()),
{
}

/// Adding a note to a collection of size N selects index N — the new last
/// entry — and leaves both edit buffers empty.
pub proof fn lemma_add_selects_new(pre: App, post: App)
    requires
        step_ok(pre, post, Action::List(ListAction::AddNote)),
    ensures
        post.notes.selected matches Option::Some(s) && s as int == pre.notes.items@.len(),
        post.title_input.text().len() == 0,
        post.content_input.text().len() == 0,
{
}

/// Leaving the form without saving discards the buffers' text: the cached
/// collection and the store are exactly as they were, and the list screen
/// is active again.  Text edits within the form touch the buffers alone, so
/// the same holds across any number of them followed by one escape.
pub proof fn lemma_escape_discards(pre: App, post: App)
    requires
        step_ok(pre, post, Action::Form(FormAction::Exit)),
    ensures
        same_notes(pre, post),
        same_store(pre, post),
        post.current_screen is List,
{
}

/// Text edits in the form never touch the collection or the store.
pub proof fn lemma_edits_touch_buffers_only(pre: App, post: App, key: KeyInput)
    requires
        step_ok(pre, post, Action::Form(FormAction::UpdateInput(key))),
    ensures
        same_notes(pre, post),
        same_store(pre, post),
        post.current_screen == pre.current_screen,
{
}

/// The exit-confirmation screen: cancelling returns to the list with no
/// other state change, confirming raises the quit flag the event loop
/// watches, changing nothing else.
pub proof fn lemma_exit_confirm(pre: App, post_cancel: App, post_confirm: App)
    requires
        step_ok(pre, post_cancel, Action::Exit(ExitAction::Cancel)),
        step_ok(pre, post_confirm, Action::Exit(ExitAction::Confirm)),
    ensures
        same_but_screen(pre, post_cancel) && post_cancel.current_screen is List,
        same_notes(pre, post_confirm) && same_store(pre, post_confirm)
            && post_confirm.current_screen == pre.current_screen && post_confirm.should_quit,
{
}

} // verus!
