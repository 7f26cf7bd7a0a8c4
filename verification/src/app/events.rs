//! What each key does on each screen, and what becomes of the work that a
//! key asked for.

use crate::app::keys::{char_label, KeyCode, KeyEvent};
use crate::app::state::{App, AppView, CurrentScreen, KeySequence, PendingDelete, PendingDeleteView};
use crate::db::models::UIListView;
use crate::db::ops::{Command, CommandView, Outcome, OutcomeView};
use crate::ui::components::input_states::InputState;
use crate::ui::components::items::ItemsComponent;
use crate::ui::cursor::{blank, is_blank, CursorState, CursorText};
use crate::ui::selection::{Direction, SelectionState};
use vstd::prelude::*;
use vstd::string::*;

verus! {

/// The interpreter of key presses.
pub struct EventHandler;

/// The line of text after `key` was typed into it: the editing keys edit,
/// every other key leaves the line as it is.
pub open spec fn edited(line: CursorText, key: KeyEvent) -> CursorText {
    match key.code {
        KeyCode::Backspace => line.delete_before(),
        KeyCode::Delete => line.delete_after(),
        KeyCode::Char(c) => line.insert(c),
        KeyCode::Left => line.left(),
        KeyCode::Right => line.right(),
        _ => line,
    }
}

impl AppView {
    /// The selection among the items of the selected list.
    pub open spec fn item_selection(self) -> Option<SelectionState> {
        match self.lists.selected_list() {
            Some(list) => Some(list.selection),
            None => None,
        }
    }

    /// With another selection among the items of the selected list;
    /// unchanged where no list is selected.
    pub open spec fn with_item_selection(self, selection: SelectionState) -> AppView {
        match self.lists.selected_list() {
            Some(list) => self.with_lists(
                self.lists.with_selected_list(list.with_selection(selection)),
            ),
            None => self,
        }
    }

    /// With the text that was typed changed by `key`.
    pub open spec fn typed(self, key: KeyEvent) -> AppView {
        self.with_input(self.input.with_line(edited(self.input.line, key)))
    }

    /// What the keys that mean the same on every primary screen do, once
    /// the key is known not to continue a sequence: quitting, opening the
    /// help, forgetting the count, counting, opening the leader menu, and
    /// changing the screen. The flag tells whether the key was one of them.
    pub open spec fn global_command(self, key: KeyEvent) -> (AppView, bool) {
        if key.code == KeyCode::Char('q') {
            (AppView { exit: true, ..self }, true)
        } else if key.is_help() {
            (self.on_screen(CurrentScreen::Help), true)
        } else if key.code == KeyCode::Esc {
            if self.current_screen.is_primary() {
                (self.without_count(), true)
            } else {
                (self, false)
            }
        } else if key.digit() is Some {
            (self.with_digit(key.digit()->0), true)
        } else if key.code == KeyCode::Char(' ') {
            if self.number_modifier == 0 {
                (
                    AppView {
                        leader_awaiting: true,
                        current_screen: CurrentScreen::LeaderHelp,
                        ..self
                    },
                    true,
                )
            } else {
                (self, true)
            }
        } else if (key.code == KeyCode::Tab || key.code == KeyCode::BackTab)
            && self.current_screen.is_primary() {
            (self, true)
        } else {
            (self, false)
        }
    }

    /// What a key does before the screen's own table is asked. On a primary
    /// screen Tab and Shift+Tab step through the ring of primary screens,
    /// and the screen is remembered as the one to return to; stepping onto
    /// the database screen highlights the open database. A `g` that
    /// follows a `g` completes the sequence and is left to the screen.
    /// Every other key cancels a sequence that has begun, is recorded among
    /// the recent keys, and is then either the `g` that begins a sequence
    /// on the item screen or one of the global keys. The flag tells whether
    /// the key is used up.
    pub open spec fn global_keys(self, key: KeyEvent) -> (AppView, bool) {
        let cycled = if self.current_screen.is_primary() {
            let screen = if key.code == KeyCode::Tab {
                self.current_screen.next_primary()
            } else if key.code == KeyCode::BackTab {
                self.current_screen.previous_primary()
            } else {
                self.current_screen
            };
            let stepped = AppView { current_screen: screen, last_active_screen: screen, ..self };
            if screen == CurrentScreen::DBSelection && self.current_screen
                != CurrentScreen::DBSelection {
                stepped.enter_change_db_screen()
            } else {
                stepped
            }
        } else {
            self
        };
        if cycled.key_sequence == KeySequence::AwaitingSecondKey && key.code == KeyCode::Char(
            'g',
        ) {
            (
                AppView {
                    key_sequence: KeySequence::Idle,
                    keys_buffer: cycled.keys_buffer.push((seq!['g'], false)),
                    ..cycled
                },
                false,
            )
        } else {
            let recorded = (AppView { key_sequence: KeySequence::Idle, ..cycled }).with_key(
                key.label(),
                !key.is_named(),
            );
            if key.code == KeyCode::Char('g') && recorded.current_screen
                == CurrentScreen::ItemSelection {
                (AppView { key_sequence: KeySequence::AwaitingSecondKey, ..recorded }, false)
            } else {
                recorded.global_command(key)
            }
        }
    }

    /// The lists after a motion key: one step with wrap-around where no
    /// count was typed, as many steps as the count says otherwise, stopping
    /// at the edge. The count is used up.
    pub open spec fn list_motion(self, direction: Direction) -> AppView {
        let selection = self.lists.selection;
        self.with_lists(
            self.lists.with_selection(
                if self.number_modifier != 0 {
                    selection.scrolled(self.number_modifier as nat, direction)
                } else if direction == Direction::Down {
                    selection.next()
                } else {
                    selection.previous()
                },
            ),
        ).without_count()
    }

    /// The items of the selected list after a motion key, as
    /// [`Self::list_motion`] for the lists.
    pub open spec fn item_motion(self, direction: Direction) -> AppView {
        (match self.item_selection() {
            Some(selection) => self.with_item_selection(
                if self.number_modifier != 0 {
                    selection.scrolled(self.number_modifier as nat, direction)
                } else if direction == Direction::Down {
                    selection.next()
                } else {
                    selection.previous()
                },
            ),
            None => self,
        }).without_count()
    }

    /// The highlighted database after a motion key, as
    /// [`Self::list_motion`] for the lists.
    pub open spec fn db_motion(self, direction: Direction) -> AppView {
        (if self.number_modifier != 0 {
            self.scroll_db(self.number_modifier, direction)
        } else if direction == Direction::Down {
            self.select_next_db()
        } else {
            self.select_previous_db()
        }).without_count()
    }

    /// What is asked of the store by a key that moves the selected item.
    pub open spec fn item_move_request(self, direction: Direction) -> CommandView {
        match self.lists.selected_list() {
            Some(list) => list.move_request(self.count() as nat, direction),
            None => CommandView::Nothing,
        }
    }

    /// What a key does on the list screen.
    pub open spec fn list_keys(self, key: KeyEvent) -> (AppView, CommandView) {
        let (s, used) = self.global_keys(key);
        if used {
            (s, CommandView::Nothing)
        } else if key.modifiers.shift {
            match key.code {
                KeyCode::Up | KeyCode::Char('K') => (
                    s.without_count(),
                    s.lists.move_request(s.count() as nat, Direction::Up),
                ),
                KeyCode::Down | KeyCode::Char('J') => (
                    s.without_count(),
                    s.lists.move_request(s.count() as nat, Direction::Down),
                ),
                _ => (s, CommandView::Nothing),
            }
        } else {
            match key.code {
                KeyCode::Down | KeyCode::Char('j') => (
                    s.list_motion(Direction::Down),
                    CommandView::Nothing,
                ),
                KeyCode::Up | KeyCode::Char('k') => (
                    s.list_motion(Direction::Up),
                    CommandView::Nothing,
                ),
                KeyCode::Right | KeyCode::Char('l') => {
                    let t = s.on_screen(CurrentScreen::ItemSelection);
                    (
                        match t.item_selection() {
                            Some(selection) if selection.selected is None => t.with_item_selection(
                                selection.first(),
                            ),
                            _ => t,
                        },
                        CommandView::Nothing,
                    )
                },
                KeyCode::Char('a') => (s.enter_add_list_screen(), CommandView::Nothing),
                KeyCode::Char('m') => (
                    match s.lists.selected_list() {
                        Some(list) => s.enter_modify_list_screen(list.list),
                        None => s,
                    },
                    CommandView::Nothing,
                ),
                KeyCode::Char('d') => (
                    match s.lists.selected_list() {
                        Some(list) => AppView {
                            pending_delete: PendingDeleteView::List(list.list.name),
                            current_screen: CurrentScreen::DeleteListConfirmation,
                            ..s
                        },
                        None => s,
                    },
                    CommandView::Nothing,
                ),
                _ => (s, CommandView::Nothing),
            }
        }
    }

    /// What a key does on the item screen.
    pub open spec fn item_keys(self, key: KeyEvent) -> (AppView, CommandView) {
        let (s, used) = self.global_keys(key);
        if used {
            (s, CommandView::Nothing)
        } else if key.modifiers.shift {
            match key.code {
                KeyCode::Up | KeyCode::Char('K') => (
                    s.without_count(),
                    s.item_move_request(Direction::Up),
                ),
                KeyCode::Down | KeyCode::Char('J') => (
                    s.without_count(),
                    s.item_move_request(Direction::Down),
                ),
                KeyCode::Char('G') => (
                    match s.item_selection() {
                        Some(selection) if selection.selected is Some => s.with_item_selection(
                            selection.last(),
                        ),
                        _ => s,
                    },
                    CommandView::Nothing,
                ),
                _ => (s, CommandView::Nothing),
            }
        } else {
            match key.code {
                KeyCode::Char('g') => (
                    match s.item_selection() {
                        Some(selection) if s.key_sequence == KeySequence::Idle => s.with_item_selection(
                            selection.first(),
                        ),
                        _ => s,
                    },
                    CommandView::Nothing,
                ),
                KeyCode::Down | KeyCode::Char('j') => (
                    s.item_motion(Direction::Down),
                    CommandView::Nothing,
                ),
                KeyCode::Up | KeyCode::Char('k') => (
                    s.item_motion(Direction::Up),
                    CommandView::Nothing,
                ),
                KeyCode::Left | KeyCode::Char('h') => {
                    let t = s.on_screen(CurrentScreen::ListSelection);
                    (
                        match t.item_selection() {
                            Some(selection) => t.with_item_selection(selection.with_selected(None)),
                            None => t,
                        },
                        CommandView::Nothing,
                    )
                },
                KeyCode::Char('a') => (s.enter_add_item_screen(), CommandView::Nothing),
                KeyCode::Char('m') => (
                    match s.lists.selected_list() {
                        Some(list) => s.enter_modify_item_screen(list),
                        None => s,
                    },
                    CommandView::Nothing,
                ),
                KeyCode::Char('d') => (
                    s,
                    match s.lists.selected_list() {
                        Some(list) => list.delete_request(),
                        None => CommandView::Nothing,
                    },
                ),
                KeyCode::Enter => (
                    s,
                    match s.lists.selected_list() {
                        Some(list) => list.toggle_request(),
                        None => CommandView::Nothing,
                    },
                ),
                KeyCode::Esc => (s.on_screen(CurrentScreen::ItemSelection), CommandView::Nothing),
                _ => (s, CommandView::Nothing),
            }
        }
    }

    /// What a key does on the database screen.
    pub open spec fn db_keys(self, key: KeyEvent) -> (AppView, CommandView) {
        let (s, used) = self.global_keys(key);
        if used {
            (s, CommandView::Nothing)
        } else {
            match key.code {
                KeyCode::Esc => (s.on_screen(CurrentScreen::DBSelection), CommandView::Nothing),
                KeyCode::Up | KeyCode::Char('k') => (
                    s.db_motion(Direction::Up),
                    CommandView::Nothing,
                ),
                KeyCode::Down | KeyCode::Char('j') => (
                    s.db_motion(Direction::Down),
                    CommandView::Nothing,
                ),
                KeyCode::Enter => match s.selected_db() {
                    Some(_) => (s, s.switch_request(false)),
                    None => (s.go_back(), CommandView::Nothing),
                },
                KeyCode::Char('a') => (s.enter_add_db_screen(), CommandView::Nothing),
                KeyCode::Char('s') => (s, s.switch_request(true)),
                KeyCode::Char('m') => (s.enter_modify_db_screen(), CommandView::Nothing),
                KeyCode::Char('d') => (
                    match s.selected_db() {
                        Some(db) => AppView {
                            pending_delete: PendingDeleteView::Database(db.name),
                            current_screen: CurrentScreen::DeleteDatabaseConfirmation,
                            ..s
                        },
                        None => s,
                    },
                    CommandView::Nothing,
                ),
                _ => (s, CommandView::Nothing),
            }
        }
    }

    /// What a key does on the help screen.
    pub open spec fn help_keys(self, key: KeyEvent) -> (AppView, CommandView) {
        let (s, used) = self.global_keys(key);
        if used {
            (s, CommandView::Nothing)
        } else {
            match key.code {
                KeyCode::Esc | KeyCode::Char('q') => (s.go_back(), CommandView::Nothing),
                _ => (s, CommandView::Nothing),
            }
        }
    }

    /// What a key does in the leader menu.
    pub open spec fn leader_keys(self, key: KeyEvent) -> (AppView, CommandView) {
        let s = AppView { leader_awaiting: false, ..self };
        (
            match key.code {
                KeyCode::Char('q') => AppView { exit: true, ..s },
                KeyCode::Char('1') => s.on_screen(CurrentScreen::ListSelection),
                KeyCode::Char('2') => s.on_screen(CurrentScreen::ItemSelection),
                KeyCode::Char('3') => s.enter_change_db_screen(),
                KeyCode::Esc => AppView { keys_buffer: Seq::empty(), ..s.go_back() },
                _ => AppView { leader_awaiting: true, ..s },
            },
            CommandView::Nothing,
        )
    }

    /// What a key does where the user is asked whether a list shall be
    /// deleted.
    pub open spec fn delete_list_keys(self, key: KeyEvent) -> (AppView, CommandView) {
        let settled = (AppView { pending_delete: PendingDeleteView::Nothing, ..self }).go_back();
        match key.code {
            KeyCode::Char('y') | KeyCode::Char('Y') => (settled, self.lists.delete_request()),
            KeyCode::Char('n') | KeyCode::Char('N') | KeyCode::Esc => (
                settled,
                CommandView::Nothing,
            ),
            _ => (self, CommandView::Nothing),
        }
    }

    /// What a key does where the user is asked whether a database shall be
    /// deleted.
    pub open spec fn delete_db_keys(self, key: KeyEvent) -> (AppView, CommandView) {
        match key.code {
            KeyCode::Char('y') | KeyCode::Char('Y') => (
                AppView {
                    pending_delete: PendingDeleteView::Nothing,
                    current_screen: CurrentScreen::DBSelection,
                    ..self
                },
                self.delete_db_request(),
            ),
            KeyCode::Char('n') | KeyCode::Char('N') | KeyCode::Esc => (
                AppView {
                    pending_delete: PendingDeleteView::Nothing,
                    current_screen: CurrentScreen::DBSelection,
                    ..self
                },
                CommandView::Nothing,
            ),
            _ => (self, CommandView::Nothing),
        }
    }

    /// What comes of submitting the name typed for a list, given whether
    /// that name is blank. A blank name is not taken. A new list is asked
    /// of the store under that name; so is the renaming of the selected
    /// list, and where no list is selected to be renamed the entry screen
    /// closes with nothing done. The state changes only in that last case:
    /// the screen stays open until the store has answered.
    pub open spec fn list_submitted(self, is_blank: bool) -> (AppView, CommandView) {
        if is_blank {
            (self, CommandView::Nothing)
        } else if !self.input.is_modifying {
            (self, self.lists.create_request(self.input.line.text))
        } else if self.lists.selected_list() is Some {
            (self, self.lists.rename_request(self.input.line.text))
        } else {
            (self.leave_input(self.last_active_screen), CommandView::Nothing)
        }
    }

    /// What comes of submitting the name typed for an item, given whether
    /// that name is blank. A blank name is not taken, and without a
    /// selected list there is nothing to name. A new item is asked of the
    /// store under that name for the selected list; so is the renaming of
    /// the selected item, and where no item is selected to be renamed the
    /// entry screen closes with nothing done.
    pub open spec fn item_submitted(self, is_blank: bool) -> (AppView, CommandView) {
        match self.lists.selected_list() {
            Some(list) if !is_blank => if !self.input.is_modifying {
                (self, list.create_request(self.input.line.text))
            } else if list.selected_item() is Some {
                (self, list.rename_request(self.input.line.text))
            } else {
                (self.leave_input(CurrentScreen::ItemSelection), CommandView::Nothing)
            },
            _ => (self, CommandView::Nothing),
        }
    }

    /// What comes of submitting the name typed for a new database, given
    /// whether that name is blank: a database of that name is asked for
    /// unless the name is blank.
    pub open spec fn database_submitted(self, is_blank: bool) -> (AppView, CommandView) {
        if is_blank {
            (self, CommandView::Nothing)
        } else {
            (self, CommandView::CreateDatabase { name: self.input.line.text })
        }
    }

    /// What comes of submitting the new name typed for the highlighted
    /// database, given whether that name is blank. A blank name is not
    /// taken; otherwise the settings with the new name are to be written,
    /// and where no database is highlighted the entry screen closes with
    /// nothing done.
    pub open spec fn database_rename_submitted(self, is_blank: bool) -> (AppView, CommandView) {
        if is_blank {
            (self, CommandView::Nothing)
        } else if self.selected_db() is Some {
            (self, self.rename_db_request(self.input.line.text))
        } else {
            (self.leave_input(CurrentScreen::DBSelection), CommandView::Nothing)
        }
    }

    /// What a key does where a list is named or renamed.
    pub open spec fn list_input_keys(self, key: KeyEvent) -> (AppView, CommandView) {
        match key.code {
            KeyCode::Esc => (
                self.leave_input(CurrentScreen::ListSelection),
                CommandView::Nothing,
            ),
            KeyCode::Enter => self.list_submitted(blank(self.input.line.text)),
            _ => (self.typed(key), CommandView::Nothing),
        }
    }

    /// What a key does where an item is named or renamed.
    pub open spec fn item_input_keys(self, key: KeyEvent) -> (AppView, CommandView) {
        match key.code {
            KeyCode::Esc => (
                self.leave_input(CurrentScreen::ItemSelection),
                CommandView::Nothing,
            ),
            KeyCode::Enter => self.item_submitted(blank(self.input.line.text)),
            _ => (self.typed(key), CommandView::Nothing),
        }
    }

    /// What a key does where a database is named.
    pub open spec fn add_db_keys(self, key: KeyEvent) -> (AppView, CommandView) {
        match key.code {
            KeyCode::Esc => (self.leave_input(CurrentScreen::DBSelection), CommandView::Nothing),
            KeyCode::Enter => self.database_submitted(blank(self.input.line.text)),
            _ => (self.typed(key), CommandView::Nothing),
        }
    }

    /// What a key does where a database is renamed.
    pub open spec fn modify_db_keys(self, key: KeyEvent) -> (AppView, CommandView) {
        match key.code {
            KeyCode::Esc => (self.leave_input(CurrentScreen::DBSelection), CommandView::Nothing),
            KeyCode::Enter => self.database_rename_submitted(blank(self.input.line.text)),
            _ => (self.typed(key), CommandView::Nothing),
        }
    }

    /// What a key does: what it does on the active screen, and where that
    /// leads to another screen, the count and the recent keys are
    /// forgotten.
    pub open spec fn key_pressed(self, key: KeyEvent) -> (AppView, CommandView) {
        let (s, command) = self.on_active_screen(key);
        if s.current_screen != self.current_screen {
            (AppView { keys_buffer: Seq::empty(), ..s.without_count() }, command)
        } else {
            (s, command)
        }
    }

    /// What a key does on the active screen.
    pub open spec fn on_active_screen(self, key: KeyEvent) -> (AppView, CommandView) {
        match self.current_screen {
            CurrentScreen::AddList | CurrentScreen::ModifyList => self.list_input_keys(key),
            CurrentScreen::AddItem | CurrentScreen::ModifyItem => self.item_input_keys(key),
            CurrentScreen::DBSelection => self.db_keys(key),
            CurrentScreen::AddDB => self.add_db_keys(key),
            CurrentScreen::ModifyDB => self.modify_db_keys(key),
            CurrentScreen::ListSelection => self.list_keys(key),
            CurrentScreen::ItemSelection => self.item_keys(key),
            CurrentScreen::Help => self.help_keys(key),
            CurrentScreen::LeaderHelp => self.leader_keys(key),
            CurrentScreen::DeleteListConfirmation => self.delete_list_keys(key),
            CurrentScreen::DeleteDatabaseConfirmation => self.delete_db_keys(key),
        }
    }

    /// Whether the selected list is the one whose items `command` changes.
    pub open spec fn items_in_view(self, command: CommandView) -> bool {
        match self.lists.selected_list() {
            Some(list) => list.concerns(command),
            None => false,
        }
    }

    /// The state after `command` was carried out with `outcome`, and the
    /// work that follows from it.
    ///
    /// Work on lists or items that succeeded ends with the lists or items
    /// read from the store taken in; naming or renaming then also closes
    /// the entry screen and empties the entry field. Work that failed
    /// leaves everything as it is, so that the user may try again.
    pub open spec fn completed(self, command: CommandView, outcome: OutcomeView) -> (
        AppView,
        CommandView,
    ) {
        match command {
            CommandView::CreateList(_) | CommandView::RenameList { .. } => match outcome {
                OutcomeView::Lists(lists) => (
                    self.with_lists(self.lists.completed(command, lists)).leave_input(
                        self.last_active_screen,
                    ),
                    CommandView::Nothing,
                ),
                _ => (self, CommandView::Nothing),
            },
            CommandView::DeleteList { .. } | CommandView::MoveList { .. } => match outcome {
                OutcomeView::Lists(lists) => (
                    self.with_lists(self.lists.completed(command, lists)),
                    CommandView::Nothing,
                ),
                _ => (self, CommandView::Nothing),
            },
            CommandView::CreateItem(_) | CommandView::RenameItem { .. } => match outcome {
                OutcomeView::Items(items) if self.items_in_view(command) => (
                    self.with_lists(self.lists.completed_items(command, items)).leave_input(
                        CurrentScreen::ItemSelection,
                    ),
                    CommandView::Nothing,
                ),
                _ => (self, CommandView::Nothing),
            },
            CommandView::ToggleItem { .. } | CommandView::DeleteItem { .. } | CommandView::MoveItem {
                ..
            } => match outcome {
                OutcomeView::Items(items) if self.items_in_view(command) => (
                    self.with_lists(self.lists.completed_items(command, items)),
                    CommandView::Nothing,
                ),
                _ => (self, CommandView::Nothing),
            },
            CommandView::OpenDatabase { db, make_default } => {
                let s = match outcome {
                    OutcomeView::Lists(lists) => self.opened(db, lists),
                    _ => self,
                };
                if make_default {
                    (s, s.default_request())
                } else {
                    (s.go_back(), CommandView::Nothing)
                }
            },
            CommandView::CreateDatabase { .. } => match outcome {
                OutcomeView::Database(db) => (self, self.register_request(db, false)),
                _ => (self, CommandView::Nothing),
            },
            CommandView::SaveConfig { config, after } => match outcome {
                OutcomeView::Done => (self.saved(config, after), CommandView::Nothing),
                _ => (self, CommandView::Nothing),
            },
            CommandView::Nothing => (self, CommandView::Nothing),
        }
    }
}

impl EventHandler {
    /// The label under which a key is shown among the recent keys, and
    /// whether the key has a label of its own, which every labelled key has
    /// but the digits.
    pub fn format_keycode_for_buffer(key: KeyEvent) -> (shown: (String, bool))
        ensures
            shown.0@ == key.label(),
            shown.1 == key.is_named(),
    {
        if key.modifiers.control && key.code == KeyCode::Char('h') {
            return (String::from_str("Ctrl + h"), true);
        }
        match key.code {
            KeyCode::Char(c) => {
                if c == ' ' {
                    (char_label('\u{2423}'), true)
                } else {
                    (char_label(c), key.as_digit().is_none())
                }
            },
            KeyCode::Up => (char_label('\u{2191}'), true),
            KeyCode::Down => (char_label('\u{2193}'), true),
            KeyCode::Left => (char_label('\u{2190}'), true),
            KeyCode::Right => (char_label('\u{2192}'), true),
            KeyCode::Tab => (String::from_str("Tab"), true),
            KeyCode::BackTab => (String::from_str("Shift + Tab"), true),
            KeyCode::Enter => (String::from_str("Enter"), true),
            KeyCode::Esc => (String::from_str("Esc"), true),
            _ => (String::new(), false),
        }
    }

    /// Handles the keys that mean the same on every primary screen, and the
    /// sequence `g g`. Tells whether the key is used up, so that the screen
    /// has nothing left to do with it.
    pub fn matches_global_keys(app: &mut App, key: KeyEvent) -> (used: bool)
        requires
            old(app).wf(),
        ensures
            (final(app)@, used) == old(app)@.global_keys(key),
            final(app).wf(),
    {
        let primary = app.current_screen.is_main();
        if primary {
            let before = app.current_screen;
            if key.code == KeyCode::Tab {
                app.current_screen = app.current_screen.next();
            } else if key.code == KeyCode::BackTab {
                app.current_screen = app.current_screen.previous();
            }
            app.last_active_screen = app.current_screen;
            if app.current_screen == CurrentScreen::DBSelection && before
                != CurrentScreen::DBSelection {
                app.enter_change_db_screen();
            }
        }
        let awaiting = app.key_sequence == KeySequence::AwaitingSecondKey;
        app.key_sequence = KeySequence::Idle;
        if awaiting && key.code == KeyCode::Char('g') {
            let ghost before = app@.keys_buffer;
            app.keys_buffer.push((char_label('g'), false));
            assert(app@.keys_buffer =~= before.push((seq!['g'], false)));
            return false;
        }
        let (label, named) = EventHandler::format_keycode_for_buffer(key);
        app.add_key_to_buffer(label, !named);
        if key.code == KeyCode::Char('g') && app.current_screen == CurrentScreen::ItemSelection {
            app.key_sequence = KeySequence::AwaitingSecondKey;
            return false;
        }
        if key.code == KeyCode::Char('q') {
            app.exit = true;
            true
        } else if key.modifiers.control && key.code == KeyCode::Char('h') {
            app.current_screen = CurrentScreen::Help;
            true
        } else if key.code == KeyCode::Esc {
            if app.current_screen.is_main() {
                app.reset_number_modifier();
                true
            } else {
                false
            }
        } else if let Some(digit) = key.as_digit() {
            app.add_number_modifier(digit);
            true
        } else if key.code == KeyCode::Char(' ') {
            if app.number_modifier == 0 {
                app.leader_awaiting = true;
                app.current_screen = CurrentScreen::LeaderHelp;
            }
            true
        } else {
            (key.code == KeyCode::Tab || key.code == KeyCode::BackTab) && primary
        }
    }

    /// Moves the selection among the lists as a motion key asks, and uses
    /// the count up.
    fn list_motion(app: &mut App, direction: Direction)
        requires
            old(app).wf(),
        ensures
            final(app)@ == old(app)@.list_motion(direction),
            final(app).wf(),
    {
        if app.number_modifier != 0 {
            app.lists_component.scroll_by(app.number_modifier, direction);
        } else {
            match direction {
                Direction::Down => app.lists_component.select_next(),
                Direction::Up => app.lists_component.select_previous(),
            }
        }
        app.reset_number_modifier();
    }

    /// Moves the selection among the items of the selected list as a
    /// motion key asks, and uses the count up.
    fn item_motion(app: &mut App, direction: Direction)
        requires
            old(app).wf(),
        ensures
            final(app)@ == old(app)@.item_motion(direction),
            final(app).wf(),
    {
        let amount = app.number_modifier;
        if let Some(list) = app.lists_component.get_selected_list_mut() {
            if amount != 0 {
                list.item_state.scroll_by(amount, direction);
            } else {
                match direction {
                    Direction::Down => ItemsComponent::select_next_item(list),
                    Direction::Up => ItemsComponent::select_previous_item(list),
                }
            }
        }
        app.reset_number_modifier();
    }

    /// Moves the highlight among the databases as a motion key asks, and
    /// uses the count up.
    fn db_motion(app: &mut App, direction: Direction)
        requires
            old(app).wf(),
        ensures
            final(app)@ == old(app)@.db_motion(direction),
            final(app).wf(),
    {
        if app.number_modifier != 0 {
            app.scroll_db(app.number_modifier, direction);
        } else {
            match direction {
                Direction::Down => app.select_next_db(),
                Direction::Up => app.select_previous_db(),
            }
        }
        app.reset_number_modifier();
    }

    /// Handles a key on the list screen. Plain motion keys move the
    /// selection, motion keys with shift move the selected list itself.
    pub fn handle_list_selection_screen_key(app: &mut App, key: KeyEvent) -> (command: Command)
        requires
            old(app).wf(),
        ensures
            (final(app)@, command@) == old(app)@.list_keys(key),
            final(app).wf(),
    {
        if EventHandler::matches_global_keys(app, key) {
            return Command::Nothing;
        }
        if key.modifiers.shift {
            match key.code {
                KeyCode::Up | KeyCode::Char('K') => {
                    let command = app.lists_component.move_selected_list_by(
                        app.count(),
                        Direction::Up,
                    );
                    app.reset_number_modifier();
                    command
                },
                KeyCode::Down | KeyCode::Char('J') => {
                    let command = app.lists_component.move_selected_list_by(
                        app.count(),
                        Direction::Down,
                    );
                    app.reset_number_modifier();
                    command
                },
                _ => Command::Nothing,
            }
        } else {
            match key.code {
                KeyCode::Down | KeyCode::Char('j') => {
                    EventHandler::list_motion(app, Direction::Down);
                },
                KeyCode::Up | KeyCode::Char('k') => {
                    EventHandler::list_motion(app, Direction::Up);
                },
                KeyCode::Right | KeyCode::Char('l') => {
                    app.current_screen = CurrentScreen::ItemSelection;
                    proof {
                        app@.lists.lemma_selected_list_in_place();
                    }
                    if let Some(list) = app.lists_component.get_selected_list_mut() {
                        ItemsComponent::select_first_item(list);
                    }
                },
                KeyCode::Char('a') => {
                    app.enter_add_list_screen();
                },
                KeyCode::Char('m') => {
                    let target = match app.lists_component.get_selected_list() {
                        Some(list) => Some(list.list.clone()),
                        None => None,
                    };
                    if let Some(list) = target {
                        app.enter_modify_list_screen(&list);
                    }
                },
                KeyCode::Char('d') => {
                    let target = match app.lists_component.get_selected_list() {
                        Some(list) => Some(list.list.name.clone()),
                        None => None,
                    };
                    if let Some(name) = target {
                        app.pending_delete = PendingDelete::List(name);
                        app.current_screen = CurrentScreen::DeleteListConfirmation;
                    }
                },
                _ => {},
            }
            Command::Nothing
        }
    }

    /// Handles a key on the item screen. Plain motion keys move the
    /// selection, motion keys with shift move the selected item itself.
    pub fn handle_item_selection_screen_key(app: &mut App, key: KeyEvent) -> (command: Command)
        requires
            old(app).wf(),
        ensures
            (final(app)@, command@) == old(app)@.item_keys(key),
            final(app).wf(),
    {
        if EventHandler::matches_global_keys(app, key) {
            return Command::Nothing;
        }
        proof {
            app@.lists.lemma_selected_list_in_place();
        }
        if key.modifiers.shift {
            match key.code {
                KeyCode::Up | KeyCode::Char('K') => {
                    let amount = app.count();
                    let command = match app.lists_component.get_selected_list() {
                        Some(list) => ItemsComponent::move_selected_item_up_by(list, amount),
                        None => Command::Nothing,
                    };
                    app.reset_number_modifier();
                    command
                },
                KeyCode::Down | KeyCode::Char('J') => {
                    let amount = app.count();
                    let command = match app.lists_component.get_selected_list() {
                        Some(list) => ItemsComponent::move_selected_item_down_by(list, amount),
                        None => Command::Nothing,
                    };
                    app.reset_number_modifier();
                    command
                },
                KeyCode::Char('G') => {
                    if let Some(list) = app.lists_component.get_selected_list_mut() {
                        if list.item_state.selected().is_some() {
                            ItemsComponent::select_last(list);
                        }
                    }
                    Command::Nothing
                },
                _ => Command::Nothing,
            }
        } else {
            match key.code {
                KeyCode::Char('g') => {
                    if app.key_sequence == KeySequence::Idle {
                        if let Some(list) = app.lists_component.get_selected_list_mut() {
                            ItemsComponent::select_first(list);
                        }
                    }
                    Command::Nothing
                },
                KeyCode::Down | KeyCode::Char('j') => {
                    EventHandler::item_motion(app, Direction::Down);
                    Command::Nothing
                },
                KeyCode::Up | KeyCode::Char('k') => {
                    EventHandler::item_motion(app, Direction::Up);
                    Command::Nothing
                },
                KeyCode::Left | KeyCode::Char('h') => {
                    app.current_screen = CurrentScreen::ListSelection;
                    if let Some(list) = app.lists_component.get_selected_list_mut() {
                        ItemsComponent::remove_item_selection(list);
                    }
                    Command::Nothing
                },
                KeyCode::Char('a') => {
                    app.enter_add_item_screen();
                    Command::Nothing
                },
                KeyCode::Char('m') => {
                    let target = match app.lists_component.get_selected_list() {
                        Some(list) => match list.item_state.selected() {
                            Some(j) => if j < list.items.len() {
                                Some(list.items[j].item.clone())
                            } else {
                                None
                            },
                            None => None,
                        },
                        None => None,
                    };
                    if let Some(item) = target {
                        app.input_state = InputState::modifying(item.name, Some(item.id));
                        app.current_screen = CurrentScreen::ModifyItem;
                    }
                    Command::Nothing
                },
                KeyCode::Char('d') => match app.lists_component.get_selected_list() {
                    Some(list) => ItemsComponent::delete_selected_item(list),
                    None => Command::Nothing,
                },
                KeyCode::Enter => match app.lists_component.get_selected_list() {
                    Some(list) => ItemsComponent::toggle_item_done(list),
                    None => Command::Nothing,
                },
                KeyCode::Esc => {
                    app.current_screen = CurrentScreen::ItemSelection;
                    Command::Nothing
                },
                _ => Command::Nothing,
            }
        }
    }

    /// Handles a key on the database screen.
    pub fn handle_change_db_screen_key(app: &mut App, key: KeyEvent) -> (command: Command)
        requires
            old(app).wf(),
        ensures
            (final(app)@, command@) == old(app)@.db_keys(key),
            final(app).wf(),
    {
        if EventHandler::matches_global_keys(app, key) {
            return Command::Nothing;
        }
        match key.code {
            KeyCode::Esc => {
                app.exit_change_db_without_saving();
                Command::Nothing
            },
            KeyCode::Up | KeyCode::Char('k') => {
                EventHandler::db_motion(app, Direction::Up);
                Command::Nothing
            },
            KeyCode::Down | KeyCode::Char('j') => {
                EventHandler::db_motion(app, Direction::Down);
                Command::Nothing
            },
            KeyCode::Enter => {
                let command = app.switch_to_selected_db(false);
                if command.is_nothing() {
                    app.go_back();
                }
                command
            },
            KeyCode::Char('a') => {
                app.enter_add_db_screen();
                Command::Nothing
            },
            KeyCode::Char('s') => app.switch_to_selected_db(true),
            KeyCode::Char('m') => {
                app.enter_modify_db_screen();
                Command::Nothing
            },
            KeyCode::Char('d') => {
                if app.selected_db_index < app.config.dbs.len() {
                    let name = app.config.dbs[app.selected_db_index].name.clone();
                    app.pending_delete = PendingDelete::Database(name);
                    app.current_screen = CurrentScreen::DeleteDatabaseConfirmation;
                }
                Command::Nothing
            },
            _ => Command::Nothing,
        }
    }

    /// Handles a key on the help screen.
    pub fn handle_help_screen_key(app: &mut App, key: KeyEvent) -> (command: Command)
        requires
            old(app).wf(),
        ensures
            (final(app)@, command@) == old(app)@.help_keys(key),
            final(app).wf(),
    {
        if EventHandler::matches_global_keys(app, key) {
            return Command::Nothing;
        }
        match key.code {
            KeyCode::Esc | KeyCode::Char('q') => {
                app.go_back();
            },
            _ => {},
        }
        Command::Nothing
    }

    /// Handles a key in the leader menu.
    pub fn handle_leader_help_screen_key(app: &mut App, key: KeyEvent) -> (command: Command)
        requires
            old(app).wf(),
        ensures
            (final(app)@, command@) == old(app)@.leader_keys(key),
            final(app).wf(),
    {
        app.leader_awaiting = false;
        match key.code {
            KeyCode::Char('q') => {
                app.exit = true;
            },
            KeyCode::Char('1') => {
                app.current_screen = CurrentScreen::ListSelection;
            },
            KeyCode::Char('2') => {
                app.current_screen = CurrentScreen::ItemSelection;
            },
            KeyCode::Char('3') => {
                app.enter_change_db_screen();
            },
            KeyCode::Esc => {
                app.go_back();
                app.reset_key_buffer();
            },
            _ => {
                app.leader_awaiting = true;
            },
        }
        Command::Nothing
    }

    /// Handles a key where the user is asked whether a list shall be
    /// deleted: yes deletes, no and Esc do not, and either way the
    /// question is settled.
    pub fn handle_delete_list_confirmation_key(app: &mut App, key: KeyEvent) -> (command: Command)
        requires
            old(app).wf(),
        ensures
            (final(app)@, command@) == old(app)@.delete_list_keys(key),
            final(app).wf(),
    {
        match key.code {
            KeyCode::Char('y') | KeyCode::Char('Y') => {
                let command = app.lists_component.delete_selected_list();
                app.go_back();
                app.pending_delete = PendingDelete::Nothing;
                command
            },
            KeyCode::Char('n') | KeyCode::Char('N') | KeyCode::Esc => {
                app.go_back();
                app.pending_delete = PendingDelete::Nothing;
                Command::Nothing
            },
            _ => Command::Nothing,
        }
    }

    /// Handles a key where the user is asked whether a database shall be
    /// deleted.
    pub fn handle_delete_database_confirmation_key(app: &mut App, key: KeyEvent) -> (command:
        Command)
        requires
            old(app).wf(),
        ensures
            (final(app)@, command@) == old(app)@.delete_db_keys(key),
            final(app).wf(),
    {
        match key.code {
            KeyCode::Char('y') | KeyCode::Char('Y') => {
                let command = app.delete_selected_db();
                app.pending_delete = PendingDelete::Nothing;
                app.current_screen = CurrentScreen::DBSelection;
                command
            },
            KeyCode::Char('n') | KeyCode::Char('N') | KeyCode::Esc => {
                app.pending_delete = PendingDelete::Nothing;
                app.current_screen = CurrentScreen::DBSelection;
                Command::Nothing
            },
            _ => Command::Nothing,
        }
    }

    /// Lets an editing key edit the text that is being typed.
    fn type_key(app: &mut App, key: KeyEvent)
        requires
            old(app).wf(),
        ensures
            final(app)@ == old(app)@.typed(key),
            final(app).wf(),
    {
        match key.code {
            KeyCode::Backspace => app.input_state.remove_char_before_cursor(),
            KeyCode::Delete => app.input_state.delete_char_after_cursor(),
            KeyCode::Char(c) => app.input_state.add_char(c),
            KeyCode::Left => app.input_state.move_cursor_left(),
            KeyCode::Right => app.input_state.move_cursor_right(),
            _ => {},
        }
    }

    /// Submits the name typed for a list, `is_blank` saying whether it is
    /// blank: asks the store for a new list of that name or for the selected
    /// list to be renamed to it, and does nothing with a blank name.
    pub fn submit_list_name(app: &mut App, is_blank: bool) -> (command: Command)
        requires
            old(app).wf(),
        ensures
            (final(app)@, command@) == old(app)@.list_submitted(is_blank),
            final(app).wf(),
    {
        if is_blank {
            Command::Nothing
        } else if !app.input_state.is_modifying {
            app.lists_component.create_list(app.input_state.current_input.clone())
        } else {
            let command = app.lists_component.update_list(app.input_state.current_input.clone());
            if command.is_nothing() {
                app.go_back();
                app.input_state.clear();
            }
            command
        }
    }

    /// Submits the name typed for an item, `is_blank` saying whether it is
    /// blank: asks the store for a new item of that name in the selected
    /// list or for the selected item to be renamed to it, and does nothing
    /// with a blank name or without a selected list.
    pub fn submit_item_name(app: &mut App, is_blank: bool) -> (command: Command)
        requires
            old(app).wf(),
        ensures
            (final(app)@, command@) == old(app)@.item_submitted(is_blank),
            final(app).wf(),
    {
        if is_blank {
            return Command::Nothing;
        }
        let command = match app.lists_component.get_selected_list() {
            Some(list) => {
                if !app.input_state.is_modifying {
                    ItemsComponent::create_item(list, app.input_state.current_input.clone())
                } else {
                    ItemsComponent::update_item(list, app.input_state.current_input.clone())
                }
            },
            None => {
                return Command::Nothing;
            },
        };
        if command.is_nothing() {
            app.exit_add_item_without_saving();
        }
        command
    }

    /// Submits the name typed for a new database, `is_blank` saying whether
    /// it is blank: asks for a database of that name unless it is blank.
    pub fn submit_database_name(app: &mut App, is_blank: bool) -> (command: Command)
        requires
            old(app).wf(),
        ensures
            (final(app)@, command@) == old(app)@.database_submitted(is_blank),
            final(app).wf(),
    {
        if is_blank {
            Command::Nothing
        } else {
            Command::CreateDatabase { name: app.input_state.current_input.clone() }
        }
    }

    /// Submits the new name typed for the highlighted database, `is_blank`
    /// saying whether it is blank: asks for the settings with that name to
    /// be written unless it is blank.
    pub fn submit_database_rename(app: &mut App, is_blank: bool) -> (command: Command)
        requires
            old(app).wf(),
        ensures
            (final(app)@, command@) == old(app)@.database_rename_submitted(is_blank),
            final(app).wf(),
    {
        if is_blank {
            Command::Nothing
        } else {
            let command = app.modify_selected_db(app.input_state.current_input.clone());
            if command.is_nothing() {
                app.exit_modify_db_without_saving();
            }
            command
        }
    }

    /// Handles a key where a list is named or renamed. Enter submits a name
    /// that is not blank; Esc gives up.
    pub fn handle_add_or_modify_list_screen_key(app: &mut App, key: KeyEvent) -> (command: Command)
        requires
            old(app).wf(),
        ensures
            (final(app)@, command@) == old(app)@.list_input_keys(key),
            final(app).wf(),
    {
        match key.code {
            KeyCode::Esc => {
                app.exit_add_or_modify_list_without_saving();
                Command::Nothing
            },
            KeyCode::Enter => {
                let blank = is_blank(app.input_state.get_text());
                EventHandler::submit_list_name(app, blank)
            },
            _ => {
                EventHandler::type_key(app, key);
                Command::Nothing
            },
        }
    }

    /// Handles a key where an item is named or renamed. Enter submits a
    /// name that is not blank, provided a list is selected; Esc gives up.
    pub fn handle_add_or_modify_item_screen_key(app: &mut App, key: KeyEvent) -> (command: Command)
        requires
            old(app).wf(),
        ensures
            (final(app)@, command@) == old(app)@.item_input_keys(key),
            final(app).wf(),
    {
        match key.code {
            KeyCode::Esc => {
                app.exit_add_item_without_saving();
                Command::Nothing
            },
            KeyCode::Enter => {
                let blank = is_blank(app.input_state.get_text());
                EventHandler::submit_item_name(app, blank)
            },
            _ => {
                EventHandler::type_key(app, key);
                Command::Nothing
            },
        }
    }

    /// Handles a key where a database is named.
    pub fn handle_add_db_screen_key(app: &mut App, key: KeyEvent) -> (command: Command)
        requires
            old(app).wf(),
        ensures
            (final(app)@, command@) == old(app)@.add_db_keys(key),
            final(app).wf(),
    {
        match key.code {
            KeyCode::Esc => {
                app.exit_add_db_without_saving();
                Command::Nothing
            },
            KeyCode::Enter => {
                let blank = is_blank(app.input_state.get_text());
                EventHandler::submit_database_name(app, blank)
            },
            _ => {
                EventHandler::type_key(app, key);
                Command::Nothing
            },
        }
    }

    /// Handles a key where a database is renamed. Enter submits a name that
    /// is not blank; Esc gives up.
    pub fn handle_modify_db_screen_key(app: &mut App, key: KeyEvent) -> (command: Command)
        requires
            old(app).wf(),
        ensures
            (final(app)@, command@) == old(app)@.modify_db_keys(key),
            final(app).wf(),
    {
        match key.code {
            KeyCode::Esc => {
                app.exit_modify_db_without_saving();
                Command::Nothing
            },
            KeyCode::Enter => {
                let blank = is_blank(app.input_state.get_text());
                EventHandler::submit_database_rename(app, blank)
            },
            _ => {
                EventHandler::type_key(app, key);
                Command::Nothing
            },
        }
    }
}

impl App {
    /// Handles a key press: the active screen decides what the key means,
    /// and a key that leads to another screen also ends the count and
    /// empties the recent keys. What comes back is the work that the key
    /// asks of the outside.
    pub fn handle_key_event(&mut self, key: KeyEvent) -> (command: Command)
        requires
            old(self).wf(),
        ensures
            (final(self)@, command@) == old(self)@.key_pressed(key),
            final(self).wf(),
    {
        let before = self.current_screen;
        let command = self.dispatch(key);
        if self.current_screen != before {
            self.reset_number_modifier();
            self.reset_key_buffer();
        }
        command
    }

    /// Hands a key to the handler of the active screen.
    fn dispatch(&mut self, key: KeyEvent) -> (command: Command)
        requires
            old(self).wf(),
        ensures
            (final(self)@, command@) == old(self)@.on_active_screen(key),
            final(self).wf(),
    {
        match self.current_screen {
            CurrentScreen::AddList | CurrentScreen::ModifyList => {
                EventHandler::handle_add_or_modify_list_screen_key(self, key)
            },
            CurrentScreen::AddItem | CurrentScreen::ModifyItem => {
                EventHandler::handle_add_or_modify_item_screen_key(self, key)
            },
            CurrentScreen::DBSelection => EventHandler::handle_change_db_screen_key(self, key),
            CurrentScreen::AddDB => EventHandler::handle_add_db_screen_key(self, key),
            CurrentScreen::ModifyDB => EventHandler::handle_modify_db_screen_key(self, key),
            CurrentScreen::ListSelection => {
                EventHandler::handle_list_selection_screen_key(self, key)
            },
            CurrentScreen::ItemSelection => {
                EventHandler::handle_item_selection_screen_key(self, key)
            },
            CurrentScreen::Help => EventHandler::handle_help_screen_key(self, key),
            CurrentScreen::LeaderHelp => EventHandler::handle_leader_help_screen_key(self, key),
            CurrentScreen::DeleteListConfirmation => {
                EventHandler::handle_delete_list_confirmation_key(self, key)
            },
            CurrentScreen::DeleteDatabaseConfirmation => {
                EventHandler::handle_delete_database_confirmation_key(self, key)
            },
        }
    }
}

impl EventHandler {
    /// Takes in what came of work on lists or items.
    fn complete_store(app: &mut App, command: &Command, outcome: Outcome)
        requires
            old(app).wf(),
            outcome.wf(),
            old(app)@.lists.concerns(command@) || command@ is CreateItem || command@ is RenameItem
                || command@ is ToggleItem || command@ is DeleteItem || command@ is MoveItem,
        ensures
            final(app)@ == old(app)@.completed(command@, outcome@).0,
            old(app)@.completed(command@, outcome@).1 is Nothing,
            final(app).wf(),
    {
        match outcome {
            Outcome::Lists(lists) => {
                match command {
                    Command::CreateList(_) | Command::RenameList { .. } => {
                        app.lists_component.complete(command, lists);
                        app.go_back();
                        app.input_state.clear();
                    },
                    Command::DeleteList { .. } | Command::MoveList { .. } => {
                        app.lists_component.complete(command, lists);
                    },
                    _ => {},
                }
            },
            Outcome::Items(items) => {
                let in_view = match app.lists_component.get_selected_list() {
                    Some(list) => ItemsComponent::concerns(list, command),
                    None => false,
                };
                if in_view {
                    app.lists_component.complete_items(command, items);
                    match command {
                        Command::CreateItem(_) | Command::RenameItem { .. } => {
                            app.exit_add_item_without_saving();
                        },
                        _ => {},
                    }
                }
            },
            _ => {},
        }
    }

    /// Takes in what came of the work that a key asked for, and says what
    /// work follows from it. Work that failed changes nothing.
    pub fn complete(app: &mut App, command: Command, outcome: Outcome) -> (next: Command)
        requires
            old(app).wf(),
            outcome.wf(),
        ensures
            (final(app)@, next@) == old(app)@.completed(command@, outcome@),
            final(app).wf(),
    {
        match command {
            Command::Nothing => Command::Nothing,
            Command::OpenDatabase { db, make_default } => {
                match outcome {
                    Outcome::Lists(lists) => {
                        app.open_database(db, lists);
                    },
                    _ => {},
                }
                if make_default {
                    app.set_selected_db_as_default()
                } else {
                    app.go_back();
                    Command::Nothing
                }
            },
            Command::CreateDatabase { .. } => match outcome {
                Outcome::Database(db) => app.create_new_database(db, false),
                _ => Command::Nothing,
            },
            Command::SaveConfig { config, after } => {
                match outcome {
                    Outcome::Done => {
                        app.install_config(config, after);
                    },
                    _ => {},
                }
                Command::Nothing
            },
            work => {
                EventHandler::complete_store(app, &work, outcome);
                Command::Nothing
            },
        }
    }
}

/// Whether `key` is one of the keys that a count applies to on `screen`:
/// the keys that move the selection and, with shift, the keys that move
/// the selected entry.
pub open spec fn takes_count(screen: CurrentScreen, key: KeyEvent) -> bool {
    let arrow = key.code == KeyCode::Up || key.code == KeyCode::Down;
    let lower = key.code == KeyCode::Char('j') || key.code == KeyCode::Char('k');
    let upper = key.code == KeyCode::Char('J') || key.code == KeyCode::Char('K');
    match screen {
        CurrentScreen::ListSelection | CurrentScreen::ItemSelection => if key.modifiers.shift {
            arrow || upper
        } else {
            arrow || lower
        },
        CurrentScreen::DBSelection => arrow || lower,
        _ => false,
    }
}

/// A key that takes a count uses the count up: after it the count is
/// nought.
pub proof fn lemma_counted_key_resets_count(app: AppView, key: KeyEvent)
    requires
        takes_count(app.current_screen, key),
    ensures
        app.key_pressed(key).0.number_modifier == 0,
{
    let (s, used) = app.global_keys(key);
    assert(!used);
    if app.current_screen == CurrentScreen::ListSelection {
        assert(app.on_active_screen(key) == app.list_keys(key));
    } else if app.current_screen == CurrentScreen::ItemSelection {
        assert(app.on_active_screen(key) == app.item_keys(key));
    } else {
        assert(app.on_active_screen(key) == app.db_keys(key));
    }
}

/// A command that takes a count uses the count up: after the key the count
/// is nought, and it stays nought whatever comes of the work that the key
/// asked for, success or failure.
pub proof fn lemma_counted_command_resets_count(
    app: AppView,
    key: KeyEvent,
    outcome: OutcomeView,
)
    requires
        takes_count(app.current_screen, key),
    ensures
        ({
            let (pressed, command) = app.key_pressed(key);
            let (done, next) = pressed.completed(command, outcome);
            pressed.number_modifier == 0 && done.number_modifier == 0
        }),
{
    lemma_counted_key_resets_count(app, key);
    let (pressed, command) = app.key_pressed(key);
    lemma_completion_keeps_key_state(pressed, command, outcome);
}

/// No outcome of outside work touches the count, the recent keys or the
/// quit flag.
pub proof fn lemma_completion_keeps_key_state(
    app: AppView,
    command: CommandView,
    outcome: OutcomeView,
)
    ensures
        app.completed(command, outcome).0.number_modifier == app.number_modifier,
        app.completed(command, outcome).0.keys_buffer == app.keys_buffer,
        app.completed(command, outcome).0.key_sequence == app.key_sequence,
        app.completed(command, outcome).0.exit == app.exit,
{
}

/// Work that failed changes nothing: the screen, the lists, the settings,
/// the selections and what was typed are as they were. The one exception is
/// the opening of a database, after which the user is taken back or the
/// default is set whether or not the database could be opened.
pub proof fn lemma_failure_changes_nothing(app: AppView, command: CommandView)
    requires
        !(command is OpenDatabase),
    ensures
        app.completed(command, OutcomeView::Failed) == (app, CommandView::Nothing),
{
}

/// A key other than `g` cancels a sequence that has begun and is then
/// handled as if no sequence had begun.
pub proof fn lemma_other_key_cancels_sequence(app: AppView, key: KeyEvent)
    requires
        app.current_screen.is_primary(),
        app.key_sequence == KeySequence::AwaitingSecondKey,
        key.code != KeyCode::Char('g'),
    ensures
        app.key_pressed(key) == (AppView { key_sequence: KeySequence::Idle, ..app }).key_pressed(
            key,
        ),
        app.key_pressed(key).0.key_sequence == KeySequence::Idle,
{
    let idle = AppView { key_sequence: KeySequence::Idle, ..app };
    assert(app.global_keys(key) == idle.global_keys(key));
    assert(app.global_keys(key).0.key_sequence == KeySequence::Idle);
    assert(app.on_active_screen(key) == idle.on_active_screen(key));
}

/// On the item screen a first `g` only begins the sequence, and a second
/// `g` completes it: the first item of the selected list is selected, and
/// the sequence is over.
pub proof fn lemma_second_key_completes_sequence(app: AppView, key: KeyEvent)
    requires
        app.current_screen == CurrentScreen::ItemSelection,
        app.key_sequence == KeySequence::Idle,
        key.code == KeyCode::Char('g'),
        !key.modifiers.shift,
    ensures
        ({
            let (waiting, first_command) = app.key_pressed(key);
            let (after, second_command) = waiting.key_pressed(key);
            &&& waiting.key_sequence == KeySequence::AwaitingSecondKey
            &&& waiting.lists == app.lists
            &&& waiting.current_screen == CurrentScreen::ItemSelection
            &&& first_command is Nothing
            &&& second_command is Nothing
            &&& after.key_sequence == KeySequence::Idle
            &&& after.current_screen == CurrentScreen::ItemSelection
            &&& after.item_selection() == match app.item_selection() {
                Some(selection) => Some(selection.first()),
                None => None,
            }
        }),
{
    let (waiting, first_command) = app.key_pressed(key);
    assert(app.on_active_screen(key) == app.item_keys(key));
    assert(waiting.on_active_screen(key) == waiting.item_keys(key));
    if let Some(list) = app.lists.selected_list() {
        let i = app.lists.selection.selected->0 as int;
        assert(app.lists.lists.update(i, list.with_selection(list.selection.first()))[i]
            == list.with_selection(list.selection.first()));
    }
}

/// A name that is not blank, submitted on the screen for a new list, asks
/// the store once for a list of exactly that name and changes nothing until
/// the store has answered. Once the lists read back are taken in, they are
/// the lists shown, the entry field is empty, and the screen is the primary
/// screen that was active last.
pub proof fn lemma_submitted_list_is_created(app: AppView, key: KeyEvent, lists: Seq<UIListView>)
    requires
        app.current_screen == CurrentScreen::AddList,
        !app.input.is_modifying,
        !blank(app.input.line.text),
        key.code == KeyCode::Enter,
    ensures
        ({
            let (pressed, command) = app.key_pressed(key);
            let (done, next) = pressed.completed(command, OutcomeView::Lists(lists));
            &&& pressed == app
            &&& command == CommandView::CreateList(app.input.line.text)
            &&& next is Nothing
            &&& done.lists.lists == lists
            &&& done.input.line == CursorText::empty()
            &&& done.current_screen == app.last_active_screen
        }),
{
}

} // verus!
