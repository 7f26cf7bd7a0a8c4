//! Everything the interface remembers between two key presses.

use crate::db::config::{Config, ConfigView, DBConfig, DBConfigView};
use crate::db::models::{lists_view, TodoList, TodoListView, UIList, UIListView};
use crate::db::ops::{AfterSave, Command, CommandView};
use crate::ui::components::input_states::{InputState, InputView};
use crate::ui::components::lists::{ListsComponent, ListsView};
use crate::ui::cursor::{CursorState, CursorText};
use crate::ui::selection::Direction;
use crate::ui::theme::{Theme, ThemeView};
use vstd::prelude::*;
use vstd::string::*;

verus! {

/// The screens of the interface. Exactly one is active at a time.
#[derive(Debug, Clone, Copy, PartialEq, Eq, Structural)]
pub enum CurrentScreen {
    /// Choosing a database.
    DBSelection,
    /// Choosing a list.
    ListSelection,
    /// Choosing an item of the selected list.
    ItemSelection,
    /// Naming a new list.
    AddList,
    /// Renaming a list.
    ModifyList,
    /// Naming a new item.
    AddItem,
    /// Renaming an item.
    ModifyItem,
    /// Naming a new database.
    AddDB,
    /// Renaming a database.
    ModifyDB,
    /// The help.
    Help,
    /// The menu that the leader key opens.
    LeaderHelp,
    /// Asking whether a list shall really be deleted.
    DeleteListConfirmation,
    /// Asking whether a database shall really be deleted.
    DeleteDatabaseConfirmation,
}

/// Where a sequence of two keys stands.
#[derive(Debug, Clone, Copy, PartialEq, Eq, Structural)]
pub enum KeySequence {
    /// No sequence has begun.
    Idle,
    /// The first key was pressed; the next key completes the sequence or
    /// cancels it.
    AwaitingSecondKey,
}

/// What awaits the user's confirmation before it is deleted.
#[derive(Debug)]
pub enum PendingDelete {
    /// Nothing.
    Nothing,
    /// The list of this name.
    List(String),
    /// The database of this name.
    Database(String),
}

/// A [`PendingDelete`] as a mathematical value.
pub enum PendingDeleteView {
    Nothing,
    List(Seq<char>),
    Database(Seq<char>),
}

impl View for PendingDelete {
    type V = PendingDeleteView;

    open spec fn view(&self) -> PendingDeleteView {
        match self {
            PendingDelete::Nothing => PendingDeleteView::Nothing,
            PendingDelete::List(name) => PendingDeleteView::List(name@),
            PendingDelete::Database(name) => PendingDeleteView::Database(name@),
        }
    }
}

impl CurrentScreen {
    /// Whether the screen is one of the three between which the user moves
    /// freely: the lists, the items, the databases.
    pub open spec fn is_primary(self) -> bool {
        self == CurrentScreen::ListSelection || self == CurrentScreen::ItemSelection || self
            == CurrentScreen::DBSelection
    }

    /// The screen after this one in the ring of the primary screens: lists,
    /// items, databases, and lists again.
    pub open spec fn next_primary(self) -> CurrentScreen {
        match self {
            CurrentScreen::ListSelection => CurrentScreen::ItemSelection,
            CurrentScreen::ItemSelection => CurrentScreen::DBSelection,
            _ => CurrentScreen::ListSelection,
        }
    }

    /// The screen before this one in the ring of the primary screens.
    pub open spec fn previous_primary(self) -> CurrentScreen {
        match self {
            CurrentScreen::ListSelection => CurrentScreen::DBSelection,
            CurrentScreen::DBSelection => CurrentScreen::ItemSelection,
            _ => CurrentScreen::ListSelection,
        }
    }

    /// Whether the screen is one of the three primary screens.
    pub fn is_main(self) -> (primary: bool)
        ensures
            primary == self.is_primary(),
    {
        match self {
            CurrentScreen::ListSelection => true,
            CurrentScreen::ItemSelection => true,
            CurrentScreen::DBSelection => true,
            _ => false,
        }
    }

    /// The screen after this one in the ring of the primary screens.
    pub fn next(self) -> (screen: CurrentScreen)
        ensures
            screen == self.next_primary(),
            screen.is_primary(),
    {
        match self {
            CurrentScreen::ListSelection => CurrentScreen::ItemSelection,
            CurrentScreen::ItemSelection => CurrentScreen::DBSelection,
            _ => CurrentScreen::ListSelection,
        }
    }

    /// The screen before this one in the ring of the primary screens.
    pub fn previous(self) -> (screen: CurrentScreen)
        ensures
            screen == self.previous_primary(),
            screen.is_primary(),
    {
        match self {
            CurrentScreen::ListSelection => CurrentScreen::DBSelection,
            CurrentScreen::DBSelection => CurrentScreen::ItemSelection,
            _ => CurrentScreen::ListSelection,
        }
    }
}

/// The state of the interface.
#[derive(Debug)]
pub struct App {
    /// The known databases.
    pub config: Config,
    /// The database that is open.
    pub current_db_config: DBConfig,
    /// The active screen.
    pub current_screen: CurrentScreen,
    /// The primary screen that was active last, to which the other screens
    /// return.
    pub last_active_screen: CurrentScreen,
    /// The lists of the open database.
    pub lists_component: ListsComponent,
    /// What the user is typing.
    pub input_state: InputState,
    /// Which database is highlighted on the database screen.
    pub selected_db_index: usize,
    /// Whether the user asked to leave.
    pub exit: bool,
    /// The colours.
    pub theme: Theme,
    /// What awaits confirmation before it is deleted.
    pub pending_delete: PendingDelete,
    /// Whether the leader menu is open and waits for its key.
    pub leader_awaiting: bool,
    /// The count typed before a command, as in `3k` or `15j`.
    pub number_modifier: usize,
    /// The keys pressed last, each with its label and whether it is a digit.
    pub keys_buffer: Vec<(String, bool)>,
    /// Where the two-key sequence `g g` stands.
    pub key_sequence: KeySequence,
}

/// An [`App`] as a mathematical value.
pub struct AppView {
    pub config: ConfigView,
    pub current_db_config: DBConfigView,
    pub current_screen: CurrentScreen,
    pub last_active_screen: CurrentScreen,
    pub lists: ListsView,
    pub input: InputView,
    pub selected_db_index: usize,
    pub exit: bool,
    pub theme: ThemeView,
    pub pending_delete: PendingDeleteView,
    pub leader_awaiting: bool,
    pub number_modifier: usize,
    pub keys_buffer: Seq<(Seq<char>, bool)>,
    pub key_sequence: KeySequence,
}

/// The labels and digit marks of a key buffer.
pub open spec fn keys_view(keys: Seq<(String, bool)>) -> Seq<(Seq<char>, bool)> {
    keys.map_values(|k: (String, bool)| (k.0@, k.1))
}

impl View for App {
    type V = AppView;

    open spec fn view(&self) -> AppView {
        AppView {
            config: self.config@,
            current_db_config: self.current_db_config@,
            current_screen: self.current_screen,
            last_active_screen: self.last_active_screen,
            lists: self.lists_component@,
            input: self.input_state@,
            selected_db_index: self.selected_db_index,
            exit: self.exit,
            theme: self.theme@,
            pending_delete: self.pending_delete@,
            leader_awaiting: self.leader_awaiting,
            number_modifier: self.number_modifier,
            keys_buffer: keys_view(self.keys_buffer@),
            key_sequence: self.key_sequence,
        }
    }
}

/// Whether a key label is one of the four keys that a count may precede
/// and that may be repeated: `k`, `j`, `K`, `J`.
pub open spec fn is_motion_label(label: Seq<char>) -> bool {
    label.len() == 1 && (label[0] == 'k' || label[0] == 'j' || label[0] == 'K' || label[0] == 'J')
}

/// The count after one more digit was typed: ten times what was typed
/// before, plus the digit, but never more than `limit`, the size of the
/// collection that the count will be used on.
pub open spec fn accumulate(modifier: usize, digit: usize, limit: usize) -> usize {
    if modifier * 10 + digit <= limit {
        (modifier * 10 + digit) as usize
    } else {
        limit
    }
}

/// However many digits are typed, the count stays within the collection
/// that it will be used on.
pub proof fn lemma_count_stays_within_collection(modifier: usize, digit: usize, limit: usize)
    ensures
        accumulate(modifier, digit, limit) <= limit,
        modifier * 10 + digit <= limit ==> accumulate(modifier, digit, limit) == modifier * 10
            + digit,
{
}

impl AppView {
    /// The selections fit their collections, the cursor stands within the
    /// typed text, the screen to return to is a primary one, the highlighted
    /// database exists, and a confirmation screen knows what it asks about.
    pub open spec fn wf(self) -> bool {
        &&& self.lists.wf()
        &&& self.input.wf()
        &&& self.last_active_screen.is_primary()
        &&& (self.selected_db_index < self.config.dbs.len() || self.selected_db_index == 0)
        &&& (self.current_screen == CurrentScreen::DeleteListConfirmation
            ==> self.pending_delete is List)
        &&& (self.current_screen == CurrentScreen::DeleteDatabaseConfirmation
            ==> self.pending_delete is Database)
    }

    /// The state at start: the list screen, nothing typed, nothing pending,
    /// no list selected, and the open database highlighted among the known
    /// ones.
    pub open spec fn initial(
        config: ConfigView,
        current: DBConfigView,
        lists: Seq<UIListView>,
    ) -> AppView {
        AppView {
            config,
            current_db_config: current,
            current_screen: CurrentScreen::ListSelection,
            last_active_screen: CurrentScreen::ListSelection,
            lists: ListsView::empty().loaded(lists),
            input: InputView::empty(),
            selected_db_index: match config.position(current.name) {
                Some(i) => i,
                None => 0,
            },
            exit: false,
            theme: match config.theme {
                Some(theme) => theme,
                None => ThemeView::standard(),
            },
            pending_delete: PendingDeleteView::Nothing,
            leader_awaiting: false,
            number_modifier: 0,
            keys_buffer: Seq::empty(),
            key_sequence: KeySequence::Idle,
        }
    }

    /// Back on the primary screen that was active last.
    pub open spec fn go_back(self) -> AppView {
        AppView { current_screen: self.last_active_screen, ..self }
    }

    /// On another screen.
    pub open spec fn on_screen(self, screen: CurrentScreen) -> AppView {
        AppView { current_screen: screen, ..self }
    }

    /// With another content of the entry field.
    pub open spec fn with_input(self, input: InputView) -> AppView {
        AppView { input, ..self }
    }

    /// With another state of the lists.
    pub open spec fn with_lists(self, lists: ListsView) -> AppView {
        AppView { lists, ..self }
    }

    /// With the count forgotten.
    pub open spec fn without_count(self) -> AppView {
        AppView { number_modifier: 0, ..self }
    }

    /// The key buffer after a key with this label was pressed. A key that
    /// follows a digit, and a key that is none of the repeatable ones,
    /// starts the buffer anew.
    pub open spec fn with_key(self, label: Seq<char>, is_digit: bool) -> AppView {
        let kept = if self.keys_buffer.len() > 0 && (self.keys_buffer.last().1 || !is_motion_label(
            label,
        )) {
            Seq::empty()
        } else {
            self.keys_buffer
        };
        AppView { keys_buffer: kept.push((label, is_digit)), ..self }
    }

    /// The labels of the keys to show: those in the buffer while the last
    /// of them is a digit, none otherwise.
    pub open spec fn recent_keys(self) -> Seq<Seq<char>> {
        if self.keys_buffer.len() > 0 && !self.keys_buffer.last().1 {
            Seq::empty()
        } else {
            self.keys_buffer.map_values(|k: (Seq<char>, bool)| k.0)
        }
    }

    /// The number of entries in the collection that the primary screen
    /// active last works on: the lists, the items of the selected list, or
    /// the databases.
    pub open spec fn active_len(self) -> usize {
        match self.last_active_screen {
            CurrentScreen::ItemSelection => match self.lists.selected_list() {
                Some(list) => list.items.len() as usize,
                None => 0,
            },
            CurrentScreen::DBSelection => self.config.dbs.len() as usize,
            _ => self.lists.lists.len() as usize,
        }
    }

    /// With one more digit typed into the count.
    pub open spec fn with_digit(self, digit: usize) -> AppView {
        AppView {
            number_modifier: accumulate(self.number_modifier, digit, self.active_len()),
            ..self
        }
    }

    /// How often the next command is to be done: as often as the count
    /// says, or once where no count was typed.
    pub open spec fn count(self) -> usize {
        if self.number_modifier == 0 {
            1
        } else {
            self.number_modifier
        }
    }

    /// The name of the highlighted database, if there is one.
    pub open spec fn selected_db(self) -> Option<DBConfigView> {
        if self.selected_db_index < self.config.dbs.len() {
            Some(self.config.dbs[self.selected_db_index as int])
        } else {
            None
        }
    }

    /// On the screen for naming a new list, with an empty entry field.
    pub open spec fn enter_add_list_screen(self) -> AppView {
        AppView { input: InputView::empty(), current_screen: CurrentScreen::AddList, ..self }
    }

    /// On the screen for renaming `list`, with its name in the entry field.
    pub open spec fn enter_modify_list_screen(self, list: TodoListView)
        -> AppView {
        AppView {
            input: InputView::modifying(list.name, Some(list.id)),
            current_screen: CurrentScreen::ModifyList,
            ..self
        }
    }

    /// On the screen for naming a new item, provided that a list is
    /// selected to take it; unchanged otherwise.
    pub open spec fn enter_add_item_screen(self) -> AppView {
        if self.lists.selection.selected is Some {
            AppView { input: InputView::empty(), current_screen: CurrentScreen::AddItem, ..self }
        } else {
            self
        }
    }

    /// On the screen for renaming the selected item of `list`, with its
    /// name in the entry field, provided that a list is selected and `list`
    /// has a selected item; unchanged otherwise.
    pub open spec fn enter_modify_item_screen(self, list: UIListView) -> AppView {
        match list.selected_item() {
            Some(item) if self.lists.selection.selected is Some => AppView {
                input: InputView::modifying(item.name, Some(item.id)),
                current_screen: CurrentScreen::ModifyItem,
                ..self
            },
            _ => self,
        }
    }

    /// Back on `screen` with the entry field emptied.
    pub open spec fn leave_input(self, screen: CurrentScreen) -> AppView {
        AppView {
            current_screen: screen,
            input: self.input.with_line(CursorText::empty()),
            ..self
        }
    }

    /// On the database screen, with the open database highlighted.
    pub open spec fn enter_change_db_screen(self) -> AppView {
        AppView {
            selected_db_index: match self.config.position(self.current_db_config.name) {
                Some(i) => i,
                None => 0,
            },
            current_screen: CurrentScreen::DBSelection,
            ..self
        }
    }

    /// On the screen for naming a new database, with an empty entry field.
    pub open spec fn enter_add_db_screen(self) -> AppView {
        AppView { input: InputView::empty(), current_screen: CurrentScreen::AddDB, ..self }
    }

    /// On the screen for renaming the highlighted database, with its name
    /// in the entry field; unchanged where no database is highlighted.
    pub open spec fn enter_modify_db_screen(self) -> AppView {
        match self.selected_db() {
            Some(db) => AppView {
                input: InputView::modifying(db.name, None),
                current_screen: CurrentScreen::ModifyDB,
                ..self
            },
            None => self,
        }
    }

    /// With the database before the highlighted one highlighted, wrapping
    /// around at the start; unchanged where there are no databases.
    pub open spec fn select_previous_db(self) -> AppView {
        if self.config.dbs.len() == 0 {
            self
        } else if self.selected_db_index == 0 {
            AppView { selected_db_index: (self.config.dbs.len() - 1) as usize, ..self }
        } else {
            AppView { selected_db_index: (self.selected_db_index - 1) as usize, ..self }
        }
    }

    /// With the database after the highlighted one highlighted, wrapping
    /// around at the end; unchanged where there are no databases.
    pub open spec fn select_next_db(self) -> AppView {
        if self.config.dbs.len() == 0 {
            self
        } else {
            AppView {
                selected_db_index: ((self.selected_db_index + 1) % (
                self.config.dbs.len() as int)) as usize,
                ..self
            }
        }
    }

    /// With the highlight moved by `amount` databases in `direction`,
    /// stopping at the edge; unchanged where there are no databases.
    pub open spec fn scroll_db(self, amount: usize, direction: Direction)
        -> AppView {
        if self.config.dbs.len() == 0 {
            self
        } else {
            let last = self.config.dbs.len() - 1;
            let to: int = match direction {
                Direction::Down => if self.selected_db_index + amount
                    >= last {
                    last
                } else {
                    self.selected_db_index + amount
                },
                Direction::Up => if self.selected_db_index - amount <= 0 {
                    0
                } else {
                    self.selected_db_index - amount
                },
            };
            AppView { selected_db_index: to as usize, ..self }
        }
    }

    /// With other settings.
    pub open spec fn with_config(self, config: ConfigView) -> AppView {
        AppView { config, ..self }
    }

    /// What is asked of the outside to open the highlighted database;
    /// nothing where no database is highlighted.
    pub open spec fn switch_request(self, make_default: bool) -> CommandView {
        match self.selected_db() {
            Some(db) => CommandView::OpenDatabase { db, make_default },
            None => CommandView::Nothing,
        }
    }

    /// The state after the database `db` was opened and `lists` were read
    /// from it: that database is the open one, its lists are shown with the
    /// first of them selected, and the list screen is active.
    pub open spec fn opened(self, db: DBConfigView, lists: Seq<UIListView>) -> AppView {
        let loaded = ListsView::empty().loaded(lists);
        AppView {
            current_db_config: db,
            lists: loaded.with_selection(loaded.selection.first()),
            current_screen: CurrentScreen::ListSelection,
            ..self
        }
    }

    /// What is asked of the outside to make the highlighted database the
    /// default one: to write the settings that say so. Nothing where no
    /// database is highlighted.
    pub open spec fn default_request(self) -> CommandView {
        match self.selected_db() {
            Some(_) => CommandView::SaveConfig {
                config: self.config.with_default_at(self.selected_db_index as int),
                after: AfterSave::Keep,
            },
            None => CommandView::Nothing,
        }
    }

    /// What is asked of the outside to take a database that was created
    /// into the settings: to write the settings with that database at the
    /// end.
    pub open spec fn register_request(self, db: DBConfigView, set_as_default: bool)
        -> CommandView {
        CommandView::SaveConfig {
            config: self.config.with_added(db, set_as_default),
            after: AfterSave::Reveal,
        }
    }

    /// What is asked of the outside to forget the highlighted database: to
    /// write the settings without it. Nothing where no database is
    /// highlighted.
    pub open spec fn delete_db_request(self) -> CommandView {
        match self.selected_db() {
            Some(_) => CommandView::SaveConfig {
                config: self.config.without(self.selected_db_index as int),
                after: AfterSave::Resync,
            },
            None => CommandView::Nothing,
        }
    }

    /// What is asked of the outside to rename the highlighted database: to
    /// write the settings with the new name. Nothing where no database is
    /// highlighted.
    pub open spec fn rename_db_request(self, name: Seq<char>) -> CommandView {
        match self.selected_db() {
            Some(_) => CommandView::SaveConfig {
                config: self.config.renamed(self.selected_db_index as int, name),
                after: AfterSave::Close,
            },
            None => CommandView::Nothing,
        }
    }

    /// The state after the settings `config` were written: they are the
    /// settings now. The highlight stays, goes to the database added last,
    /// or goes to the open database, as `after` says, and never points
    /// beyond the databases there are; where `after` says so the entry
    /// screen is closed and what was typed is dropped.
    pub open spec fn saved(self, config: ConfigView, after: AfterSave) -> AppView {
        let index: usize = match after {
            AfterSave::Reveal => if config.dbs.len() > 0 {
                (config.dbs.len() - 1) as usize
            } else {
                0
            },
            AfterSave::Resync => match config.position(self.current_db_config.name) {
                Some(i) => i,
                None => 0,
            },
            _ => if self.selected_db_index < config.dbs.len() {
                self.selected_db_index
            } else {
                0
            },
        };
        let installed = AppView { config, selected_db_index: index, ..self };
        if after == AfterSave::Reveal || after == AfterSave::Close {
            installed.leave_input(CurrentScreen::DBSelection)
        } else {
            installed
        }
    }
}

impl App {
    /// The selections fit their collections, the cursor stands within the
    /// typed text, the screen to return to is a primary one, the highlighted
    /// database exists, and a confirmation screen knows what it asks about.
    pub open spec fn wf(&self) -> bool {
        self@.wf()
    }

    /// Whether the state is sound, which every state is that came about by
    /// the functions of this library.
    pub fn is_valid(&self) -> (valid: bool)
        ensures
            valid == self.wf(),
    {
        let pending_fits = match self.current_screen {
            CurrentScreen::DeleteListConfirmation => match self.pending_delete {
                PendingDelete::List(_) => true,
                _ => false,
            },
            CurrentScreen::DeleteDatabaseConfirmation => match self.pending_delete {
                PendingDelete::Database(_) => true,
                _ => false,
            },
            _ => true,
        };
        self.lists_component.is_valid() && self.input_state.cursor_pos
            <= self.input_state.current_input.as_str().unicode_len()
            && self.last_active_screen.is_main() && (self.selected_db_index < self.config.dbs.len()
            || self.selected_db_index == 0) && pending_fits
    }

    /// The state at start, from the settings, the database that was opened
    /// and the lists read from it.
    pub fn new(config: Config, default_db_config: DBConfig, lists: Vec<UIList>) -> (app: App)
        requires
            forall|i: int| 0 <= i < lists.len() ==> (#[trigger] lists[i]).wf(),
        ensures
            app@ == AppView::initial(config@, default_db_config@, lists_view(lists@)),
            app.wf(),
    {
        let theme = match &config.theme {
            Some(theme) => theme.clone(),
            None => Theme::default(),
        };
        let selected_db_index = match config.position(&default_db_config.name) {
            Some(i) => i,
            None => 0,
        };
        let mut lists_component = ListsComponent::new();
        lists_component.load_lists(lists);
        let app = App {
            config,
            current_db_config: default_db_config,
            current_screen: CurrentScreen::ListSelection,
            last_active_screen: CurrentScreen::ListSelection,
            lists_component,
            input_state: InputState::new(),
            selected_db_index,
            exit: false,
            theme,
            pending_delete: PendingDelete::Nothing,
            leader_awaiting: false,
            number_modifier: 0,
            keys_buffer: Vec::new(),
            key_sequence: KeySequence::Idle,
        };
        assert(app@.keys_buffer =~= Seq::empty());
        app
    }

    /// Whether `label` is one of `k`, `j`, `K`, `J`.
    fn is_motion_key(label: &str) -> (motion: bool)
        ensures
            motion == is_motion_label(label@),
    {
        if label.unicode_len() == 1 {
            let c = label.get_char(0);
            c == 'k' || c == 'j' || c == 'K' || c == 'J'
        } else {
            false
        }
    }

    /// Records a key press in the buffer of recent keys. A key that follows
    /// a digit, and a key that is none of `k`, `j`, `K`, `J`, starts the
    /// buffer anew.
    pub fn add_key_to_buffer(&mut self, key: String, is_digit: bool)
        ensures
            final(self)@ == old(self)@.with_key(key@, is_digit),
            final(self).wf() == old(self).wf(),
    {
        let len = self.keys_buffer.len();
        if len > 0 {
            let last_is_digit = self.keys_buffer[len - 1].1;
            assert(keys_view(self.keys_buffer@).last().1 == last_is_digit);
            if last_is_digit || !App::is_motion_key(key.as_str()) {
                self.keys_buffer = Vec::new();
            }
        }
        let ghost kept = keys_view(self.keys_buffer@);
        self.keys_buffer.push((key, is_digit));
        assert(keys_view(self.keys_buffer@) =~= kept.push((key@, is_digit)));
        assert(kept =~= if old(self)@.keys_buffer.len() > 0 && (old(self)@.keys_buffer.last().1
            || !is_motion_label(key@)) {
            Seq::empty()
        } else {
            old(self)@.keys_buffer
        });
    }

    /// Empties the buffer of recent keys.
    pub fn reset_key_buffer(&mut self)
        ensures
            final(self)@ == (AppView { keys_buffer: Seq::empty(), ..old(self)@ }),
            final(self).wf() == old(self).wf(),
    {
        self.keys_buffer = Vec::new();
        assert(keys_view(self.keys_buffer@) =~= Seq::empty());
    }

    /// The labels of the recent keys to show: those in the buffer while
    /// the last of them is a digit, none otherwise.
    pub fn recent_keys(&self) -> (labels: Vec<String>)
        ensures
            labels@.map_values(|l: String| l@) == self@.recent_keys(),
    {
        let len = self.keys_buffer.len();
        let mut labels: Vec<String> = Vec::new();
        if len > 0 {
            assert(keys_view(self.keys_buffer@).last().1 == self.keys_buffer[len - 1].1);
            if !self.keys_buffer[len - 1].1 {
                assert(labels@.map_values(|l: String| l@) =~= Seq::empty());
                return labels;
            }
        }
        let mut i: usize = 0;
        while i < len
            invariant
                len == self.keys_buffer.len(),
                i <= len,
                labels.len() == i,
                forall|j: int| 0 <= j < i ==> labels[j]@ == self.keys_buffer[j].0@,
            decreases len - i,
        {
            labels.push(self.keys_buffer[i].0.clone());
            i += 1;
        }
        assert(labels@.map_values(|l: String| l@) =~= keys_view(self.keys_buffer@).map_values(
            |k: (Seq<char>, bool)| k.0,
        ));
        labels
    }

    /// Forgets the count.
    pub fn reset_number_modifier(&mut self)
        ensures
            final(self)@ == old(self)@.without_count(),
            final(self).wf() == old(self).wf(),
    {
        self.number_modifier = 0;
    }

    /// The number of entries in the collection that the primary screen
    /// active last works on.
    pub fn active_len(&self) -> (len: usize)
        ensures
            len == self@.active_len(),
    {
        match self.last_active_screen {
            CurrentScreen::ItemSelection => match self.lists_component.get_selected_list() {
                Some(list) => list.items.len(),
                None => 0,
            },
            CurrentScreen::DBSelection => self.config.dbs.len(),
            _ => self.lists_component.lists.len(),
        }
    }

    /// Takes one more digit into the count. The count never exceeds the
    /// number of entries in the collection it will be used on.
    pub fn add_number_modifier(&mut self, digit: usize)
        ensures
            final(self)@ == old(self)@.with_digit(digit),
            final(self).number_modifier <= old(self)@.active_len(),
            final(self).number_modifier == old(self).number_modifier * 10 + digit
                || final(self).number_modifier == old(self)@.active_len(),
            final(self).wf() == old(self).wf(),
    {
        let limit = self.active_len();
        let typed = match self.number_modifier.checked_mul(10) {
            Some(tens) => tens.checked_add(digit),
            None => None,
        };
        self.number_modifier = match typed {
            Some(count) => if count <= limit {
                count
            } else {
                limit
            },
            None => limit,
        };
    }

    /// How often the next command is to be done.
    pub fn count(&self) -> (count: usize)
        ensures
            count == self@.count(),
    {
        if self.number_modifier == 0 {
            1
        } else {
            self.number_modifier
        }
    }

    /// Returns to the primary screen that was active last.
    pub fn go_back(&mut self)
        requires
            old(self).wf(),
        ensures
            final(self)@ == old(self)@.go_back(),
            final(self).wf(),
    {
        self.current_screen = self.last_active_screen;
    }

    /// Opens the screen for naming a new list.
    pub fn enter_add_list_screen(&mut self)
        requires
            old(self).wf(),
        ensures
            final(self)@ == old(self)@.enter_add_list_screen(),
            final(self).wf(),
    {
        self.input_state = InputState::new();
        self.current_screen = CurrentScreen::AddList;
    }

    /// Opens the screen for renaming `selected_list`.
    pub fn enter_modify_list_screen(&mut self, selected_list: &TodoList)
        requires
            old(self).wf(),
        ensures
            final(self)@ == old(self)@.enter_modify_list_screen(selected_list@),
            final(self).wf(),
    {
        self.input_state = InputState::modifying(
            selected_list.name.clone(),
            Some(selected_list.id),
        );
        self.current_screen = CurrentScreen::ModifyList;
    }

    /// Opens the screen for naming a new item, provided that a list is
    /// selected.
    pub fn enter_add_item_screen(&mut self)
        requires
            old(self).wf(),
        ensures
            final(self)@ == old(self)@.enter_add_item_screen(),
            final(self).wf(),
    {
        if self.lists_component.selected().is_some() {
            self.input_state = InputState::new();
            self.current_screen = CurrentScreen::AddItem;
        }
    }

    /// Opens the screen for renaming the selected item of `ui_list`,
    /// provided that a list is selected and `ui_list` has a selected item.
    pub fn enter_modify_item_screen(&mut self, ui_list: &UIList)
        requires
            old(self).wf(),
        ensures
            final(self)@ == old(self)@.enter_modify_item_screen(ui_list@),
            final(self).wf(),
    {
        if self.lists_component.selected().is_some() {
            if let Some(j) = ui_list.item_state.selected() {
                if j < ui_list.items.len() {
                    let item = &ui_list.items[j].item;
                    self.input_state = InputState::modifying(item.name.clone(), Some(item.id));
                    self.current_screen = CurrentScreen::ModifyItem;
                }
            }
        }
    }

    /// Leaves the screen for naming or renaming a list; what was typed is
    /// dropped.
    pub fn exit_add_or_modify_list_without_saving(&mut self)
        requires
            old(self).wf(),
        ensures
            final(self)@ == old(self)@.leave_input(CurrentScreen::ListSelection),
            final(self).wf(),
    {
        self.current_screen = CurrentScreen::ListSelection;
        self.input_state.clear();
    }

    /// Leaves the screen for naming or renaming an item; what was typed is
    /// dropped.
    pub fn exit_add_item_without_saving(&mut self)
        requires
            old(self).wf(),
        ensures
            final(self)@ == old(self)@.leave_input(CurrentScreen::ItemSelection),
            final(self).wf(),
    {
        self.current_screen = CurrentScreen::ItemSelection;
        self.input_state.clear();
    }

    /// Opens the database screen with the open database highlighted.
    pub fn enter_change_db_screen(&mut self)
        requires
            old(self).wf(),
        ensures
            final(self)@ == old(self)@.enter_change_db_screen(),
            final(self).wf(),
    {
        self.selected_db_index = match self.config.position(&self.current_db_config.name) {
            Some(i) => i,
            None => 0,
        };
        self.current_screen = CurrentScreen::DBSelection;
    }

    /// Stays on the database screen.
    pub fn exit_change_db_without_saving(&mut self)
        requires
            old(self).wf(),
        ensures
            final(self)@ == old(self)@.on_screen(CurrentScreen::DBSelection),
            final(self).wf(),
    {
        self.current_screen = CurrentScreen::DBSelection;
    }

    /// Opens the screen for naming a new database.
    pub fn enter_add_db_screen(&mut self)
        requires
            old(self).wf(),
        ensures
            final(self)@ == old(self)@.enter_add_db_screen(),
            final(self).wf(),
    {
        self.input_state = InputState::new();
        self.current_screen = CurrentScreen::AddDB;
    }

    /// Leaves the screen for naming a database; what was typed is dropped.
    pub fn exit_add_db_without_saving(&mut self)
        requires
            old(self).wf(),
        ensures
            final(self)@ == old(self)@.leave_input(CurrentScreen::DBSelection),
            final(self).wf(),
    {
        self.current_screen = CurrentScreen::DBSelection;
        self.input_state.clear();
    }

    /// Highlights the database before the highlighted one, wrapping around
    /// at the start.
    pub fn select_previous_db(&mut self)
        requires
            old(self).wf(),
        ensures
            final(self)@ == old(self)@.select_previous_db(),
            final(self).wf(),
    {
        if self.config.dbs.len() > 0 {
            self.selected_db_index = if self.selected_db_index == 0 {
                self.config.dbs.len() - 1
            } else {
                self.selected_db_index - 1
            };
        }
    }

    /// Highlights the database after the highlighted one, wrapping around
    /// at the end.
    pub fn select_next_db(&mut self)
        requires
            old(self).wf(),
        ensures
            final(self)@ == old(self)@.select_next_db(),
            final(self).wf(),
    {
        let len = self.config.dbs.len();
        if len > 0 {
            proof {
                let i = self.selected_db_index as int;
                let n = len as int;
                assert(i + 1 < n ==> (i + 1) % n == i + 1) by (nonlinear_arith)
                    requires
                        0 <= i,
                        n > 0,
                ;
                assert(i + 1 == n ==> (i + 1) % n == 0) by (nonlinear_arith)
                    requires
                        n > 0,
                ;
            }
            self.selected_db_index = if self.selected_db_index + 1 == len {
                0
            } else {
                self.selected_db_index + 1
            };
        }
    }

    /// Moves the highlight by `amount` databases in `direction`, stopping
    /// at the edge.
    pub fn scroll_db(&mut self, amount: usize, direction: Direction)
        requires
            old(self).wf(),
        ensures
            final(self)@ == old(self)@.scroll_db(amount, direction),
            final(self).wf(),
    {
        let len = self.config.dbs.len();
        if len > 0 {
            let from = self.selected_db_index;
            self.selected_db_index = match direction {
                Direction::Down => if amount >= len - 1 - from {
                    len - 1
                } else {
                    from + amount
                },
                Direction::Up => if amount >= from {
                    0
                } else {
                    from - amount
                },
            };
        }
    }

    /// Opens the screen for renaming the highlighted database.
    pub fn enter_modify_db_screen(&mut self)
        requires
            old(self).wf(),
        ensures
            final(self)@ == old(self)@.enter_modify_db_screen(),
            final(self).wf(),
    {
        if self.selected_db_index < self.config.dbs.len() {
            let name = self.config.dbs[self.selected_db_index].name.clone();
            self.input_state = InputState::modifying(name, None);
            self.current_screen = CurrentScreen::ModifyDB;
        }
    }

    /// Leaves the screen for renaming a database; what was typed is
    /// dropped.
    pub fn exit_modify_db_without_saving(&mut self)
        requires
            old(self).wf(),
        ensures
            final(self)@ == old(self)@.leave_input(CurrentScreen::DBSelection),
            final(self).wf(),
    {
        self.current_screen = CurrentScreen::DBSelection;
        self.input_state.clear();
    }

    /// Asks for the highlighted database to be opened.
    pub fn switch_to_selected_db(&self, make_default: bool) -> (command: Command)
        ensures
            command@ == self@.switch_request(make_default),
    {
        if self.selected_db_index < self.config.dbs.len() {
            assert(self@.config.dbs[self.selected_db_index as int]
                == self.config.dbs[self.selected_db_index as int]@);
            Command::OpenDatabase {
                db: self.config.dbs[self.selected_db_index].clone(),
                make_default,
            }
        } else {
            Command::Nothing
        }
    }

    /// Takes in the database `db` that was opened and the lists read from
    /// it.
    pub fn open_database(&mut self, db: DBConfig, lists: Vec<UIList>)
        requires
            old(self).wf(),
            forall|i: int| 0 <= i < lists.len() ==> (#[trigger] lists[i]).wf(),
        ensures
            final(self)@ == old(self)@.opened(db@, lists_view(lists@)),
            final(self).wf(),
    {
        self.current_db_config = db;
        self.lists_component = ListsComponent::new();
        self.lists_component.load_lists(lists);
        self.lists_component.list_state.select_first();
        self.current_screen = CurrentScreen::ListSelection;
    }

    /// Asks for the highlighted database to be made the default one.
    pub fn set_selected_db_as_default(&self) -> (command: Command)
        ensures
            command@ == self@.default_request(),
    {
        if self.selected_db_index < self.config.dbs.len() {
            let mut config = self.config.clone();
            config.make_default(self.selected_db_index);
            Command::SaveConfig { config, after: AfterSave::Keep }
        } else {
            Command::Nothing
        }
    }

    /// Asks for a database that was created to be taken into the settings,
    /// as the default one where `set_as_default` says so.
    pub fn create_new_database(&self, db: DBConfig, set_as_default: bool) -> (command: Command)
        ensures
            command@ == self@.register_request(db@, set_as_default),
    {
        let mut config = self.config.clone();
        config.add_db(db, set_as_default);
        Command::SaveConfig { config, after: AfterSave::Reveal }
    }

    /// Asks for the highlighted database to be taken out of the settings.
    pub fn delete_selected_db(&self) -> (command: Command)
        ensures
            command@ == self@.delete_db_request(),
    {
        if self.selected_db_index < self.config.dbs.len() {
            let mut config = self.config.clone();
            config.remove_db(self.selected_db_index);
            Command::SaveConfig { config, after: AfterSave::Resync }
        } else {
            Command::Nothing
        }
    }

    /// Asks for the highlighted database to be renamed to `name`.
    pub fn modify_selected_db(&self, name: String) -> (command: Command)
        ensures
            command@ == self@.rename_db_request(name@),
    {
        if self.selected_db_index < self.config.dbs.len() {
            let mut config = self.config.clone();
            config.rename_db(self.selected_db_index, name);
            Command::SaveConfig { config, after: AfterSave::Close }
        } else {
            Command::Nothing
        }
    }

    /// Takes in the settings that were written.
    pub fn install_config(&mut self, config: Config, after: AfterSave)
        requires
            old(self).wf(),
        ensures
            final(self)@ == old(self)@.saved(config@, after),
            final(self).wf(),
    {
        self.selected_db_index = match after {
            AfterSave::Reveal => if config.dbs.len() > 0 {
                config.dbs.len() - 1
            } else {
                0
            },
            AfterSave::Resync => match config.position(&self.current_db_config.name) {
                Some(i) => i,
                None => 0,
            },
            _ => if self.selected_db_index < config.dbs.len() {
                self.selected_db_index
            } else {
                0
            },
        };
        self.config = config;
        match after {
            AfterSave::Reveal | AfterSave::Close => {
                self.current_screen = CurrentScreen::DBSelection;
                self.input_state.clear();
            },
            _ => {},
        }
    }
}

} // verus!
