use judo::app::events::EventHandler;
use judo::app::keys::{KeyCode, KeyEvent, KeyModifiers};
use judo::app::state::{App, CurrentScreen, KeySequence, PendingDelete};
use judo::db::config::{Config, DBConfig};
use judo::db::models::{TodoItem, TodoList, UIList};
use judo::db::ops::{AfterSave, Command, Outcome};
use judo::ui::cursor::CursorState;
use judo::ui::selection::Direction;

/// A store kept in memory, doing what the real one is expected to do.
struct Store {
    lists: Vec<(TodoList, Vec<TodoItem>)>,
    next_id: i64,
    failing: bool,
    saved: usize,
    log: Vec<String>,
}

impl Store {
    fn new(names: &[&str]) -> Store {
        let mut store = Store { lists: vec![], next_id: 1, failing: false, saved: 0, log: vec![] };
        for name in names {
            store.create_list(name);
        }
        store
    }

    fn create_list(&mut self, name: &str) -> i64 {
        let id = self.next_id;
        self.next_id += 1;
        let ordering = self.lists.len() as i64 + 1;
        self.lists.push((TodoList { id, name: name.to_string(), ordering }, vec![]));
        id
    }

    fn create_item(&mut self, list_id: i64, name: &str) -> i64 {
        let id = self.next_id;
        self.next_id += 1;
        let list = self.lists.iter_mut().find(|(l, _)| l.id == list_id).unwrap();
        let ordering = list.1.len() as i64 + 1;
        list.1.push(TodoItem {
            id,
            list_id,
            name: name.to_string(),
            is_done: false,
            priority: None,
            due_date: None,
            ordering,
        });
        id
    }

    fn read_lists(&self) -> Vec<UIList> {
        self.lists.iter().map(|(l, items)| UIList::new(l.clone(), items.clone())).collect()
    }

    fn read_items(&self, list_id: i64) -> Vec<TodoItem> {
        self.lists
            .iter()
            .find(|(l, _)| l.id == list_id)
            .map(|(_, items)| items.clone())
            .unwrap_or_default()
    }

    fn list_names(&self) -> Vec<String> {
        self.lists.iter().map(|(l, _)| l.name.clone()).collect()
    }

    fn item_names(&self, list_id: i64) -> Vec<String> {
        self.read_items(list_id).iter().map(|i| i.name.clone()).collect()
    }

    fn shift<T>(entries: &mut Vec<T>, at: usize, direction: Direction, amount: usize) {
        let to = match direction {
            Direction::Up => at.saturating_sub(amount),
            Direction::Down => (at + amount).min(entries.len() - 1),
        };
        let entry = entries.remove(at);
        entries.insert(to, entry);
    }

    fn perform(&mut self, command: &Command) -> Outcome {
        self.log.push(format!("{:?}", command));
        if self.failing {
            return Outcome::Failed;
        }
        match command {
            Command::Nothing => Outcome::Done,
            Command::CreateList(new_list) => {
                self.create_list(&new_list.name);
                Outcome::Lists(self.read_lists())
            }
            Command::RenameList { id, name } => {
                for (list, _) in self.lists.iter_mut() {
                    if list.id == *id {
                        list.name = name.clone();
                    }
                }
                Outcome::Lists(self.read_lists())
            }
            Command::DeleteList { id } => {
                self.lists.retain(|(l, _)| l.id != *id);
                Outcome::Lists(self.read_lists())
            }
            Command::MoveList { id, direction, amount } => {
                if let Some(at) = self.lists.iter().position(|(l, _)| l.id == *id) {
                    Store::shift(&mut self.lists, at, *direction, *amount);
                }
                Outcome::Lists(self.read_lists())
            }
            Command::CreateItem(new_item) => {
                self.create_item(new_item.list_id, &new_item.name);
                Outcome::Items(self.read_items(new_item.list_id))
            }
            Command::RenameItem { list_id, id, name } => {
                for (_, items) in self.lists.iter_mut() {
                    for item in items.iter_mut() {
                        if item.id == *id {
                            item.name = name.clone();
                        }
                    }
                }
                Outcome::Items(self.read_items(*list_id))
            }
            Command::ToggleItem { list_id, id } => {
                for (_, items) in self.lists.iter_mut() {
                    for item in items.iter_mut() {
                        if item.id == *id {
                            item.is_done = !item.is_done;
                        }
                    }
                }
                Outcome::Items(self.read_items(*list_id))
            }
            Command::DeleteItem { list_id, id } => {
                for (_, items) in self.lists.iter_mut() {
                    items.retain(|i| i.id != *id);
                }
                Outcome::Items(self.read_items(*list_id))
            }
            Command::MoveItem { list_id, id, direction, amount } => {
                for (list, items) in self.lists.iter_mut() {
                    if list.id == *list_id {
                        if let Some(at) = items.iter().position(|i| i.id == *id) {
                            Store::shift(items, at, *direction, *amount);
                        }
                    }
                }
                Outcome::Items(self.read_items(*list_id))
            }
            Command::OpenDatabase { .. } => Outcome::Lists(self.read_lists()),
            Command::CreateDatabase { name } => {
                Outcome::Database(DBConfig::sqlite(name.clone(), &format!("/data/{}.db", name)))
            }
            Command::SaveConfig { .. } => {
                self.saved += 1;
                Outcome::Done
            }
        }
    }
}

fn config(names: &[&str]) -> Config {
    Config {
        default: names[0].to_string(),
        dbs: names
            .iter()
            .map(|name| DBConfig::sqlite(name.to_string(), &format!("/data/{}.db", name)))
            .collect(),
        theme: None,
    }
}

fn app_with(store: &Store) -> App {
    let config = config(&["dojo", "work"]);
    let current = config.get_default().unwrap();
    App::new(config, current, store.read_lists())
}

fn plain(code: KeyCode) -> KeyEvent {
    KeyEvent::plain(code)
}

fn ch(c: char) -> KeyEvent {
    KeyEvent::plain(KeyCode::Char(c))
}

fn shifted(code: KeyCode) -> KeyEvent {
    KeyEvent::new(code, KeyModifiers::shift())
}

fn press(app: &mut App, store: &mut Store, key: KeyEvent) {
    let mut command = app.handle_key_event(key);
    let mut rounds = 0;
    while !command.is_nothing() {
        let outcome = store.perform(&command);
        command = EventHandler::complete(app, command, outcome);
        rounds += 1;
        assert!(rounds < 4);
    }
}

fn type_text(app: &mut App, store: &mut Store, text: &str) {
    for c in text.chars() {
        press(app, store, ch(c));
    }
}

fn shown_lists(app: &App) -> Vec<String> {
    app.lists_component.lists.iter().map(|l| l.list.name.clone()).collect()
}

fn shown_items(app: &App) -> Vec<String> {
    match app.lists_component.get_selected_list() {
        Some(list) => list.items.iter().map(|i| i.item.name.clone()).collect(),
        None => vec![],
    }
}

fn item_selection(app: &App) -> Option<usize> {
    app.lists_component.get_selected_list().and_then(|l| l.item_state.selected())
}

/// A store with one list of the given items, and the interface on the
/// item screen with that list selected.
fn on_items(items: &[&str]) -> (App, Store) {
    let mut store = Store::new(&["Home"]);
    let list_id = store.lists[0].0.id;
    for item in items {
        store.create_item(list_id, item);
    }
    let mut app = app_with(&store);
    press(&mut app, &mut store, ch('j'));
    press(&mut app, &mut store, ch('l'));
    assert_eq!(app.current_screen, CurrentScreen::ItemSelection);
    (app, store)
}

#[test]
fn starts_on_the_list_screen() {
    let store = Store::new(&["A", "B"]);
    let app = app_with(&store);
    assert_eq!(app.current_screen, CurrentScreen::ListSelection);
    assert_eq!(app.last_active_screen, CurrentScreen::ListSelection);
    assert_eq!(shown_lists(&app), ["A", "B"]);
    assert_eq!(app.lists_component.selected(), None);
    assert_eq!(app.selected_db_index, 0);
    assert_eq!(app.number_modifier, 0);
    assert!(!app.exit);
    assert!(app.keys_buffer.is_empty());
    assert_eq!(app.key_sequence, KeySequence::Idle);
    assert!(matches!(app.pending_delete, PendingDelete::Nothing));
    assert_eq!(app.theme.background, "#002626");
    assert_eq!(app.current_db_config.name, "dojo");
}

#[test]
fn start_highlights_the_open_database() {
    let config = config(&["dojo", "work"]);
    let current = config.dbs[1].clone();
    let app = App::new(config, current, vec![]);
    assert_eq!(app.selected_db_index, 1);
    let config = self::config(&["dojo", "work"]);
    let app = App::new(config, DBConfig::sqlite("gone".to_string(), "/x"), vec![]);
    assert_eq!(app.selected_db_index, 0);
}

#[test]
fn key_labels() {
    let label = |key: KeyEvent| EventHandler::format_keycode_for_buffer(key);
    assert_eq!(label(ch('x')), ("x".to_string(), true));
    assert_eq!(label(ch('7')), ("7".to_string(), false));
    assert_eq!(label(ch(' ')), ("␣".to_string(), true));
    assert_eq!(label(plain(KeyCode::Up)), ("↑".to_string(), true));
    assert_eq!(label(plain(KeyCode::Down)), ("↓".to_string(), true));
    assert_eq!(label(plain(KeyCode::Left)), ("←".to_string(), true));
    assert_eq!(label(plain(KeyCode::Right)), ("→".to_string(), true));
    assert_eq!(label(plain(KeyCode::Tab)), ("Tab".to_string(), true));
    assert_eq!(label(plain(KeyCode::BackTab)), ("Shift + Tab".to_string(), true));
    assert_eq!(label(plain(KeyCode::Enter)), ("Enter".to_string(), true));
    assert_eq!(label(plain(KeyCode::Esc)), ("Esc".to_string(), true));
    assert_eq!(label(plain(KeyCode::Backspace)), (String::new(), false));
    assert_eq!(label(plain(KeyCode::Other)), (String::new(), false));
    let help = KeyEvent::new(KeyCode::Char('h'), KeyModifiers::control());
    assert_eq!(label(help), ("Ctrl + h".to_string(), true));
    assert_eq!(ch('0').as_digit(), Some(0));
    assert_eq!(ch('9').as_digit(), Some(9));
    assert_eq!(ch('a').as_digit(), None);
    assert_eq!(plain(KeyCode::Up).as_digit(), None);
}

#[test]
fn tab_steps_through_the_primary_screens() {
    let mut store = Store::new(&[]);
    let mut app = app_with(&store);
    press(&mut app, &mut store, plain(KeyCode::Tab));
    assert_eq!(app.current_screen, CurrentScreen::ItemSelection);
    assert_eq!(app.last_active_screen, CurrentScreen::ItemSelection);
    press(&mut app, &mut store, plain(KeyCode::Tab));
    assert_eq!(app.current_screen, CurrentScreen::DBSelection);
    press(&mut app, &mut store, plain(KeyCode::Tab));
    assert_eq!(app.current_screen, CurrentScreen::ListSelection);
    press(&mut app, &mut store, shifted(KeyCode::BackTab));
    assert_eq!(app.current_screen, CurrentScreen::DBSelection);
    press(&mut app, &mut store, shifted(KeyCode::BackTab));
    assert_eq!(app.current_screen, CurrentScreen::ItemSelection);
    press(&mut app, &mut store, shifted(KeyCode::BackTab));
    assert_eq!(app.current_screen, CurrentScreen::ListSelection);
    assert_eq!(app.last_active_screen, CurrentScreen::ListSelection);
    assert!(EventHandler::matches_global_keys(&mut app, plain(KeyCode::Tab)));
}

#[test]
fn quit_sets_the_exit_flag() {
    let mut store = Store::new(&[]);
    let mut app = app_with(&store);
    press(&mut app, &mut store, ch('q'));
    assert!(app.exit);
    assert_eq!(app.current_screen, CurrentScreen::ListSelection);
}

#[test]
fn digits_build_the_count() {
    let names: Vec<String> = (0..130).map(|i| format!("list {}", i)).collect();
    let names: Vec<&str> = names.iter().map(|n| n.as_str()).collect();
    let mut store = Store::new(&names);
    let mut app = app_with(&store);
    press(&mut app, &mut store, ch('1'));
    assert_eq!(app.number_modifier, 1);
    press(&mut app, &mut store, ch('2'));
    assert_eq!(app.number_modifier, 12);
    press(&mut app, &mut store, ch('0'));
    assert_eq!(app.number_modifier, 120);
    press(&mut app, &mut store, ch('7'));
    assert_eq!(app.number_modifier, 130);
    press(&mut app, &mut store, plain(KeyCode::Esc));
    press(&mut app, &mut store, ch('0'));
    assert_eq!(app.number_modifier, 0);
    press(&mut app, &mut store, ch('7'));
    assert_eq!(app.number_modifier, 7);
}

#[test]
fn count_never_exceeds_the_collection() {
    let mut store = Store::new(&["A", "B", "C", "D", "E"]);
    let mut app = app_with(&store);
    press(&mut app, &mut store, ch('1'));
    assert_eq!(app.number_modifier, 1);
    press(&mut app, &mut store, ch('2'));
    assert_eq!(app.number_modifier, 5);
    press(&mut app, &mut store, ch('0'));
    assert_eq!(app.number_modifier, 5);
    press(&mut app, &mut store, plain(KeyCode::Esc));
    press(&mut app, &mut store, ch('5'));
    assert_eq!(app.number_modifier, 5);
    press(&mut app, &mut store, plain(KeyCode::Esc));
    press(&mut app, &mut store, ch('6'));
    assert_eq!(app.number_modifier, 5);
    for digits in ["9", "39", "123456789012345678901234567890"] {
        press(&mut app, &mut store, plain(KeyCode::Esc));
        for c in digits.chars() {
            press(&mut app, &mut store, ch(c));
            assert!(app.number_modifier <= 5);
        }
        assert_eq!(app.number_modifier, 5);
    }
    let mut store = Store::new(&[]);
    let mut app = app_with(&store);
    press(&mut app, &mut store, ch('4'));
    assert_eq!(app.number_modifier, 0);
}

#[test]
fn count_is_cut_down_to_the_active_collection() {
    let (mut app, mut store) = on_items(&["a", "b", "c"]);
    press(&mut app, &mut store, ch('2'));
    assert_eq!(app.number_modifier, 2);
    press(&mut app, &mut store, ch('9'));
    assert_eq!(app.number_modifier, 3);
    press(&mut app, &mut store, ch('9'));
    assert_eq!(app.number_modifier, 3);
    press(&mut app, &mut store, plain(KeyCode::Esc));
    assert_eq!(app.number_modifier, 0);
    press(&mut app, &mut store, plain(KeyCode::Tab));
    assert_eq!(app.current_screen, CurrentScreen::DBSelection);
    type_text(&mut app, &mut store, "99");
    assert_eq!(app.number_modifier, 2);
    press(&mut app, &mut store, plain(KeyCode::Tab));
    assert_eq!(app.current_screen, CurrentScreen::ListSelection);
    type_text(&mut app, &mut store, "99");
    assert_eq!(app.number_modifier, 1);
}

#[test]
fn count_never_overflows() {
    let mut store = Store::new(&[]);
    let mut app = app_with(&store);
    app.number_modifier = usize::MAX;
    app.add_number_modifier(7);
    assert_eq!(app.number_modifier, 0);
    assert_eq!(app.active_len(), 0);
    app.number_modifier = usize::MAX / 10;
    press(&mut app, &mut store, ch('9'));
    assert_eq!(app.number_modifier, 0);
    assert_eq!(app.count(), 1);
    let store = Store::new(&["A", "B"]);
    let mut app = app_with(&store);
    app.number_modifier = usize::MAX;
    app.add_number_modifier(9);
    assert_eq!(app.number_modifier, 2);
    assert_eq!(app.count(), 2);
    app.number_modifier = usize::MAX / 10 + 1;
    app.add_number_modifier(0);
    assert_eq!(app.number_modifier, 2);
    app.reset_number_modifier();
    assert_eq!(app.count(), 1);
}

#[test]
fn escape_on_a_primary_screen_forgets_the_count() {
    let mut store = Store::new(&["A"]);
    let mut app = app_with(&store);
    press(&mut app, &mut store, ch('1'));
    press(&mut app, &mut store, plain(KeyCode::Esc));
    assert_eq!(app.number_modifier, 0);
    assert_eq!(app.current_screen, CurrentScreen::ListSelection);
}

#[test]
fn control_h_opens_the_help_and_escape_closes_it() {
    let mut store = Store::new(&[]);
    let mut app = app_with(&store);
    press(&mut app, &mut store, plain(KeyCode::Tab));
    press(&mut app, &mut store, KeyEvent::new(KeyCode::Char('h'), KeyModifiers::control()));
    assert_eq!(app.current_screen, CurrentScreen::Help);
    press(&mut app, &mut store, ch('x'));
    assert_eq!(app.current_screen, CurrentScreen::Help);
    press(&mut app, &mut store, plain(KeyCode::Esc));
    assert_eq!(app.current_screen, CurrentScreen::ItemSelection);
}

#[test]
fn quit_works_from_the_help() {
    let mut store = Store::new(&[]);
    let mut app = app_with(&store);
    press(&mut app, &mut store, KeyEvent::new(KeyCode::Char('h'), KeyModifiers::control()));
    press(&mut app, &mut store, ch('q'));
    assert!(app.exit);
}

#[test]
fn leader_key_opens_the_menu_only_without_a_count() {
    let mut store = Store::new(&["A"]);
    let mut app = app_with(&store);
    press(&mut app, &mut store, ch('1'));
    press(&mut app, &mut store, ch(' '));
    assert_eq!(app.current_screen, CurrentScreen::ListSelection);
    assert!(!app.leader_awaiting);
    press(&mut app, &mut store, plain(KeyCode::Esc));
    press(&mut app, &mut store, ch(' '));
    assert_eq!(app.current_screen, CurrentScreen::LeaderHelp);
    assert!(app.leader_awaiting);
}

#[test]
fn leader_menu_goes_to_a_screen() {
    for (key, screen) in [
        ('1', CurrentScreen::ListSelection),
        ('2', CurrentScreen::ItemSelection),
        ('3', CurrentScreen::DBSelection),
    ] {
        let mut store = Store::new(&[]);
        let mut app = app_with(&store);
        press(&mut app, &mut store, ch(' '));
        press(&mut app, &mut store, ch(key));
        assert_eq!(app.current_screen, screen);
        assert!(!app.leader_awaiting);
        assert_eq!(app.number_modifier, 0);
    }
}

#[test]
fn leader_menu_waits_on_unknown_keys_and_closes_on_escape() {
    let mut store = Store::new(&[]);
    let mut app = app_with(&store);
    press(&mut app, &mut store, plain(KeyCode::Tab));
    press(&mut app, &mut store, ch(' '));
    press(&mut app, &mut store, ch('x'));
    assert_eq!(app.current_screen, CurrentScreen::LeaderHelp);
    assert!(app.leader_awaiting);
    press(&mut app, &mut store, plain(KeyCode::Esc));
    assert_eq!(app.current_screen, CurrentScreen::ItemSelection);
    assert!(!app.leader_awaiting);
    assert!(app.keys_buffer.is_empty());
    press(&mut app, &mut store, ch(' '));
    press(&mut app, &mut store, ch('q'));
    assert!(app.exit);
}

#[test]
fn key_buffer_follows_the_repeat_rule() {
    let mut store = Store::new(&["A", "B", "C"]);
    let mut app = app_with(&store);
    press(&mut app, &mut store, ch('3'));
    assert_eq!(app.keys_buffer, [("3".to_string(), true)]);
    assert_eq!(app.recent_keys(), ["3"]);
    press(&mut app, &mut store, ch('j'));
    assert_eq!(app.keys_buffer, [("j".to_string(), false)]);
    assert!(app.recent_keys().is_empty());
    press(&mut app, &mut store, ch('j'));
    assert_eq!(app.keys_buffer, [("j".to_string(), false), ("j".to_string(), false)]);
    press(&mut app, &mut store, ch('k'));
    assert_eq!(app.keys_buffer.len(), 3);
    press(&mut app, &mut store, ch('x'));
    assert_eq!(app.keys_buffer, [("x".to_string(), false)]);
    press(&mut app, &mut store, ch('4'));
    press(&mut app, &mut store, ch('5'));
    assert_eq!(app.keys_buffer, [("5".to_string(), true)]);
    assert_eq!(app.recent_keys(), ["5"]);
    app.reset_key_buffer();
    assert!(app.keys_buffer.is_empty());
    assert!(app.recent_keys().is_empty());
    app.add_key_to_buffer("K".to_string(), false);
    app.add_key_to_buffer("J".to_string(), false);
    assert_eq!(app.keys_buffer.len(), 2);
    app.add_key_to_buffer("kk".to_string(), false);
    assert_eq!(app.keys_buffer, [("kk".to_string(), false)]);
}

#[test]
fn list_motion_wraps_around() {
    let mut store = Store::new(&["A", "B", "C"]);
    let mut app = app_with(&store);
    press(&mut app, &mut store, ch('j'));
    assert_eq!(app.lists_component.selected(), Some(0));
    press(&mut app, &mut store, plain(KeyCode::Down));
    press(&mut app, &mut store, ch('j'));
    assert_eq!(app.lists_component.selected(), Some(2));
    press(&mut app, &mut store, ch('j'));
    assert_eq!(app.lists_component.selected(), Some(0));
    press(&mut app, &mut store, ch('k'));
    assert_eq!(app.lists_component.selected(), Some(2));
    press(&mut app, &mut store, plain(KeyCode::Up));
    assert_eq!(app.lists_component.selected(), Some(1));
}

#[test]
fn counted_list_motion_stops_at_the_edge() {
    let mut store = Store::new(&["A", "B", "C", "D"]);
    let mut app = app_with(&store);
    press(&mut app, &mut store, ch('j'));
    press(&mut app, &mut store, ch('2'));
    press(&mut app, &mut store, ch('j'));
    assert_eq!(app.lists_component.selected(), Some(2));
    assert_eq!(app.number_modifier, 0);
    press(&mut app, &mut store, ch('3'));
    press(&mut app, &mut store, ch('j'));
    assert_eq!(app.lists_component.selected(), Some(3));
    press(&mut app, &mut store, ch('4'));
    press(&mut app, &mut store, ch('k'));
    assert_eq!(app.lists_component.selected(), Some(0));
    assert_eq!(app.number_modifier, 0);
}

#[test]
fn shift_down_moves_the_selected_list() {
    let mut store = Store::new(&["A", "B", "C"]);
    let mut app = app_with(&store);
    press(&mut app, &mut store, ch('j'));
    press(&mut app, &mut store, ch('j'));
    assert_eq!(app.lists_component.selected(), Some(1));
    press(&mut app, &mut store, shifted(KeyCode::Down));
    assert_eq!(store.list_names(), ["A", "C", "B"]);
    assert_eq!(shown_lists(&app), ["A", "C", "B"]);
    assert_eq!(app.lists_component.selected(), Some(2));
    assert_eq!(app.lists_component.get_selected_list().unwrap().list.name, "B");
}

#[test]
fn plain_down_only_moves_the_selection() {
    let mut store = Store::new(&["A", "B", "C"]);
    let mut app = app_with(&store);
    press(&mut app, &mut store, ch('j'));
    press(&mut app, &mut store, ch('j'));
    press(&mut app, &mut store, plain(KeyCode::Down));
    assert_eq!(store.list_names(), ["A", "B", "C"]);
    assert_eq!(app.lists_component.selected(), Some(2));
    assert!(store.log.is_empty());
}

#[test]
fn moving_a_list_beyond_the_edge_goes_as_far_as_possible() {
    let mut store = Store::new(&["A", "B", "C"]);
    let mut app = app_with(&store);
    press(&mut app, &mut store, ch('j'));
    press(&mut app, &mut store, ch('j'));
    press(&mut app, &mut store, ch('9'));
    press(&mut app, &mut store, shifted(KeyCode::Char('K')));
    assert_eq!(store.list_names(), ["B", "A", "C"]);
    assert_eq!(app.lists_component.selected(), Some(0));
    assert_eq!(app.number_modifier, 0);
    press(&mut app, &mut store, shifted(KeyCode::Up));
    assert_eq!(store.list_names(), ["B", "A", "C"]);
    assert_eq!(app.lists_component.selected(), Some(0));
    press(&mut app, &mut store, ch('2'));
    press(&mut app, &mut store, shifted(KeyCode::Char('J')));
    assert_eq!(store.list_names(), ["A", "C", "B"]);
    assert_eq!(app.lists_component.selected(), Some(2));
}

#[test]
fn moving_without_a_selection_asks_nothing() {
    let mut store = Store::new(&["A", "B"]);
    let mut app = app_with(&store);
    press(&mut app, &mut store, ch('5'));
    press(&mut app, &mut store, shifted(KeyCode::Down));
    assert!(store.log.is_empty());
    assert_eq!(app.number_modifier, 0);
    assert_eq!(store.list_names(), ["A", "B"]);
}

#[test]
fn add_list_creates_exactly_one_list() {
    let mut store = Store::new(&["A"]);
    let mut app = app_with(&store);
    press(&mut app, &mut store, ch('a'));
    assert_eq!(app.current_screen, CurrentScreen::AddList);
    type_text(&mut app, &mut store, "Groceries");
    assert_eq!(app.input_state.get_text(), "Groceries");
    assert_eq!(app.current_screen, CurrentScreen::AddList);
    press(&mut app, &mut store, plain(KeyCode::Enter));
    assert_eq!(store.list_names(), ["A", "Groceries"]);
    assert_eq!(shown_lists(&app), ["A", "Groceries"]);
    assert_eq!(app.input_state.get_text(), "");
    assert_eq!(app.input_state.get_cursor_pos(), 0);
    assert_eq!(app.current_screen, CurrentScreen::ListSelection);
    assert_eq!(store.log.len(), 1);
}

#[test]
fn keys_on_an_entry_screen_are_text() {
    let mut store = Store::new(&[]);
    let mut app = app_with(&store);
    press(&mut app, &mut store, ch('a'));
    type_text(&mut app, &mut store, "q3 gj");
    assert_eq!(app.input_state.get_text(), "q3 gj");
    assert!(!app.exit);
    assert_eq!(app.number_modifier, 0);
    assert_eq!(app.current_screen, CurrentScreen::AddList);
    press(&mut app, &mut store, plain(KeyCode::Left));
    press(&mut app, &mut store, plain(KeyCode::Backspace));
    assert_eq!(app.input_state.get_text(), "q3 j");
    press(&mut app, &mut store, plain(KeyCode::Delete));
    assert_eq!(app.input_state.get_text(), "q3 ");
    press(&mut app, &mut store, plain(KeyCode::Right));
    press(&mut app, &mut store, plain(KeyCode::Tab));
    assert_eq!(app.input_state.get_text(), "q3 ");
    assert_eq!(app.input_state.get_cursor_pos(), 3);
}

#[test]
fn blank_names_are_not_submitted() {
    let mut store = Store::new(&[]);
    let mut app = app_with(&store);
    press(&mut app, &mut store, ch('a'));
    press(&mut app, &mut store, plain(KeyCode::Enter));
    assert_eq!(app.current_screen, CurrentScreen::AddList);
    type_text(&mut app, &mut store, "  ");
    press(&mut app, &mut store, plain(KeyCode::Enter));
    assert_eq!(app.current_screen, CurrentScreen::AddList);
    assert_eq!(app.input_state.get_text(), "  ");
    assert!(store.log.is_empty());
    assert!(store.lists.is_empty());
}

#[test]
fn escape_discards_what_was_typed() {
    let mut store = Store::new(&[]);
    let mut app = app_with(&store);
    press(&mut app, &mut store, ch('a'));
    type_text(&mut app, &mut store, "abc");
    press(&mut app, &mut store, plain(KeyCode::Esc));
    assert_eq!(app.current_screen, CurrentScreen::ListSelection);
    assert_eq!(app.input_state.get_text(), "");
    assert!(store.lists.is_empty());
}

#[test]
fn failed_create_keeps_the_screen_and_the_input() {
    let mut store = Store::new(&["A"]);
    let mut app = app_with(&store);
    press(&mut app, &mut store, ch('a'));
    type_text(&mut app, &mut store, "New");
    store.failing = true;
    press(&mut app, &mut store, plain(KeyCode::Enter));
    assert_eq!(app.current_screen, CurrentScreen::AddList);
    assert_eq!(app.input_state.get_text(), "New");
    assert_eq!(app.input_state.get_cursor_pos(), 3);
    assert_eq!(shown_lists(&app), ["A"]);
    store.failing = false;
    press(&mut app, &mut store, plain(KeyCode::Enter));
    assert_eq!(app.current_screen, CurrentScreen::ListSelection);
    assert_eq!(shown_lists(&app), ["A", "New"]);
}

#[test]
fn create_then_rename_reads_the_new_name() {
    let mut store = Store::new(&["A"]);
    let mut app = app_with(&store);
    press(&mut app, &mut store, ch('a'));
    type_text(&mut app, &mut store, "X");
    press(&mut app, &mut store, plain(KeyCode::Enter));
    press(&mut app, &mut store, ch('k'));
    assert_eq!(app.lists_component.get_selected_list().unwrap().list.name, "X");
    press(&mut app, &mut store, ch('m'));
    assert_eq!(app.current_screen, CurrentScreen::ModifyList);
    assert!(app.input_state.is_modifying);
    assert_eq!(app.input_state.id, Some(store.lists[1].0.id));
    assert_eq!(app.input_state.get_text(), "X");
    assert_eq!(app.input_state.get_cursor_pos(), 0);
    press(&mut app, &mut store, plain(KeyCode::Delete));
    type_text(&mut app, &mut store, "Y");
    press(&mut app, &mut store, plain(KeyCode::Enter));
    assert_eq!(store.list_names(), ["A", "Y"]);
    assert_eq!(shown_lists(&app), ["A", "Y"]);
    assert_eq!(app.current_screen, CurrentScreen::ListSelection);
    assert_eq!(app.input_state.get_text(), "");
}

#[test]
fn create_then_delete_leaves_the_length_unchanged() {
    let mut store = Store::new(&["A", "B"]);
    let mut app = app_with(&store);
    press(&mut app, &mut store, ch('a'));
    type_text(&mut app, &mut store, "X");
    press(&mut app, &mut store, plain(KeyCode::Enter));
    assert_eq!(shown_lists(&app).len(), 3);
    press(&mut app, &mut store, ch('k'));
    press(&mut app, &mut store, ch('d'));
    press(&mut app, &mut store, ch('y'));
    assert_eq!(shown_lists(&app), ["A", "B"]);
    assert_eq!(store.list_names(), ["A", "B"]);
    assert_eq!(app.lists_component.selected(), Some(1));
}

#[test]
fn modify_list_needs_a_selected_list() {
    let mut store = Store::new(&["A"]);
    let mut app = app_with(&store);
    press(&mut app, &mut store, ch('m'));
    assert_eq!(app.current_screen, CurrentScreen::ListSelection);
    press(&mut app, &mut store, ch('d'));
    assert_eq!(app.current_screen, CurrentScreen::ListSelection);
    assert!(matches!(app.pending_delete, PendingDelete::Nothing));
}

#[test]
fn delete_list_asks_first() {
    let mut store = Store::new(&["A", "B"]);
    let mut app = app_with(&store);
    press(&mut app, &mut store, ch('j'));
    press(&mut app, &mut store, ch('d'));
    assert_eq!(app.current_screen, CurrentScreen::DeleteListConfirmation);
    assert!(matches!(&app.pending_delete, PendingDelete::List(name) if name == "A"));
    assert_eq!(store.list_names(), ["A", "B"]);
    press(&mut app, &mut store, ch('x'));
    assert_eq!(app.current_screen, CurrentScreen::DeleteListConfirmation);
    press(&mut app, &mut store, ch('n'));
    assert_eq!(app.current_screen, CurrentScreen::ListSelection);
    assert!(matches!(app.pending_delete, PendingDelete::Nothing));
    assert_eq!(store.list_names(), ["A", "B"]);
    assert!(store.log.is_empty());
    press(&mut app, &mut store, ch('d'));
    press(&mut app, &mut store, plain(KeyCode::Esc));
    assert_eq!(app.current_screen, CurrentScreen::ListSelection);
    assert_eq!(store.list_names(), ["A", "B"]);
    press(&mut app, &mut store, ch('d'));
    press(&mut app, &mut store, ch('Y'));
    assert_eq!(app.current_screen, CurrentScreen::ListSelection);
    assert!(matches!(app.pending_delete, PendingDelete::Nothing));
    assert_eq!(store.list_names(), ["B"]);
    assert_eq!(shown_lists(&app), ["B"]);
    assert_eq!(app.lists_component.selected(), Some(0));
}

#[test]
fn deleting_the_last_list_clears_the_selection() {
    let mut store = Store::new(&["A"]);
    let mut app = app_with(&store);
    press(&mut app, &mut store, ch('j'));
    press(&mut app, &mut store, ch('d'));
    press(&mut app, &mut store, ch('y'));
    assert!(shown_lists(&app).is_empty());
    assert_eq!(app.lists_component.selected(), None);
}

#[test]
fn failed_delete_changes_nothing_but_settles_the_question() {
    let mut store = Store::new(&["A", "B"]);
    let mut app = app_with(&store);
    press(&mut app, &mut store, ch('j'));
    press(&mut app, &mut store, ch('d'));
    store.failing = true;
    press(&mut app, &mut store, ch('y'));
    assert_eq!(app.current_screen, CurrentScreen::ListSelection);
    assert!(matches!(app.pending_delete, PendingDelete::Nothing));
    assert_eq!(shown_lists(&app), ["A", "B"]);
    assert_eq!(app.lists_component.selected(), Some(0));
}

#[test]
fn right_opens_the_items_and_selects_the_first() {
    let mut store = Store::new(&["Home"]);
    let id = store.lists[0].0.id;
    store.create_item(id, "a");
    store.create_item(id, "b");
    let mut app = app_with(&store);
    press(&mut app, &mut store, ch('j'));
    press(&mut app, &mut store, plain(KeyCode::Right));
    assert_eq!(app.current_screen, CurrentScreen::ItemSelection);
    assert_eq!(item_selection(&app), Some(0));
    press(&mut app, &mut store, ch('j'));
    assert_eq!(item_selection(&app), Some(1));
    press(&mut app, &mut store, plain(KeyCode::Tab));
    press(&mut app, &mut store, plain(KeyCode::Tab));
    press(&mut app, &mut store, ch('l'));
    assert_eq!(item_selection(&app), Some(1));
    press(&mut app, &mut store, ch('h'));
    assert_eq!(app.current_screen, CurrentScreen::ListSelection);
    assert_eq!(item_selection(&app), None);
}

#[test]
fn add_item_without_a_selected_list_is_a_no_op() {
    let mut store = Store::new(&[]);
    let mut app = app_with(&store);
    press(&mut app, &mut store, plain(KeyCode::Tab));
    assert_eq!(app.current_screen, CurrentScreen::ItemSelection);
    press(&mut app, &mut store, ch('a'));
    assert_eq!(app.current_screen, CurrentScreen::ItemSelection);
    assert!(store.log.is_empty());
    let mut store = Store::new(&["A"]);
    let mut app = app_with(&store);
    press(&mut app, &mut store, plain(KeyCode::Tab));
    press(&mut app, &mut store, ch('a'));
    assert_eq!(app.current_screen, CurrentScreen::ItemSelection);
    press(&mut app, &mut store, ch('m'));
    press(&mut app, &mut store, ch('d'));
    press(&mut app, &mut store, plain(KeyCode::Enter));
    press(&mut app, &mut store, ch('j'));
    press(&mut app, &mut store, shifted(KeyCode::Up));
    assert_eq!(app.current_screen, CurrentScreen::ItemSelection);
    assert!(store.log.is_empty());
}

#[test]
fn add_item_appends_to_the_selected_list() {
    let (mut app, mut store) = on_items(&["a"]);
    let list_id = store.lists[0].0.id;
    press(&mut app, &mut store, ch('a'));
    assert_eq!(app.current_screen, CurrentScreen::AddItem);
    type_text(&mut app, &mut store, "milk");
    press(&mut app, &mut store, plain(KeyCode::Enter));
    assert_eq!(app.current_screen, CurrentScreen::ItemSelection);
    assert_eq!(app.input_state.get_text(), "");
    assert_eq!(store.item_names(list_id), ["a", "milk"]);
    assert_eq!(shown_items(&app), ["a", "milk"]);
    assert_eq!(item_selection(&app), Some(0));
    press(&mut app, &mut store, ch('a'));
    type_text(&mut app, &mut store, "x");
    press(&mut app, &mut store, plain(KeyCode::Esc));
    assert_eq!(app.current_screen, CurrentScreen::ItemSelection);
    assert_eq!(shown_items(&app), ["a", "milk"]);
}

#[test]
fn modify_item_renames_the_selected_item() {
    let (mut app, mut store) = on_items(&["a", "b"]);
    let list_id = store.lists[0].0.id;
    press(&mut app, &mut store, ch('j'));
    press(&mut app, &mut store, ch('m'));
    assert_eq!(app.current_screen, CurrentScreen::ModifyItem);
    assert_eq!(app.input_state.get_text(), "b");
    assert!(app.input_state.is_modifying);
    assert_eq!(app.input_state.id, Some(store.lists[0].1[1].id));
    type_text(&mut app, &mut store, "B");
    press(&mut app, &mut store, plain(KeyCode::Enter));
    assert_eq!(store.item_names(list_id), ["a", "Bb"]);
    assert_eq!(shown_items(&app), ["a", "Bb"]);
    assert_eq!(app.current_screen, CurrentScreen::ItemSelection);
    assert_eq!(item_selection(&app), Some(1));
}

#[test]
fn failed_item_work_keeps_everything() {
    let (mut app, mut store) = on_items(&["a", "b"]);
    press(&mut app, &mut store, ch('a'));
    type_text(&mut app, &mut store, "c");
    store.failing = true;
    press(&mut app, &mut store, plain(KeyCode::Enter));
    assert_eq!(app.current_screen, CurrentScreen::AddItem);
    assert_eq!(app.input_state.get_text(), "c");
    press(&mut app, &mut store, plain(KeyCode::Esc));
    press(&mut app, &mut store, ch('d'));
    assert_eq!(shown_items(&app), ["a", "b"]);
    assert_eq!(item_selection(&app), Some(0));
    press(&mut app, &mut store, ch('2'));
    press(&mut app, &mut store, shifted(KeyCode::Down));
    assert_eq!(shown_items(&app), ["a", "b"]);
    assert_eq!(item_selection(&app), Some(0));
    assert_eq!(app.number_modifier, 0);
}

#[test]
fn enter_toggles_the_selected_item() {
    let (mut app, mut store) = on_items(&["a", "b"]);
    press(&mut app, &mut store, plain(KeyCode::Enter));
    assert!(store.lists[0].1[0].is_done);
    assert!(app.lists_component.get_selected_list().unwrap().items[0].item.is_done);
    assert!(!app.lists_component.get_selected_list().unwrap().items[1].item.is_done);
    press(&mut app, &mut store, plain(KeyCode::Enter));
    assert!(!app.lists_component.get_selected_list().unwrap().items[0].item.is_done);
    assert_eq!(item_selection(&app), Some(0));
}

#[test]
fn delete_item_keeps_the_index_or_takes_the_new_last() {
    let (mut app, mut store) = on_items(&["a", "b", "c"]);
    press(&mut app, &mut store, ch('j'));
    press(&mut app, &mut store, ch('d'));
    assert_eq!(shown_items(&app), ["a", "c"]);
    assert_eq!(item_selection(&app), Some(1));
    press(&mut app, &mut store, ch('d'));
    assert_eq!(shown_items(&app), ["a"]);
    assert_eq!(item_selection(&app), Some(0));
    press(&mut app, &mut store, ch('d'));
    assert!(shown_items(&app).is_empty());
    assert_eq!(item_selection(&app), None);
    press(&mut app, &mut store, ch('d'));
    assert_eq!(store.log.len(), 3);
}

#[test]
fn counted_item_motion() {
    let (mut app, mut store) = on_items(&["a", "b", "c", "d", "e", "f"]);
    press(&mut app, &mut store, ch('3'));
    press(&mut app, &mut store, ch('j'));
    assert_eq!(item_selection(&app), Some(3));
    assert_eq!(app.number_modifier, 0);
    press(&mut app, &mut store, ch('9'));
    press(&mut app, &mut store, plain(KeyCode::Down));
    assert_eq!(item_selection(&app), Some(5));
    press(&mut app, &mut store, ch('2'));
    press(&mut app, &mut store, ch('k'));
    assert_eq!(item_selection(&app), Some(3));
    press(&mut app, &mut store, ch('1'));
    press(&mut app, &mut store, ch('5'));
    press(&mut app, &mut store, plain(KeyCode::Up));
    assert_eq!(item_selection(&app), Some(0));
    press(&mut app, &mut store, ch('k'));
    assert_eq!(item_selection(&app), Some(5));
    press(&mut app, &mut store, ch('j'));
    assert_eq!(item_selection(&app), Some(0));
}

#[test]
fn counted_item_moves_are_clamped() {
    let (mut app, mut store) = on_items(&["a", "b", "c", "d"]);
    let list_id = store.lists[0].0.id;
    press(&mut app, &mut store, ch('j'));
    press(&mut app, &mut store, ch('2'));
    press(&mut app, &mut store, shifted(KeyCode::Char('J')));
    assert_eq!(store.item_names(list_id), ["a", "c", "d", "b"]);
    assert_eq!(shown_items(&app), ["a", "c", "d", "b"]);
    assert_eq!(item_selection(&app), Some(3));
    assert_eq!(app.number_modifier, 0);
    press(&mut app, &mut store, shifted(KeyCode::Down));
    assert_eq!(store.item_names(list_id), ["a", "c", "d", "b"]);
    assert_eq!(item_selection(&app), Some(3));
    press(&mut app, &mut store, shifted(KeyCode::Up));
    assert_eq!(store.item_names(list_id), ["a", "c", "b", "d"]);
    assert_eq!(item_selection(&app), Some(2));
    press(&mut app, &mut store, ch('7'));
    press(&mut app, &mut store, shifted(KeyCode::Char('K')));
    assert_eq!(store.item_names(list_id), ["b", "a", "c", "d"]);
    assert_eq!(item_selection(&app), Some(0));
    assert_eq!(app.number_modifier, 0);
    assert!(matches!(
        store.perform(&Command::Nothing),
        Outcome::Done
    ));
    assert!(store.log[store.log.len() - 2].contains("amount: 2"));
}

#[test]
fn g_g_jumps_to_the_first_item() {
    let (mut app, mut store) = on_items(&["a", "b", "c"]);
    press(&mut app, &mut store, ch('j'));
    press(&mut app, &mut store, ch('j'));
    assert_eq!(item_selection(&app), Some(2));
    press(&mut app, &mut store, ch('g'));
    assert_eq!(app.key_sequence, KeySequence::AwaitingSecondKey);
    assert_eq!(item_selection(&app), Some(2));
    press(&mut app, &mut store, ch('g'));
    assert_eq!(app.key_sequence, KeySequence::Idle);
    assert_eq!(item_selection(&app), Some(0));
    assert_eq!(app.keys_buffer.last().unwrap(), &("g".to_string(), false));
}

#[test]
fn another_key_cancels_the_sequence_and_is_handled() {
    let (mut app, mut store) = on_items(&["a", "b", "c"]);
    press(&mut app, &mut store, ch('j'));
    press(&mut app, &mut store, ch('g'));
    press(&mut app, &mut store, ch('j'));
    assert_eq!(app.key_sequence, KeySequence::Idle);
    assert_eq!(item_selection(&app), Some(2));
    press(&mut app, &mut store, ch('g'));
    assert_eq!(app.key_sequence, KeySequence::AwaitingSecondKey);
    assert_eq!(item_selection(&app), Some(2));
    press(&mut app, &mut store, ch('x'));
    assert_eq!(app.key_sequence, KeySequence::Idle);
    press(&mut app, &mut store, ch('g'));
    assert_eq!(item_selection(&app), Some(2));
    press(&mut app, &mut store, ch('q'));
    assert!(app.exit);
    assert_eq!(app.key_sequence, KeySequence::Idle);
}

#[test]
fn g_means_nothing_on_the_list_screen() {
    let mut store = Store::new(&["A", "B"]);
    let mut app = app_with(&store);
    press(&mut app, &mut store, ch('k'));
    press(&mut app, &mut store, ch('g'));
    press(&mut app, &mut store, ch('g'));
    assert_eq!(app.key_sequence, KeySequence::Idle);
    assert_eq!(app.lists_component.selected(), Some(1));
}

#[test]
fn capital_g_jumps_to_the_last_item() {
    let (mut app, mut store) = on_items(&["a", "b", "c"]);
    press(&mut app, &mut store, shifted(KeyCode::Char('G')));
    assert_eq!(item_selection(&app), Some(2));
    press(&mut app, &mut store, ch('h'));
    press(&mut app, &mut store, plain(KeyCode::Tab));
    press(&mut app, &mut store, shifted(KeyCode::Char('G')));
    assert_eq!(item_selection(&app), None);
}

#[test]
fn database_screen_moves_the_highlight() {
    let mut store = Store::new(&[]);
    let mut app = app_with(&store);
    press(&mut app, &mut store, shifted(KeyCode::BackTab));
    assert_eq!(app.current_screen, CurrentScreen::DBSelection);
    press(&mut app, &mut store, ch('j'));
    assert_eq!(app.selected_db_index, 1);
    press(&mut app, &mut store, plain(KeyCode::Down));
    assert_eq!(app.selected_db_index, 0);
    press(&mut app, &mut store, ch('k'));
    assert_eq!(app.selected_db_index, 1);
    press(&mut app, &mut store, plain(KeyCode::Up));
    assert_eq!(app.selected_db_index, 0);
    press(&mut app, &mut store, ch('5'));
    press(&mut app, &mut store, ch('j'));
    assert_eq!(app.selected_db_index, 1);
    assert_eq!(app.number_modifier, 0);
    press(&mut app, &mut store, ch('5'));
    press(&mut app, &mut store, ch('k'));
    assert_eq!(app.selected_db_index, 0);
}

#[test]
fn enter_opens_the_highlighted_database() {
    let mut store = Store::new(&["A", "B"]);
    let mut app = App::new(config(&["dojo", "work"]), DBConfig::sqlite("dojo".into(), "/x"), vec![]);
    press(&mut app, &mut store, shifted(KeyCode::BackTab));
    press(&mut app, &mut store, ch('j'));
    press(&mut app, &mut store, plain(KeyCode::Enter));
    assert_eq!(app.current_db_config.name, "work");
    assert_eq!(app.current_db_config.connection_str, "sqlite:/data/work.db");
    assert_eq!(shown_lists(&app), ["A", "B"]);
    assert_eq!(app.lists_component.selected(), Some(0));
    assert_eq!(app.current_screen, CurrentScreen::DBSelection);
    assert_eq!(app.config.default, "dojo");
    assert_eq!(store.saved, 0);
}

#[test]
fn s_opens_the_database_and_makes_it_the_default() {
    let mut store = Store::new(&["A"]);
    let mut app = App::new(config(&["dojo", "work"]), DBConfig::sqlite("dojo".into(), "/x"), vec![]);
    press(&mut app, &mut store, shifted(KeyCode::BackTab));
    press(&mut app, &mut store, ch('j'));
    press(&mut app, &mut store, ch('s'));
    assert_eq!(app.current_db_config.name, "work");
    assert_eq!(app.config.default, "work");
    assert_eq!(app.current_screen, CurrentScreen::ListSelection);
    assert_eq!(store.saved, 1);
    assert_eq!(shown_lists(&app), ["A"]);
}

#[test]
fn failed_open_keeps_the_open_database() {
    let mut store = Store::new(&["A"]);
    let mut app = app_with(&store);
    press(&mut app, &mut store, shifted(KeyCode::BackTab));
    press(&mut app, &mut store, ch('j'));
    store.failing = true;
    press(&mut app, &mut store, plain(KeyCode::Enter));
    assert_eq!(app.current_db_config.name, "dojo");
    assert_eq!(app.current_screen, CurrentScreen::DBSelection);
    assert_eq!(shown_lists(&app), ["A"]);
}

#[test]
fn add_database_registers_and_reveals_it() {
    let mut store = Store::new(&[]);
    let mut app = app_with(&store);
    press(&mut app, &mut store, shifted(KeyCode::BackTab));
    press(&mut app, &mut store, ch('a'));
    assert_eq!(app.current_screen, CurrentScreen::AddDB);
    press(&mut app, &mut store, plain(KeyCode::Enter));
    assert_eq!(app.current_screen, CurrentScreen::AddDB);
    type_text(&mut app, &mut store, "home");
    press(&mut app, &mut store, plain(KeyCode::Enter));
    assert_eq!(app.config.dbs.len(), 3);
    assert_eq!(app.config.dbs[2].name, "home");
    assert_eq!(app.config.dbs[2].connection_str, "sqlite:/data/home.db");
    assert_eq!(app.config.default, "dojo");
    assert_eq!(app.selected_db_index, 2);
    assert_eq!(app.current_screen, CurrentScreen::DBSelection);
    assert_eq!(app.input_state.get_text(), "");
    assert_eq!(store.saved, 1);
    press(&mut app, &mut store, ch('a'));
    type_text(&mut app, &mut store, "x");
    press(&mut app, &mut store, plain(KeyCode::Esc));
    assert_eq!(app.current_screen, CurrentScreen::DBSelection);
    assert_eq!(app.config.dbs.len(), 3);
}

#[test]
fn failed_database_creation_keeps_the_entry_screen() {
    let mut store = Store::new(&[]);
    let mut app = app_with(&store);
    press(&mut app, &mut store, shifted(KeyCode::BackTab));
    press(&mut app, &mut store, ch('a'));
    type_text(&mut app, &mut store, "home");
    store.failing = true;
    press(&mut app, &mut store, plain(KeyCode::Enter));
    assert_eq!(app.current_screen, CurrentScreen::AddDB);
    assert_eq!(app.input_state.get_text(), "home");
    assert_eq!(app.config.dbs.len(), 2);
}

#[test]
fn modify_database_renames_it() {
    let mut store = Store::new(&[]);
    let mut app = app_with(&store);
    press(&mut app, &mut store, shifted(KeyCode::BackTab));
    press(&mut app, &mut store, ch('m'));
    assert_eq!(app.current_screen, CurrentScreen::ModifyDB);
    assert_eq!(app.input_state.get_text(), "dojo");
    assert!(app.input_state.is_modifying);
    assert_eq!(app.input_state.id, None);
    type_text(&mut app, &mut store, "my");
    press(&mut app, &mut store, plain(KeyCode::Enter));
    assert_eq!(app.config.dbs[0].name, "mydojo");
    assert_eq!(app.config.default, "mydojo");
    assert_eq!(app.current_screen, CurrentScreen::DBSelection);
    assert_eq!(app.input_state.get_text(), "");
    assert_eq!(store.saved, 1);
}

#[test]
fn delete_database_asks_first() {
    let mut store = Store::new(&[]);
    let mut app = app_with(&store);
    press(&mut app, &mut store, shifted(KeyCode::BackTab));
    press(&mut app, &mut store, ch('j'));
    press(&mut app, &mut store, ch('d'));
    assert_eq!(app.current_screen, CurrentScreen::DeleteDatabaseConfirmation);
    assert!(matches!(&app.pending_delete, PendingDelete::Database(name) if name == "work"));
    press(&mut app, &mut store, ch('N'));
    assert_eq!(app.current_screen, CurrentScreen::DBSelection);
    assert_eq!(app.config.dbs.len(), 2);
    assert!(matches!(app.pending_delete, PendingDelete::Nothing));
    press(&mut app, &mut store, ch('d'));
    press(&mut app, &mut store, ch('y'));
    assert_eq!(app.current_screen, CurrentScreen::DBSelection);
    assert_eq!(app.config.dbs.len(), 1);
    assert_eq!(app.config.dbs[0].name, "dojo");
    assert_eq!(app.selected_db_index, 0);
    assert_eq!(store.saved, 1);
    press(&mut app, &mut store, ch('d'));
    press(&mut app, &mut store, ch('y'));
    assert_eq!(app.config.dbs.len(), 0);
    assert_eq!(app.config.default, "");
    assert_eq!(app.selected_db_index, 0);
    press(&mut app, &mut store, ch('d'));
    assert_eq!(app.current_screen, CurrentScreen::DBSelection);
    press(&mut app, &mut store, ch('m'));
    press(&mut app, &mut store, ch('s'));
    press(&mut app, &mut store, plain(KeyCode::Enter));
    press(&mut app, &mut store, ch('j'));
    press(&mut app, &mut store, ch('k'));
    assert_eq!(app.current_screen, CurrentScreen::DBSelection);
    assert_eq!(app.selected_db_index, 0);
}

#[test]
fn screen_transitions_by_name() {
    let mut store = Store::new(&["A"]);
    let list_id = store.lists[0].0.id;
    store.create_item(list_id, "a");
    let mut app = app_with(&store);
    app.enter_add_item_screen();
    assert_eq!(app.current_screen, CurrentScreen::ListSelection);
    app.enter_add_list_screen();
    assert_eq!(app.current_screen, CurrentScreen::AddList);
    app.exit_add_or_modify_list_without_saving();
    assert_eq!(app.current_screen, CurrentScreen::ListSelection);
    let list = store.lists[0].0.clone();
    app.enter_modify_list_screen(&list);
    assert_eq!(app.current_screen, CurrentScreen::ModifyList);
    assert_eq!(app.input_state.get_text(), "A");
    app.go_back();
    assert_eq!(app.current_screen, CurrentScreen::ListSelection);
    app.lists_component.select_next();
    app.enter_add_item_screen();
    assert_eq!(app.current_screen, CurrentScreen::AddItem);
    assert_eq!(app.input_state.get_text(), "");
    app.exit_add_item_without_saving();
    assert_eq!(app.current_screen, CurrentScreen::ItemSelection);
    let mut ui_list = UIList::new(store.lists[0].0.clone(), store.read_items(list_id));
    app.enter_modify_item_screen(&ui_list);
    assert_eq!(app.current_screen, CurrentScreen::ItemSelection);
    ui_list.item_state.select_first();
    app.enter_modify_item_screen(&ui_list);
    assert_eq!(app.current_screen, CurrentScreen::ModifyItem);
    assert_eq!(app.input_state.get_text(), "a");
    app.selected_db_index = 1;
    app.enter_change_db_screen();
    assert_eq!(app.current_screen, CurrentScreen::DBSelection);
    assert_eq!(app.selected_db_index, 0);
    app.enter_add_db_screen();
    assert_eq!(app.current_screen, CurrentScreen::AddDB);
    app.exit_add_db_without_saving();
    assert_eq!(app.current_screen, CurrentScreen::DBSelection);
    app.enter_modify_db_screen();
    assert_eq!(app.current_screen, CurrentScreen::ModifyDB);
    app.exit_modify_db_without_saving();
    assert_eq!(app.current_screen, CurrentScreen::DBSelection);
    app.exit_change_db_without_saving();
    assert_eq!(app.current_screen, CurrentScreen::DBSelection);
    assert!(CurrentScreen::DBSelection.is_main());
    assert!(!CurrentScreen::Help.is_main());
    assert_eq!(CurrentScreen::Help.next(), CurrentScreen::ListSelection);
    assert_eq!(CurrentScreen::AddDB.previous(), CurrentScreen::ListSelection);
}

#[test]
fn outcomes_for_other_work_are_ignored() {
    let mut store = Store::new(&["A"]);
    let list_id = store.lists[0].0.id;
    store.create_item(list_id, "a");
    let mut app = app_with(&store);
    app.lists_component.select_next();
    let next = EventHandler::complete(
        &mut app,
        Command::DeleteItem { list_id: list_id + 100, id: 1 },
        Outcome::Items(vec![]),
    );
    assert!(next.is_nothing());
    assert_eq!(shown_items(&app), ["a"]);
    let next = EventHandler::complete(
        &mut app,
        Command::DeleteItem { list_id, id: 1 },
        Outcome::Lists(vec![]),
    );
    assert!(next.is_nothing());
    assert_eq!(shown_lists(&app), ["A"]);
    let next = EventHandler::complete(&mut app, Command::DeleteList { id: 1 }, Outcome::Done);
    assert!(next.is_nothing());
    assert_eq!(shown_lists(&app), ["A"]);
    let next = EventHandler::complete(
        &mut app,
        Command::SaveConfig { config: config(&["x"]), after: AfterSave::Reveal },
        Outcome::Failed,
    );
    assert!(next.is_nothing());
    assert_eq!(app.current_screen, CurrentScreen::ListSelection);
    assert_eq!(app.config.dbs.len(), 2);
    let next = EventHandler::complete(&mut app, Command::Nothing, Outcome::Lists(vec![]));
    assert!(next.is_nothing());
    assert_eq!(shown_lists(&app), ["A"]);
}

#[test]
fn states_made_by_the_library_are_valid() {
    let (mut app, mut store) = on_items(&["a", "b", "c"]);
    assert!(app.is_valid());
    for key in [
        ch('3'), ch('j'), shifted(KeyCode::Up), ch('d'), ch('a'), ch('x'),
        plain(KeyCode::Enter), ch('h'), ch('d'), ch('y'), plain(KeyCode::Tab), ch(' '),
        ch('3'), ch('d'), ch('y'), ch('a'), ch('n'), plain(KeyCode::Enter),
    ] {
        press(&mut app, &mut store, key);
        assert!(app.is_valid());
        assert!(app.lists_component.is_valid());
    }
    app.selected_db_index = 7;
    assert!(!app.is_valid());
    app.selected_db_index = 0;
    app.input_state.cursor_pos = 40;
    assert!(!app.is_valid());
    app.input_state.cursor_pos = 0;
    app.current_screen = CurrentScreen::DeleteListConfirmation;
    assert!(!app.is_valid());
    app.pending_delete = PendingDelete::List("A".to_string());
    assert!(app.is_valid());
    app.last_active_screen = CurrentScreen::Help;
    assert!(!app.is_valid());
}

#[test]
fn inconsistent_lists_are_recognised() {
    let store = Store::new(&["A"]);
    let mut lists = store.read_lists();
    assert!(Outcome::Lists(store.read_lists()).is_valid());
    assert!(Outcome::Failed.is_valid());
    assert!(lists[0].is_valid());
    lists[0].item_state.len = 3;
    assert!(!lists[0].is_valid());
    lists[0].item_state.selected = Some(3);
    assert!(!lists[0].item_state.is_valid());
    assert!(!Outcome::Lists(lists).is_valid());
}

#[test]
fn failed_save_keeps_the_settings_and_the_entry_screen() {
    let mut store = Store::new(&[]);
    let mut app = app_with(&store);
    press(&mut app, &mut store, shifted(KeyCode::BackTab));
    press(&mut app, &mut store, ch('m'));
    type_text(&mut app, &mut store, "my");
    store.failing = true;
    press(&mut app, &mut store, plain(KeyCode::Enter));
    assert_eq!(app.current_screen, CurrentScreen::ModifyDB);
    assert_eq!(app.input_state.get_text(), "mydojo");
    assert_eq!(app.config.dbs[0].name, "dojo");
    assert_eq!(app.config.default, "dojo");
    press(&mut app, &mut store, plain(KeyCode::Esc));
    assert_eq!(app.current_screen, CurrentScreen::DBSelection);
    press(&mut app, &mut store, ch('d'));
    press(&mut app, &mut store, ch('y'));
    assert_eq!(app.current_screen, CurrentScreen::DBSelection);
    assert_eq!(app.config.dbs.len(), 2);
    assert!(matches!(app.pending_delete, PendingDelete::Nothing));
    press(&mut app, &mut store, ch('j'));
    press(&mut app, &mut store, ch('s'));
    assert_eq!(app.config.default, "dojo");
    assert_eq!(app.current_db_config.name, "dojo");
}

#[test]
fn blank_database_names_are_not_submitted() {
    let mut store = Store::new(&[]);
    let mut app = app_with(&store);
    press(&mut app, &mut store, shifted(KeyCode::BackTab));
    press(&mut app, &mut store, ch('m'));
    for _ in 0..4 {
        press(&mut app, &mut store, plain(KeyCode::Delete));
    }
    press(&mut app, &mut store, ch(' '));
    press(&mut app, &mut store, plain(KeyCode::Enter));
    assert_eq!(app.current_screen, CurrentScreen::ModifyDB);
    assert_eq!(app.input_state.get_text(), " ");
    assert_eq!(app.config.dbs[0].name, "dojo");
    assert!(store.log.is_empty());
}

#[test]
fn entering_the_database_screen_highlights_the_open_database() {
    let mut store = Store::new(&[]);
    let config = config(&["dojo", "work", "home"]);
    let current = config.dbs[1].clone();
    let mut app = App::new(config, current, vec![]);
    assert_eq!(app.selected_db_index, 1);
    press(&mut app, &mut store, shifted(KeyCode::BackTab));
    press(&mut app, &mut store, ch('j'));
    assert_eq!(app.selected_db_index, 2);
    press(&mut app, &mut store, plain(KeyCode::Tab));
    assert_eq!(app.current_screen, CurrentScreen::ListSelection);
    assert_eq!(app.selected_db_index, 2);
    press(&mut app, &mut store, shifted(KeyCode::BackTab));
    assert_eq!(app.current_screen, CurrentScreen::DBSelection);
    assert_eq!(app.selected_db_index, 1);
    press(&mut app, &mut store, ch('k'));
    assert_eq!(app.selected_db_index, 0);
    press(&mut app, &mut store, ch(' '));
    press(&mut app, &mut store, ch('3'));
    assert_eq!(app.current_screen, CurrentScreen::DBSelection);
    assert_eq!(app.selected_db_index, 1);
}

#[test]
fn a_change_of_screen_ends_the_count() {
    let mut store = Store::new(&["A", "B", "C"]);
    let mut app = app_with(&store);
    press(&mut app, &mut store, ch('2'));
    press(&mut app, &mut store, plain(KeyCode::Tab));
    assert_eq!(app.current_screen, CurrentScreen::ItemSelection);
    assert_eq!(app.number_modifier, 0);
    press(&mut app, &mut store, shifted(KeyCode::BackTab));
    press(&mut app, &mut store, ch('2'));
    press(&mut app, &mut store, ch('a'));
    assert_eq!(app.current_screen, CurrentScreen::AddList);
    assert_eq!(app.number_modifier, 0);
    press(&mut app, &mut store, plain(KeyCode::Esc));
    press(&mut app, &mut store, ch('2'));
    press(&mut app, &mut store, ch('x'));
    assert_eq!(app.number_modifier, 2);
    press(&mut app, &mut store, KeyEvent::new(KeyCode::Char('h'), KeyModifiers::control()));
    assert_eq!(app.current_screen, CurrentScreen::Help);
    assert_eq!(app.number_modifier, 0);
}

#[test]
fn settings_commands_carry_the_settings_to_write() {
    let store = Store::new(&[]);
    let mut app = app_with(&store);
    app.selected_db_index = 1;
    match app.set_selected_db_as_default() {
        Command::SaveConfig { config, after } => {
            assert_eq!(config.default, "work");
            assert_eq!(config.dbs.len(), 2);
            assert_eq!(after, AfterSave::Keep);
        }
        other => panic!("unexpected command: {:?}", other),
    }
    match app.delete_selected_db() {
        Command::SaveConfig { config, after } => {
            assert_eq!(config.dbs.len(), 1);
            assert_eq!(config.dbs[0].name, "dojo");
            assert_eq!(after, AfterSave::Resync);
        }
        other => panic!("unexpected command: {:?}", other),
    }
    match app.modify_selected_db("office".to_string()) {
        Command::SaveConfig { config, after } => {
            assert_eq!(config.dbs[1].name, "office");
            assert_eq!(config.default, "dojo");
            assert_eq!(after, AfterSave::Close);
        }
        other => panic!("unexpected command: {:?}", other),
    }
    match app.create_new_database(DBConfig::sqlite("home".into(), "/h.db"), true) {
        Command::SaveConfig { config, after } => {
            assert_eq!(config.dbs.len(), 3);
            assert_eq!(config.default, "home");
            assert_eq!(after, AfterSave::Reveal);
        }
        other => panic!("unexpected command: {:?}", other),
    }
    assert_eq!(app.config.dbs.len(), 2);
    assert_eq!(app.config.default, "dojo");
    app.install_config(config(&["only"]), AfterSave::Keep);
    assert_eq!(app.selected_db_index, 0);
    assert_eq!(app.config.dbs.len(), 1);
    app.selected_db_index = 9;
    assert!(app.set_selected_db_as_default().is_nothing());
    assert!(app.delete_selected_db().is_nothing());
    assert!(app.modify_selected_db("x".to_string()).is_nothing());
    assert!(app.switch_to_selected_db(false).is_nothing());
}

#[test]
fn a_change_of_screen_empties_the_recent_keys() {
    let mut store = Store::new(&["A", "B", "C"]);
    let mut app = app_with(&store);
    press(&mut app, &mut store, ch('2'));
    assert_eq!(app.recent_keys(), ["2"]);
    press(&mut app, &mut store, plain(KeyCode::Tab));
    assert!(app.keys_buffer.is_empty());
    press(&mut app, &mut store, ch('j'));
    press(&mut app, &mut store, ch('j'));
    assert_eq!(app.keys_buffer.len(), 2);
    press(&mut app, &mut store, ch('h'));
    assert_eq!(app.current_screen, CurrentScreen::ListSelection);
    assert!(app.keys_buffer.is_empty());
    press(&mut app, &mut store, ch('k'));
    assert_eq!(app.keys_buffer, [("k".to_string(), false)]);
    press(&mut app, &mut store, ch('a'));
    assert!(app.keys_buffer.is_empty());
    press(&mut app, &mut store, ch('x'));
    assert!(app.keys_buffer.is_empty());
    press(&mut app, &mut store, plain(KeyCode::Enter));
    assert_eq!(app.current_screen, CurrentScreen::ListSelection);
    press(&mut app, &mut store, ch(' '));
    assert_eq!(app.current_screen, CurrentScreen::LeaderHelp);
    assert!(app.keys_buffer.is_empty());
}

#[test]
fn submitting_a_list_name() {
    let mut store = Store::new(&["A"]);
    let mut app = app_with(&store);
    press(&mut app, &mut store, ch('a'));
    type_text(&mut app, &mut store, "Groceries");
    assert!(EventHandler::submit_list_name(&mut app, true).is_nothing());
    assert_eq!(app.current_screen, CurrentScreen::AddList);
    assert_eq!(app.input_state.get_text(), "Groceries");
    match EventHandler::submit_list_name(&mut app, false) {
        Command::CreateList(new_list) => assert_eq!(new_list.name, "Groceries"),
        other => panic!("unexpected command: {:?}", other),
    }
    assert_eq!(app.current_screen, CurrentScreen::AddList);
    assert_eq!(app.input_state.get_text(), "Groceries");
    press(&mut app, &mut store, plain(KeyCode::Esc));
    press(&mut app, &mut store, ch('j'));
    press(&mut app, &mut store, ch('m'));
    type_text(&mut app, &mut store, "x");
    match EventHandler::submit_list_name(&mut app, false) {
        Command::RenameList { id, name } => {
            assert_eq!(id, store.lists[0].0.id);
            assert_eq!(name, "xA");
        }
        other => panic!("unexpected command: {:?}", other),
    }
    assert_eq!(app.current_screen, CurrentScreen::ModifyList);
    app.lists_component.list_state.deselect();
    assert!(EventHandler::submit_list_name(&mut app, false).is_nothing());
    assert_eq!(app.current_screen, CurrentScreen::ListSelection);
    assert_eq!(app.input_state.get_text(), "");
}

#[test]
fn submitting_an_item_name() {
    let (mut app, _store) = on_items(&["a", "b"]);
    app.enter_add_item_screen();
    app.input_state.add_char('c');
    assert!(EventHandler::submit_item_name(&mut app, true).is_nothing());
    assert_eq!(app.current_screen, CurrentScreen::AddItem);
    match EventHandler::submit_item_name(&mut app, false) {
        Command::CreateItem(new_item) => {
            assert_eq!(new_item.name, "c");
            assert_eq!(new_item.list_id, app.lists_component.lists[0].list.id);
            assert_eq!(new_item.priority, None);
            assert_eq!(new_item.due_date, None);
        }
        other => panic!("unexpected command: {:?}", other),
    }
    assert_eq!(app.input_state.get_text(), "c");
    app.input_state.is_modifying = true;
    match EventHandler::submit_item_name(&mut app, false) {
        Command::RenameItem { list_id, id, name } => {
            assert_eq!(list_id, app.lists_component.lists[0].list.id);
            assert_eq!(id, app.lists_component.lists[0].items[0].item.id);
            assert_eq!(name, "c");
        }
        other => panic!("unexpected command: {:?}", other),
    }
    assert_eq!(app.current_screen, CurrentScreen::AddItem);
    app.lists_component.lists[0].item_state.deselect();
    assert!(EventHandler::submit_item_name(&mut app, false).is_nothing());
    assert_eq!(app.current_screen, CurrentScreen::ItemSelection);
    assert_eq!(app.input_state.get_text(), "");
    app.enter_add_item_screen();
    app.input_state.add_char('d');
    app.lists_component.list_state.deselect();
    assert!(EventHandler::submit_item_name(&mut app, false).is_nothing());
    assert_eq!(app.current_screen, CurrentScreen::AddItem);
    assert_eq!(app.input_state.get_text(), "d");
}

#[test]
fn submitting_database_names() {
    let store = Store::new(&[]);
    let mut app = app_with(&store);
    app.enter_add_db_screen();
    app.input_state.add_char('h');
    assert!(EventHandler::submit_database_name(&mut app, true).is_nothing());
    match EventHandler::submit_database_name(&mut app, false) {
        Command::CreateDatabase { name } => assert_eq!(name, "h"),
        other => panic!("unexpected command: {:?}", other),
    }
    assert_eq!(app.current_screen, CurrentScreen::AddDB);
    assert_eq!(app.input_state.get_text(), "h");
    app.exit_add_db_without_saving();
    app.enter_modify_db_screen();
    app.input_state.add_char('x');
    assert!(EventHandler::submit_database_rename(&mut app, true).is_nothing());
    assert_eq!(app.current_screen, CurrentScreen::ModifyDB);
    match EventHandler::submit_database_rename(&mut app, false) {
        Command::SaveConfig { config, after } => {
            assert_eq!(config.dbs[0].name, "xdojo");
            assert_eq!(config.default, "xdojo");
            assert_eq!(after, AfterSave::Close);
        }
        other => panic!("unexpected command: {:?}", other),
    }
    assert_eq!(app.current_screen, CurrentScreen::ModifyDB);
    assert_eq!(app.config.dbs[0].name, "dojo");
    app.config.dbs.clear();
    assert!(EventHandler::submit_database_rename(&mut app, false).is_nothing());
    assert_eq!(app.current_screen, CurrentScreen::DBSelection);
    assert_eq!(app.input_state.get_text(), "");
}
