use gottodo::session::{Effect, Key, KeyPress, Mode, Session};
use gottodo::store::{recover_tasks, StoreRead};
use gottodo::task::Task;

fn key(k: Key) -> KeyPress {
    KeyPress { key: k, ctrl: false }
}

fn ch(c: char) -> KeyPress {
    key(Key::Char(c))
}

fn ctrl_space() -> KeyPress {
    KeyPress { key: Key::Char(' '), ctrl: true }
}

fn task(text: &str, done: bool) -> Task {
    Task { text: text.to_string(), done }
}

fn session_of(texts: &[&str]) -> Session {
    Session::new(texts.iter().map(|t| task(t, false)).collect())
}

fn pairs(s: &Session) -> Vec<(String, bool)> {
    s.tasks.iter().map(|t| (t.text.clone(), t.done)).collect()
}

/// Applies the keys, writing the list to `store` on each save.
fn run(s: &mut Session, keys: &[KeyPress], store: &mut Vec<(String, bool)>) -> bool {
    for k in keys {
        match s.handle_key(*k) {
            Effect::Save => *store = pairs(s),
            Effect::Quit => return true,
            Effect::Nothing => {}
        }
    }
    false
}

fn type_text(s: &mut Session, text: &str) {
    assert_eq!(s.handle_key(ch('a')), Effect::Nothing);
    for c in text.chars() {
        assert_eq!(s.handle_key(ch(c)), Effect::Nothing);
    }
}

#[test]
fn down_stops_at_last_task() {
    let mut s = session_of(&["a", "b", "c"]);
    for _ in 0..10 {
        s.handle_key(key(Key::Down));
    }
    assert_eq!(s.selected, 2);
    s.handle_key(key(Key::Up));
    assert_eq!(s.selected, 1);
}

#[test]
fn up_stops_at_zero() {
    let mut s = session_of(&["a", "b"]);
    for _ in 0..5 {
        s.handle_key(key(Key::Up));
    }
    assert_eq!(s.selected, 0);
}

#[test]
fn navigation_on_empty_list_stays_at_zero() {
    let mut s = session_of(&[]);
    s.handle_key(key(Key::Down));
    s.handle_key(key(Key::Down));
    assert_eq!(s.selected, 0);
    s.handle_key(key(Key::Up));
    assert_eq!(s.selected, 0);
}

#[test]
fn delete_last_reclamps_selection() {
    let mut s = session_of(&["a", "b", "c"]);
    s.handle_key(key(Key::Down));
    s.handle_key(key(Key::Down));
    assert_eq!(s.handle_key(ch('d')), Effect::Nothing);
    assert!(matches!(s.mode, Mode::ConfirmingDelete));
    assert_eq!(s.handle_key(ch('y')), Effect::Save);
    assert_eq!(pairs(&s), vec![("a".to_string(), false), ("b".to_string(), false)]);
    assert_eq!(s.selected, 1);
    assert!(matches!(s.mode, Mode::Normal));
}

#[test]
fn delete_middle_keeps_selection() {
    let mut s = session_of(&["a", "b", "c"]);
    s.handle_key(key(Key::Down));
    s.handle_key(ch('d'));
    assert_eq!(s.handle_key(ch('Y')), Effect::Save);
    assert_eq!(pairs(&s), vec![("a".to_string(), false), ("c".to_string(), false)]);
    assert_eq!(s.selected, 1);
}

#[test]
fn delete_only_task_leaves_selection_zero() {
    let mut s = session_of(&["only"]);
    s.handle_key(ch('d'));
    assert_eq!(s.handle_key(ch('y')), Effect::Save);
    assert!(s.tasks.is_empty());
    assert_eq!(s.selected, 0);
}

#[test]
fn delete_on_empty_list_does_not_ask() {
    let mut s = session_of(&[]);
    assert_eq!(s.handle_key(ch('d')), Effect::Nothing);
    assert!(matches!(s.mode, Mode::Normal));
}

#[test]
fn confirm_ignores_other_keys() {
    let mut s = session_of(&["a"]);
    s.handle_key(ch('d'));
    assert_eq!(s.handle_key(ch('x')), Effect::Nothing);
    assert!(matches!(s.mode, Mode::ConfirmingDelete));
    assert_eq!(s.handle_key(key(Key::Esc)), Effect::Nothing);
    assert!(matches!(s.mode, Mode::Normal));
    assert_eq!(s.tasks.len(), 1);
}

#[test]
fn whitespace_input_adds_nothing() {
    let mut s = session_of(&["a"]);
    type_text(&mut s, "  \t  ");
    assert_eq!(s.handle_key(key(Key::Enter)), Effect::Nothing);
    assert_eq!(pairs(&s), vec![("a".to_string(), false)]);
    assert!(matches!(s.mode, Mode::Normal));
}

#[test]
fn input_is_trimmed_and_appended() {
    let mut s = session_of(&["first"]);
    type_text(&mut s, "  buy milk  ");
    assert_eq!(s.handle_key(key(Key::Enter)), Effect::Save);
    assert_eq!(
        pairs(&s),
        vec![("first".to_string(), false), ("buy milk".to_string(), false)]
    );
    assert!(matches!(s.mode, Mode::Normal));
}

#[test]
fn backspace_and_escape_edit_the_input() {
    let mut s = session_of(&[]);
    type_text(&mut s, "abc");
    s.handle_key(key(Key::Backspace));
    match &s.mode {
        Mode::AddingTask { input } => assert_eq!(input, "ab"),
        _ => panic!("expected to be adding a task"),
    }
    assert_eq!(s.handle_key(key(Key::Esc)), Effect::Nothing);
    assert!(matches!(s.mode, Mode::Normal));
    assert!(s.tasks.is_empty());
    s.handle_key(ch('a'));
    s.handle_key(key(Key::Backspace));
    match &s.mode {
        Mode::AddingTask { input } => assert_eq!(input, ""),
        _ => panic!("expected to be adding a task"),
    }
}

#[test]
fn toggle_twice_restores_task() {
    let mut s = session_of(&["a", "b"]);
    s.handle_key(key(Key::Down));
    assert_eq!(s.handle_key(ch(' ')), Effect::Save);
    assert_eq!(pairs(&s), vec![("a".to_string(), false), ("b".to_string(), true)]);
    assert_eq!(s.handle_key(ch(' ')), Effect::Save);
    assert_eq!(pairs(&s), vec![("a".to_string(), false), ("b".to_string(), false)]);
}

#[test]
fn toggle_on_empty_list_is_noop() {
    let mut s = session_of(&[]);
    assert_eq!(s.handle_key(ch(' ')), Effect::Nothing);
    assert!(s.tasks.is_empty());
}

#[test]
fn store_matches_list_after_every_mutation() {
    let mut s = session_of(&["x"]);
    let mut store = pairs(&s);
    let keys = [
        ch(' '),
        ch('a'),
        ch('n'),
        ch('e'),
        key(Key::Enter),
        key(Key::Down),
        ch('d'),
        ch('y'),
        ch(' '),
    ];
    for k in keys {
        run(&mut s, &[k], &mut store);
        assert_eq!(store, pairs(&s));
    }
    assert_eq!(store, vec![("x".to_string(), false)]);
}

#[test]
fn missing_store_gives_empty_list() {
    let r = recover_tasks(StoreRead::Missing);
    assert!(r.tasks.is_empty());
    assert!(r.create_store);
}

#[test]
fn corrupt_store_gives_empty_list() {
    let r = recover_tasks(StoreRead::Corrupt);
    assert!(r.tasks.is_empty());
    assert!(!r.create_store);
}

#[test]
fn loaded_store_is_kept() {
    let r = recover_tasks(StoreRead::Loaded(vec![task("a", true), task("b", false)]));
    assert_eq!(r.tasks.len(), 2);
    assert_eq!(r.tasks[0].text, "a");
    assert!(r.tasks[0].done);
    assert!(!r.create_store);
}

#[test]
fn add_toggle_delete_scenario() {
    let mut s = session_of(&[]);
    let mut store: Vec<(String, bool)> = Vec::new();
    let keys = [
        ch('a'),
        ch('a'),
        key(Key::Enter),
        ch('a'),
        ch('b'),
        key(Key::Enter),
        ch(' '),
        ch('d'),
        ch('y'),
        ch('q'),
    ];
    assert!(run(&mut s, &keys, &mut store));
    assert_eq!(pairs(&s), vec![("b".to_string(), false)]);
    assert_eq!(store, vec![("b".to_string(), false)]);
}

#[test]
fn declined_delete_changes_nothing() {
    let mut s = session_of(&["keep"]);
    let mut store = pairs(&s);
    assert!(!run(&mut s, &[ch('d'), ch('n')], &mut store));
    assert_eq!(pairs(&s), vec![("keep".to_string(), false)]);
    assert_eq!(store, vec![("keep".to_string(), false)]);
    assert!(matches!(s.mode, Mode::Normal));
}

#[test]
fn hidden_list_ignores_keys() {
    let mut s = session_of(&["a", "b"]);
    assert_eq!(s.handle_key(ctrl_space()), Effect::Nothing);
    assert!(!s.ui_visible);
    for k in [ch('a'), ch('d'), ch(' '), ch('h'), key(Key::Down), key(Key::Up)] {
        assert_eq!(s.handle_key(k), Effect::Nothing);
        assert!(matches!(s.mode, Mode::Normal));
        assert_eq!(s.selected, 0);
        assert_eq!(pairs(&s), vec![("a".to_string(), false), ("b".to_string(), false)]);
    }
    s.handle_key(ctrl_space());
    assert!(s.ui_visible);
    s.handle_key(key(Key::Down));
    assert_eq!(s.selected, 1);
    assert_eq!(s.handle_key(ch('q')), Effect::Quit);
}

#[test]
fn help_closes_on_any_key() {
    let mut s = session_of(&["a"]);
    s.handle_key(ch('h'));
    assert!(matches!(s.mode, Mode::ShowingHelp));
    assert_eq!(s.handle_key(ch('q')), Effect::Nothing);
    assert!(matches!(s.mode, Mode::Normal));
}
