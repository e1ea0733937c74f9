use gottodo::debug_log::{DebugLog, DEBUG_LOG_CAPACITY};
use gottodo::layout::{compose, Area};
use gottodo::render::{list_title, prompt_text, task_line};
use gottodo::session::{Key, KeyPress, Mode, Session};
use gottodo::task::Task;

fn screen_area() -> Area {
    Area { x: 0, y: 0, width: 100, height: 40 }
}

#[test]
fn normal_mode_shows_list_on_the_right() {
    let s = compose(screen_area(), &Mode::Normal, true, false);
    assert_eq!(s.list, Some(Area { x: 70, y: 0, width: 30, height: 40 }));
    assert_eq!(s.prompt, None);
    assert_eq!(s.help, None);
    assert_eq!(s.debug, None);
}

#[test]
fn prompt_and_debug_panes_stack_below() {
    let m = Mode::AddingTask { input: String::new() };
    let s = compose(screen_area(), &m, true, true);
    assert_eq!(s.prompt, Some(Area { x: 0, y: 29, width: 100, height: 3 }));
    assert_eq!(s.debug, Some(Area { x: 0, y: 32, width: 100, height: 8 }));
    assert_eq!(s.list, Some(Area { x: 70, y: 0, width: 30, height: 29 }));
}

#[test]
fn help_with_debug_puts_debug_second() {
    let s = compose(screen_area(), &Mode::ShowingHelp, false, true);
    assert_eq!(s.help, Some(Area { x: 0, y: 0, width: 100, height: 32 }));
    assert_eq!(s.debug, Some(Area { x: 0, y: 32, width: 100, height: 8 }));
    assert_eq!(s.list, None);
    assert_eq!(s.prompt, None);
}

#[test]
fn debug_log_evicts_oldest() {
    let mut log = DebugLog::new();
    for i in 0..25 {
        log.push(format!("line {}", i));
    }
    assert_eq!(log.lines.len(), DEBUG_LOG_CAPACITY);
    assert_eq!(log.lines[0], "line 5");
    assert_eq!(log.tail_text(3), "line 22\nline 23\nline 24");
}

#[test]
fn short_debug_log_shows_everything() {
    let mut log = DebugLog::new();
    assert_eq!(log.tail_text(6), "");
    log.push("one".to_string());
    log.push("two".to_string());
    assert_eq!(log.tail_text(6), "one\ntwo");
}

#[test]
fn task_lines_show_check_box() {
    let done = Task { text: "walk".to_string(), done: true };
    let open = Task { text: "read".to_string(), done: false };
    assert_eq!(task_line(&done), "[x] walk");
    assert_eq!(task_line(&open), "[ ] read");
}

#[test]
fn titles_and_prompts_follow_mode() {
    assert_eq!(list_title(&Mode::Normal), "TODO (h=help)");
    assert_eq!(list_title(&Mode::ShowingHelp), "TODO");
    let mut s = Session::new(vec![Task::new("milk".to_string())]);
    assert_eq!(prompt_text(&s), None);
    s.handle_key(KeyPress { key: Key::Char('d'), ctrl: false });
    assert_eq!(prompt_text(&s), Some("Delete 'milk' ? (y/n)".to_string()));
    s.handle_key(KeyPress { key: Key::Esc, ctrl: false });
    s.handle_key(KeyPress { key: Key::Char('a'), ctrl: false });
    s.handle_key(KeyPress { key: Key::Char('x'), ctrl: false });
    assert_eq!(prompt_text(&s), Some("Add task: x".to_string()));
}
