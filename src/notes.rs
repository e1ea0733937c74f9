use vstd::prelude::*;
use crate::session::{Effect, Key, KeyPress, Mode, ModeView, Session, SessionView, next};
use crate::text::{trimmed, trim_text};

verus! {

/// The decimal digit `d`.
pub open spec fn digit_char(d: nat) -> char {
    seq!['0', '1', '2', '3', '4', '5', '6', '7', '8', '9'][d as int]
}

/// `n` written in base ten, without sign or leading zeros.
pub open spec fn decimal_of(n: nat) -> Seq<char>
    decreases n,
{
    if n < 10 {
        seq![digit_char(n)]
    } else {
        decimal_of(n / 10).push(digit_char(n % 10))
    }
}

/// Relies on `usize`'s `Display`: the number in base ten, no sign, no padding.
#[verifier::external_body]
fn decimal(n: usize) -> (r: String)
    ensures
        r@ == decimal_of(n as nat),
{
    n.to_string()
}

pub open spec fn bool_text(b: bool) -> Seq<char> {
    if b {
        "true"@
    } else {
        "false"@
    }
}

pub open spec fn quoted(prefix: Seq<char>, text: Seq<char>) -> Seq<char> {
    prefix + seq!['\''] + text + seq!['\'']
}

/// The debug line for a key pressed in `Normal` mode that led from `s` to `t`.
pub open spec fn normal_note(s: SessionView, k: KeyPress, t: SessionView) -> Option<Seq<char>> {
    let unhandled = Some("Unhandled key in Normal mode"@);
    if k.key == Key::Char('q') {
        Some("Quitting application"@)
    } else if k.key == Key::Char(' ') && k.ctrl {
        Some("UI toggled: visible="@ + bool_text(t.ui_visible))
    } else if !s.ui_visible {
        unhandled
    } else if k.key == Key::Char(' ') {
        if s.selected < s.tasks.len() {
            Some(
                "Task "@ + decimal_of(s.selected as nat) + " toggled: done="@ + bool_text(
                    t.tasks[s.selected].1,
                ),
            )
        } else {
            None
        }
    } else if k.key == Key::Char('a') {
        Some("Entered task creation mode"@)
    } else if k.key == Key::Char('d') {
        if s.tasks.len() > 0 {
            Some("Entered delete confirmation mode"@)
        } else {
            unhandled
        }
    } else if k.key == Key::Char('h') {
        Some("Showing help"@)
    } else if k.key == Key::Down || k.key == Key::Up {
        if s.selected != t.selected {
            Some(
                (if k.key == Key::Down {
                    "Selection moved down: "@
                } else {
                    "Selection moved up: "@
                }) + decimal_of(s.selected as nat) + " -> "@ + decimal_of(t.selected as nat),
            )
        } else {
            None
        }
    } else {
        unhandled
    }
}

/// The debug line for a key that led from `s` to `t`, if that key leaves one.
pub open spec fn note_of(s: SessionView, k: KeyPress, t: SessionView) -> Option<Seq<char>> {
    match s.mode {
        ModeView::Normal => normal_note(s, k, t),
        ModeView::AddingTask { input } => match k.key {
            Key::Enter => if trimmed(input).len() > 0 {
                Some(quoted("Added task: "@, trimmed(input)))
            } else {
                None
            },
            Key::Esc => Some("Cancelled task creation"@),
            Key::Backspace => None,
            Key::Char(_) => None,
            _ => Some("Unhandled key in AddingTask mode"@),
        },
        ModeView::ConfirmingDelete => if k.key == Key::Char('y') || k.key == Key::Char('Y') {
            if s.selected < s.tasks.len() {
                Some(quoted("Deleted task: "@, s.tasks[s.selected].0))
            } else {
                None
            }
        } else if k.key == Key::Char('n') || k.key == Key::Char('N') || k.key == Key::Esc {
            Some("Cancelled task deletion"@)
        } else {
            Some("Unhandled key in ConfirmingDelete mode"@)
        },
        ModeView::ShowingHelp => Some("Closed help"@),
    }
}

pub open spec fn text_opt_view(r: Option<String>) -> Option<Seq<char>> {
    match r {
        Some(s) => Some(s@),
        None => None,
    }
}

fn text(s: &str) -> (r: Option<String>)
    ensures
        text_opt_view(r) == Some(s@),
{
    Some(String::from_str(s))
}

fn quote(prefix: &str, body: &String) -> (r: Option<String>)
    ensures
        text_opt_view(r) == Some(quoted(prefix@, body@)),
{
    let mut r = String::from_str(prefix);
    r.append("'");
    r.append(body.as_str());
    r.append("'");
    proof {
        reveal_strlit("'");
        assert(r@ =~= quoted(prefix@, body@));
    }
    Some(r)
}

fn bool_word(b: bool) -> (r: &'static str)
    ensures
        r@ == bool_text(b),
{
    if b {
        "true"
    } else {
        "false"
    }
}

/// The debug line for key `k` pressed in `before`; `None` for keys that leave
/// none (typing, or a move that changed nothing).
pub fn note_for(before: &Session, k: KeyPress) -> (r: Option<String>)
    requires
        before@.wf(),
    ensures
        text_opt_view(r) == note_of(before@, k, next(before@, k).0),
{
    match &before.mode {
        Mode::Normal => normal_note_for(before, k),
        Mode::AddingTask { input } => match k.key {
            Key::Enter => {
                let t = trim_text(input);
                if t.unicode_len() > 0 {
                    quote("Added task: ", &t)
                } else {
                    None
                }
            },
            Key::Esc => text("Cancelled task creation"),
            Key::Backspace => None,
            Key::Char(_) => None,
            _ => text("Unhandled key in AddingTask mode"),
        },
        Mode::ConfirmingDelete => {
            if k.key == Key::Char('y') || k.key == Key::Char('Y') {
                if before.selected < before.tasks.len() {
                    quote("Deleted task: ", &before.tasks[before.selected].text)
                } else {
                    None
                }
            } else if k.key == Key::Char('n') || k.key == Key::Char('N') || k.key == Key::Esc {
                text("Cancelled task deletion")
            } else {
                text("Unhandled key in ConfirmingDelete mode")
            }
        },
        Mode::ShowingHelp => text("Closed help"),
    }
}

fn normal_note_for(before: &Session, k: KeyPress) -> (r: Option<String>)
    requires
        before@.wf(),
        before@.mode == ModeView::Normal,
    ensures
        text_opt_view(r) == normal_note(before@, k, next(before@, k).0),
{
    let len = before.tasks.len();
    if k.key == Key::Char('q') {
        text("Quitting application")
    } else if k.key == Key::Char(' ') && k.ctrl {
        let mut r = String::from_str("UI toggled: visible=");
        r.append(bool_word(!before.ui_visible));
        Some(r)
    } else if !before.ui_visible {
        text("Unhandled key in Normal mode")
    } else if k.key == Key::Char(' ') {
        if before.selected < len {
            let mut r = String::from_str("Task ");
            r.append(decimal(before.selected).as_str());
            r.append(" toggled: done=");
            r.append(bool_word(!before.tasks[before.selected].done));
            Some(r)
        } else {
            None
        }
    } else if k.key == Key::Char('a') {
        text("Entered task creation mode")
    } else if k.key == Key::Char('d') {
        if len > 0 {
            text("Entered delete confirmation mode")
        } else {
            text("Unhandled key in Normal mode")
        }
    } else if k.key == Key::Char('h') {
        text("Showing help")
    } else if k.key == Key::Down || k.key == Key::Up {
        let last: usize = if len == 0 {
            0
        } else {
            len - 1
        };
        let moved: usize = if k.key == Key::Down {
            if before.selected + 1 <= last {
                before.selected + 1
            } else {
                last
            }
        } else if before.selected > 0 {
            before.selected - 1
        } else {
            0
        };
        if before.selected != moved {
            let mut r = if k.key == Key::Down {
                String::from_str("Selection moved down: ")
            } else {
                String::from_str("Selection moved up: ")
            };
            r.append(decimal(before.selected).as_str());
            r.append(" -> ");
            r.append(decimal(moved).as_str());
            Some(r)
        } else {
            None
        }
    } else {
        text("Unhandled key in Normal mode")
    }
}

impl Session {
    /// Applies one key press, and gives with its effect the debug line that
    /// describes it.
    pub fn step(&mut self, k: KeyPress) -> (r: (Effect, Option<String>))
        requires
            old(self)@.wf(),
        ensures
            (final(self)@, r.0) == next(old(self)@, k),
            text_opt_view(r.1) == note_of(old(self)@, k, final(self)@),
            final(self)@.wf(),
    {
        let note = note_for(self, k);
        let effect = self.handle_key(k);
        (effect, note)
    }
}

} // verus!
