use vstd::prelude::*;
use crate::session::{Mode, ModeView, Session, SessionView};
use crate::task::Task;

verus! {

/// The line that shows a task: its check box, a space and its text.
pub open spec fn task_line_of(t: (Seq<char>, bool)) -> Seq<char> {
    (if t.1 {
        seq!['[', 'x', ']', ' ']
    } else {
        seq!['[', ' ', ']', ' ']
    }) + t.0
}

/// The title of the task list pane: with a hint to help in `Normal` mode.
pub open spec fn list_title_of(mode: ModeView) -> Seq<char> {
    if mode == ModeView::Normal {
        seq!['T', 'O', 'D', 'O', ' ', '(', 'h', '=', 'h', 'e', 'l', 'p', ')']
    } else {
        seq!['T', 'O', 'D', 'O']
    }
}

/// The text of the prompt pane, where it is shown.
pub open spec fn prompt_of(s: SessionView) -> Option<Seq<char>> {
    match s.mode {
        ModeView::AddingTask { input } => Some(
            seq!['A', 'd', 'd', ' ', 't', 'a', 's', 'k', ':', ' '] + input,
        ),
        ModeView::ConfirmingDelete => Some(
            if 0 <= s.selected < s.tasks.len() {
                seq!['D', 'e', 'l', 'e', 't', 'e', ' ', '\''] + s.tasks[s.selected].0 + seq![
                    '\'',
                    ' ',
                    '?',
                    ' ',
                    '(',
                    'y',
                    '/',
                    'n',
                    ')',
                ]
            } else {
                seq![
                    'N',
                    'o',
                    ' ',
                    't',
                    'a',
                    's',
                    'k',
                    ' ',
                    't',
                    'o',
                    ' ',
                    'd',
                    'e',
                    'l',
                    'e',
                    't',
                    'e',
                ]
            },
        ),
        _ => None,
    }
}

/// The line that shows `t` in the task list.
pub fn task_line(t: &Task) -> (r: String)
    ensures
        r@ == task_line_of(t@),
{
    let mut r = if t.done {
        let s = String::from_str("[x] ");
        proof {
            reveal_strlit("[x] ");
        }
        s
    } else {
        let s = String::from_str("[ ] ");
        proof {
            reveal_strlit("[ ] ");
        }
        s
    };
    r.append(t.text.as_str());
    r
}

/// The title of the task list pane.
pub fn list_title(mode: &Mode) -> (r: String)
    ensures
        r@ == list_title_of(mode@),
{
    match mode {
        Mode::Normal => {
            proof {
                reveal_strlit("TODO (h=help)");
            }
            String::from_str("TODO (h=help)")
        },
        _ => {
            proof {
                reveal_strlit("TODO");
            }
            String::from_str("TODO")
        },
    }
}

/// The text of the prompt pane; `None` in the modes that show no prompt.
pub fn prompt_text(s: &Session) -> (r: Option<String>)
    ensures
        match r {
            Some(t) => prompt_of(s@) == Some(t@),
            None => prompt_of(s@) == None::<Seq<char>>,
        },
{
    match &s.mode {
        Mode::AddingTask { input } => {
            let mut t = String::from_str("Add task: ");
            proof {
                reveal_strlit("Add task: ");
            }
            t.append(input.as_str());
            Some(t)
        },
        Mode::ConfirmingDelete => {
            if s.selected < s.tasks.len() {
                let mut t = String::from_str("Delete '");
                proof {
                    reveal_strlit("Delete '");
                    reveal_strlit("' ? (y/n)");
                }
                t.append(s.tasks[s.selected].text.as_str());
                t.append("' ? (y/n)");
                Some(t)
            } else {
                proof {
                    reveal_strlit("No task to delete");
                }
                Some(String::from_str("No task to delete"))
            }
        },
        _ => None,
    }
}

} // verus!
