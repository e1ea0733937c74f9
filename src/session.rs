use vstd::prelude::*;
use crate::task::{Task, tasks_view};
use crate::text::{trimmed, trim_text, push_char, pop_char};

verus! {

/// A key as the session reads it.
#[derive(Clone, Copy, Debug, PartialEq, Eq, Structural)]
pub enum Key {
    Char(char),
    Up,
    Down,
    Enter,
    Esc,
    Backspace,
    Other,
}

/// A key press: the key, and whether Control was the one modifier held.
#[derive(Clone, Copy, Debug, PartialEq, Eq, Structural)]
pub struct KeyPress {
    pub key: Key,
    pub ctrl: bool,
}

/// What the loop around the session has to do after a key.
#[derive(Clone, Copy, Debug, PartialEq, Eq, Structural)]
pub enum Effect {
    /// Nothing beyond redrawing.
    Nothing,
    /// The task list changed: write it to the store.
    Save,
    /// Leave the loop.
    Quit,
}

/// The interaction context; only `AddingTask` carries data, its input buffer.
#[derive(Clone, Debug)]
pub enum Mode {
    Normal,
    AddingTask { input: String },
    ConfirmingDelete,
    ShowingHelp,
}

/// The mathematical form of a [`Mode`].
pub enum ModeView {
    Normal,
    AddingTask { input: Seq<char> },
    ConfirmingDelete,
    ShowingHelp,
}

impl View for Mode {
    type V = ModeView;

    open spec fn view(&self) -> ModeView {
        match self {
            Mode::Normal => ModeView::Normal,
            Mode::AddingTask { input } => ModeView::AddingTask { input: input@ },
            Mode::ConfirmingDelete => ModeView::ConfirmingDelete,
            Mode::ShowingHelp => ModeView::ShowingHelp,
        }
    }
}

/// All state of one run: the tasks, the selection, the mode and whether the
/// task list pane is shown.
pub struct Session {
    pub tasks: Vec<Task>,
    pub selected: usize,
    pub mode: Mode,
    pub ui_visible: bool,
}

/// The mathematical form of a [`Session`].
pub struct SessionView {
    pub tasks: Seq<(Seq<char>, bool)>,
    pub selected: int,
    pub mode: ModeView,
    pub ui_visible: bool,
}

impl View for Session {
    type V = SessionView;

    open spec fn view(&self) -> SessionView {
        SessionView {
            tasks: tasks_view(self.tasks@),
            selected: self.selected as int,
            mode: self.mode@,
            ui_visible: self.ui_visible,
        }
    }
}

/// The largest index that the selection may hold on a list of `len` tasks.
pub open spec fn last_index(len: nat) -> int {
    if len == 0 {
        0
    } else {
        len - 1
    }
}

impl SessionView {
    /// The selection points into the list, or is 0 on an empty list.
    pub open spec fn wf(self) -> bool {
        0 <= self.selected <= last_index(self.tasks.len())
    }

    pub open spec fn with_tasks(self, tasks: Seq<(Seq<char>, bool)>) -> SessionView {
        SessionView { tasks, ..self }
    }

    pub open spec fn with_selected(self, selected: int) -> SessionView {
        SessionView { selected, ..self }
    }

    pub open spec fn with_mode(self, mode: ModeView) -> SessionView {
        SessionView { mode, ..self }
    }

    pub open spec fn with_visible(self, ui_visible: bool) -> SessionView {
        SessionView { ui_visible, ..self }
    }
}

/// `tasks` with the `done` flag of task `i` flipped.
pub open spec fn toggle_at(tasks: Seq<(Seq<char>, bool)>, i: int) -> Seq<(Seq<char>, bool)> {
    tasks.update(i, (tasks[i].0, !tasks[i].1))
}

/// The selection after the task at `sel` was removed from a list of `len`
/// tasks: kept, unless it now points past the end of a non-empty list.
pub open spec fn selection_after_removal(sel: int, len: nat) -> int {
    if sel >= len - 1 && len > 1 {
        len - 2
    } else {
        sel
    }
}

/// The effect of a key in `Normal` mode.
pub open spec fn next_normal(s: SessionView, k: KeyPress) -> (SessionView, Effect) {
    let len = s.tasks.len();
    if k.key == Key::Char('q') {
        (s, Effect::Quit)
    } else if k.key == Key::Char(' ') && k.ctrl {
        (s.with_visible(!s.ui_visible), Effect::Nothing)
    } else if !s.ui_visible {
        (s, Effect::Nothing)
    } else if k.key == Key::Char(' ') {
        if s.selected < len {
            (s.with_tasks(toggle_at(s.tasks, s.selected)), Effect::Save)
        } else {
            (s, Effect::Nothing)
        }
    } else if k.key == Key::Char('a') {
        (s.with_mode(ModeView::AddingTask { input: Seq::empty() }), Effect::Nothing)
    } else if k.key == Key::Char('d') {
        if len > 0 {
            (s.with_mode(ModeView::ConfirmingDelete), Effect::Nothing)
        } else {
            (s, Effect::Nothing)
        }
    } else if k.key == Key::Char('h') {
        (s.with_mode(ModeView::ShowingHelp), Effect::Nothing)
    } else if k.key == Key::Down {
        let sel = if s.selected + 1 <= last_index(len) {
            s.selected + 1
        } else {
            last_index(len)
        };
        (s.with_selected(sel), Effect::Nothing)
    } else if k.key == Key::Up {
        (s.with_selected(if s.selected > 0 { s.selected - 1 } else { 0 }), Effect::Nothing)
    } else {
        (s, Effect::Nothing)
    }
}

/// The effect of a key while a task is being typed into `input`.
pub open spec fn next_adding(s: SessionView, input: Seq<char>, k: KeyPress) -> (
    SessionView,
    Effect,
) {
    match k.key {
        Key::Enter => {
            let text = trimmed(input);
            if text.len() > 0 {
                (
                    s.with_tasks(s.tasks.push((text, false))).with_mode(ModeView::Normal),
                    Effect::Save,
                )
            } else {
                (s.with_mode(ModeView::Normal), Effect::Nothing)
            }
        },
        Key::Esc => (s.with_mode(ModeView::Normal), Effect::Nothing),
        Key::Backspace => (
            s.with_mode(
                ModeView::AddingTask {
                    input: if input.len() > 0 {
                        input.drop_last()
                    } else {
                        input
                    },
                },
            ),
            Effect::Nothing,
        ),
        Key::Char(c) => (s.with_mode(ModeView::AddingTask { input: input.push(c) }), Effect::Nothing),
        _ => (s, Effect::Nothing),
    }
}

/// The effect of a key while a deletion waits for confirmation.
pub open spec fn next_confirming(s: SessionView, k: KeyPress) -> (SessionView, Effect) {
    let len = s.tasks.len();
    if k.key == Key::Char('y') || k.key == Key::Char('Y') {
        if s.selected < len {
            (
                s.with_tasks(s.tasks.remove(s.selected)).with_selected(
                    selection_after_removal(s.selected, len),
                ).with_mode(ModeView::Normal),
                Effect::Save,
            )
        } else {
            (s.with_mode(ModeView::Normal), Effect::Nothing)
        }
    } else if k.key == Key::Char('n') || k.key == Key::Char('N') || k.key == Key::Esc {
        (s.with_mode(ModeView::Normal), Effect::Nothing)
    } else {
        (s, Effect::Nothing)
    }
}

/// The state after one key, and what the loop has to do.
pub open spec fn next(s: SessionView, k: KeyPress) -> (SessionView, Effect) {
    match s.mode {
        ModeView::Normal => next_normal(s, k),
        ModeView::AddingTask { input } => next_adding(s, input, k),
        ModeView::ConfirmingDelete => next_confirming(s, k),
        ModeView::ShowingHelp => (s.with_mode(ModeView::Normal), Effect::Nothing),
    }
}

impl Session {
    /// A session in `Normal` mode over `tasks`, with the first task selected
    /// and the task list shown.
    pub fn new(tasks: Vec<Task>) -> (r: Session)
        ensures
            r@.tasks == tasks_view(tasks@),
            r@.selected == 0,
            r@.mode == ModeView::Normal,
            r@.ui_visible,
            r@.wf(),
    {
        Session { tasks, selected: 0, mode: Mode::Normal, ui_visible: true }
    }

    /// Applies one key press.
    pub fn handle_key(&mut self, k: KeyPress) -> (r: Effect)
        requires
            old(self)@.wf(),
        ensures
            (final(self)@, r) == next(old(self)@, k),
            final(self)@.wf(),
    {
        proof {
            lemma_next_wf(self@, k);
        }
        match self.mode {
            Mode::Normal => self.handle_normal(k),
            Mode::AddingTask { .. } => self.handle_adding(k),
            Mode::ConfirmingDelete => self.handle_confirming(k),
            Mode::ShowingHelp => {
                self.mode = Mode::Normal;
                Effect::Nothing
            },
        }
    }

    fn handle_normal(&mut self, k: KeyPress) -> (r: Effect)
        requires
            old(self)@.wf(),
            old(self)@.mode == ModeView::Normal,
        ensures
            (final(self)@, r) == next_normal(old(self)@, k),
    {
        let len = self.tasks.len();
        if k.key == Key::Char('q') {
            Effect::Quit
        } else if k.key == Key::Char(' ') && k.ctrl {
            self.ui_visible = !self.ui_visible;
            Effect::Nothing
        } else if !self.ui_visible {
            Effect::Nothing
        } else if k.key == Key::Char(' ') {
            if self.selected < len {
                let t = self.tasks[self.selected].toggled();
                self.tasks.set(self.selected, t);
                proof {
                    assert(tasks_view(self.tasks@) =~= toggle_at(
                        tasks_view(old(self).tasks@),
                        self.selected as int,
                    ));
                }
                Effect::Save
            } else {
                Effect::Nothing
            }
        } else if k.key == Key::Char('a') {
            self.mode = Mode::AddingTask { input: String::new() };
            Effect::Nothing
        } else if k.key == Key::Char('d') {
            if len > 0 {
                self.mode = Mode::ConfirmingDelete;
            }
            Effect::Nothing
        } else if k.key == Key::Char('h') {
            self.mode = Mode::ShowingHelp;
            Effect::Nothing
        } else if k.key == Key::Down {
            let last = if len == 0 {
                0
            } else {
                len - 1
            };
            if self.selected + 1 <= last {
                self.selected = self.selected + 1;
            } else {
                self.selected = last;
            }
            Effect::Nothing
        } else if k.key == Key::Up {
            if self.selected > 0 {
                self.selected = self.selected - 1;
            }
            Effect::Nothing
        } else {
            Effect::Nothing
        }
    }

    fn handle_adding(&mut self, k: KeyPress) -> (r: Effect)
        requires
            old(self)@.mode is AddingTask,
        ensures
            (final(self)@, r) == next_adding(old(self)@, old(self)@.mode->input, k),
    {
        let mut input = match &self.mode {
            Mode::AddingTask { input } => input.clone(),
            _ => String::new(),
        };
        match k.key {
            Key::Enter => {
                let text = trim_text(&input);
                self.mode = Mode::Normal;
                if text.unicode_len() > 0 {
                    self.tasks.push(Task::new(text));
                    proof {
                        assert(tasks_view(self.tasks@) =~= tasks_view(old(self).tasks@).push(
                            (trimmed(input@), false),
                        ));
                    }
                    Effect::Save
                } else {
                    Effect::Nothing
                }
            },
            Key::Esc => {
                self.mode = Mode::Normal;
                Effect::Nothing
            },
            Key::Backspace => {
                let _ = pop_char(&mut input);
                self.mode = Mode::AddingTask { input };
                Effect::Nothing
            },
            Key::Char(c) => {
                push_char(&mut input, c);
                self.mode = Mode::AddingTask { input };
                Effect::Nothing
            },
            _ => Effect::Nothing,
        }
    }

    fn handle_confirming(&mut self, k: KeyPress) -> (r: Effect)
        requires
            old(self)@.wf(),
            old(self)@.mode == ModeView::ConfirmingDelete,
        ensures
            (final(self)@, r) == next_confirming(old(self)@, k),
    {
        if k.key == Key::Char('y') || k.key == Key::Char('Y') {
            self.mode = Mode::Normal;
            if self.selected < self.tasks.len() {
                let _ = self.tasks.remove(self.selected);
                proof {
                    assert(tasks_view(self.tasks@) =~= tasks_view(old(self).tasks@).remove(
                        old(self).selected as int,
                    ));
                }
                if self.selected >= self.tasks.len() && self.tasks.len() > 0 {
                    self.selected = self.tasks.len() - 1;
                }
                Effect::Save
            } else {
                Effect::Nothing
            }
        } else if k.key == Key::Char('n') || k.key == Key::Char('N') || k.key == Key::Esc {
            self.mode = Mode::Normal;
            Effect::Nothing
        } else {
            Effect::Nothing
        }
    }
}

/// Every key keeps the selection inside the list (or at 0 on an empty list).
pub proof fn lemma_next_wf(s: SessionView, k: KeyPress)
    requires
        s.wf(),
    ensures
        next(s, k).0.wf(),
{
}

} // verus!
