use vstd::prelude::*;
use crate::session::{
    Effect, Key, KeyPress, ModeView, SessionView, last_index, next, selection_after_removal,
};
use crate::text::{all_white, lemma_trimmed_empty, trimmed};

verus! {

/// The state after pressing `k` `n` times.
pub open spec fn press_times(s: SessionView, k: KeyPress, n: nat) -> SessionView
    decreases n,
{
    if n == 0 {
        s
    } else {
        next(press_times(s, k, (n - 1) as nat), k).0
    }
}

/// The key with no modifier.
pub open spec fn plain(key: Key) -> KeyPress {
    KeyPress { key, ctrl: false }
}

/// On a list of any length, pressing "down" `n` times moves the selection to
/// `min(selected + n, len - 1)` and pressing "up" `n` times to
/// `max(selected - n, 0)`: never past the last task, never below 0.
pub proof fn lemma_navigation_clamped(s: SessionView, n: nat)
    requires
        s.wf(),
        s.mode == ModeView::Normal,
        s.ui_visible,
    ensures
        press_times(s, plain(Key::Down), n).selected == if s.selected + n <= last_index(
            s.tasks.len(),
        ) {
            s.selected + n
        } else {
            last_index(s.tasks.len())
        },
        press_times(s, plain(Key::Up), n).selected == if s.selected - n >= 0 {
            s.selected - n
        } else {
            0
        },
        press_times(s, plain(Key::Down), n).wf(),
        press_times(s, plain(Key::Up), n).wf(),
    decreases n,
{
    if n > 0 {
        lemma_navigation_clamped(s, (n - 1) as nat);
        lemma_navigation_keeps_rest(s, (n - 1) as nat);
    }
}

/// Navigation changes nothing but the selection.
pub proof fn lemma_navigation_keeps_rest(s: SessionView, n: nat)
    requires
        s.mode == ModeView::Normal,
        s.ui_visible,
    ensures
        press_times(s, plain(Key::Down), n) == s.with_selected(
            press_times(s, plain(Key::Down), n).selected,
        ),
        press_times(s, plain(Key::Up), n) == s.with_selected(
            press_times(s, plain(Key::Up), n).selected,
        ),
    decreases n,
{
    if n > 0 {
        lemma_navigation_keeps_rest(s, (n - 1) as nat);
    }
}

/// Confirming a deletion removes the selected task; the selection stays where
/// it was unless it now points past the end, and then it moves to the new last
/// task (to 0 when the list became empty).
pub proof fn lemma_delete_reclamps(s: SessionView)
    requires
        s.wf(),
        s.mode == ModeView::ConfirmingDelete,
        s.tasks.len() > 0,
    ensures
        ({
            let (t, e) = next(s, plain(Key::Char('y')));
            &&& t.tasks == s.tasks.remove(s.selected)
            &&& t.mode == ModeView::Normal
            &&& e == Effect::Save
            &&& t.selected == if s.selected < t.tasks.len() {
                s.selected
            } else {
                last_index(t.tasks.len())
            }
            &&& t.wf()
        }),
{
}

/// Entering text that is all white space adds nothing and goes back to
/// `Normal` mode.
pub proof fn lemma_blank_input_adds_nothing(s: SessionView, input: Seq<char>)
    requires
        s.mode == (ModeView::AddingTask { input }),
        all_white(input),
    ensures
        next(s, plain(Key::Enter)) == (s.with_mode(ModeView::Normal), Effect::Nothing),
{
    lemma_trimmed_empty(input);
}

/// Entering text with something besides white space appends it, trimmed and
/// not done, at the end of the list, and asks for a save.
pub proof fn lemma_input_appended_trimmed(s: SessionView, input: Seq<char>)
    requires
        s.mode == (ModeView::AddingTask { input }),
        !all_white(input),
    ensures
        next(s, plain(Key::Enter)) == (
            s.with_tasks(s.tasks.push((trimmed(input), false))).with_mode(ModeView::Normal),
            Effect::Save,
        ),
{
    lemma_trimmed_empty(input);
}

/// Toggling the selected task twice gives back the same state.
pub proof fn lemma_toggle_twice(s: SessionView)
    requires
        s.wf(),
        s.mode == ModeView::Normal,
        s.ui_visible,
    ensures
        next(next(s, plain(Key::Char(' '))).0, plain(Key::Char(' '))).0 == s,
{
    if s.selected < s.tasks.len() {
        let once = next(s, plain(Key::Char(' '))).0;
        assert(once.tasks[s.selected] == (s.tasks[s.selected].0, !s.tasks[s.selected].1));
        assert(next(once, plain(Key::Char(' '))).0.tasks =~= s.tasks);
    }
}

/// Asking for a delete and then answering "n" leaves the session as it was.
pub proof fn lemma_delete_declined(s: SessionView)
    requires
        s.mode == ModeView::Normal,
        s.ui_visible,
        s.tasks.len() > 0,
    ensures
        next(s, plain(Key::Char('d'))).0.mode == ModeView::ConfirmingDelete,
        next(next(s, plain(Key::Char('d'))).0, plain(Key::Char('n'))) == (s, Effect::Nothing),
{
}

/// With the task list hidden, every key of `Normal` mode but quit and the
/// visibility chord changes nothing.
pub proof fn lemma_hidden_keys_inert(s: SessionView, k: KeyPress)
    requires
        s.mode == ModeView::Normal,
        !s.ui_visible,
        k.key != Key::Char('q'),
        !(k.key == Key::Char(' ') && k.ctrl),
    ensures
        next(s, k) == (s, Effect::Nothing),
{
}

/// A key that does not ask for a save leaves the task list as it was.
pub proof fn lemma_unsaved_keeps_tasks(s: SessionView, k: KeyPress)
    ensures
        next(s, k).1 != Effect::Save ==> next(s, k).0.tasks == s.tasks,
{
}

/// Runs `keys` from `s`, writing the list to `store` at each save, up to the
/// first quit; gives the final state and what the store holds.
pub open spec fn replay(s: SessionView, keys: Seq<KeyPress>, store: Seq<(Seq<char>, bool)>) -> (
    SessionView,
    Seq<(Seq<char>, bool)>,
)
    decreases keys.len(),
{
    if keys.len() == 0 {
        (s, store)
    } else {
        let (t, e) = next(s, keys[0]);
        if e == Effect::Quit {
            (t, store)
        } else {
            replay(t, keys.drop_first(), if e == Effect::Save { t.tasks } else { store })
        }
    }
}

/// When the store starts out holding the list, it holds the list the session
/// ends with, whatever keys were pressed.
pub proof fn lemma_store_follows_session(
    s: SessionView,
    keys: Seq<KeyPress>,
    store: Seq<(Seq<char>, bool)>,
)
    requires
        store == s.tasks,
    ensures
        replay(s, keys, store).1 == replay(s, keys, store).0.tasks,
    decreases keys.len(),
{
    if keys.len() > 0 {
        let (t, e) = next(s, keys[0]);
        lemma_unsaved_keeps_tasks(s, keys[0]);
        if e != Effect::Quit {
            lemma_store_follows_session(
                t,
                keys.drop_first(),
                if e == Effect::Save {
                    t.tasks
                } else {
                    store
                },
            );
        }
    }
}

} // verus!
