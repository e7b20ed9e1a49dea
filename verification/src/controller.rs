//! Key dispatch: what each input event does to the state, and whether the
//! event loop goes on.

use vstd::prelude::*;
use crate::app::{App, AppView, InputMode};

verus! {

/// The keys that the dispatch tells apart.
#[derive(Clone, Copy, Debug, PartialEq, Eq, Structural)]
pub enum KeyCode {
    Backspace,
    Enter,
    Esc,
    /// A character key.
    Char(char),
    /// Any other key.
    Other,
}

/// Whether a key went down, is held, or came up.
#[derive(Clone, Copy, Debug, PartialEq, Eq, Structural)]
pub enum KeyEventKind {
    Press,
    Repeat,
    Release,
}

/// One key event.
#[derive(Clone, Copy, Debug, PartialEq, Eq, Structural)]
pub struct KeyEvent {
    pub code: KeyCode,
    pub kind: KeyEventKind,
}

/// One input event.
#[derive(Clone, Copy, Debug, PartialEq, Eq, Structural)]
pub enum Event {
    Key(KeyEvent),
    /// Anything that is not a key: mouse, resize, focus.
    Other,
}

/// What the event loop does after an event.
#[derive(Clone, Copy, Debug, PartialEq, Eq, Structural)]
pub enum Action {
    /// Draw the state again and wait for the next event.
    Redraw,
    /// Leave the loop.
    Exit,
}

/// The transition table.
///
/// In normal mode `a` opens the dialog and `q` leaves; every kind of key
/// event counts there. While editing only presses count: Enter submits, a
/// character is appended, Backspace deletes, Esc cancels. All else is
/// ignored.
pub open spec fn step(state: AppView, event: Event) -> (AppView, Action) {
    match event {
        Event::Other => (state, Action::Redraw),
        Event::Key(key) => match state.input_mode {
            InputMode::Normal => if key.code == KeyCode::Char('a') {
                (state.begin_editing(), Action::Redraw)
            } else if key.code == KeyCode::Char('q') {
                (state, Action::Exit)
            } else {
                (state, Action::Redraw)
            },
            InputMode::Editing => if key.kind == KeyEventKind::Press {
                match key.code {
                    KeyCode::Enter => (state.add_to_download_list(), Action::Redraw),
                    KeyCode::Char(c) => (state.enter_char(c), Action::Redraw),
                    KeyCode::Backspace => (state.delete_char(), Action::Redraw),
                    KeyCode::Esc => (state.reset(), Action::Redraw),
                    KeyCode::Other => (state, Action::Redraw),
                }
            } else {
                (state, Action::Redraw)
            },
        },
    }
}

/// `event` is a key event for `q` and comes in normal mode.
pub open spec fn quits(state: AppView, event: Event) -> bool {
    match event {
        Event::Key(key) => state.input_mode == InputMode::Normal && key.code == KeyCode::Char('q'),
        Event::Other => false,
    }
}

/// Applies one event to the state and says whether the loop goes on.
pub fn handle_event(app: &mut App, event: Event) -> (action: Action)
    ensures
        (final(app)@, action) == step(old(app)@, event),
        action == Action::Exit <==> quits(old(app)@, event),
        old(app)@.consistent() ==> final(app)@.consistent(),
{
    match event {
        Event::Other => Action::Redraw,
        Event::Key(key) => match app.input_mode {
            InputMode::Normal => match key.code {
                KeyCode::Char('a') => {
                    app.begin_editing();
                    Action::Redraw
                },
                KeyCode::Char('q') => Action::Exit,
                _ => Action::Redraw,
            },
            InputMode::Editing => {
                if key.kind == KeyEventKind::Press {
                    match key.code {
                        KeyCode::Enter => app.add_to_download_list(),
                        KeyCode::Char(to_insert) => app.enter_char(to_insert),
                        KeyCode::Backspace => app.delete_char(),
                        KeyCode::Esc => app.reset(),
                        KeyCode::Other => {},
                    }
                }
                Action::Redraw
            },
        },
    }
}

/// The state after `events`, each dispatched in turn.
pub open spec fn after(state: AppView, events: Seq<Event>) -> AppView
    decreases events.len(),
{
    if events.len() == 0 {
        state
    } else {
        step(after(state, events.drop_last()), events.last()).0
    }
}

/// The event at `i` makes the loop exit, given that those before it were
/// dispatched.
pub open spec fn exits_at(state: AppView, events: Seq<Event>, i: int) -> bool {
    step(after(state, events.take(i)), events[i]).1 == Action::Exit
}

/// Dispatches `events` in order, as the event loop does with what it
/// reads, and stops at the first that makes the loop exit. Returns the
/// place of that event, or `None` when all were dispatched and the loop
/// would go on. No event past the one that exits is looked at.
pub fn replay(app: &mut App, events: &Vec<Event>) -> (exit: Option<usize>)
    ensures
        (match exit {
            Some(i) => {
                &&& i < events@.len()
                &&& exits_at(old(app)@, events@, i as int)
                &&& forall|j: int| 0 <= j < i ==> !exits_at(old(app)@, events@, j)
                &&& final(app)@ == after(old(app)@, events@.take(i as int))
            },
            None => {
                &&& forall|j: int| 0 <= j < events@.len() ==> !exits_at(old(app)@, events@, j)
                &&& final(app)@ == after(old(app)@, events@)
            },
        }),
        old(app)@.consistent() ==> final(app)@.consistent(),
        old(app)@.links.is_prefix_of(final(app)@.links),
{
    let mut i: usize = 0;
    while i < events.len()
        invariant
            i <= events@.len(),
            app@ == after(old(app)@, events@.take(i as int)),
            forall|j: int| 0 <= j < i ==> !exits_at(old(app)@, events@, j),
        decreases events@.len() - i,
    {
        let action = handle_event(app, events[i]);
        if action == Action::Exit {
            proof {
                if old(app)@.consistent() {
                    lemma_dispatch_keeps_consistency(old(app)@, events@.take(i as int));
                }
                lemma_dispatch_only_grows_links(old(app)@, events@.take(i as int));
            }
            return Some(i);
        }
        proof {
            let taken = events@.take(i + 1);
            assert(taken.drop_last() =~= events@.take(i as int));
        }
        i += 1;
    }
    assert(events@.take(i as int) =~= events@);
    proof {
        if old(app)@.consistent() {
            lemma_dispatch_keeps_consistency(old(app)@, events@);
        }
        lemma_dispatch_only_grows_links(old(app)@, events@);
    }
    None
}

/// Dispatching events keeps a consistent state consistent.
pub proof fn lemma_dispatch_keeps_consistency(state: AppView, events: Seq<Event>)
    requires
        state.consistent(),
    ensures
        after(state, events).consistent(),
    decreases events.len(),
{
    if events.len() > 0 {
        lemma_dispatch_keeps_consistency(state, events.drop_last());
    }
}

/// Dispatching events never removes or moves a queued link.
pub proof fn lemma_dispatch_only_grows_links(state: AppView, events: Seq<Event>)
    ensures
        state.links.is_prefix_of(after(state, events).links),
    decreases events.len(),
{
    if events.len() > 0 {
        lemma_dispatch_only_grows_links(state, events.drop_last());
    }
}

/// The event that makes the loop exit changes nothing, and only `q` in
/// normal mode is such an event.
pub proof fn lemma_exit_only_on_q(state: AppView, event: Event)
    ensures
        step(state, event).1 == Action::Exit <==> quits(state, event),
        step(state, event).1 == Action::Exit ==> step(state, event).0 == state,
{
}

} // verus!
