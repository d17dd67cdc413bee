//! Terminal input as the event pump sees it, and what one poll cycle makes
//! of the events that were pending.

use vstd::prelude::*;

verus! {

/// A key of interest.
#[derive(Clone, Copy, Debug, PartialEq, Eq, Structural)]
pub enum Key {
    /// The quit key.
    Esc,
    /// Any other key.
    Other,
}

/// Columns and rows of the terminal grid.
#[derive(Clone, Copy, Debug, PartialEq, Eq, Structural)]
pub struct GridSize {
    pub columns: u16,
    pub rows: u16,
}

/// An event read from the terminal.
#[derive(Clone, Copy, Debug, PartialEq, Eq, Structural)]
pub enum InputEvent {
    /// The grid now has this many columns and rows.
    Resize(u16, u16),
    /// A key was pressed.
    Key(Key),
    /// Anything else (mouse, focus, paste).
    Other,
}

/// What the application is told after a poll cycle.
#[derive(Clone, Copy, Debug, PartialEq, Eq, Structural)]
pub enum WindowEvent {
    Quit,
    RequestRedraw,
}

/// What a poll cycle decides.
#[derive(Clone, Copy, Debug, PartialEq, Eq, Structural)]
pub enum PollOutcome {
    /// The quit key was pressed: nothing else of the cycle counts.
    Quit,
    /// A redraw is due, after resizing to the given grid if there is one.
    Redraw { resize: Option<GridSize> },
}

/// A press of the quit key.
pub open spec fn spec_is_quit(e: InputEvent) -> bool {
    e == InputEvent::Key(Key::Esc)
}

/// Some event of the batch is a press of the quit key.
pub open spec fn has_quit(batch: Seq<InputEvent>) -> bool {
    exists|i: int| 0 <= i < batch.len() && spec_is_quit(#[trigger] batch[i])
}

/// The grid size that an event announces, if it is a resize.
pub open spec fn spec_resize_of(e: InputEvent) -> Option<GridSize> {
    match e {
        InputEvent::Resize(columns, rows) => Some(GridSize { columns, rows }),
        _ => None,
    }
}

/// The decision of a poll cycle over the pending events, oldest first.
/// The quit key anywhere wins over everything. Otherwise a redraw is due
/// and only the oldest event is handled: a resize changes the grid, any
/// other event asks for nothing.
pub open spec fn spec_poll(batch: Seq<InputEvent>) -> PollOutcome {
    if has_quit(batch) {
        PollOutcome::Quit
    } else if batch.len() == 0 {
        PollOutcome::Redraw { resize: None }
    } else {
        PollOutcome::Redraw { resize: spec_resize_of(batch[0]) }
    }
}

/// How many of the pending events a poll cycle uses up: all of them when
/// it quits, otherwise the oldest one; the rest stay queued.
pub open spec fn spec_consumed(batch: Seq<InputEvent>) -> nat {
    if has_quit(batch) {
        batch.len()
    } else if batch.len() == 0 {
        0
    } else {
        1
    }
}

/// The events reported for an outcome: always exactly one.
pub open spec fn spec_window_events(outcome: PollOutcome) -> Seq<WindowEvent> {
    match outcome {
        PollOutcome::Quit => seq![WindowEvent::Quit],
        PollOutcome::Redraw { .. } => seq![WindowEvent::RequestRedraw],
    }
}

/// Whether an event is a press of the quit key.
pub fn is_quit(e: &InputEvent) -> (quit: bool)
    ensures
        quit == spec_is_quit(*e),
{
    match e {
        InputEvent::Key(Key::Esc) => true,
        _ => false,
    }
}

/// The grid size that an event announces, if it is a resize.
pub fn resize_of(e: &InputEvent) -> (resize: Option<GridSize>)
    ensures
        resize == spec_resize_of(*e),
{
    match e {
        InputEvent::Resize(columns, rows) => Some(GridSize { columns: *columns, rows: *rows }),
        _ => None,
    }
}

/// Whether some pending event is a press of the quit key.
pub fn find_quit(batch: &Vec<InputEvent>) -> (found: bool)
    ensures
        found == has_quit(batch@),
{
    let mut i: usize = 0;
    while i < batch.len()
        invariant
            i <= batch.len(),
            forall|k: int| 0 <= k < i ==> !spec_is_quit(#[trigger] batch@[k]),
        decreases batch.len() - i,
    {
        if is_quit(&batch[i]) {
            assert(spec_is_quit(batch@[i as int]));
            return true;
        }
        i = i + 1;
    }
    false
}

/// Decides a poll cycle from the events that were pending, oldest first.
pub fn poll(batch: &Vec<InputEvent>) -> (outcome: PollOutcome)
    ensures
        outcome == spec_poll(batch@),
{
    if find_quit(batch) {
        PollOutcome::Quit
    } else if batch.len() == 0 {
        PollOutcome::Redraw { resize: None }
    } else {
        PollOutcome::Redraw { resize: resize_of(&batch[0]) }
    }
}

/// How many of the pending events the poll cycle uses up, counted from
/// the oldest. The caller takes that many off its queue.
pub fn consumed(batch: &Vec<InputEvent>) -> (count: usize)
    ensures
        count == spec_consumed(batch@),
        count <= batch@.len(),
{
    if find_quit(batch) {
        batch.len()
    } else if batch.len() == 0 {
        0
    } else {
        1
    }
}

/// The events reported for an outcome.
pub fn window_events(outcome: PollOutcome) -> (events: Vec<WindowEvent>)
    ensures
        events@ == spec_window_events(outcome),
{
    let mut events: Vec<WindowEvent> = Vec::new();
    match outcome {
        PollOutcome::Quit => {
            events.push(WindowEvent::Quit);
        },
        PollOutcome::Redraw { .. } => {
            events.push(WindowEvent::RequestRedraw);
        },
    }
    assert(events@ =~= spec_window_events(outcome));
    events
}

/// Quit short-circuits: a batch that holds the quit key anywhere is decided
/// as `Quit`, and `Quit` is all that is reported for it, whatever came before
/// or after the key. Every pending event is used up: none is left for a
/// later poll.
pub proof fn lemma_quit_short_circuits(before: Seq<InputEvent>, after: Seq<InputEvent>)
    ensures
        spec_poll(before.push(InputEvent::Key(Key::Esc)) + after) == PollOutcome::Quit,
        spec_window_events(spec_poll(before.push(InputEvent::Key(Key::Esc)) + after)) == seq![
            WindowEvent::Quit,
        ],
        spec_consumed(before.push(InputEvent::Key(Key::Esc)) + after) == before.len() + 1
            + after.len(),
{
    let batch = before.push(InputEvent::Key(Key::Esc)) + after;
    assert(spec_is_quit(batch[before.len() as int]));
}

/// With no event pending a redraw is requested, the grid stays and
/// nothing is used up.
pub proof fn lemma_idle_poll_redraws()
    ensures
        spec_poll(Seq::<InputEvent>::empty()) == (PollOutcome::Redraw { resize: None }),
        spec_consumed(Seq::<InputEvent>::empty()) == 0,
{
}

/// Without the quit key only the oldest event counts: the outcome is that
/// of the oldest event alone, one event is used up, and the later ones
/// stay queued whatever they are.
pub proof fn lemma_only_oldest_is_handled(oldest: InputEvent, later: Seq<InputEvent>)
    requires
        !has_quit(seq![oldest] + later),
    ensures
        spec_poll(seq![oldest] + later) == spec_poll(seq![oldest]),
        spec_poll(seq![oldest] + later) == (PollOutcome::Redraw {
            resize: spec_resize_of(oldest),
        }),
        spec_consumed(seq![oldest] + later) == 1,
        (seq![oldest] + later).skip(spec_consumed(seq![oldest] + later) as int) == later,
{
    let batch = seq![oldest] + later;
    assert(batch[0] == oldest);
    assert(!spec_is_quit(batch[0]));
    if has_quit(seq![oldest]) {
        let i = choose|i: int| 0 <= i < seq![oldest].len() && spec_is_quit(
            #[trigger] seq![oldest][i],
        );
        assert(seq![oldest][i] == oldest);
    }
    assert(batch.skip(1) =~= later);
}

/// An event other than a resize or the quit key asks for nothing: as the
/// oldest event it gives a redraw and leaves the grid alone.
pub proof fn lemma_other_events_ignored(e: InputEvent, later: Seq<InputEvent>)
    requires
        !(e is Resize),
        !has_quit(seq![e] + later),
    ensures
        spec_poll(seq![e] + later) == (PollOutcome::Redraw { resize: None }),
{
    lemma_only_oldest_is_handled(e, later);
}

/// A poll that quits uses up every pending event; any other poll uses up
/// at most one.
pub proof fn lemma_consumed_counts(batch: Seq<InputEvent>)
    ensures
        spec_consumed(batch) <= batch.len(),
        spec_poll(batch) == PollOutcome::Quit <==> has_quit(batch),
        has_quit(batch) ==> spec_consumed(batch) == batch.len(),
        !has_quit(batch) ==> spec_consumed(batch) <= 1,
        batch.len() > 0 ==> spec_consumed(batch) >= 1,
{
}

} // verus!
