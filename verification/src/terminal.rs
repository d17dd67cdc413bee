//! What is sent to the terminal: the commands that switch its mode when
//! the backend comes and goes, and the paint of one frame.

use vstd::prelude::*;
use crate::glyph::GlyphCell;

verus! {

/// One command for the terminal.
#[derive(Clone, Copy, Debug, PartialEq, Eq, Structural)]
pub enum TerminalCommand {
    EnterAlternateScreen,
    EnableRawMode,
    HideCursor,
    LeaveAlternateScreen,
    DisableRawMode,
    ShowCursor,
    /// Move the cursor to a column and row, counted from 0.
    MoveTo { column: u16, row: u16 },
    /// Print a character in its foreground colour and advance.
    Print(GlyphCell),
    /// Flush what was queued.
    Flush,
}

/// Commands that take the terminal over.
pub open spec fn setup_commands() -> Seq<TerminalCommand> {
    seq![
        TerminalCommand::EnterAlternateScreen,
        TerminalCommand::EnableRawMode,
        TerminalCommand::HideCursor,
    ]
}

/// Commands that give the terminal back.
pub open spec fn teardown_commands() -> Seq<TerminalCommand> {
    seq![
        TerminalCommand::LeaveAlternateScreen,
        TerminalCommand::DisableRawMode,
        TerminalCommand::ShowCursor,
    ]
}

/// The paint of a frame: the cursor goes to the origin, every cell is
/// printed in order, and the output is flushed.
pub open spec fn spec_paint(cells: Seq<GlyphCell>) -> Seq<TerminalCommand> {
    seq![TerminalCommand::MoveTo { column: 0, row: 0 }] + cells.map_values(
        |c: GlyphCell| TerminalCommand::Print(c),
    ) + seq![TerminalCommand::Flush]
}

/// The paint of a frame.
pub fn paint_commands(cells: &Vec<GlyphCell>) -> (commands: Vec<TerminalCommand>)
    ensures
        commands@ == spec_paint(cells@),
{
    let mut commands: Vec<TerminalCommand> = Vec::new();
    commands.push(TerminalCommand::MoveTo { column: 0, row: 0 });
    let mut i: usize = 0;
    while i < cells.len()
        invariant
            i <= cells.len(),
            commands@.len() == i + 1,
            commands@[0] == (TerminalCommand::MoveTo { column: 0, row: 0 }),
            forall|k: int| 0 <= k < i ==> commands@[k + 1] == TerminalCommand::Print(cells@[k]),
        decreases cells.len() - i,
    {
        commands.push(TerminalCommand::Print(cells[i]));
        i = i + 1;
    }
    commands.push(TerminalCommand::Flush);
    assert(commands@ =~= spec_paint(cells@));
    commands
}

/// The terminal's mode is one state of the whole process. The guard
/// remembers whether the terminal was taken over, so that it is taken over
/// once and given back once, however often that is asked for.
pub struct TerminalGuard {
    held: bool,
}

impl TerminalGuard {
    /// Whether the terminal is taken over.
    pub closed spec fn spec_held(&self) -> bool {
        self.held
    }

    /// A guard for a terminal that was not taken over yet.
    pub fn new() -> (guard: TerminalGuard)
        ensures
            !guard.spec_held(),
    {
        TerminalGuard { held: false }
    }

    /// Whether the terminal is taken over.
    pub fn is_held(&self) -> (held: bool)
        ensures
            held == self.spec_held(),
    {
        self.held
    }

    /// Takes the terminal over: the commands to send, none if it is held
    /// already.
    pub fn acquire(&mut self) -> (commands: Vec<TerminalCommand>)
        ensures
            final(self).spec_held(),
            commands@ == if old(self).spec_held() {
                Seq::<TerminalCommand>::empty()
            } else {
                setup_commands()
            },
    {
        let mut commands: Vec<TerminalCommand> = Vec::new();
        if !self.held {
            commands.push(TerminalCommand::EnterAlternateScreen);
            commands.push(TerminalCommand::EnableRawMode);
            commands.push(TerminalCommand::HideCursor);
            self.held = true;
            assert(commands@ =~= setup_commands());
        }
        commands
    }

    /// Gives the terminal back: the commands to send, none if it is not
    /// held.
    pub fn release(&mut self) -> (commands: Vec<TerminalCommand>)
        ensures
            !final(self).spec_held(),
            commands@ == if old(self).spec_held() {
                teardown_commands()
            } else {
                Seq::<TerminalCommand>::empty()
            },
    {
        let mut commands: Vec<TerminalCommand> = Vec::new();
        if self.held {
            commands.push(TerminalCommand::LeaveAlternateScreen);
            commands.push(TerminalCommand::DisableRawMode);
            commands.push(TerminalCommand::ShowCursor);
            self.held = false;
            assert(commands@ =~= teardown_commands());
        }
        commands
    }
}

/// A paint is two commands longer than the grid has cells: it starts at
/// the origin, ends with a flush, and prints cell `i` as its command
/// `i + 1`.
pub proof fn lemma_paint_shape(cells: Seq<GlyphCell>)
    ensures
        spec_paint(cells).len() == cells.len() + 2,
        spec_paint(cells).first() == (TerminalCommand::MoveTo { column: 0, row: 0 }),
        spec_paint(cells).last() == TerminalCommand::Flush,
        forall|i: int|
            0 <= i < cells.len() ==> #[trigger] spec_paint(cells)[i + 1] == TerminalCommand::Print(
                cells[i],
            ),
{
}

} // verus!
