//! The terminal surface as data: the commands a pane or the display-mode
//! controller wants performed, in the order they are to be written.

use vstd::prelude::*;

verus! {

/// The colours the panes use.
#[derive(Clone, Copy, Debug, PartialEq, Eq)]
pub enum Color {
    Black,
    White,
}

/// The region of the screen a pane may draw in.
#[derive(Clone, Copy, Debug, PartialEq, Eq)]
pub struct BoundingBox {
    pub left: u16,
    pub top: u16,
    pub width: u16,
    pub height: u16,
}

/// One command for the terminal.
#[derive(Clone, Debug, PartialEq, Eq)]
pub enum TerminalOp {
    /// Switch to the alternate screen buffer.
    EnterAlternateScreen,
    /// Switch back to the main screen buffer.
    LeaveAlternateScreen,
    /// Deliver keystrokes one by one, unbuffered.
    EnableRawMode,
    /// Deliver input line by line again.
    DisableRawMode,
    /// Put the cursor at a column and a row.
    MoveTo(u16, u16),
    /// Clear from the cursor to the end of its line.
    ClearUntilNewLine,
    /// Write text at the cursor.
    Print(String),
    /// Write one line of plain output, ended by a carriage return and a
    /// line feed.
    PrintLine(String),
    /// Set the colour that text is written in.
    SetForegroundColor(Color),
    /// Set the colour that text is written on.
    SetBackgroundColor(Color),
    /// Go back to the terminal's own colours.
    ResetColor,
    /// Hand everything written so far to the terminal.
    Flush,
}

/// The mathematical content of a [`TerminalOp`].
pub enum Command {
    EnterAlternateScreen,
    LeaveAlternateScreen,
    EnableRawMode,
    DisableRawMode,
    MoveTo(u16, u16),
    ClearUntilNewLine,
    Print(Seq<char>),
    PrintLine(Seq<char>),
    SetForegroundColor(Color),
    SetBackgroundColor(Color),
    ResetColor,
    Flush,
}

impl View for TerminalOp {
    type V = Command;

    open spec fn view(&self) -> Command {
        match self {
            TerminalOp::EnterAlternateScreen => Command::EnterAlternateScreen,
            TerminalOp::LeaveAlternateScreen => Command::LeaveAlternateScreen,
            TerminalOp::EnableRawMode => Command::EnableRawMode,
            TerminalOp::DisableRawMode => Command::DisableRawMode,
            TerminalOp::MoveTo(column, row) => Command::MoveTo(*column, *row),
            TerminalOp::ClearUntilNewLine => Command::ClearUntilNewLine,
            TerminalOp::Print(text) => Command::Print(text@),
            TerminalOp::PrintLine(text) => Command::PrintLine(text@),
            TerminalOp::SetForegroundColor(color) => Command::SetForegroundColor(*color),
            TerminalOp::SetBackgroundColor(color) => Command::SetBackgroundColor(*color),
            TerminalOp::ResetColor => Command::ResetColor,
            TerminalOp::Flush => Command::Flush,
        }
    }
}

/// The mathematical content of a list of commands.
pub open spec fn commands(ops: Seq<TerminalOp>) -> Seq<Command> {
    Seq::new(ops.len(), |i: int| ops[i]@)
}

impl Command {
    /// Whether the command only draws: it moves the cursor, clears, prints
    /// or sets colours, and neither switches the display mode nor flushes.
    pub open spec fn draws(self) -> bool {
        match self {
            Command::MoveTo(_, _) => true,
            Command::ClearUntilNewLine => true,
            Command::Print(_) => true,
            Command::SetForegroundColor(_) => true,
            Command::SetBackgroundColor(_) => true,
            Command::ResetColor => true,
            _ => false,
        }
    }
}

/// Whether every command of the list only draws.
pub open spec fn drawing_only(list: Seq<Command>) -> bool {
    forall|i: int| 0 <= i < list.len() ==> (#[trigger] list[i]).draws()
}

/// Appends one command.
pub fn push_op(ops: &mut Vec<TerminalOp>, op: TerminalOp)
    ensures
        commands(final(ops)@) == commands(old(ops)@).push(op@),
{
    ops.push(op);
    assert(commands(ops@) =~= commands(old(ops)@).push(op@));
}

/// Appends a list of commands.
pub fn append_ops(ops: &mut Vec<TerminalOp>, more: Vec<TerminalOp>)
    ensures
        commands(final(ops)@) == commands(old(ops)@) + commands(more@),
{
    let mut more = more;
    let ghost added = more@;
    ops.append(&mut more);
    assert(commands(ops@) =~= commands(old(ops)@) + commands(added));
}

} // verus!
