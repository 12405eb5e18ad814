use vstd::prelude::*;

verus! {

/// One terminal instruction, held in the batch until a flush delivers it to
/// the host. Coordinates are the protocol's own 16-bit cells, column first.
#[derive(Debug, PartialEq, Eq)]
pub enum Command {
    /// Place the caret at the given zero-based column and row.
    MoveTo(u16, u16),
    /// Erase the whole visible grid.
    ClearAll,
    /// Erase the line at the current caret row.
    ClearLine,
    /// Switch to the alternate screen buffer.
    EnterAlternate,
    /// Switch back to the main screen buffer.
    LeaveAlternate,
    /// Make the caret invisible.
    HideCaret,
    /// Make the caret visible.
    ShowCaret,
    /// Write the text at the current caret position.
    Print(String),
}

/// The mathematical value of a `Command`: the text of a `Print` is a
/// sequence of characters.
pub ghost enum CommandV {
    MoveTo(u16, u16),
    ClearAll,
    ClearLine,
    EnterAlternate,
    LeaveAlternate,
    HideCaret,
    ShowCaret,
    Print(Seq<char>),
}

impl View for Command {
    type V = CommandV;

    open spec fn view(&self) -> CommandV {
        match self {
            Command::MoveTo(col, row) => CommandV::MoveTo(*col, *row),
            Command::ClearAll => CommandV::ClearAll,
            Command::ClearLine => CommandV::ClearLine,
            Command::EnterAlternate => CommandV::EnterAlternate,
            Command::LeaveAlternate => CommandV::LeaveAlternate,
            Command::HideCaret => CommandV::HideCaret,
            Command::ShowCaret => CommandV::ShowCaret,
            Command::Print(text) => CommandV::Print(text@),
        }
    }
}

/// The values of a whole batch of commands, oldest first.
pub open spec fn cmds_view(cmds: Seq<Command>) -> Seq<CommandV> {
    cmds.map(|_i: int, c: Command| c@)
}

pub proof fn lemma_cmds_view_push(cmds: Seq<Command>, c: Command)
    ensures
        cmds_view(cmds.push(c)) =~= cmds_view(cmds).push(c@),
{
}

pub proof fn lemma_cmds_view_empty(cmds: Seq<Command>)
    requires
        cmds.len() == 0,
    ensures
        cmds_view(cmds) =~= Seq::<CommandV>::empty(),
{
}

impl Command {
    /// An owned copy whose value equals this command's.
    pub fn duplicate(&self) -> (r: Command)
        ensures
            r@ == self@,
    {
        match self {
            Command::MoveTo(col, row) => Command::MoveTo(*col, *row),
            Command::ClearAll => Command::ClearAll,
            Command::ClearLine => Command::ClearLine,
            Command::EnterAlternate => Command::EnterAlternate,
            Command::LeaveAlternate => Command::LeaveAlternate,
            Command::HideCaret => Command::HideCaret,
            Command::ShowCaret => Command::ShowCaret,
            Command::Print(text) => Command::Print(text.clone()),
        }
    }
}

} // verus!
