use vstd::prelude::*;

use crate::command::Command;
use crate::error::TerminalError;

verus! {

/// Relies on crossterm::terminal::enable_raw_mode: asks the driver for raw
/// input mode; fails when no interactive terminal accepts the change.
#[verifier::external_body]
pub(crate) fn raw_on() -> (r: Result<(), TerminalError>) {
    crossterm::terminal::enable_raw_mode().map_err(|_e| TerminalError)
}

/// Relies on crossterm::terminal::disable_raw_mode: asks the driver for
/// cooked input mode back.
#[verifier::external_body]
pub(crate) fn raw_off() -> (r: Result<(), TerminalError>) {
    crossterm::terminal::disable_raw_mode().map_err(|_e| TerminalError)
}

/// Relies on crossterm::terminal::size: reads the grid as (columns, rows),
/// so the pair is (width, height). The answer depends on the machine at
/// call time, so nothing is promised of it.
#[verifier::external_body]
pub(crate) fn query_size() -> (r: Result<(u16, u16), TerminalError>) {
    crossterm::terminal::size().map_err(|_e| TerminalError)
}

/// Relies on std::io::Write::flush on the standard output: makes every
/// byte queued so far visible on the host terminal.
#[verifier::external_body]
pub(crate) fn flush_output() -> (r: Result<(), TerminalError>) {
    std::io::Write::flush(&mut std::io::stdout()).map_err(|_e| TerminalError)
}

/// Relies on crossterm::QueueableCommand::queue with cursor::MoveTo, whose
/// fields are column then row: stages a caret move on the output stream.
/// MoveTo's encoding adds one to each coordinate on a u16, so the 16-bit
/// maximum itself would overflow there; the bound keeps that input out.
#[verifier::external_body]
fn stage_move_to(col: u16, row: u16) -> (r: Result<(), TerminalError>)
    requires
        col < u16::MAX,
        row < u16::MAX,
{
    crossterm::QueueableCommand::queue(
        &mut std::io::stdout(),
        crossterm::cursor::MoveTo(col, row),
    ).map(|_s| ()).map_err(|_e| TerminalError)
}

/// Relies on crossterm::QueueableCommand::queue with terminal::Clear(All):
/// stages an erasure of the whole grid.
#[verifier::external_body]
fn stage_clear_all() -> (r: Result<(), TerminalError>) {
    crossterm::QueueableCommand::queue(
        &mut std::io::stdout(),
        crossterm::terminal::Clear(crossterm::terminal::ClearType::All),
    ).map(|_s| ()).map_err(|_e| TerminalError)
}

/// Relies on crossterm::QueueableCommand::queue with
/// terminal::Clear(CurrentLine): stages an erasure of the caret's row.
#[verifier::external_body]
fn stage_clear_line() -> (r: Result<(), TerminalError>) {
    crossterm::QueueableCommand::queue(
        &mut std::io::stdout(),
        crossterm::terminal::Clear(crossterm::terminal::ClearType::CurrentLine),
    ).map(|_s| ()).map_err(|_e| TerminalError)
}

/// Relies on crossterm::QueueableCommand::queue with EnterAlternateScreen:
/// stages a switch to the alternate buffer.
#[verifier::external_body]
fn stage_enter_alternate() -> (r: Result<(), TerminalError>) {
    crossterm::QueueableCommand::queue(
        &mut std::io::stdout(),
        crossterm::terminal::EnterAlternateScreen,
    ).map(|_s| ()).map_err(|_e| TerminalError)
}

/// Relies on crossterm::QueueableCommand::queue with LeaveAlternateScreen:
/// stages a switch back to the main buffer.
#[verifier::external_body]
fn stage_leave_alternate() -> (r: Result<(), TerminalError>) {
    crossterm::QueueableCommand::queue(
        &mut std::io::stdout(),
        crossterm::terminal::LeaveAlternateScreen,
    ).map(|_s| ()).map_err(|_e| TerminalError)
}

/// Relies on crossterm::QueueableCommand::queue with cursor::Hide: stages
/// a request to make the caret invisible.
#[verifier::external_body]
fn stage_hide() -> (r: Result<(), TerminalError>) {
    crossterm::QueueableCommand::queue(
        &mut std::io::stdout(),
        crossterm::cursor::Hide,
    ).map(|_s| ()).map_err(|_e| TerminalError)
}

/// Relies on crossterm::QueueableCommand::queue with cursor::Show: stages
/// a request to make the caret visible.
#[verifier::external_body]
fn stage_show() -> (r: Result<(), TerminalError>) {
    crossterm::QueueableCommand::queue(
        &mut std::io::stdout(),
        crossterm::cursor::Show,
    ).map(|_s| ()).map_err(|_e| TerminalError)
}

/// Relies on crossterm::QueueableCommand::queue with style::Print: stages
/// the text for output at the caret.
#[verifier::external_body]
fn stage_print(text: &String) -> (r: Result<(), TerminalError>) {
    crossterm::QueueableCommand::queue(
        &mut std::io::stdout(),
        crossterm::style::Print(text.as_str()),
    ).map(|_s| ()).map_err(|_e| TerminalError)
}

/// Stage one command of the library on the real output stream.
pub(crate) fn deliver(c: &Command) -> (r: Result<(), TerminalError>) {
    match c {
        Command::MoveTo(col, row) => {
            // Every move the handle queues is already in range, but the
            // command type itself admits the 16-bit maximum, which the
            // wire encoding cannot carry: truncate to the top cell before
            // the trusted call rather than trust it with the overflow.
            let safe_col: u16 = if *col < u16::MAX { *col } else { u16::MAX - 1 };
            let safe_row: u16 = if *row < u16::MAX { *row } else { u16::MAX - 1 };
            stage_move_to(safe_col, safe_row)
        },
        Command::ClearAll => stage_clear_all(),
        Command::ClearLine => stage_clear_line(),
        Command::EnterAlternate => stage_enter_alternate(),
        Command::LeaveAlternate => stage_leave_alternate(),
        Command::HideCaret => stage_hide(),
        Command::ShowCaret => stage_show(),
        Command::Print(text) => stage_print(text),
    }
}

} // verus!
