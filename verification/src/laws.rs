use vstd::prelude::*;

use crate::command::CommandV;
use crate::host::{lemma_host_run_empty, lemma_host_run_keeps_mode_and_size, lemma_host_run_push};
use crate::terminal::{
    spec_clear_line, spec_execute, spec_initialize, spec_move_caret_to, spec_print,
    spec_print_row, spec_size, spec_terminate, Position, Size, TerminalV,
};

verus! {

/// Law: for every addressable position, a caret move followed by a flush
/// leaves the host double reporting exactly the requested position.
pub proof fn lemma_move_caret_reported(t: TerminalV, p: Position)
    requires
        p.in_range(),
    ensures
        spec_execute(spec_move_caret_to(t, p)).host.requested_col as usize == p.col,
        spec_execute(spec_move_caret_to(t, p)).host.requested_row as usize == p.row,
{
    let c = CommandV::MoveTo(p.col as u16, p.row as u16);
    lemma_host_run_push(t.host, t.queued, c);
}

/// Law: a session start followed at once by a session end leaves the host
/// input mode where it began, back on the main screen buffer with the
/// caret visible. It holds of every handle that starts in cooked mode —
/// the mode every session begins from, since only these two operations
/// move it.
pub proof fn lemma_mode_round_trip(t: TerminalV)
    requires
        !t.host.raw,
    ensures
        spec_terminate(spec_initialize(t)).host.raw == t.host.raw,
        !spec_terminate(spec_initialize(t)).host.alternate,
        spec_terminate(spec_initialize(t)).host.caret_visible,
{
    let started = spec_initialize(t);
    lemma_host_run_push(
        started.host,
        started.queued.push(CommandV::LeaveAlternate),
        CommandV::ShowCaret,
    );
    lemma_host_run_push(started.host, started.queued, CommandV::LeaveAlternate);
    lemma_host_run_empty(started.host, started.queued);
}

/// Law: writing a whole row is the composition of a caret move to the
/// row's first column, a line erasure, and the text, in that order — the
/// same batch, so the same host state follows from any flush.
pub proof fn lemma_print_row_is_composition(t: TerminalV, row: usize, text: Seq<char>)
    requires
        row < u16::MAX as usize,
    ensures
        spec_print_row(t, row, text) == spec_print(
            spec_clear_line(spec_move_caret_to(t, (Position { col: 0, row }))),
            text,
        ),
        spec_execute(spec_print_row(t, row, text)) == spec_execute(
            spec_print(spec_clear_line(spec_move_caret_to(t, (Position { col: 0, row }))), text),
        ),
{
    assert(t.queued.push(CommandV::MoveTo(0, row as u16)).push(CommandV::ClearLine).push(
        CommandV::Print(text),
    ) =~= t.queued + seq![
        CommandV::MoveTo(0, row as u16),
        CommandV::ClearLine,
        CommandV::Print(text),
    ]);
}

/// Law: a size query on a detached handle answers exactly what its host
/// double reports, both extents within the protocol's range, and two
/// queries with no resize between them answer alike.
pub proof fn lemma_size_consistent(t: TerminalV, first: Size, second: Size)
    requires
        !t.live,
        first == spec_size(t),
        second == spec_size(t),
    ensures
        first == second,
        first.height == t.host.height as usize,
        first.width == t.host.width as usize,
        first.height <= u16::MAX as usize,
        first.width <= u16::MAX as usize,
{
}

/// Law: a flush moves the host mode flag and the reported size not at all:
/// no queued command addresses them.
pub proof fn lemma_execute_keeps_mode_and_size(t: TerminalV)
    ensures
        spec_execute(t).host.raw == t.host.raw,
        spec_execute(t).host.height == t.host.height,
        spec_execute(t).host.width == t.host.width,
{
    lemma_host_run_keeps_mode_and_size(t.host, t.queued);
}

} // verus!
