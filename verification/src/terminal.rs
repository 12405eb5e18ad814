use vstd::prelude::*;

use crate::backend;
use crate::command::{cmds_view, Command, CommandV};
use crate::error::TerminalError;
use crate::host::{host_run, host_step, initial_host, HostModel, HostV};
use crate::host::lemma_host_run_empty;

verus! {

/// The terminal's visible character grid at query time: rows and columns.
#[derive(Debug, Default, Copy, Clone, PartialEq, Eq, Structural)]
pub struct Size {
    pub height: usize,
    pub width: usize,
}

/// A target caret cell, zero-based column and row. The protocol addresses
/// cells with 16-bit coordinates and encodes them one-based on the wire,
/// so the top addressable coordinate is one below the 16-bit maximum;
/// `in_range` says exactly that.
#[derive(Debug, Copy, Clone, Default, PartialEq, Eq, Structural)]
pub struct Position {
    pub col: usize,
    pub row: usize,
}

impl Size {
    /// The grid size a driver's (columns, rows) answer names, whatever the
    /// driver answered.
    pub fn from_cells(width: u16, height: u16) -> (s: Size)
        ensures
            s.height == height as usize,
            s.width == width as usize,
    {
        Size { height: height as usize, width: width as usize }
    }
}

impl Position {
    /// Both coordinates fit the protocol's addressable range: strictly
    /// below the 16-bit maximum, since the wire encoding adds one.
    pub open spec fn in_range(&self) -> bool {
        self.col < u16::MAX as usize && self.row < u16::MAX as usize
    }

    /// The addressable position nearest to the given coordinates: each one
    /// outside the range is truncated to the range's top cell.
    pub fn clamped(col: usize, row: usize) -> (p: Position)
        ensures
            p.in_range(),
            p.col == if col < u16::MAX as usize { col as int } else { u16::MAX - 1 },
            p.row == if row < u16::MAX as usize { row as int } else { u16::MAX - 1 },
    {
        let max = (u16::MAX - 1) as usize;
        Position {
            col: if col <= max { col } else { max },
            row: if row <= max { row } else { max },
        }
    }
}

/// A handle on the host terminal. It owns the batch of commands queued
/// since the last flush and the model of the host driver's state. A live
/// handle forwards every delivery to the real terminal through the trusted
/// backend; a detached handle only keeps the model, which then serves as a
/// test double.
#[derive(Debug)]
pub struct Terminal {
    host: HostModel,
    queued: Vec<Command>,
    live: bool,
}

/// The mathematical value of a `Terminal`.
pub ghost struct TerminalV {
    pub host: HostV,
    pub queued: Seq<CommandV>,
    pub live: bool,
}

impl View for Terminal {
    type V = TerminalV;

    closed spec fn view(&self) -> TerminalV {
        TerminalV { host: self.host@, queued: cmds_view(self.queued@), live: self.live }
    }
}

/// The handle after one command joins the batch; nothing reaches the host.
pub open spec fn spec_queue(t: TerminalV, c: CommandV) -> TerminalV {
    TerminalV { queued: t.queued.push(c), ..t }
}

pub open spec fn spec_clear_screen(t: TerminalV) -> TerminalV {
    spec_queue(t, CommandV::ClearAll)
}

pub open spec fn spec_clear_line(t: TerminalV) -> TerminalV {
    spec_queue(t, CommandV::ClearLine)
}

pub open spec fn spec_move_caret_to(t: TerminalV, p: Position) -> TerminalV {
    spec_queue(t, CommandV::MoveTo(p.col as u16, p.row as u16))
}

pub open spec fn spec_enter_alternate_screen(t: TerminalV) -> TerminalV {
    spec_queue(t, CommandV::EnterAlternate)
}

pub open spec fn spec_leave_alternate_screen(t: TerminalV) -> TerminalV {
    spec_queue(t, CommandV::LeaveAlternate)
}

pub open spec fn spec_hide_caret(t: TerminalV) -> TerminalV {
    spec_queue(t, CommandV::HideCaret)
}

pub open spec fn spec_show_caret(t: TerminalV) -> TerminalV {
    spec_queue(t, CommandV::ShowCaret)
}

pub open spec fn spec_print(t: TerminalV, text: Seq<char>) -> TerminalV {
    spec_queue(t, CommandV::Print(text))
}

/// The handle after a whole row is written: the batch grows by a move to
/// the row's first column, an erasure of the row, and the text.
pub open spec fn spec_print_row(t: TerminalV, row: usize, text: Seq<char>) -> TerminalV {
    TerminalV {
        queued: t.queued + seq![
            CommandV::MoveTo(0, row as u16),
            CommandV::ClearLine,
            CommandV::Print(text),
        ],
        ..t
    }
}

/// The handle after a successful flush: the host has received the whole
/// batch, oldest first, and the batch is empty.
pub open spec fn spec_execute(t: TerminalV) -> TerminalV {
    TerminalV { host: host_run(t.host, t.queued), queued: Seq::empty(), ..t }
}

/// The handle after its record of the host input mode moves to `raw`.
pub open spec fn spec_set_raw(t: TerminalV, raw: bool) -> TerminalV {
    TerminalV { host: HostV { raw, ..t.host }, ..t }
}

/// The batch a session start queues before it flushes: alternate screen,
/// a cleared grid, the caret at the origin.
pub open spec fn spec_staged_initialize(t: TerminalV) -> TerminalV {
    spec_move_caret_to(
        spec_clear_screen(spec_enter_alternate_screen(spec_set_raw(t, true))),
        Position { col: 0, row: 0 },
    )
}

/// The handle after a fully successful session start.
pub open spec fn spec_initialize(t: TerminalV) -> TerminalV {
    spec_execute(spec_staged_initialize(t))
}

/// The batch a session end queues before it flushes: back to the main
/// screen, the caret visible again.
pub open spec fn spec_staged_terminate(t: TerminalV) -> TerminalV {
    spec_show_caret(spec_leave_alternate_screen(t))
}

/// The handle after a fully successful session end.
pub open spec fn spec_terminate(t: TerminalV) -> TerminalV {
    spec_set_raw(spec_execute(spec_staged_terminate(t)), false)
}

/// The size a detached handle reports: the grid its double holds.
pub open spec fn spec_size(t: TerminalV) -> Size {
    Size { height: t.host.height as usize, width: t.host.width as usize }
}

impl Terminal {
    /// A handle on the real terminal. Nothing is sent until a flush.
    pub fn live() -> (t: Terminal)
        ensures
            t@.live,
            t@.queued == Seq::<CommandV>::empty(),
            t@.host == initial_host(0, 0),
    {
        let t = Terminal { host: HostModel::fresh(0, 0), queued: Vec::new(), live: true };
        proof {
            crate::command::lemma_cmds_view_empty(t.queued@);
        }
        t
    }

    /// A detached handle whose double reports the given grid size. No call
    /// on it ever reaches a real terminal.
    pub fn mock(width: u16, height: u16) -> (t: Terminal)
        ensures
            !t@.live,
            t@.queued == Seq::<CommandV>::empty(),
            t@.host == initial_host(width, height),
    {
        let t = Terminal { host: HostModel::fresh(width, height), queued: Vec::new(), live: false };
        proof {
            crate::command::lemma_cmds_view_empty(t.queued@);
        }
        t
    }

    /// The commands queued since the last flush, oldest first.
    pub fn pending(&self) -> (r: &Vec<Command>)
        ensures
            cmds_view(r@) == self@.queued,
    {
        &self.queued
    }

    /// The model of the host driver: the test double a detached handle
    /// answers from, and the record of what a live handle has requested.
    pub fn host(&self) -> (r: &HostModel)
        ensures
            r@ == self@.host,
    {
        &self.host
    }

    /// Whether the handle forwards to a real terminal.
    pub fn is_live(&self) -> (r: bool)
        ensures
            r == self@.live,
    {
        self.live
    }

    /// Change the grid size a detached handle's double reports: a
    /// simulated resize event. A live handle's size comes from the real
    /// driver, so there is nothing for this to set on one.
    pub fn set_mock_size(&mut self, width: u16, height: u16)
        requires
            !old(self)@.live,
        ensures
            final(self)@ == (TerminalV {
                host: HostV { width, height, ..old(self)@.host },
                ..old(self)@
            }),
    {
        self.host.width = width;
        self.host.height = height;
    }

    fn queue(&mut self, c: Command)
        ensures
            final(self)@ == spec_queue(old(self)@, c@),
    {
        let ghost before = self.queued@;
        self.queued.push(c);
        proof {
            crate::command::lemma_cmds_view_push(before, c);
        }
    }

    /// Queue an erasure of the whole visible grid.
    pub fn clear_screen(&mut self) -> (r: Result<(), TerminalError>)
        ensures
            r is Ok,
            final(self)@ == spec_clear_screen(old(self)@),
    {
        self.queue(Command::ClearAll);
        Ok(())
    }

    /// Queue an erasure of the line at the current caret row.
    pub fn clear_line(&mut self) -> (r: Result<(), TerminalError>)
        ensures
            r is Ok,
            final(self)@ == spec_clear_line(old(self)@),
    {
        self.queue(Command::ClearLine);
        Ok(())
    }

    /// Queue a caret move to the given position. The position must be
    /// addressable — strictly below the 16-bit maximum, which the one-based
    /// wire encoding cannot carry — and a caller with wider values picks
    /// `Position::clamped` first.
    pub fn move_caret_to(&mut self, position: Position) -> (r: Result<(), TerminalError>)
        requires
            position.in_range(),
        ensures
            r is Ok,
            final(self)@ == spec_move_caret_to(old(self)@, position),
    {
        self.queue(Command::MoveTo(position.col as u16, position.row as u16));
        Ok(())
    }

    /// Queue a switch to the alternate screen buffer.
    pub fn enter_alternate_screen(&mut self) -> (r: Result<(), TerminalError>)
        ensures
            r is Ok,
            final(self)@ == spec_enter_alternate_screen(old(self)@),
    {
        self.queue(Command::EnterAlternate);
        Ok(())
    }

    /// Queue a switch back to the main screen buffer.
    pub fn leave_alternate_screen(&mut self) -> (r: Result<(), TerminalError>)
        ensures
            r is Ok,
            final(self)@ == spec_leave_alternate_screen(old(self)@),
    {
        self.queue(Command::LeaveAlternate);
        Ok(())
    }

    /// Queue a request to make the caret invisible.
    pub fn hide_caret(&mut self) -> (r: Result<(), TerminalError>)
        ensures
            r is Ok,
            final(self)@ == spec_hide_caret(old(self)@),
    {
        self.queue(Command::HideCaret);
        Ok(())
    }

    /// Queue a request to make the caret visible.
    pub fn show_caret(&mut self) -> (r: Result<(), TerminalError>)
        ensures
            r is Ok,
            final(self)@ == spec_show_caret(old(self)@),
    {
        self.queue(Command::ShowCaret);
        Ok(())
    }

    /// Queue the text for output at the current caret position.
    pub fn print(&mut self, text: &str) -> (r: Result<(), TerminalError>)
        ensures
            r is Ok,
            final(self)@ == spec_print(old(self)@, text@),
    {
        self.queue(Command::Print(text.to_owned()));
        Ok(())
    }

    /// Queue a whole row: move to column zero of `row`, erase the line
    /// there, then the text — the composition of the three calls, in that
    /// order, so stale content on the row never bleeds through.
    pub fn print_row(&mut self, row: usize, line_text: &str) -> (r: Result<(), TerminalError>)
        requires
            row < u16::MAX as usize,
        ensures
            r is Ok,
            final(self)@ == spec_print_row(old(self)@, row, line_text@),
    {
        let r1 = self.move_caret_to(Position { row, col: 0 });
        let r2 = self.clear_line();
        let r3 = self.print(line_text);
        proof {
            crate::laws::lemma_print_row_is_composition(old(self)@, row, line_text@);
        }
        match (r1, r2, r3) {
            (Ok(()), Ok(()), Ok(())) => Ok(()),
            _ => Err(TerminalError),
        }
    }

    /// The terminal's current grid size. A detached handle reports its
    /// double's grid exactly; a live handle asks the host driver, whose
    /// answer may already be stale when it arrives.
    pub fn size(&self) -> (r: Result<Size, TerminalError>)
        ensures
            !self@.live ==> r == Ok::<Size, TerminalError>(spec_size(self@)),
            r matches Ok(s) ==> s.height <= u16::MAX as usize && s.width <= u16::MAX as usize,
    {
        if self.live {
            match backend::query_size() {
                Ok((width_u16, height_u16)) => Ok(Size::from_cells(width_u16, height_u16)),
                Err(e) => Err(e),
            }
        } else {
            Ok(Size::from_cells(self.host.width, self.host.height))
        }
    }

    /// Flush: deliver the whole batch to the host, oldest first, then make
    /// it visible. On success the batch is empty and the host has received
    /// it, as `spec_execute` says. On failure — only a live handle can fail
    /// — the handle is unchanged and the batch stays queued for a retry.
    pub fn execute(&mut self) -> (r: Result<(), TerminalError>)
        ensures
            !old(self)@.live ==> r is Ok,
            r is Ok ==> final(self)@ == spec_execute(old(self)@),
            r is Err ==> final(self)@ == old(self)@,
    {
        if self.live {
            let n = self.queued.len();
            let mut i: usize = 0;
            while i < n
                invariant
                    i <= n,
                    n == self.queued.len(),
                    *self == *old(self),
                    old(self).live,
                decreases n - i,
            {
                match backend::deliver(&self.queued[i]) {
                    Ok(()) => {},
                    Err(e) => {
                        return Err(e);
                    },
                }
                i += 1;
            }
            match backend::flush_output() {
                Ok(()) => {},
                Err(e) => {
                    return Err(e);
                },
            }
        }
        self.absorb();
        Ok(())
    }

    /// Move the batch into the host model, oldest first.
    fn absorb(&mut self)
        ensures
            final(self)@ == spec_execute(old(self)@),
    {
        let n = self.queued.len();
        let ghost batch = cmds_view(self.queued@);
        let mut i: usize = 0;
        proof {
            lemma_host_run_empty(old(self)@.host, batch.take(0));
            assert(batch.take(0) =~= Seq::<CommandV>::empty());
        }
        while i < n
            invariant
                i <= n,
                n == self.queued.len(),
                self.queued@ == old(self).queued@,
                self.live == old(self).live,
                batch == cmds_view(self.queued@),
                self.host@ == host_run(old(self)@.host, batch.take(i as int)),
            decreases n - i,
        {
            let c = self.queued[i].duplicate();
            let ghost before_host = self.host@;
            self.host.receive(c);
            proof {
                assert(batch.take(i + 1).drop_last() =~= batch.take(i as int));
                assert(batch.take(i + 1).last() == batch[i as int]);
                assert(self.host@ == host_step(before_host, batch[i as int]));
                assert(host_run(old(self)@.host, batch.take(i + 1)) == host_step(
                    host_run(old(self)@.host, batch.take(i as int)),
                    batch[i as int],
                ));
            }
            i += 1;
        }
        proof {
            assert(batch.take(n as int) =~= batch);
        }
        self.queued.clear();
        proof {
            crate::command::lemma_cmds_view_empty(self.queued@);
            assert(self@ == spec_execute(old(self)@));
        }
    }

    /// Start a session: ask the driver for raw input mode, then queue and
    /// flush a switch to the alternate screen, a cleared grid, and the
    /// caret at the origin. On a detached handle this always succeeds. On
    /// failure the handle holds one of the two stages the start reached:
    /// nothing done (the mode change was refused), or everything staged
    /// but the flush refused.
    pub fn initialize(&mut self) -> (r: Result<(), TerminalError>)
        ensures
            !old(self)@.live ==> r is Ok,
            r is Ok ==> final(self)@ == spec_initialize(old(self)@),
            r is Err ==> final(self)@ == old(self)@ || final(self)@ == spec_staged_initialize(
                old(self)@,
            ),
    {
        if self.live {
            match backend::raw_on() {
                Ok(()) => {},
                Err(e) => {
                    return Err(e);
                },
            }
        }
        self.host.raw = true;
        let r1 = self.enter_alternate_screen();
        let r2 = self.clear_screen();
        let r3 = self.move_caret_to(Position { col: 0, row: 0 });
        match (r1, r2, r3) {
            (Ok(()), Ok(()), Ok(())) => self.execute(),
            _ => Err(TerminalError),
        }
    }

    /// End a session, best effort: queue and flush a switch back to the
    /// main screen and a visible caret, then ask the driver for cooked
    /// input mode even if the flush failed — so a session never strands
    /// the user's shell in raw mode. Needs no prior session: on a fresh
    /// handle it simply requests the state it already records. On a
    /// detached handle this always succeeds. Whatever happens, the handle
    /// records cooked mode afterwards.
    pub fn terminate(&mut self) -> (r: Result<(), TerminalError>)
        ensures
            !final(self)@.host.raw,
            !old(self)@.live ==> r is Ok,
            r is Ok ==> final(self)@ == spec_terminate(old(self)@),
            r is Err ==> final(self)@ == spec_set_raw(spec_staged_terminate(old(self)@), false)
                || final(self)@ == spec_terminate(old(self)@),
    {
        let r1 = self.leave_alternate_screen();
        let r2 = self.show_caret();
        let flushed = match (r1, r2) {
            (Ok(()), Ok(())) => self.execute(),
            _ => Err(TerminalError),
        };
        let restored = if self.live {
            backend::raw_off()
        } else {
            Ok(())
        };
        self.host.raw = false;
        match flushed {
            Ok(()) => restored,
            Err(e) => Err(e),
        }
    }
}

} // verus!
