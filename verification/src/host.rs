use vstd::prelude::*;

use crate::command::{cmds_view, Command, CommandV};

verus! {

/// The host terminal driver as this library sees it: a test double that
/// tracks every request made of the driver. A live handle keeps the double
/// in step with what it sends to the real terminal; a detached handle uses
/// it in place of a terminal.
///
/// `raw` is the input mode most recently requested of the driver (`false`
/// is cooked, the initial mode). `requested_col` and `requested_row` are
/// the caret cell most recently requested by a delivered move. `received`
/// holds every command delivered by a flush, oldest first. `height` and
/// `width` are the grid size the double reports.
#[derive(Debug)]
pub struct HostModel {
    pub raw: bool,
    pub alternate: bool,
    pub caret_visible: bool,
    pub requested_col: u16,
    pub requested_row: u16,
    pub received: Vec<Command>,
    pub height: u16,
    pub width: u16,
}

/// The mathematical value of a `HostModel`.
pub ghost struct HostV {
    pub raw: bool,
    pub alternate: bool,
    pub caret_visible: bool,
    pub requested_col: u16,
    pub requested_row: u16,
    pub received: Seq<CommandV>,
    pub height: u16,
    pub width: u16,
}

impl View for HostModel {
    type V = HostV;

    open spec fn view(&self) -> HostV {
        HostV {
            raw: self.raw,
            alternate: self.alternate,
            caret_visible: self.caret_visible,
            requested_col: self.requested_col,
            requested_row: self.requested_row,
            received: cmds_view(self.received@),
            height: self.height,
            width: self.width,
        }
    }
}

/// The host state a driver in state `h` is in after it receives the one
/// command `c`: the command is recorded, and the flags it addresses move.
pub open spec fn host_step(h: HostV, c: CommandV) -> HostV {
    let logged = HostV { received: h.received.push(c), ..h };
    match c {
        CommandV::MoveTo(col, row) => HostV { requested_col: col, requested_row: row, ..logged },
        CommandV::ClearAll => logged,
        CommandV::ClearLine => logged,
        CommandV::EnterAlternate => HostV { alternate: true, ..logged },
        CommandV::LeaveAlternate => HostV { alternate: false, ..logged },
        CommandV::HideCaret => HostV { caret_visible: false, ..logged },
        CommandV::ShowCaret => HostV { caret_visible: true, ..logged },
        CommandV::Print(_) => logged,
    }
}

/// The host state after it receives the whole batch `cs`, oldest first.
pub open spec fn host_run(h: HostV, cs: Seq<CommandV>) -> HostV
    decreases cs.len(),
{
    if cs.len() == 0 {
        h
    } else {
        host_step(host_run(h, cs.drop_last()), cs.last())
    }
}

pub proof fn lemma_host_run_empty(h: HostV, cs: Seq<CommandV>)
    requires
        cs.len() == 0,
    ensures
        host_run(h, cs) == h,
{
}

pub proof fn lemma_host_run_push(h: HostV, cs: Seq<CommandV>, c: CommandV)
    ensures
        host_run(h, cs.push(c)) == host_step(host_run(h, cs), c),
{
    assert(cs.push(c).drop_last() =~= cs);
}

/// Running a batch never touches the mode flag or the reported size:
/// only the two mode-changing operations move them, and they do not queue.
pub proof fn lemma_host_run_keeps_mode_and_size(h: HostV, cs: Seq<CommandV>)
    ensures
        host_run(h, cs).raw == h.raw,
        host_run(h, cs).height == h.height,
        host_run(h, cs).width == h.width,
    decreases cs.len(),
{
    if cs.len() > 0 {
        lemma_host_run_keeps_mode_and_size(h, cs.drop_last());
    }
}

impl HostModel {
    /// A fresh driver double: cooked mode, main screen, caret visible at
    /// the origin, nothing received, reporting the given grid size.
    pub fn fresh(width: u16, height: u16) -> (h: HostModel)
        ensures
            h@ == initial_host(width, height),
    {
        let h = HostModel {
            raw: false,
            alternate: false,
            caret_visible: true,
            requested_col: 0,
            requested_row: 0,
            received: Vec::new(),
            height,
            width,
        };
        proof {
            crate::command::lemma_cmds_view_empty(h.received@);
            assert(h@ =~= initial_host(width, height));
        }
        h
    }

    /// Record the delivery of one command, as `host_step` says.
    pub fn receive(&mut self, c: Command)
        ensures
            final(self)@ == host_step(old(self)@, c@),
    {
        match &c {
            Command::MoveTo(col, row) => {
                self.requested_col = *col;
                self.requested_row = *row;
            },
            Command::ClearAll => {},
            Command::ClearLine => {},
            Command::EnterAlternate => {
                self.alternate = true;
            },
            Command::LeaveAlternate => {
                self.alternate = false;
            },
            Command::HideCaret => {
                self.caret_visible = false;
            },
            Command::ShowCaret => {
                self.caret_visible = true;
            },
            Command::Print(_) => {},
        }
        let ghost before = self.received@;
        self.received.push(c);
        proof {
            crate::command::lemma_cmds_view_push(before, c);
            assert(self@ == host_step(old(self)@, c@));
        }
    }
}

/// The double a fresh handle starts from.
pub open spec fn initial_host(width: u16, height: u16) -> HostV {
    HostV {
        raw: false,
        alternate: false,
        caret_visible: true,
        requested_col: 0,
        requested_row: 0,
        received: Seq::empty(),
        height,
        width,
    }
}

} // verus!
