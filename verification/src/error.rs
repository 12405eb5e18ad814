use vstd::prelude::*;

verus! {

/// The single error kind of the library: the host terminal driver rejected
/// or failed an operation (a mode change, a write, or a size query).
#[derive(Clone, Copy, Debug, PartialEq, Eq, Structural)]
pub struct TerminalError;

} // verus!
