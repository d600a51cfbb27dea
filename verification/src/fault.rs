use vstd::prelude::*;

verus! {

/// A fatal condition: the program under emulation exercised instruction-set
/// surface this subset does not implement, or touched memory outside the
/// address space. The execution loop stops immediately when a handler
/// reports one; it is distinguishable from a graceful halt.
#[derive(Clone, Copy, PartialEq, Eq, Debug)]
pub enum Fault {
    /// A memory access fell outside the buffer, or the stack pointer could
    /// not be moved without leaving it.
    OutOfBounds,
    /// An addressing mode that requires resolving a SIB byte was reached.
    SibUnsupported,
    /// An opcode-group selector (the ModRM `reg` field) named an operation
    /// the group does not implement.
    GroupUnsupported,
}

} // verus!
