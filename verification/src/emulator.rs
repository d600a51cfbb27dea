use vstd::prelude::*;

use crate::arith::{le32_at, store_le32};
use crate::fault::Fault;
use crate::memory::Memory;

verus! {

/// The default size of the machine's address space: 1 MiB.
pub const MEMORY_SIZE: u32 = 0x10_0000;

/// Register ordinal of EAX.
pub const REG_EAX: usize = 0;

/// Register ordinal of ECX.
pub const REG_ECX: usize = 1;

/// Register ordinal of EDX.
pub const REG_EDX: usize = 2;

/// Register ordinal of EBX.
pub const REG_EBX: usize = 3;

/// Register ordinal of ESP, the stack pointer.
pub const REG_ESP: usize = 4;

/// Register ordinal of EBP, the base pointer.
pub const REG_EBP: usize = 5;

/// Register ordinal of ESI.
pub const REG_ESI: usize = 6;

/// Register ordinal of EDI.
pub const REG_EDI: usize = 7;

/// Number of general-purpose registers.
pub const REG_COUNT: usize = 8;

/// Why the execution loop stopped, when it stopped gracefully.
#[derive(Clone, Copy, PartialEq, Eq, Debug)]
pub enum HaltReason {
    /// The instruction pointer came to exactly 0 after an instruction:
    /// the program's natural termination sentinel.
    NaturalEnd,
    /// The instruction pointer reached or passed the end of memory.
    IpOutOfRange,
    /// The fetched opcode byte has no entry in the dispatch table.
    UnknownOpcode,
}

/// What one fetch-decode-execute cycle produced.
#[derive(Clone, Copy, PartialEq, Eq, Debug)]
pub enum StepEvent {
    /// An instruction executed and the machine can fetch again.
    Running,
    /// The machine stopped gracefully.
    Halted(HaltReason),
}

/// What a bounded run of the execution loop produced.
#[derive(Clone, Copy, PartialEq, Eq, Debug)]
pub enum RunOutcome {
    /// The machine stopped gracefully.
    Halted(HaltReason),
    /// The step budget ran out before the machine stopped.
    OutOfSteps,
}

/// A ghost snapshot of the whole machine state, the domain over which
/// every instruction's transition relation is stated.
#[verifier::ext_equal]
pub struct MachineView {
    /// The eight general-purpose registers, by ordinal.
    pub regs: Seq<u32>,
    /// The flags register.
    pub eflags: u32,
    /// The instruction pointer.
    pub eip: u32,
    /// The memory contents.
    pub mem: Seq<u8>,
}

/// The machine: registers, flags, instruction pointer and memory. The
/// opcode dispatch is a fixed table, so it keeps no state of its own.
pub struct Emulator {
    /// The eight general-purpose registers, indexed by ordinal.
    pub regs: Vec<u32>,
    /// The flags register.
    pub eflags: u32,
    /// The instruction pointer.
    pub eip: u32,
    /// The machine's memory.
    pub mem: Memory,
}

impl View for Emulator {
    type V = MachineView;

    open spec fn view(&self) -> MachineView {
        MachineView { regs: self.regs@, eflags: self.eflags, eip: self.eip, mem: self.mem@ }
    }
}

/// Machine states `pre` and `post` agree on registers, flags and memory
/// (only the instruction pointer may differ).
pub open spec fn data_unchanged(pre: MachineView, post: MachineView) -> bool {
    post.regs == pre.regs && post.eflags == pre.eflags && post.mem == pre.mem
}

/// Machine states `pre` and `post` are identical.
pub open spec fn unchanged(pre: MachineView, post: MachineView) -> bool {
    data_unchanged(pre, post) && post.eip == pre.eip
}

/// The stack has room for one more 32-bit push: the decremented stack
/// pointer stays inside memory.
pub open spec fn push_ok(pre: MachineView) -> bool {
    4 <= pre.regs[REG_ESP as int] <= pre.mem.len()
}

/// The machine state after pushing `v`: the stack pointer moves down by 4
/// first, then `v` is stored little-endian at the new stack pointer.
pub open spec fn push_post(pre: MachineView, v: u32) -> MachineView {
    let new_esp = (pre.regs[REG_ESP as int] - 4) as u32;
    MachineView {
        regs: pre.regs.update(REG_ESP as int, new_esp),
        mem: store_le32(pre.mem, new_esp as int, v as int),
        ..pre
    }
}

/// The stack has a 32-bit value to pop: the four bytes at the stack
/// pointer lie inside memory.
pub open spec fn pop_ok(pre: MachineView) -> bool {
    pre.regs[REG_ESP as int] + 4 <= pre.mem.len()
}

/// The value a pop yields: the 32-bit value at the current stack pointer.
pub open spec fn pop_val(pre: MachineView) -> int {
    le32_at(pre.mem, pre.regs[REG_ESP as int] as int)
}

/// The machine state after a pop: only the stack pointer moves, up by 4.
pub open spec fn pop_post(pre: MachineView) -> MachineView {
    MachineView {
        regs: pre.regs.update(REG_ESP as int, (pre.regs[REG_ESP as int] + 4) as u32),
        ..pre
    }
}

impl Emulator {
    /// The register file always holds exactly the eight registers, and
    /// memory is addressable by 32-bit offsets.
    pub open spec fn wf(self) -> bool {
        self.regs@.len() == REG_COUNT && self.mem.wf()
    }

    /// A machine with zeroed memory of `mem_size` bytes, all registers
    /// zero except the stack pointer, flags clear, and the instruction
    /// pointer at `eip`.
    pub fn new(mem_size: u32, eip: u32, esp: u32) -> (r: Self)
        ensures
            r.wf(),
            r@.regs == seq![0u32, 0u32, 0u32, 0u32, esp, 0u32, 0u32, 0u32],
            r@.eflags == 0,
            r@.eip == eip,
            r@.mem.len() == mem_size,
            forall|j: int| 0 <= j < mem_size ==> r@.mem[j] == 0u8,
    {
        let mut regs: Vec<u32> = Vec::new();
        regs.push(0);
        regs.push(0);
        regs.push(0);
        regs.push(0);
        regs.push(esp);
        regs.push(0);
        regs.push(0);
        regs.push(0);
        let r = Emulator { regs, eflags: 0, eip, mem: Memory::new(mem_size) };
        proof {
            assert(r@.regs =~= seq![0u32, 0u32, 0u32, 0u32, esp, 0u32, 0u32, 0u32]);
        }
        r
    }

    /// The current value of register `i`.
    pub fn read_reg(&self, i: usize) -> (r: u32)
        requires
            self.wf(),
            i < REG_COUNT,
        ensures
            r == self@.regs[i as int],
    {
        self.regs[i]
    }

    /// Stores `v` in register `i`; nothing else changes.
    pub fn write_reg(&mut self, i: usize, v: u32)
        requires
            old(self).wf(),
            i < REG_COUNT,
        ensures
            final(self).wf(),
            final(self)@.regs == old(self)@.regs.update(i as int, v),
            final(self)@.eflags == old(self)@.eflags,
            final(self)@.eip == old(self)@.eip,
            final(self)@.mem == old(self)@.mem,
    {
        self.regs[i] = v;
    }

    /// Pushes `v` on the stack: the stack pointer is decremented by 4
    /// first, then `v` is stored at it. Fails, leaving the machine
    /// untouched, exactly when the moved stack pointer would leave memory.
    pub fn push(&mut self, v: u32) -> (r: Result<(), Fault>)
        requires
            old(self).wf(),
        ensures
            final(self).wf(),
            r is Ok <==> push_ok(old(self)@),
            r is Ok ==> final(self)@ == push_post(old(self)@, v),
            r is Err ==> final(self)@ == old(self)@ && r->Err_0 == Fault::OutOfBounds,
    {
        let esp: u32 = self.read_reg(REG_ESP);
        if esp < 4 || esp > self.mem.size() {
            return Err(Fault::OutOfBounds);
        }
        let new_esp: u32 = esp - 4;
        self.write_reg(REG_ESP, new_esp);
        self.mem.write_u32(new_esp, v);
        proof {
            assert(self@ =~= push_post(old(self)@, v));
        }
        Ok(())
    }

    /// Pops a 32-bit value: reads it at the current stack pointer, then
    /// increments the stack pointer by 4. Fails, leaving the machine
    /// untouched, exactly when the four bytes at the stack pointer lie
    /// outside memory.
    pub fn pop(&mut self) -> (r: Result<u32, Fault>)
        requires
            old(self).wf(),
        ensures
            final(self).wf(),
            r is Ok <==> pop_ok(old(self)@),
            r matches Ok(v) ==> v == pop_val(old(self)@) && final(self)@ == pop_post(old(self)@),
            r is Err ==> final(self)@ == old(self)@ && r->Err_0 == Fault::OutOfBounds,
    {
        let cur_esp: u32 = self.read_reg(REG_ESP);
        if self.mem.size() < 4 || cur_esp > self.mem.size() - 4 {
            return Err(Fault::OutOfBounds);
        }
        let v: u32 = self.mem.read_u32(cur_esp);
        self.write_reg(REG_ESP, cur_esp + 4);
        proof {
            assert(self@ =~= pop_post(old(self)@));
        }
        Ok(v)
    }
}

} // verus!
