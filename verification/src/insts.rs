use vstd::prelude::*;

use crate::arith::{
    apply_offset, le32_at, signed32, signed8, wide_diff, wide_diff_exec, wide_sum, wrap32,
    wrap_add32, wrap_sub32, sign_extend8,
};
use crate::emulator::{
    data_unchanged, pop_ok, pop_post, pop_val, push_ok, push_post, unchanged, Emulator, HaltReason,
    MachineView, RunOutcome, StepEvent, REG_EBP, REG_ESP,
};
use crate::fault::Fault;
use crate::flags::eflags_update;
use crate::modrm::{encoded_len, parse_ok, parsed, ModRM};

verus! {

/// MOV r32, imm32 (opcodes 0xB8-0xBF): the register coded in the opcode
/// byte receives the 4-byte immediate; 5 bytes are consumed. Fails only
/// when the immediate runs past the end of memory.
pub open spec fn rel_mov_r32_imm32(pre: MachineView, post: MachineView, r: Result<
    (),
    Fault,
>) -> bool {
    let a = pre.eip as int;
    let k = pre.mem[a] - 0xB8;
    &&& (r is Ok <==> a + 5 <= pre.mem.len())
    &&& (r is Ok ==> {
        &&& post.regs == pre.regs.update(k as int, le32_at(pre.mem, a + 1) as u32)
        &&& post.eip == pre.eip + 5
        &&& post.eflags == pre.eflags
        &&& post.mem == pre.mem
    })
    &&& (r is Err ==> unchanged(pre, post) && r->Err_0 == Fault::OutOfBounds)
}

/// JMP rel8 (opcode 0xEB): 2 bytes are consumed and the instruction
/// pointer moves by the signed displacement plus the instruction length,
/// modulo 2^32. Fails only when the displacement byte lies outside memory.
pub open spec fn rel_short_jump(pre: MachineView, post: MachineView, r: Result<(), Fault>) -> bool {
    let a = pre.eip as int;
    &&& (r is Ok <==> a + 2 <= pre.mem.len())
    &&& (r is Ok ==> data_unchanged(pre, post) && post.eip == wrap32(
        a + signed8(pre.mem[a + 1]) + 2,
    ))
    &&& (r is Err ==> unchanged(pre, post) && r->Err_0 == Fault::OutOfBounds)
}

/// JMP rel32 (opcode 0xE9): 5 bytes are consumed and the instruction
/// pointer moves by the signed displacement plus the instruction length,
/// modulo 2^32. Fails only when the displacement lies outside memory.
pub open spec fn rel_near_jump(pre: MachineView, post: MachineView, r: Result<(), Fault>) -> bool {
    let a = pre.eip as int;
    &&& (r is Ok <==> a + 5 <= pre.mem.len())
    &&& (r is Ok ==> data_unchanged(pre, post) && post.eip == wrap32(
        a + signed32(le32_at(pre.mem, a + 1)) + 5,
    ))
    &&& (r is Err ==> unchanged(pre, post) && r->Err_0 == Fault::OutOfBounds)
}

/// PUSH imm8 (opcode 0x6A): the immediate byte, zero-extended to 32 bits,
/// is pushed; 2 bytes are consumed. Fails when the immediate lies outside
/// memory or the stack pointer cannot move down.
pub open spec fn rel_push_imm8(pre: MachineView, post: MachineView, r: Result<(), Fault>) -> bool {
    let a = pre.eip as int;
    let pushed = push_post(pre, pre.mem[a + 1] as u32);
    &&& (r is Ok <==> a + 2 <= pre.mem.len() && push_ok(pre))
    &&& (r is Ok ==> {
        &&& post.regs == pushed.regs
        &&& post.mem == pushed.mem
        &&& post.eflags == pre.eflags
        &&& post.eip == pre.eip + 2
    })
    &&& (r is Err ==> unchanged(pre, post) && r->Err_0 == Fault::OutOfBounds)
}

/// PUSH imm32 (opcode 0x68): the 4-byte immediate is pushed; 5 bytes are
/// consumed. Fails when the immediate lies outside memory or the stack
/// pointer cannot move down.
pub open spec fn rel_push_imm32(pre: MachineView, post: MachineView, r: Result<(), Fault>) -> bool {
    let a = pre.eip as int;
    let pushed = push_post(pre, le32_at(pre.mem, a + 1) as u32);
    &&& (r is Ok <==> a + 5 <= pre.mem.len() && push_ok(pre))
    &&& (r is Ok ==> {
        &&& post.regs == pushed.regs
        &&& post.mem == pushed.mem
        &&& post.eflags == pre.eflags
        &&& post.eip == pre.eip + 5
    })
    &&& (r is Err ==> unchanged(pre, post) && r->Err_0 == Fault::OutOfBounds)
}

/// PUSH r32 (opcodes 0x50-0x57): the register coded in the opcode byte is
/// pushed; 1 byte is consumed. Fails when the stack pointer cannot move
/// down.
pub open spec fn rel_push_r32(pre: MachineView, post: MachineView, r: Result<(), Fault>) -> bool {
    let a = pre.eip as int;
    let k = pre.mem[a] - 0x50;
    let pushed = push_post(pre, pre.regs[k as int]);
    &&& (r is Ok <==> push_ok(pre))
    &&& (r is Ok ==> {
        &&& post.regs == pushed.regs
        &&& post.mem == pushed.mem
        &&& post.eflags == pre.eflags
        &&& post.eip == pre.eip + 1
    })
    &&& (r is Err ==> unchanged(pre, post) && r->Err_0 == Fault::OutOfBounds)
}

/// POP r32 (opcodes 0x58-0x5F): the register coded in the opcode byte
/// receives the popped value; 1 byte is consumed. Fails when the four
/// bytes at the stack pointer lie outside memory.
pub open spec fn rel_pop_r32(pre: MachineView, post: MachineView, r: Result<(), Fault>) -> bool {
    let a = pre.eip as int;
    let k = pre.mem[a] - 0x58;
    &&& (r is Ok <==> pop_ok(pre))
    &&& (r is Ok ==> {
        &&& post.regs == pop_post(pre).regs.update(k as int, pop_val(pre) as u32)
        &&& post.mem == pre.mem
        &&& post.eflags == pre.eflags
        &&& post.eip == pre.eip + 1
    })
    &&& (r is Err ==> unchanged(pre, post) && r->Err_0 == Fault::OutOfBounds)
}

/// CALL rel32 (opcode 0xE8): the address of the next instruction is
/// pushed, then the instruction pointer moves by the signed displacement
/// plus the instruction length, modulo 2^32. Fails when the displacement
/// lies outside memory or the stack pointer cannot move down.
pub open spec fn rel_call_rel32(pre: MachineView, post: MachineView, r: Result<(), Fault>) -> bool {
    let a = pre.eip as int;
    let pushed = push_post(pre, (a + 5) as u32);
    &&& (r is Ok <==> a + 5 <= pre.mem.len() && push_ok(pre))
    &&& (r is Ok ==> {
        &&& post.regs == pushed.regs
        &&& post.mem == pushed.mem
        &&& post.eflags == pre.eflags
        &&& post.eip == wrap32(a + signed32(le32_at(pre.mem, a + 1)) + 5)
    })
    &&& (r is Err ==> unchanged(pre, post) && r->Err_0 == Fault::OutOfBounds)
}

/// LEAVE (opcode 0xC9): the stack pointer is restored from the base
/// pointer and the base pointer is popped; 1 byte is consumed. Fails when
/// the four bytes at the base pointer lie outside memory.
pub open spec fn rel_leave(pre: MachineView, post: MachineView, r: Result<(), Fault>) -> bool {
    let ebp = pre.regs[REG_EBP as int];
    &&& (r is Ok <==> ebp + 4 <= pre.mem.len())
    &&& (r is Ok ==> {
        &&& post.regs == pre.regs.update(REG_ESP as int, (ebp + 4) as u32).update(
            REG_EBP as int,
            le32_at(pre.mem, ebp as int) as u32,
        )
        &&& post.mem == pre.mem
        &&& post.eflags == pre.eflags
        &&& post.eip == pre.eip + 1
    })
    &&& (r is Err ==> unchanged(pre, post) && r->Err_0 == Fault::OutOfBounds)
}

/// RET (opcode 0xC3): the instruction pointer is popped from the stack.
/// Fails when the four bytes at the stack pointer lie outside memory.
pub open spec fn rel_ret(pre: MachineView, post: MachineView, r: Result<(), Fault>) -> bool {
    &&& (r is Ok <==> pop_ok(pre))
    &&& (r is Ok ==> {
        &&& post.regs == pop_post(pre).regs
        &&& post.mem == pre.mem
        &&& post.eflags == pre.eflags
        &&& post.eip == pop_val(pre)
    })
    &&& (r is Err ==> unchanged(pre, post) && r->Err_0 == Fault::OutOfBounds)
}

/// MOV r/m32, imm32 (opcode 0xC7): the ModRM operand receives the 4-byte
/// immediate that follows the addressing form. Fails when the addressing
/// form or the immediate run past memory, or the operand is unreachable.
pub open spec fn rel_mov_rm32_imm32(pre: MachineView, post: MachineView, r: Result<
    (),
    Fault,
>) -> bool {
    let a = pre.eip as int;
    let m = pre.mem;
    let pok = parse_ok(m, a + 1);
    let x = parsed(m, a + 1);
    let p = a + 1 + encoded_len(m[a + 1]);
    let imm_ok = p + 4 <= m.len();
    let wok = x.operand_ok(pre.regs, m);
    let imm = le32_at(m, p) as u32;
    &&& (r is Ok <==> pok && imm_ok && wok)
    &&& (r is Ok ==> {
        &&& post.regs == x.regs_after_write(pre.regs, imm)
        &&& post.mem == x.mem_after_write(pre.regs, m, imm)
        &&& post.eflags == pre.eflags
        &&& post.eip == p + 4
    })
    &&& (r is Err ==> {
        &&& data_unchanged(pre, post)
        &&& r->Err_0 == if pok && imm_ok {
            x.operand_fault()
        } else {
            Fault::OutOfBounds
        }
    })
}

/// MOV r/m32, r32 (opcode 0x89): the ModRM operand receives the register
/// the `reg` field selects. Fails when the addressing form runs past
/// memory or the operand is unreachable.
pub open spec fn rel_mov_rm32_r32(pre: MachineView, post: MachineView, r: Result<
    (),
    Fault,
>) -> bool {
    let a = pre.eip as int;
    let m = pre.mem;
    let pok = parse_ok(m, a + 1);
    let x = parsed(m, a + 1);
    let v = pre.regs[x.re as int];
    let wok = x.operand_ok(pre.regs, m);
    &&& (r is Ok <==> pok && wok)
    &&& (r is Ok ==> {
        &&& post.regs == x.regs_after_write(pre.regs, v)
        &&& post.mem == x.mem_after_write(pre.regs, m, v)
        &&& post.eflags == pre.eflags
        &&& post.eip == a + 1 + encoded_len(m[a + 1])
    })
    &&& (r is Err ==> {
        &&& data_unchanged(pre, post)
        &&& r->Err_0 == if pok {
            x.operand_fault()
        } else {
            Fault::OutOfBounds
        }
    })
}

/// MOV r32, r/m32 (opcode 0x8B): the register the `reg` field selects
/// receives the ModRM operand. Fails when the addressing form runs past
/// memory or the operand is unreachable.
pub open spec fn rel_mov_r32_rm32(pre: MachineView, post: MachineView, r: Result<
    (),
    Fault,
>) -> bool {
    let a = pre.eip as int;
    let m = pre.mem;
    let pok = parse_ok(m, a + 1);
    let x = parsed(m, a + 1);
    let rok = x.operand_ok(pre.regs, m);
    let v = x.operand_val(pre.regs, m) as u32;
    &&& (r is Ok <==> pok && rok)
    &&& (r is Ok ==> {
        &&& post.regs == pre.regs.update(x.re as int, v)
        &&& post.mem == pre.mem
        &&& post.eflags == pre.eflags
        &&& post.eip == a + 1 + encoded_len(m[a + 1])
    })
    &&& (r is Err ==> {
        &&& data_unchanged(pre, post)
        &&& r->Err_0 == if pok {
            x.operand_fault()
        } else {
            Fault::OutOfBounds
        }
    })
}

/// ADD r/m32, r32 (opcode 0x01): the ModRM operand receives its old value
/// plus the register the `reg` field selects, modulo 2^32. The flags are
/// deliberately left unchanged: this opcode's flag effects are an
/// unimplemented gap of the subset. Fails when the addressing form runs
/// past memory or the operand is unreachable.
pub open spec fn rel_add_rm32_r32(pre: MachineView, post: MachineView, r: Result<
    (),
    Fault,
>) -> bool {
    let a = pre.eip as int;
    let m = pre.mem;
    let pok = parse_ok(m, a + 1);
    let x = parsed(m, a + 1);
    let rok = x.operand_ok(pre.regs, m);
    let c = wrap32(x.operand_val(pre.regs, m) + pre.regs[x.re as int]) as u32;
    &&& (r is Ok <==> pok && rok)
    &&& (r is Ok ==> {
        &&& post.regs == x.regs_after_write(pre.regs, c)
        &&& post.mem == x.mem_after_write(pre.regs, m, c)
        &&& post.eflags == pre.eflags
        &&& post.eip == a + 1 + encoded_len(m[a + 1])
    })
    &&& (r is Err ==> {
        &&& data_unchanged(pre, post)
        &&& r->Err_0 == if pok {
            x.operand_fault()
        } else {
            Fault::OutOfBounds
        }
    })
}

/// CMP r32, r/m32: the register the `reg` field selects is compared with
/// the ModRM operand; the wide difference is discarded and only the flags
/// change. Fails when the addressing form runs past memory or the operand
/// is unreachable.
pub open spec fn rel_cmp_r32_rm32(pre: MachineView, post: MachineView, r: Result<
    (),
    Fault,
>) -> bool {
    let a = pre.eip as int;
    let m = pre.mem;
    let pok = parse_ok(m, a + 1);
    let x = parsed(m, a + 1);
    let rok = x.operand_ok(pre.regs, m);
    let xv = pre.regs[x.re as int];
    let yv = x.operand_val(pre.regs, m) as u32;
    &&& (r is Ok <==> pok && rok)
    &&& (r is Ok ==> {
        &&& post.regs == pre.regs
        &&& post.mem == pre.mem
        &&& post.eflags == eflags_update(pre.eflags, xv, yv, wide_diff(xv, yv))
        &&& post.eip == a + 1 + encoded_len(m[a + 1])
    })
    &&& (r is Err ==> {
        &&& data_unchanged(pre, post)
        &&& r->Err_0 == if pok {
            x.operand_fault()
        } else {
            Fault::OutOfBounds
        }
    })
}

/// The opcode group 0x83 (ADD/SUB/CMP r/m32, imm8): the `reg` field
/// selects the operation, the signed immediate byte is sign-extended to 32
/// bits. ADD and SUB store the result modulo 2^32; CMP discards it. All
/// three record the wide result in the flags. Fails when the addressing
/// form or the immediate run past memory, when the operand is unreachable,
/// or when the selector names no operation of the group.
pub open spec fn rel_code_83(pre: MachineView, post: MachineView, r: Result<(), Fault>) -> bool {
    let a = pre.eip as int;
    let m = pre.mem;
    let pok = parse_ok(m, a + 1);
    let x = parsed(m, a + 1);
    let sel_ok = x.re == 0 || x.re == 5 || x.re == 7;
    let rok = x.operand_ok(pre.regs, m);
    let p = a + 1 + encoded_len(m[a + 1]);
    let imm_ok = p + 1 <= m.len();
    let av = x.operand_val(pre.regs, m) as u32;
    let b = wrap32(signed8(m[p])) as u32;
    let z = if x.re == 0 {
        wide_sum(av, b)
    } else {
        wide_diff(av, b)
    };
    let c = if x.re == 0 {
        wrap32(av + b) as u32
    } else {
        wrap32(av - b) as u32
    };
    &&& (r is Ok <==> pok && sel_ok && rok && imm_ok)
    &&& (r is Ok ==> {
        &&& post.regs == if x.re == 7 {
            pre.regs
        } else {
            x.regs_after_write(pre.regs, c)
        }
        &&& post.mem == if x.re == 7 {
            pre.mem
        } else {
            x.mem_after_write(pre.regs, m, c)
        }
        &&& post.eflags == eflags_update(pre.eflags, av, b, z)
        &&& post.eip == p + 1
    })
    &&& (r is Err ==> {
        &&& data_unchanged(pre, post)
        &&& r->Err_0 == if !pok {
            Fault::OutOfBounds
        } else if !sel_ok {
            Fault::GroupUnsupported
        } else if !rok {
            x.operand_fault()
        } else {
            Fault::OutOfBounds
        }
    })
}

/// The opcode group 0xFF, of which only INC r/m32 (`reg` = 0) is
/// implemented: the ModRM operand receives its old value plus one, modulo
/// 2^32, with no flag update. Fails when the addressing form runs past
/// memory, when the operand is unreachable, or when the selector names any
/// other operation.
pub open spec fn rel_code_ff(pre: MachineView, post: MachineView, r: Result<(), Fault>) -> bool {
    let a = pre.eip as int;
    let m = pre.mem;
    let pok = parse_ok(m, a + 1);
    let x = parsed(m, a + 1);
    let sel_ok = x.re == 0;
    let rok = x.operand_ok(pre.regs, m);
    let c = wrap32(x.operand_val(pre.regs, m) + 1) as u32;
    &&& (r is Ok <==> pok && sel_ok && rok)
    &&& (r is Ok ==> {
        &&& post.regs == x.regs_after_write(pre.regs, c)
        &&& post.mem == x.mem_after_write(pre.regs, m, c)
        &&& post.eflags == pre.eflags
        &&& post.eip == a + 1 + encoded_len(m[a + 1])
    })
    &&& (r is Err ==> {
        &&& data_unchanged(pre, post)
        &&& r->Err_0 == if !pok {
            Fault::OutOfBounds
        } else if !sel_ok {
            Fault::GroupUnsupported
        } else {
            x.operand_fault()
        }
    })
}

/// Whether the opcode byte has an entry in the dispatch table.
pub open spec fn known_opcode(op: u8) -> bool {
    ||| op == 0x01
    ||| 0x50 <= op <= 0x5F
    ||| op == 0x68
    ||| op == 0x6A
    ||| op == 0x83
    ||| op == 0x89
    ||| op == 0x8B
    ||| 0xB8 <= op <= 0xBF
    ||| op == 0xC3
    ||| op == 0xC7
    ||| op == 0xC9
    ||| op == 0xE8
    ||| op == 0xE9
    ||| op == 0xEB
    ||| op == 0xFF
}

/// The transition of the instruction the opcode byte at the current
/// instruction pointer selects: the dispatch table as one relation.
/// Meaningful only when that byte is a known opcode.
pub open spec fn step_rel(pre: MachineView, post: MachineView, r: Result<(), Fault>) -> bool {
    let op = pre.mem[pre.eip as int];
    if op == 0x01 {
        rel_add_rm32_r32(pre, post, r)
    } else if 0x50 <= op <= 0x57 {
        rel_push_r32(pre, post, r)
    } else if 0x58 <= op <= 0x5F {
        rel_pop_r32(pre, post, r)
    } else if op == 0x68 {
        rel_push_imm32(pre, post, r)
    } else if op == 0x6A {
        rel_push_imm8(pre, post, r)
    } else if op == 0x83 {
        rel_code_83(pre, post, r)
    } else if op == 0x89 {
        rel_mov_rm32_r32(pre, post, r)
    } else if op == 0x8B {
        rel_mov_r32_rm32(pre, post, r)
    } else if 0xB8 <= op <= 0xBF {
        rel_mov_r32_imm32(pre, post, r)
    } else if op == 0xC3 {
        rel_ret(pre, post, r)
    } else if op == 0xC7 {
        rel_mov_rm32_imm32(pre, post, r)
    } else if op == 0xC9 {
        rel_leave(pre, post, r)
    } else if op == 0xE8 {
        rel_call_rel32(pre, post, r)
    } else if op == 0xE9 {
        rel_near_jump(pre, post, r)
    } else if op == 0xEB {
        rel_short_jump(pre, post, r)
    } else if op == 0xFF {
        rel_code_ff(pre, post, r)
    } else {
        unchanged(pre, post)
    }
}

/// What the machine state looks like when the loop reports halt reason
/// `h`: the instruction pointer at the termination sentinel, past the end
/// of memory, or at an opcode byte with no table entry.
pub open spec fn halted_state(h: HaltReason, s: MachineView) -> bool {
    match h {
        HaltReason::NaturalEnd => s.eip == 0,
        HaltReason::IpOutOfRange => s.eip >= s.mem.len(),
        HaltReason::UnknownOpcode => s.eip < s.mem.len() && !known_opcode(s.mem[s.eip as int]),
    }
}

/// One completed fetch-decode-execute cycle that left the machine running:
/// a known opcode was fetched in bounds, its instruction's transition
/// relates the two states, and the new instruction pointer is not the
/// termination sentinel.
pub open spec fn running_step(pre: MachineView, post: MachineView) -> bool {
    &&& pre.eip < pre.mem.len()
    &&& known_opcode(pre.mem[pre.eip as int])
    &&& step_rel(pre, post, Ok(()))
    &&& post.eip != 0
}

/// What a whole run of the execution loop did, witnessed by the chain of
/// machine states it passed through: `trace` starts at `pre`, every link
/// is one completed instruction that kept the machine running, and the run
/// ended as `r` says: the step budget ran out, the machine halted (at the
/// sentinel after one more instruction, or already out of range or at an
/// unknown opcode), or one more instruction faulted, leaving `post` as
/// that instruction's transition relation allows.
pub open spec fn exec_trace(
    pre: MachineView,
    post: MachineView,
    trace: Seq<MachineView>,
    max_steps: int,
    r: Result<RunOutcome, Fault>,
) -> bool {
    &&& trace.len() >= 1
    &&& trace.len() <= max_steps + 1
    &&& trace[0] == pre
    &&& forall|i: int| 0 <= i < trace.len() - 1 ==> #[trigger] running_step(trace[i], trace[i + 1])
    &&& match r {
        Ok(RunOutcome::OutOfSteps) => post == trace.last() && trace.len() == max_steps + 1,
        Ok(RunOutcome::Halted(h)) => {
            let s = trace.last();
            match h {
                HaltReason::NaturalEnd => {
                    &&& s.eip < s.mem.len()
                    &&& known_opcode(s.mem[s.eip as int])
                    &&& step_rel(s, post, Ok(()))
                    &&& post.eip == 0
                },
                HaltReason::IpOutOfRange => post == s && s.eip >= s.mem.len(),
                HaltReason::UnknownOpcode => post == s && s.eip < s.mem.len() && !known_opcode(
                    s.mem[s.eip as int],
                ),
            }
        },
        Err(f) => {
            let s = trace.last();
            &&& s.eip < s.mem.len()
            &&& known_opcode(s.mem[s.eip as int])
            &&& step_rel(s, post, Err(f))
        },
    }
}

impl Emulator {
    /// MOV r32, imm32: loads the 4-byte immediate into the register the
    /// opcode byte selects.
    pub fn mov_r32_imm32(&mut self) -> (r: Result<(), Fault>)
        requires
            old(self).wf(),
            old(self)@.eip < old(self)@.mem.len(),
            0xB8 <= old(self)@.mem[old(self)@.eip as int] <= 0xBF,
        ensures
            final(self).wf(),
            rel_mov_r32_imm32(old(self)@, final(self)@, r),
    {
        let a: u32 = self.eip;
        let sz: u32 = self.mem.size();
        if sz - a < 5 {
            return Err(Fault::OutOfBounds);
        }
        let code: u8 = self.mem.read_u8(a);
        let k: usize = (code - 0xB8) as usize;
        let v: u32 = self.mem.read_u32(a + 1);
        proof {
            crate::arith::lemma_le32_at_range(old(self)@.mem, a + 1);
        }
        self.write_reg(k, v);
        self.eip = a + 5;
        Ok(())
    }

    /// JMP rel8: a short relative jump.
    pub fn short_jump(&mut self) -> (r: Result<(), Fault>)
        requires
            old(self).wf(),
            old(self)@.eip < old(self)@.mem.len(),
        ensures
            final(self).wf(),
            rel_short_jump(old(self)@, final(self)@, r),
    {
        let a: u32 = self.eip;
        let sz: u32 = self.mem.size();
        if sz - a < 2 {
            return Err(Fault::OutOfBounds);
        }
        let diff: i8 = self.mem.read_i8(a + 1);
        let d: i64 = diff as i64 + 2;
        self.eip = apply_offset(a, d);
        Ok(())
    }

    /// JMP rel32: a near relative jump.
    pub fn near_jump(&mut self) -> (r: Result<(), Fault>)
        requires
            old(self).wf(),
            old(self)@.eip < old(self)@.mem.len(),
        ensures
            final(self).wf(),
            rel_near_jump(old(self)@, final(self)@, r),
    {
        let a: u32 = self.eip;
        let sz: u32 = self.mem.size();
        if sz - a < 5 {
            return Err(Fault::OutOfBounds);
        }
        let diff: i32 = self.mem.read_i32(a + 1);
        let d: i64 = diff as i64 + 5;
        self.eip = apply_offset(a, d);
        Ok(())
    }

    /// PUSH imm8: pushes the immediate byte, zero-extended to 32 bits.
    pub fn push_imm8(&mut self) -> (r: Result<(), Fault>)
        requires
            old(self).wf(),
            old(self)@.eip < old(self)@.mem.len(),
        ensures
            final(self).wf(),
            rel_push_imm8(old(self)@, final(self)@, r),
    {
        let a: u32 = self.eip;
        let sz: u32 = self.mem.size();
        if sz - a < 2 {
            return Err(Fault::OutOfBounds);
        }
        let v: u8 = self.mem.read_u8(a + 1);
        self.push(v as u32)?;
        self.eip = a + 2;
        Ok(())
    }

    /// PUSH imm32: pushes the 4-byte immediate.
    pub fn push_imm32(&mut self) -> (r: Result<(), Fault>)
        requires
            old(self).wf(),
            old(self)@.eip < old(self)@.mem.len(),
        ensures
            final(self).wf(),
            rel_push_imm32(old(self)@, final(self)@, r),
    {
        let a: u32 = self.eip;
        let sz: u32 = self.mem.size();
        if sz - a < 5 {
            return Err(Fault::OutOfBounds);
        }
        let v: u32 = self.mem.read_u32(a + 1);
        proof {
            crate::arith::lemma_le32_at_range(old(self)@.mem, a + 1);
        }
        self.push(v)?;
        self.eip = a + 5;
        Ok(())
    }

    /// PUSH r32: pushes the register the opcode byte selects.
    pub fn push_r32(&mut self) -> (r: Result<(), Fault>)
        requires
            old(self).wf(),
            old(self)@.eip < old(self)@.mem.len(),
            0x50 <= old(self)@.mem[old(self)@.eip as int] <= 0x57,
        ensures
            final(self).wf(),
            rel_push_r32(old(self)@, final(self)@, r),
    {
        let a: u32 = self.eip;
        let code: u8 = self.mem.read_u8(a);
        let k: usize = (code - 0x50) as usize;
        let v: u32 = self.read_reg(k);
        self.push(v)?;
        self.eip = a + 1;
        Ok(())
    }

    /// POP r32: pops into the register the opcode byte selects.
    pub fn pop_r32(&mut self) -> (r: Result<(), Fault>)
        requires
            old(self).wf(),
            old(self)@.eip < old(self)@.mem.len(),
            0x58 <= old(self)@.mem[old(self)@.eip as int] <= 0x5F,
        ensures
            final(self).wf(),
            rel_pop_r32(old(self)@, final(self)@, r),
    {
        let a: u32 = self.eip;
        let code: u8 = self.mem.read_u8(a);
        let k: usize = (code - 0x58) as usize;
        let v: u32 = self.pop()?;
        self.write_reg(k, v);
        self.eip = a + 1;
        Ok(())
    }

    /// CALL rel32: pushes the return address, then jumps relative.
    pub fn call_rel32(&mut self) -> (r: Result<(), Fault>)
        requires
            old(self).wf(),
            old(self)@.eip < old(self)@.mem.len(),
        ensures
            final(self).wf(),
            rel_call_rel32(old(self)@, final(self)@, r),
    {
        let a: u32 = self.eip;
        let sz: u32 = self.mem.size();
        if sz - a < 5 {
            return Err(Fault::OutOfBounds);
        }
        let diff: i32 = self.mem.read_i32(a + 1);
        // The return address: the byte immediately after this instruction.
        self.push(a + 5)?;
        let d: i64 = diff as i64 + 5;
        self.eip = apply_offset(a, d);
        Ok(())
    }

    /// LEAVE: restores the stack pointer from the base pointer, then pops
    /// the base pointer.
    pub fn leave(&mut self) -> (r: Result<(), Fault>)
        requires
            old(self).wf(),
            old(self)@.eip < old(self)@.mem.len(),
        ensures
            final(self).wf(),
            rel_leave(old(self)@, final(self)@, r),
    {
        let a: u32 = self.eip;
        let ebp: u32 = self.read_reg(REG_EBP);
        let sz: u32 = self.mem.size();
        if sz < 4 || ebp > sz - 4 {
            return Err(Fault::OutOfBounds);
        }
        let v: u32 = self.mem.read_u32(ebp);
        proof {
            crate::arith::lemma_le32_at_range(old(self)@.mem, ebp as int);
        }
        self.write_reg(REG_ESP, ebp + 4);
        self.write_reg(REG_EBP, v);
        self.eip = a + 1;
        Ok(())
    }

    /// MOV r/m32, imm32: stores the 4-byte immediate in the ModRM operand.
    pub fn mov_rm32_imm32(&mut self) -> (r: Result<(), Fault>)
        requires
            old(self).wf(),
            old(self)@.eip < old(self)@.mem.len(),
        ensures
            final(self).wf(),
            rel_mov_rm32_imm32(old(self)@, final(self)@, r),
    {
        let a: u32 = self.eip;
        self.eip = a + 1;
        let x: ModRM = match ModRM::parse(self) {
            Ok(x) => x,
            Err(f) => {
                return Err(f);
            },
        };
        let p: u32 = self.eip;
        let sz: u32 = self.mem.size();
        if sz < 4 || p > sz - 4 {
            return Err(Fault::OutOfBounds);
        }
        let v: u32 = self.mem.read_u32(p);
        proof {
            crate::arith::lemma_le32_at_range(old(self)@.mem, p as int);
        }
        self.eip = p + 4;
        x.write_u32(v, self)?;
        Ok(())
    }

    /// MOV r/m32, r32: stores the register the `reg` field selects in the
    /// ModRM operand.
    pub fn mov_rm32_r32(&mut self) -> (r: Result<(), Fault>)
        requires
            old(self).wf(),
            old(self)@.eip < old(self)@.mem.len(),
        ensures
            final(self).wf(),
            rel_mov_rm32_r32(old(self)@, final(self)@, r),
    {
        let a: u32 = self.eip;
        self.eip = a + 1;
        let x: ModRM = match ModRM::parse(self) {
            Ok(x) => x,
            Err(f) => {
                return Err(f);
            },
        };
        let v: u32 = self.read_reg(x.re as usize);
        x.write_u32(v, self)?;
        Ok(())
    }

    /// MOV r32, r/m32: loads the ModRM operand into the register the
    /// `reg` field selects.
    pub fn mov_r32_rm32(&mut self) -> (r: Result<(), Fault>)
        requires
            old(self).wf(),
            old(self)@.eip < old(self)@.mem.len(),
        ensures
            final(self).wf(),
            rel_mov_r32_rm32(old(self)@, final(self)@, r),
    {
        let a: u32 = self.eip;
        self.eip = a + 1;
        let x: ModRM = match ModRM::parse(self) {
            Ok(x) => x,
            Err(f) => {
                return Err(f);
            },
        };
        let v: u32 = x.read_u32(self)?;
        self.write_reg(x.re as usize, v);
        Ok(())
    }

    /// ADD r/m32, r32: adds the register the `reg` field selects to the
    /// ModRM operand, modulo 2^32. The flags are deliberately not touched:
    /// this opcode's flag effects are an unimplemented gap of the subset.
    pub fn add_rm32_r32(&mut self) -> (r: Result<(), Fault>)
        requires
            old(self).wf(),
            old(self)@.eip < old(self)@.mem.len(),
        ensures
            final(self).wf(),
            rel_add_rm32_r32(old(self)@, final(self)@, r),
    {
        let a: u32 = self.eip;
        self.eip = a + 1;
        let x: ModRM = match ModRM::parse(self) {
            Ok(x) => x,
            Err(f) => {
                return Err(f);
            },
        };
        let av: u32 = x.read_u32(self)?;
        let bv: u32 = self.read_reg(x.re as usize);
        let c: u32 = wrap_add32(av, bv);
        x.write_u32(c, self)?;
        Ok(())
    }

    /// CMP r32, r/m32: compares the register the `reg` field selects with
    /// the ModRM operand, discarding the wide difference and recording it
    /// in the flags.
    pub fn cmp_r32_rm32(&mut self) -> (r: Result<(), Fault>)
        requires
            old(self).wf(),
            old(self)@.eip < old(self)@.mem.len(),
        ensures
            final(self).wf(),
            rel_cmp_r32_rm32(old(self)@, final(self)@, r),
    {
        let a: u32 = self.eip;
        self.eip = a + 1;
        let x: ModRM = match ModRM::parse(self) {
            Ok(x) => x,
            Err(f) => {
                return Err(f);
            },
        };
        let xv: u32 = self.read_reg(x.re as usize);
        let yv: u32 = x.read_u32(self)?;
        let z: u64 = wide_diff_exec(xv, yv);
        crate::flags::update_eflags(&mut self.eflags, xv, yv, z);
        Ok(())
    }

    /// The opcode group 0x83: ADD, SUB or CMP of a sign-extended immediate
    /// byte against the ModRM operand, as the `reg` field selects.
    pub fn code_83(&mut self) -> (r: Result<(), Fault>)
        requires
            old(self).wf(),
            old(self)@.eip < old(self)@.mem.len(),
        ensures
            final(self).wf(),
            rel_code_83(old(self)@, final(self)@, r),
    {
        let a: u32 = self.eip;
        self.eip = a + 1;
        let x: ModRM = match ModRM::parse(self) {
            Ok(x) => x,
            Err(f) => {
                return Err(f);
            },
        };
        if x.re != 0 && x.re != 5 && x.re != 7 {
            return Err(Fault::GroupUnsupported);
        }
        let av: u32 = x.read_u32(self)?;
        let p: u32 = self.eip;
        let sz: u32 = self.mem.size();
        if p >= sz {
            return Err(Fault::OutOfBounds);
        }
        let ib: i8 = self.mem.read_i8(p);
        let b: u32 = sign_extend8(ib);
        self.eip = p + 1;
        if x.re == 0 {
            let z: u64 = av as u64 + b as u64;
            let c: u32 = wrap_add32(av, b);
            x.write_u32(c, self)?;
            crate::flags::update_eflags(&mut self.eflags, av, b, z);
        } else if x.re == 5 {
            let z: u64 = wide_diff_exec(av, b);
            let c: u32 = wrap_sub32(av, b);
            x.write_u32(c, self)?;
            crate::flags::update_eflags(&mut self.eflags, av, b, z);
        } else {
            let z: u64 = wide_diff_exec(av, b);
            crate::flags::update_eflags(&mut self.eflags, av, b, z);
        }
        Ok(())
    }

    /// The opcode group 0xFF, of which only INC r/m32 is implemented:
    /// increments the ModRM operand, modulo 2^32, with no flag update.
    pub fn code_ff(&mut self) -> (r: Result<(), Fault>)
        requires
            old(self).wf(),
            old(self)@.eip < old(self)@.mem.len(),
        ensures
            final(self).wf(),
            rel_code_ff(old(self)@, final(self)@, r),
    {
        let a: u32 = self.eip;
        self.eip = a + 1;
        let x: ModRM = match ModRM::parse(self) {
            Ok(x) => x,
            Err(f) => {
                return Err(f);
            },
        };
        if x.re != 0 {
            return Err(Fault::GroupUnsupported);
        }
        let av: u32 = x.read_u32(self)?;
        let c: u32 = wrap_add32(av, 1);
        x.write_u32(c, self)?;
        Ok(())
    }

    /// RET: pops the instruction pointer.
    pub fn ret(&mut self) -> (r: Result<(), Fault>)
        requires
            old(self).wf(),
        ensures
            final(self).wf(),
            rel_ret(old(self)@, final(self)@, r),
    {
        let v: u32 = self.pop()?;
        self.eip = v;
        Ok(())
    }

    /// One fetch-decode-execute cycle. Before fetching, an instruction
    /// pointer at or past the end of memory halts the machine; an opcode
    /// byte with no table entry halts it gracefully with the machine
    /// untouched; otherwise the matched instruction executes (possibly
    /// faulting), and an instruction pointer of exactly 0 afterwards is
    /// the program's natural termination.
    pub fn step(&mut self) -> (r: Result<StepEvent, Fault>)
        requires
            old(self).wf(),
        ensures
            final(self).wf(),
            old(self)@.eip >= old(self)@.mem.len() ==> {
                &&& r is Ok
                &&& r->Ok_0 == StepEvent::Halted(HaltReason::IpOutOfRange)
                &&& unchanged(old(self)@, final(self)@)
            },
            old(self)@.eip < old(self)@.mem.len() && !known_opcode(
                old(self)@.mem[old(self)@.eip as int],
            ) ==> {
                &&& r is Ok
                &&& r->Ok_0 == StepEvent::Halted(HaltReason::UnknownOpcode)
                &&& unchanged(old(self)@, final(self)@)
            },
            old(self)@.eip < old(self)@.mem.len() && known_opcode(
                old(self)@.mem[old(self)@.eip as int],
            ) ==> match r {
                Ok(ev) => {
                    &&& step_rel(old(self)@, final(self)@, Ok(()))
                    &&& ev == if final(self)@.eip == 0 {
                        StepEvent::Halted(HaltReason::NaturalEnd)
                    } else {
                        StepEvent::Running
                    }
                },
                Err(f) => step_rel(old(self)@, final(self)@, Err(f)),
            },
    {
        let sz: u32 = self.mem.size();
        if self.eip >= sz {
            return Ok(StepEvent::Halted(HaltReason::IpOutOfRange));
        }
        let op: u8 = self.mem.read_u8(self.eip);
        let res: Result<(), Fault> = if op == 0x01 {
            self.add_rm32_r32()
        } else if 0x50 <= op && op <= 0x57 {
            self.push_r32()
        } else if 0x58 <= op && op <= 0x5F {
            self.pop_r32()
        } else if op == 0x68 {
            self.push_imm32()
        } else if op == 0x6A {
            self.push_imm8()
        } else if op == 0x83 {
            self.code_83()
        } else if op == 0x89 {
            self.mov_rm32_r32()
        } else if op == 0x8B {
            self.mov_r32_rm32()
        } else if 0xB8 <= op && op <= 0xBF {
            self.mov_r32_imm32()
        } else if op == 0xC3 {
            self.ret()
        } else if op == 0xC7 {
            self.mov_rm32_imm32()
        } else if op == 0xC9 {
            self.leave()
        } else if op == 0xE8 {
            self.call_rel32()
        } else if op == 0xE9 {
            self.near_jump()
        } else if op == 0xEB {
            self.short_jump()
        } else if op == 0xFF {
            self.code_ff()
        } else {
            return Ok(StepEvent::Halted(HaltReason::UnknownOpcode));
        };
        match res {
            Ok(()) => {
                if self.eip == 0 {
                    Ok(StepEvent::Halted(HaltReason::NaturalEnd))
                } else {
                    Ok(StepEvent::Running)
                }
            },
            Err(f) => Err(f),
        }
    }

    /// Drives the fetch-decode-execute loop until the machine halts, a
    /// fault stops it, or `max_steps` instructions have executed (the step
    /// budget makes the loop provably finite; a caller that wants an
    /// unbounded run re-enters). When a halt reason is reported, the final
    /// machine state is in the state that reason describes; whatever the
    /// outcome, it is witnessed by a chain of genuine machine steps.
    pub fn exec(&mut self, max_steps: u64) -> (r: Result<RunOutcome, Fault>)
        requires
            old(self).wf(),
        ensures
            final(self).wf(),
            r matches Ok(RunOutcome::Halted(h)) ==> halted_state(h, final(self)@),
            exists|trace: Seq<MachineView>|
                exec_trace(old(self)@, final(self)@, trace, max_steps as int, r),
    {
        let ghost mut trace: Seq<MachineView> = seq![self@];
        let mut steps: u64 = 0;
        while steps < max_steps
            invariant
                self.wf(),
                steps <= max_steps,
                trace.len() == steps + 1,
                trace[0] == old(self)@,
                trace.last() == self@,
                forall|i: int|
                    0 <= i < trace.len() - 1 ==> #[trigger] running_step(trace[i], trace[i + 1]),
            decreases max_steps - steps,
        {
            match self.step() {
                Ok(StepEvent::Running) => {
                    steps = steps + 1;
                    proof {
                        trace = trace.push(self@);
                    }
                },
                Ok(StepEvent::Halted(h)) => {
                    proof {
                        assert(exec_trace(
                            old(self)@,
                            self@,
                            trace,
                            max_steps as int,
                            Ok(RunOutcome::Halted(h)),
                        ));
                    }
                    return Ok(RunOutcome::Halted(h));
                },
                Err(f) => {
                    proof {
                        assert(exec_trace(old(self)@, self@, trace, max_steps as int, Err(f)));
                    }
                    return Err(f);
                },
            }
        }
        proof {
            assert(exec_trace(
                old(self)@,
                self@,
                trace,
                max_steps as int,
                Ok(RunOutcome::OutOfSteps),
            ));
        }
        Ok(RunOutcome::OutOfSteps)
    }
}

} // verus!
