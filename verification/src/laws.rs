use vstd::prelude::*;

use crate::arith::{le32_at, signed8, store_le32, wide_diff, wrap32};
use crate::emulator::{pop_ok, pop_post, pop_val, push_ok, push_post, MachineView, REG_ESP};
use crate::flags::{
    eflags_update, flag_set, CARRY_SHIFT, OVERFLOW_SHIFT, SIGN_SHIFT, ZERO_SHIFT,
};
use crate::insts::{rel_call_rel32, rel_ret, rel_short_jump};

verus! {

/// Writing a value to any valid register and reading that register back
/// yields the value unchanged, and no other register moves.
pub proof fn lemma_reg_write_read(regs: Seq<u32>, r: int, v: u32)
    requires
        regs.len() == 8,
        0 <= r < 8,
    ensures
        regs.update(r, v)[r] == v,
        forall|j: int| 0 <= j < 8 && j != r ==> regs.update(r, v)[j] == regs[j],
{
}

/// Writing a 32-bit value little-endian at any in-bounds address and
/// reading 32 bits back at that address yields the value unchanged.
pub proof fn lemma_mem_write_read(m: Seq<u8>, a: int, v: u32)
    requires
        0 <= a,
        a + 4 <= m.len(),
    ensures
        le32_at(store_le32(m, a, v as int), a) == v,
{
    crate::arith::lemma_store_le32_roundtrip(m, a, v as int);
}

/// A push followed by a pop restores the original stack pointer and yields
/// the original pushed value, from any machine state whose stack has room:
/// the pop is possible, it reads back exactly the pushed value, and the
/// register file afterwards equals the one before the push.
pub proof fn lemma_push_pop(pre: MachineView, v: u32)
    requires
        pre.regs.len() == 8,
        push_ok(pre),
    ensures
        pop_ok(push_post(pre, v)),
        pop_val(push_post(pre, v)) == v,
        pop_post(push_post(pre, v)).regs == pre.regs,
        pop_post(push_post(pre, v)).eflags == pre.eflags,
        pop_post(push_post(pre, v)).eip == pre.eip,
{
    let esp = pre.regs[REG_ESP as int];
    crate::arith::lemma_store_le32_roundtrip(pre.mem, esp - 4, v as int);
    assert(pop_post(push_post(pre, v)).regs =~= pre.regs);
}

/// A CALL transition followed by a RET transition brings the instruction
/// pointer to the address immediately after the CALL instruction and
/// restores the whole register file, stack pointer included, whatever the
/// CALL's relative offset was.
pub proof fn lemma_call_ret(pre: MachineView, mid: MachineView, post: MachineView)
    requires
        pre.regs.len() == 8,
        pre.mem.len() <= 0xFFFF_FFFF,
        rel_call_rel32(pre, mid, Ok(())),
        rel_ret(mid, post, Ok(())),
    ensures
        post.eip == pre.eip + 5,
        post.regs == pre.regs,
{
    let esp = pre.regs[REG_ESP as int];
    crate::arith::lemma_store_le32_roundtrip(pre.mem, esp - 4, pre.eip + 5);
    assert(post.regs =~= pre.regs);
}

/// Comparing any 32-bit value with itself sets the ZERO flag and clears
/// CARRY, SIGN and OVERFLOW.
pub proof fn lemma_cmp_equal_flags(eflags: u32, x: u32)
    ensures
        flag_set(eflags_update(eflags, x, x, wide_diff(x, x)), ZERO_SHIFT),
        !flag_set(eflags_update(eflags, x, x, wide_diff(x, x)), CARRY_SHIFT),
        !flag_set(eflags_update(eflags, x, x, wide_diff(x, x)), SIGN_SHIFT),
        !flag_set(eflags_update(eflags, x, x, wide_diff(x, x)), OVERFLOW_SHIFT),
{
    assert(wide_diff(x, x) == 0);
    crate::flags::lemma_eflags_update(eflags, x, x, 0);
}

/// A short jump whose displacement byte is 0xFE (that is, -2) lands
/// exactly on its own address: the adjustment is -2 plus the instruction
/// length 2.
pub proof fn lemma_short_jump_minus_two(pre: MachineView, post: MachineView)
    requires
        rel_short_jump(pre, post, Ok(())),
        pre.mem[pre.eip + 1] == 0xFE,
    ensures
        post.eip == pre.eip,
{
    assert(signed8(0xFE) == -2);
    assert(wrap32(pre.eip + signed8(0xFE) + 2) == pre.eip);
}

} // verus!
