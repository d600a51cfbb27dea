use vstd::prelude::*;

verus! {

/// Bit position of the CARRY flag in the flags register.
pub const CARRY_SHIFT: u32 = 1;

/// Bit position of the ZERO flag in the flags register.
pub const ZERO_SHIFT: u32 = 6;

/// Bit position of the SIGN flag in the flags register.
pub const SIGN_SHIFT: u32 = 7;

/// Bit position of the OVERFLOW flag in the flags register.
pub const OVERFLOW_SHIFT: u32 = 11;

/// Whether the flag at bit position `shift` is set in `eflags`.
pub open spec fn flag_set(eflags: u32, shift: u32) -> bool
    recommends
        shift < 32,
{
    eflags & (1u32 << shift) != 0
}

/// The flags word after recording an arithmetic outcome: `x` and `y` are
/// the 32-bit operands and `z` the wide two's-complement result of
/// combining them (a sum or a difference; this function never decides
/// which). CARRY records bits at position 32 and above, ZERO and SIGN
/// describe the low 32 bits, OVERFLOW is the two-operand signed-overflow
/// test. All other bits keep their previous value.
pub open spec fn eflags_update(eflags: u32, x: u32, y: u32, z: u64) -> u32 {
    let sign_x = x >> 31 != 0;
    let sign_y = y >> 31 != 0;
    let sign_z = (z >> 31) & 1 != 0;
    let e1 = if z >> 32 != 0 {
        eflags | (1u32 << CARRY_SHIFT)
    } else {
        eflags & !(1u32 << CARRY_SHIFT)
    };
    let e2 = if z & 0xFFFF_FFFF == 0 {
        e1 | (1u32 << ZERO_SHIFT)
    } else {
        e1 & !(1u32 << ZERO_SHIFT)
    };
    let e3 = if sign_z {
        e2 | (1u32 << SIGN_SHIFT)
    } else {
        e2 & !(1u32 << SIGN_SHIFT)
    };
    if sign_x != sign_y && sign_x != sign_z {
        e3 | (1u32 << OVERFLOW_SHIFT)
    } else {
        e3 & !(1u32 << OVERFLOW_SHIFT)
    }
}

/// Sets the flag at bit position `shift`.
pub fn set(eflags: &mut u32, shift: u32)
    requires
        shift < 32,
    ensures
        *final(eflags) == *old(eflags) | (1u32 << shift),
{
    *eflags = *eflags | (1u32 << shift);
}

/// Clears the flag at bit position `shift`.
pub fn unset(eflags: &mut u32, shift: u32)
    requires
        shift < 32,
    ensures
        *final(eflags) == *old(eflags) & !(1u32 << shift),
{
    *eflags = *eflags & !(1u32 << shift);
}

/// Records the outcome of an arithmetic operation in the flags register:
/// exactly the four status bits change, as `eflags_update` describes.
pub fn update_eflags(out: &mut u32, x: u32, y: u32, z: u64)
    ensures
        *final(out) == eflags_update(*old(out), x, y, z),
{
    let sign_x: bool = x >> 31 != 0;
    let sign_y: bool = y >> 31 != 0;
    let sign_z: bool = (z >> 31) & 1 != 0;

    if z >> 32 != 0 {
        set(out, CARRY_SHIFT);
    } else {
        unset(out, CARRY_SHIFT);
    }

    if z & 0xFFFF_FFFF == 0 {
        set(out, ZERO_SHIFT);
    } else {
        unset(out, ZERO_SHIFT);
    }

    if sign_z {
        set(out, SIGN_SHIFT);
    } else {
        unset(out, SIGN_SHIFT);
    }

    if sign_x != sign_y && sign_x != sign_z {
        set(out, OVERFLOW_SHIFT);
    } else {
        unset(out, OVERFLOW_SHIFT);
    }
}

/// What each status bit means after `eflags_update`, stated arithmetically:
/// CARRY is set exactly when the wide result does not fit in 32 bits
/// unsigned, ZERO when its low 32 bits are all zero, SIGN when bit 31 of
/// the low 32 bits is set, OVERFLOW by the standard two-operand signed test
/// on the low 32 bits; every other bit of the flags word is unchanged.
pub proof fn lemma_eflags_update(eflags: u32, x: u32, y: u32, z: u64)
    ensures
        flag_set(eflags_update(eflags, x, y, z), CARRY_SHIFT) <==> z >= 0x1_0000_0000,
        flag_set(eflags_update(eflags, x, y, z), ZERO_SHIFT) <==> z % 0x1_0000_0000 == 0,
        flag_set(eflags_update(eflags, x, y, z), SIGN_SHIFT) <==> z % 0x1_0000_0000 >= 0x8000_0000,
        flag_set(eflags_update(eflags, x, y, z), OVERFLOW_SHIFT) <==> ((x >= 0x8000_0000) != (y
            >= 0x8000_0000) && (x >= 0x8000_0000) != (z % 0x1_0000_0000 >= 0x8000_0000)),
        forall|sh: u32|
            sh < 32 && sh != CARRY_SHIFT && sh != ZERO_SHIFT && sh != SIGN_SHIFT && sh
                != OVERFLOW_SHIFT ==> (flag_set(#[trigger] eflags_update(eflags, x, y, z), sh)
                <==> flag_set(eflags, sh)),
{
    let r = eflags_update(eflags, x, y, z);
    assert(flag_set(r, 1) <==> z >= 0x1_0000_0000) by (bit_vector)
        requires
            r == eflags_update(eflags, x, y, z),
    ;
    assert(flag_set(r, 6) <==> z % 0x1_0000_0000 == 0) by (bit_vector)
        requires
            r == eflags_update(eflags, x, y, z),
    ;
    assert(flag_set(r, 7) <==> z % 0x1_0000_0000 >= 0x8000_0000) by (bit_vector)
        requires
            r == eflags_update(eflags, x, y, z),
    ;
    assert(flag_set(r, 11) <==> ((x >= 0x8000_0000) != (y >= 0x8000_0000) && (x >= 0x8000_0000) != (
    z % 0x1_0000_0000 >= 0x8000_0000))) by (bit_vector)
        requires
            r == eflags_update(eflags, x, y, z),
    ;
    assert forall|sh: u32|
        sh < 32 && sh != 1 && sh != 6 && sh != 7 && sh != 11 implies (flag_set(
        #[trigger] eflags_update(eflags, x, y, z),
        sh,
    ) <==> flag_set(eflags, sh)) by {
        assert(flag_set(r, sh) <==> flag_set(eflags, sh)) by (bit_vector)
            requires
                r == eflags_update(eflags, x, y, z),
                sh < 32 && sh != 1 && sh != 6 && sh != 7 && sh != 11,
        ;
    }
}

} // verus!
