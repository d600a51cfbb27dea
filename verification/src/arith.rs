use vstd::prelude::*;

verus! {

/// `x` reduced modulo 2^32. It is defined for every `x` within one wrap of
/// the 32-bit range, which covers every displacement and relative-jump sum
/// this machine forms.
pub open spec fn wrap32(x: int) -> int
    recommends
        -0x1_0000_0000 < x < 0x2_0000_0000,
{
    if x < 0 {
        x + 0x1_0000_0000
    } else if x >= 0x1_0000_0000 {
        x - 0x1_0000_0000
    } else {
        x
    }
}

/// The byte `b` reinterpreted as a two's-complement signed 8-bit value.
pub open spec fn signed8(b: u8) -> int {
    if b < 0x80 {
        b as int
    } else {
        b as int - 0x100
    }
}

/// A 32-bit quantity, given as an integer in `[0, 2^32)`, reinterpreted as
/// a two's-complement signed value.
pub open spec fn signed32(x: int) -> int
    recommends
        0 <= x < 0x1_0000_0000,
{
    if x < 0x8000_0000 {
        x
    } else {
        x - 0x1_0000_0000
    }
}

/// The unsigned 32-bit value stored little-endian at offsets `a..a+4` of `m`.
pub open spec fn le32_at(m: Seq<u8>, a: int) -> int
    recommends
        0 <= a,
        a + 4 <= m.len(),
{
    m[a] + m[a + 1] * 0x100 + m[a + 2] * 0x1_0000 + m[a + 3] * 0x100_0000
}

/// Byte `k` (low byte first) of the little-endian encoding of `v`.
pub open spec fn le32_byte(v: int, k: int) -> u8
    recommends
        0 <= v < 0x1_0000_0000,
        0 <= k < 4,
{
    if k == 0 {
        (v % 0x100) as u8
    } else if k == 1 {
        ((v / 0x100) % 0x100) as u8
    } else if k == 2 {
        ((v / 0x1_0000) % 0x100) as u8
    } else {
        ((v / 0x100_0000) % 0x100) as u8
    }
}

/// `m` with the little-endian encoding of `v` stored at offsets `a..a+4`.
pub open spec fn store_le32(m: Seq<u8>, a: int, v: int) -> Seq<u8>
    recommends
        0 <= a,
        a + 4 <= m.len(),
        0 <= v < 0x1_0000_0000,
{
    m.update(a, le32_byte(v, 0)).update(a + 1, le32_byte(v, 1)).update(a + 2, le32_byte(v, 2)).update(
        a + 3,
        le32_byte(v, 3),
    )
}

/// A little-endian read always yields a value that fits in 32 bits.
pub proof fn lemma_le32_at_range(m: Seq<u8>, a: int)
    requires
        0 <= a,
        a + 4 <= m.len(),
    ensures
        0 <= le32_at(m, a) < 0x1_0000_0000,
{
}

/// Splitting an unsigned 32-bit value into its four bytes and recombining
/// them little-endian gives the value back.
proof fn lemma_u32_byte_decomposition(w: u32)
    by (bit_vector)
    ensures
        w % 0x100 + ((w / 0x100) % 0x100) * 0x100 + ((w / 0x1_0000) % 0x100) * 0x1_0000 + ((w
            / 0x100_0000) % 0x100) * 0x100_0000 == w,
{
}

/// The wide two's-complement 64-bit image of the sum `x + y`.
pub open spec fn wide_sum(x: u32, y: u32) -> u64 {
    (x + y) as u64
}

/// The wide two's-complement 64-bit image of the difference `x - y`.
pub open spec fn wide_diff(x: u32, y: u32) -> u64 {
    if x >= y {
        (x - y) as u64
    } else {
        (0x1_0000_0000_0000_0000 + x - y) as u64
    }
}

/// A 32-bit base combined with a signed offset, with the explicit
/// sign-aware branch: add a non-negative offset, subtract the magnitude of
/// a negative one, producing the same 32-bit-modulo result as
/// two's-complement addition would.
pub fn apply_offset(base: u32, d: i64) -> (r: u32)
    requires
        -0x1_0000_0000 < d < 0x1_0000_0000,
    ensures
        r == wrap32(base + d),
{
    if d >= 0 {
        let t: u64 = base as u64 + d as u64;
        if t >= 0x1_0000_0000 {
            (t - 0x1_0000_0000) as u32
        } else {
            t as u32
        }
    } else {
        let mag: u64 = (-d) as u64;
        if mag <= base as u64 {
            (base as u64 - mag) as u32
        } else {
            ((base as u64 + 0x1_0000_0000) - mag) as u32
        }
    }
}

/// The sum `x + y` reduced modulo 2^32.
pub fn wrap_add32(x: u32, y: u32) -> (r: u32)
    ensures
        r == wrap32(x + y),
{
    let t: u64 = x as u64 + y as u64;
    if t >= 0x1_0000_0000 {
        (t - 0x1_0000_0000) as u32
    } else {
        t as u32
    }
}

/// The difference `x - y` reduced modulo 2^32.
pub fn wrap_sub32(x: u32, y: u32) -> (r: u32)
    ensures
        r == wrap32(x - y),
{
    if x >= y {
        x - y
    } else {
        ((x as u64 + 0x1_0000_0000) - y as u64) as u32
    }
}

/// The wide two's-complement image of `x - y`, as `wide_diff` states it.
pub fn wide_diff_exec(x: u32, y: u32) -> (r: u64)
    ensures
        r == wide_diff(x, y),
{
    if x >= y {
        (x - y) as u64
    } else {
        let d: u32 = y - x;
        (0xFFFF_FFFF_FFFF_FFFFu64 - d as u64) + 1
    }
}

/// The byte value `ib` sign-extended and reinterpreted as an unsigned
/// 32-bit value.
pub fn sign_extend8(ib: i8) -> (r: u32)
    ensures
        r == wrap32(ib as int),
{
    if ib >= 0 {
        ib as u32
    } else {
        ((ib as i64) + 0x1_0000_0000) as u32
    }
}

/// Storing `v` little-endian and reading 32 bits back at the same offset
/// recovers `v`; the store leaves the buffer length unchanged and touches
/// only the four bytes at `a..a+4`.
pub proof fn lemma_store_le32_roundtrip(m: Seq<u8>, a: int, v: int)
    requires
        0 <= a,
        a + 4 <= m.len(),
        0 <= v < 0x1_0000_0000,
    ensures
        store_le32(m, a, v).len() == m.len(),
        le32_at(store_le32(m, a, v), a) == v,
        forall|j: int| 0 <= j < m.len() && !(a <= j < a + 4) ==> store_le32(m, a, v)[j] == m[j],
{
    let w: u32 = v as u32;
    lemma_u32_byte_decomposition(w);
    assert(w == v);
    let s = store_le32(m, a, v);
    assert(s[a] == le32_byte(v, 0));
    assert(s[a + 1] == le32_byte(v, 1));
    assert(s[a + 2] == le32_byte(v, 2));
    assert(s[a + 3] == le32_byte(v, 3));
    assert(le32_byte(v, 0) == v % 0x100);
    assert(le32_byte(v, 1) == (v / 0x100) % 0x100);
    assert(le32_byte(v, 2) == (v / 0x1_0000) % 0x100);
    assert(le32_byte(v, 3) == (v / 0x100_0000) % 0x100);
}

} // verus!
