use vstd::prelude::*;

use crate::arith::{apply_offset, le32_at, signed32, signed8, wrap32};
use crate::emulator::Emulator;
use crate::fault::Fault;

verus! {

/// The displacement carried by an addressing mode: none, a signed 8-bit
/// value, or a signed 32-bit value.
pub enum Disp {
    /// The mode carries no displacement bytes.
    NoDisp,
    /// A signed 8-bit displacement.
    D8(i8),
    /// A signed 32-bit displacement.
    D32(i32),
}

/// The `mod` field of a ModRM byte: bits 7-6.
pub open spec fn mo_of(code: u8) -> u8 {
    code >> 6
}

/// The `reg` field of a ModRM byte: bits 5-3, a second register operand or
/// an opcode-group selector.
pub open spec fn re_of(code: u8) -> u8 {
    (code >> 3) & 7
}

/// The `rm` field of a ModRM byte: bits 2-0.
pub open spec fn rm_of(code: u8) -> u8 {
    code & 7
}

/// The three ModRM fields always fit their widths.
pub proof fn lemma_modrm_fields(code: u8)
    ensures
        mo_of(code) <= 3,
        re_of(code) <= 7,
        rm_of(code) <= 7,
{
    assert(code >> 6 <= 3 && (code >> 3) & 7 <= 7 && code & 7 <= 7) by (bit_vector);
}

/// Whether a SIB byte follows the ModRM byte `code`: any memory mode whose
/// `rm` field is the SIB-required pattern.
pub open spec fn has_sib(code: u8) -> bool {
    mo_of(code) != 3 && rm_of(code) == 4
}

/// How many displacement bytes follow: 4 for the 32-bit-displacement mode
/// and for the absolute "disp32 only" pattern, 1 for the 8-bit mode,
/// otherwise none.
pub open spec fn disp_size(code: u8) -> int {
    if mo_of(code) == 2 || (mo_of(code) == 0 && rm_of(code) == 5) {
        4
    } else if mo_of(code) == 1 {
        1
    } else {
        0
    }
}

/// Total bytes the addressing form occupies: the ModRM byte itself, the
/// SIB byte if present, and the displacement.
pub open spec fn encoded_len(code: u8) -> int {
    1 + (if has_sib(code) {
        1int
    } else {
        0int
    }) + disp_size(code)
}

/// The bytes of a whole addressing form lie inside memory at offset `a`.
pub open spec fn parse_ok(m: Seq<u8>, a: int) -> bool {
    0 <= a < m.len() && a + encoded_len(m[a]) <= m.len()
}

/// The operand descriptor encoded at offset `a` of `m`.
pub open spec fn parsed(m: Seq<u8>, a: int) -> ModRM {
    let code = m[a];
    let disp_at = a + 1 + if has_sib(code) {
        1int
    } else {
        0int
    };
    ModRM {
        mo: mo_of(code),
        re: re_of(code),
        rm: rm_of(code),
        sib: if has_sib(code) {
            Some(m[a + 1])
        } else {
            None
        },
        disp: if disp_size(code) == 4 {
            Disp::D32(signed32(le32_at(m, disp_at)) as i32)
        } else if disp_size(code) == 1 {
            Disp::D8(signed8(m[disp_at]) as i8)
        } else {
            Disp::NoDisp
        },
    }
}

/// An operand descriptor: the decoded addressing mode of one instruction.
/// It is built once per instruction that declares a ModRM byte, consumed by
/// that instruction's operand access, then discarded.
pub struct ModRM {
    /// The addressing mode, 2 bits.
    pub mo: u8,
    /// The secondary register / opcode-group selector field, 3 bits.
    pub re: u8,
    /// The base-register / table field, 3 bits.
    pub rm: u8,
    /// The SIB byte, captured but never interpreted: resolving one is
    /// outside this subset and faults.
    pub sib: Option<u8>,
    /// The displacement, as the mode dictates.
    pub disp: Disp,
}

impl ModRM {
    /// The fields fit their bit widths and the displacement variant
    /// matches what the mode dictates.
    pub open spec fn wf(self) -> bool {
        &&& self.mo <= 3
        &&& self.re <= 7
        &&& self.rm <= 7
        &&& (self.sib is Some <==> (self.mo != 3 && self.rm == 4))
        &&& ((self.mo == 2 || (self.mo == 0 && self.rm == 5)) <==> self.disp is D32)
        &&& (self.mo == 1 <==> self.disp is D8)
    }

    /// The displacement as a signed integer; 0 when the mode carries none.
    pub open spec fn disp_val(self) -> int {
        match self.disp {
            Disp::NoDisp => 0,
            Disp::D8(d) => d as int,
            Disp::D32(d) => d as int,
        }
    }

    /// Reads and splits the ModRM byte at the current instruction pointer,
    /// together with its SIB byte and displacement, and advances the
    /// instruction pointer past them. Fails, leaving the machine untouched,
    /// exactly when those bytes would run past the end of memory.
    pub fn parse(emu: &mut Emulator) -> (r: Result<ModRM, Fault>)
        requires
            old(emu).wf(),
        ensures
            final(emu).wf(),
            final(emu)@.regs == old(emu)@.regs,
            final(emu)@.eflags == old(emu)@.eflags,
            final(emu)@.mem == old(emu)@.mem,
            r is Ok <==> parse_ok(old(emu)@.mem, old(emu)@.eip as int),
            r matches Ok(x) ==> {
                &&& x == parsed(old(emu)@.mem, old(emu)@.eip as int)
                &&& x.wf()
                &&& final(emu)@.eip == old(emu)@.eip + encoded_len(old(emu)@.mem[old(emu)@.eip as int])
            },
            r is Err ==> final(emu)@.eip == old(emu)@.eip && r->Err_0 == Fault::OutOfBounds,
    {
        let sz: u32 = emu.mem.size();
        let a: u32 = emu.eip;
        if a >= sz {
            return Err(Fault::OutOfBounds);
        }
        let code: u8 = emu.mem.read_u8(a);
        proof {
            lemma_modrm_fields(code);
        }
        let mo: u8 = code >> 6;
        let re: u8 = (code >> 3) & 7;
        let rm: u8 = code & 7;
        let sib_len: u32 = if mo != 3 && rm == 4 {
            1
        } else {
            0
        };
        let disp_len: u32 = if mo == 2 || (mo == 0 && rm == 5) {
            4
        } else if mo == 1 {
            1
        } else {
            0
        };
        if sz - a < 1 + sib_len + disp_len {
            return Err(Fault::OutOfBounds);
        }
        let sib: Option<u8> = if sib_len == 1 {
            Some(emu.mem.read_u8(a + 1))
        } else {
            None
        };
        let disp_at: u32 = a + 1 + sib_len;
        let disp: Disp = if disp_len == 4 {
            Disp::D32(emu.mem.read_i32(disp_at))
        } else if disp_len == 1 {
            Disp::D8(emu.mem.read_i8(disp_at))
        } else {
            Disp::NoDisp
        };
        emu.eip = a + 1 + sib_len + disp_len;
        Ok(ModRM { mo, re, rm, sib, disp })
    }

    /// The effective memory address this descriptor denotes, given the
    /// register file: the displacement alone (reinterpreted as unsigned)
    /// for the absolute pattern, otherwise the base register combined with
    /// the signed displacement, modulo 2^32.
    pub open spec fn ea_spec(self, regs: Seq<u32>) -> int {
        if self.mo == 0 && self.rm == 5 {
            wrap32(self.disp_val())
        } else {
            wrap32(regs[self.rm as int] + self.disp_val())
        }
    }

    /// Resolves the descriptor to a memory address. Never called for
    /// register-direct mode; fails exactly when the mode needs the SIB
    /// byte resolved, which this subset does not implement.
    pub fn calc_memory_address(&self, emu: &Emulator) -> (r: Result<u32, Fault>)
        requires
            self.wf(),
            emu.wf(),
            self.mo != 3,
        ensures
            r is Ok <==> self.rm != 4,
            r matches Ok(a) ==> a == self.ea_spec(emu@.regs),
            r is Err ==> r->Err_0 == Fault::SibUnsupported,
    {
        if self.rm == 4 {
            return Err(Fault::SibUnsupported);
        }
        if self.mo == 0 && self.rm == 5 {
            // Absolute disp32: the displacement reinterpreted as unsigned.
            match self.disp {
                Disp::D32(d) => {
                    if d >= 0 {
                        Ok(d as u32)
                    } else {
                        Ok(((d as i64) + 0x1_0000_0000) as u32)
                    }
                },
                _ => {
                    proof {
                        assert(false);
                    }
                    Err(Fault::SibUnsupported)
                },
            }
        } else {
            let base: u32 = emu.read_reg(self.rm as usize);
            match self.disp {
                Disp::NoDisp => Ok(base),
                Disp::D8(d) => Ok(apply_offset(base, d as i64)),
                Disp::D32(d) => Ok(apply_offset(base, d as i64)),
            }
        }
    }

    /// Whether this descriptor's operand can be read or written: always,
    /// for register-direct mode; otherwise the mode must not need the SIB
    /// byte and the four operand bytes must lie inside memory.
    pub open spec fn operand_ok(self, regs: Seq<u32>, mem: Seq<u8>) -> bool {
        self.mo == 3 || (self.rm != 4 && self.ea_spec(regs) + 4 <= mem.len())
    }

    /// The fault an operand access reports when it cannot proceed.
    pub open spec fn operand_fault(self) -> Fault {
        if self.mo != 3 && self.rm == 4 {
            Fault::SibUnsupported
        } else {
            Fault::OutOfBounds
        }
    }

    /// The operand's current value: the register selected by `rm` in
    /// register-direct mode, otherwise the 32-bit value at the effective
    /// address.
    pub open spec fn operand_val(self, regs: Seq<u32>, mem: Seq<u8>) -> int {
        if self.mo == 3 {
            regs[self.rm as int] as int
        } else {
            le32_at(mem, self.ea_spec(regs))
        }
    }

    /// The register file after writing `v` to the operand location.
    pub open spec fn regs_after_write(self, regs: Seq<u32>, v: u32) -> Seq<u32> {
        if self.mo == 3 {
            regs.update(self.rm as int, v)
        } else {
            regs
        }
    }

    /// The memory after writing `v` to the operand location.
    pub open spec fn mem_after_write(self, regs: Seq<u32>, mem: Seq<u8>, v: u32) -> Seq<u8> {
        if self.mo == 3 {
            mem
        } else {
            crate::arith::store_le32(mem, self.ea_spec(regs), v as int)
        }
    }

    /// Reads the operand this descriptor denotes. Fails, leaving the
    /// machine untouched, exactly when the operand is unreachable
    /// (SIB-based addressing, or an address outside memory).
    pub fn read_u32(&self, emu: &mut Emulator) -> (r: Result<u32, Fault>)
        requires
            self.wf(),
            old(emu).wf(),
        ensures
            final(emu).wf(),
            final(emu)@ == old(emu)@,
            r is Ok <==> self.operand_ok(old(emu)@.regs, old(emu)@.mem),
            r matches Ok(v) ==> v == self.operand_val(old(emu)@.regs, old(emu)@.mem),
            r is Err ==> r->Err_0 == self.operand_fault(),
    {
        if self.mo == 3 {
            Ok(emu.read_reg(self.rm as usize))
        } else {
            let addr: u32 = match self.calc_memory_address(emu) {
                Ok(a) => a,
                Err(f) => {
                    return Err(f);
                },
            };
            let sz: u32 = emu.mem.size();
            if addr > sz || sz - addr < 4 {
                return Err(Fault::OutOfBounds);
            }
            Ok(emu.mem.read_u32(addr))
        }
    }

    /// Writes `v` to the operand this descriptor denotes. Fails, leaving
    /// the machine untouched, exactly when the operand is unreachable.
    pub fn write_u32(&self, v: u32, emu: &mut Emulator) -> (r: Result<(), Fault>)
        requires
            self.wf(),
            old(emu).wf(),
        ensures
            final(emu).wf(),
            final(emu)@.eip == old(emu)@.eip,
            final(emu)@.eflags == old(emu)@.eflags,
            r is Ok <==> self.operand_ok(old(emu)@.regs, old(emu)@.mem),
            r is Ok ==> {
                &&& final(emu)@.regs == self.regs_after_write(old(emu)@.regs, v)
                &&& final(emu)@.mem == self.mem_after_write(old(emu)@.regs, old(emu)@.mem, v)
            },
            r is Err ==> final(emu)@ == old(emu)@ && r->Err_0 == self.operand_fault(),
    {
        if self.mo == 3 {
            emu.write_reg(self.rm as usize, v);
            Ok(())
        } else {
            let addr: u32 = match self.calc_memory_address(emu) {
                Ok(a) => a,
                Err(f) => {
                    return Err(f);
                },
            };
            let sz: u32 = emu.mem.size();
            if addr > sz || sz - addr < 4 {
                return Err(Fault::OutOfBounds);
            }
            emu.mem.write_u32(addr, v);
            Ok(())
        }
    }
}

} // verus!
