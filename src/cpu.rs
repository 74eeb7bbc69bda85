//! Architectural state of one hart and its fetch / decode / execute step.
use vstd::prelude::*;
use crate::decode::{decode, decode_spec, lemma_decoded_wf, Instruction};
use crate::error::RiscvCpuError;

verus! {

/// Program counter value at reset.
pub const RESET_VECTOR: u64 = 0x0;

// ABI register numbers.
pub const REG_ZERO: usize = 0;
pub const REG_RA: usize = 1;
pub const REG_SP: usize = 2;
pub const REG_GP: usize = 3;
pub const REG_TP: usize = 4;
pub const REG_T0: usize = 5;
pub const REG_T1: usize = 6;
pub const REG_T2: usize = 7;
pub const REG_S0: usize = 8;
pub const REG_S1: usize = 9;
pub const REG_A0: usize = 10;
pub const REG_A1: usize = 11;
pub const REG_A2: usize = 12;
pub const REG_A3: usize = 13;
pub const REG_A4: usize = 14;
pub const REG_A5: usize = 15;
pub const REG_A6: usize = 16;
pub const REG_A7: usize = 17;
pub const REG_S2: usize = 18;
pub const REG_S3: usize = 19;
pub const REG_S4: usize = 20;
pub const REG_S5: usize = 21;
pub const REG_S6: usize = 22;
pub const REG_S7: usize = 23;
pub const REG_S8: usize = 24;
pub const REG_S9: usize = 25;
pub const REG_S10: usize = 26;
pub const REG_S11: usize = 27;
pub const REG_T3: usize = 28;
pub const REG_T4: usize = 29;
pub const REG_T5: usize = 30;
pub const REG_T6: usize = 31;

/// The 32-bit word stored little-endian in `mem[at .. at + 4]`.
pub open spec fn word_le(mem: Seq<u8>, at: int) -> u32 {
    (mem[at] + mem[at + 1] * 0x100 + mem[at + 2] * 0x1_0000 + mem[at + 3] * 0x100_0000) as u32
}

/// The value an instruction writes to its destination register, given the
/// register file and the program counter it executes at.
pub open spec fn result_value(ins: Instruction, regs: Seq<u64>, pc: u64) -> u64 {
    match ins {
        Instruction::Addi { rs1, imm, .. } => (regs[rs1 as int] + imm) as u64,
        Instruction::Slti { rs1, imm, .. } => if (regs[rs1 as int] as i64) < (imm as i64) {
            1
        } else {
            0
        },
        Instruction::Sltiu { rs1, imm, .. } => if regs[rs1 as int] < imm {
            1
        } else {
            0
        },
        Instruction::Xori { rs1, imm, .. } => regs[rs1 as int] ^ imm,
        Instruction::Ori { rs1, imm, .. } => regs[rs1 as int] | imm,
        Instruction::Andi { rs1, imm, .. } => regs[rs1 as int] & imm,
        Instruction::Slli { rs1, shamt, .. } => regs[rs1 as int] << shamt,
        Instruction::Srli { rs1, shamt, .. } => regs[rs1 as int] >> shamt,
        Instruction::Srai { rs1, shamt, .. } => ((regs[rs1 as int] as i64) >> shamt) as u64,
        Instruction::Lui { imm, .. } => imm << 12u64,
        Instruction::Auipc { imm, .. } => (pc + (imm << 12u64)) as u64,
    }
}

/// Abstract architectural state: register file, program counter, memory.
pub struct CpuModel {
    pub regs: Seq<u64>,
    pub pc: u64,
    pub mem: Seq<u8>,
}

impl CpuModel {
    /// Thirty-two registers, the first of which reads as zero.
    pub open spec fn wf(self) -> bool {
        self.regs.len() == 32 && self.regs[0] == 0
    }

    /// State at reset over the memory image `mem`.
    pub open spec fn reset(mem: Seq<u8>) -> CpuModel {
        CpuModel { regs: Seq::new(32, |i: int| 0u64), pc: RESET_VECTOR, mem }
    }

    /// Writes `v` to register `idx`; a write to register 0 is discarded.
    pub open spec fn with_reg(self, idx: int, v: u64) -> CpuModel {
        if idx == 0 {
            self
        } else {
            CpuModel { regs: self.regs.update(idx, v), ..self }
        }
    }

    /// State after executing a decoded instruction (the program counter is
    /// not advanced).
    pub open spec fn apply(self, ins: Instruction) -> CpuModel {
        self.with_reg(ins.dest() as int, result_value(ins, self.regs, self.pc))
    }

    /// The word at the program counter, or `FetchError` when fewer than four
    /// bytes remain there.
    pub open spec fn fetch(self) -> Result<u32, RiscvCpuError> {
        if self.pc + 4 <= self.mem.len() {
            Ok(word_le(self.mem, self.pc as int))
        } else {
            Err(RiscvCpuError::FetchError)
        }
    }

    /// Outcome and state after executing the raw word `inst`; on a decode
    /// failure the state is unchanged.
    pub open spec fn execute(self, inst: u32) -> (Result<(), RiscvCpuError>, CpuModel) {
        match decode_spec(inst) {
            Ok(ins) => (Ok(()), self.apply(ins)),
            Err(e) => (Err(e), self),
        }
    }

    /// One step: fetch, execute, then advance the program counter by four.
    /// On any failure the state is unchanged.
    pub open spec fn step(self) -> (Result<(), RiscvCpuError>, CpuModel) {
        match self.fetch() {
            Err(e) => (Err(e), self),
            Ok(inst) => match decode_spec(inst) {
                Err(e) => (Err(e), self),
                Ok(ins) => {
                    let s = self.apply(ins);
                    (Ok(()), CpuModel { pc: (s.pc + 4) as u64, ..s })
                },
            },
        }
    }
}

/// A single hart: 32 integer registers, a program counter and a memory image.
pub struct RiscvCpu {
    ixu: [u64; 32],
    pc: u64,
    mem: Vec<u8>,
}

impl View for RiscvCpu {
    type V = CpuModel;

    closed spec fn view(&self) -> CpuModel {
        CpuModel { regs: self.ixu@, pc: self.pc, mem: self.mem@ }
    }
}

impl RiscvCpu {
    /// Register 0 is hard-wired to zero.
    #[verifier::type_invariant]
    spec fn inv(self) -> bool {
        self.ixu[0] == 0
    }

    /// A hart at reset: all registers zero, the program counter at the reset
    /// vector, and `code` as its memory image.
    pub fn new(code: Vec<u8>) -> (r: RiscvCpu)
        ensures
            r@ == CpuModel::reset(code@),
            r@.wf(),
    {
        let r = RiscvCpu { ixu: [0u64; 32], pc: RESET_VECTOR, mem: code };
        assert(r@.regs =~= CpuModel::reset(code@).regs);
        r
    }

    /// Reads the 32-bit little-endian word at the program counter. Fails with
    /// `FetchError`, reading nothing, when fewer than four bytes remain.
    /// The program counter is not advanced.
    pub fn fetch(&self) -> (r: Result<u32, RiscvCpuError>)
        ensures
            r == self@.fetch(),
    {
        let len = self.mem.len() as u64;
        if len < 4 || self.pc > len - 4 {
            return Err(RiscvCpuError::FetchError);
        }
        let idx = self.pc as usize;
        let b0 = self.mem[idx];
        let b1 = self.mem[idx + 1];
        let b2 = self.mem[idx + 2];
        let b3 = self.mem[idx + 3];
        let inst = b0 as u32 | (b1 as u32) << 8u32 | (b2 as u32) << 16u32 | (b3 as u32) << 24u32;
        assert(inst == (b0 + b1 * 0x100 + b2 * 0x1_0000 + b3 * 0x100_0000) as u32) by (bit_vector)
            requires
                inst == b0 as u32 | (b1 as u32) << 8u32 | (b2 as u32) << 16u32 | (b3 as u32) << 24u32,
        ;
        Ok(inst)
    }

    /// Writes `v` to register `idx`, discarding writes to register 0.
    fn write_reg(&mut self, idx: usize, v: u64)
        requires
            idx < 32,
        ensures
            final(self)@ == old(self)@.with_reg(idx as int, v),
    {
        proof {
            use_type_invariant(&*self);
        }
        if idx != 0 {
            self.ixu[idx] = v;
        }
    }

    /// Executes a decoded instruction against the register file. The program
    /// counter is not advanced.
    pub fn apply(&mut self, ins: Instruction)
        requires
            ins.wf(),
        ensures
            final(self)@ == old(self)@.apply(ins),
            final(self)@.wf(),
    {
        let v: u64 = match ins {
            Instruction::Addi { rs1, imm, .. } => {
                let x = self.ixu[rs1];
                let v = x.wrapping_add(imm);
                assert(v == (x + imm) as u64) by (bit_vector)
                    requires
                        v == (if x + imm > u64::MAX {
                            (x + imm - 0x1_0000_0000_0000_0000) as u64
                        } else {
                            (x + imm) as u64
                        }),
                ;
                v
            },
            Instruction::Slti { rs1, imm, .. } => {
                if (self.ixu[rs1] as i64) < (imm as i64) {
                    1
                } else {
                    0
                }
            },
            Instruction::Sltiu { rs1, imm, .. } => {
                if self.ixu[rs1] < imm {
                    1
                } else {
                    0
                }
            },
            Instruction::Xori { rs1, imm, .. } => self.ixu[rs1] ^ imm,
            Instruction::Ori { rs1, imm, .. } => self.ixu[rs1] | imm,
            Instruction::Andi { rs1, imm, .. } => self.ixu[rs1] & imm,
            Instruction::Slli { rs1, shamt, .. } => self.ixu[rs1] << shamt,
            Instruction::Srli { rs1, shamt, .. } => self.ixu[rs1] >> shamt,
            Instruction::Srai { rs1, shamt, .. } => ((self.ixu[rs1] as i64) >> shamt) as u64,
            Instruction::Lui { imm, .. } => imm << 12u64,
            Instruction::Auipc { imm, .. } => {
                let off = imm << 12u64;
                let pc = self.pc;
                let v = pc.wrapping_add(off);
                assert(v == (pc + off) as u64) by (bit_vector)
                    requires
                        v == (if pc + off > u64::MAX {
                            (pc + off - 0x1_0000_0000_0000_0000) as u64
                        } else {
                            (pc + off) as u64
                        }),
                ;
                v
            },
        };
        self.write_reg(ins.rd(), v);
        proof {
            use_type_invariant(&*self);
        }
    }

    /// Decodes and executes the raw instruction word `inst`. A word that is
    /// not in the 32-bit format, or that encodes an opcode / function
    /// combination this core does not implement, yields `DecodeError` and
    /// leaves the state unchanged. The program counter is not advanced.
    pub fn execute(&mut self, inst: u32) -> (r: Result<(), RiscvCpuError>)
        ensures
            r == old(self)@.execute(inst).0,
            final(self)@ == old(self)@.execute(inst).1,
            final(self)@.wf(),
    {
        proof {
            use_type_invariant(&*self);
        }
        match decode(inst) {
            Ok(ins) => {
                self.apply(ins);
                Ok(())
            },
            Err(e) => Err(e),
        }
    }

    /// One step: fetches the word at the program counter, executes it, and
    /// advances the program counter by four. On failure the error is returned
    /// and the state is unchanged.
    pub fn pipeline(&mut self) -> (r: Result<(), RiscvCpuError>)
        ensures
            r == old(self)@.step().0,
            final(self)@ == old(self)@.step().1,
            final(self)@.wf(),
    {
        proof {
            use_type_invariant(&*self);
        }
        let inst = match self.fetch() {
            Ok(inst) => inst,
            Err(e) => return Err(e),
        };
        match self.execute(inst) {
            Ok(()) => {
                proof {
                    use_type_invariant(&*self);
                }
                let len = self.mem.len();
                assert(self.pc + 4 <= len);
                self.pc = self.pc + 4;
                proof {
                    use_type_invariant(&*self);
                }
                Ok(())
            },
            Err(e) => Err(e),
        }
    }

    /// Value of register `idx`; register 0 always reads as zero.
    pub fn reg(&self, idx: usize) -> (r: u64)
        requires
            idx < 32,
        ensures
            r == self@.regs[idx as int],
            idx == 0 ==> r == 0,
    {
        proof {
            use_type_invariant(self);
        }
        self.ixu[idx]
    }

    /// A copy of the whole register file.
    pub fn registers(&self) -> (r: [u64; 32])
        ensures
            r@ == self@.regs,
            r@[0] == 0,
    {
        proof {
            use_type_invariant(self);
        }
        self.ixu
    }

    /// The program counter.
    pub fn pc(&self) -> (r: u64)
        ensures
            r == self@.pc,
    {
        self.pc
    }

    /// Moves the program counter to `pc`; nothing else changes.
    pub fn set_pc(&mut self, pc: u64)
        ensures
            final(self)@ == (CpuModel { pc, ..old(self)@ }),
            final(self)@.wf(),
    {
        proof {
            use_type_invariant(&*self);
        }
        self.pc = pc;
        proof {
            use_type_invariant(&*self);
        }
    }

    /// Length of the memory image in bytes.
    pub fn mem_len(&self) -> (r: usize)
        ensures
            r == self@.mem.len(),
    {
        self.mem.len()
    }
}

/// Writing a register and reading it back yields the value written, except
/// for register 0, which reads as zero whatever was written to it; no other
/// register changes.
pub proof fn lemma_write_read_register(s: CpuModel, idx: int, v: u64)
    requires
        s.wf(),
        0 <= idx < 32,
    ensures
        s.with_reg(idx, v).wf(),
        s.with_reg(idx, v).regs[idx] == (if idx == 0 {
            0
        } else {
            v
        }),
        forall|j: int| 0 <= j < 32 && j != idx ==> s.with_reg(idx, v).regs[j] == s.regs[j],
{
}

/// Executing any word, or taking any step, keeps register 0 at zero.
pub proof fn lemma_register_zero_stays_zero(s: CpuModel, inst: u32)
    requires
        s.wf(),
    ensures
        s.execute(inst).1.wf(),
        s.step().1.wf(),
{
    lemma_decoded_wf(inst);
    if let Ok(ins) = decode_spec(inst) {
        lemma_write_read_register(s, ins.dest() as int, result_value(ins, s.regs, s.pc));
    }
    if let Ok(w) = s.fetch() {
        lemma_decoded_wf(w);
        if let Ok(ins) = decode_spec(w) {
            lemma_write_read_register(s, ins.dest() as int, result_value(ins, s.regs, s.pc));
        }
    }
}

} // verus!
