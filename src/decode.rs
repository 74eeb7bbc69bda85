//! Validation of raw instruction words and decoding into instruction kinds.
use vstd::prelude::*;
use crate::bits::{extract_field, field, sext, signext12to64, signext20to64};
use crate::error::RiscvCpuError;

verus! {

/// Major opcode of the register-immediate arithmetic class.
pub const OPCODE_OP_IMM: u32 = 0b0010011;
/// Major opcode of LUI.
pub const OPCODE_LUI: u32 = 0b0110111;
/// Major opcode of AUIPC.
pub const OPCODE_AUIPC: u32 = 0b0010111;

/// funct7 selecting a logical right shift.
pub const FUNCT7_SRLI: u32 = 0b0000000;
/// funct7 selecting an arithmetic right shift.
pub const FUNCT7_SRAI: u32 = 0b0100000;

/// A decoded instruction. Register indices are below 32 and shift amounts
/// below 64 (see `wf`); immediates are already sign-extended to 64 bits.
#[derive(Clone, Copy, Debug, PartialEq, Eq, Structural)]
pub enum Instruction {
    Addi { rd: usize, rs1: usize, imm: u64 },
    Slti { rd: usize, rs1: usize, imm: u64 },
    Sltiu { rd: usize, rs1: usize, imm: u64 },
    Xori { rd: usize, rs1: usize, imm: u64 },
    Ori { rd: usize, rs1: usize, imm: u64 },
    Andi { rd: usize, rs1: usize, imm: u64 },
    Slli { rd: usize, rs1: usize, shamt: u32 },
    Srli { rd: usize, rs1: usize, shamt: u32 },
    Srai { rd: usize, rs1: usize, shamt: u32 },
    Lui { rd: usize, imm: u64 },
    Auipc { rd: usize, imm: u64 },
}

impl Instruction {
    /// Destination register.
    pub open spec fn dest(self) -> usize {
        match self {
            Instruction::Addi { rd, .. } => rd,
            Instruction::Slti { rd, .. } => rd,
            Instruction::Sltiu { rd, .. } => rd,
            Instruction::Xori { rd, .. } => rd,
            Instruction::Ori { rd, .. } => rd,
            Instruction::Andi { rd, .. } => rd,
            Instruction::Slli { rd, .. } => rd,
            Instruction::Srli { rd, .. } => rd,
            Instruction::Srai { rd, .. } => rd,
            Instruction::Lui { rd, .. } => rd,
            Instruction::Auipc { rd, .. } => rd,
        }
    }

    /// Register indices lie in `[0, 32)` and shift amounts in `[0, 64)`.
    pub open spec fn wf(self) -> bool {
        match self {
            Instruction::Addi { rd, rs1, .. } => rd < 32 && rs1 < 32,
            Instruction::Slti { rd, rs1, .. } => rd < 32 && rs1 < 32,
            Instruction::Sltiu { rd, rs1, .. } => rd < 32 && rs1 < 32,
            Instruction::Xori { rd, rs1, .. } => rd < 32 && rs1 < 32,
            Instruction::Ori { rd, rs1, .. } => rd < 32 && rs1 < 32,
            Instruction::Andi { rd, rs1, .. } => rd < 32 && rs1 < 32,
            Instruction::Slli { rd, rs1, shamt } => rd < 32 && rs1 < 32 && shamt < 64,
            Instruction::Srli { rd, rs1, shamt } => rd < 32 && rs1 < 32 && shamt < 64,
            Instruction::Srai { rd, rs1, shamt } => rd < 32 && rs1 < 32 && shamt < 64,
            Instruction::Lui { rd, .. } => rd < 32,
            Instruction::Auipc { rd, .. } => rd < 32,
        }
    }

    /// Destination register, as decoded.
    pub fn rd(&self) -> (r: usize)
        ensures
            r == self.dest(),
    {
        match self {
            Instruction::Addi { rd, .. } => *rd,
            Instruction::Slti { rd, .. } => *rd,
            Instruction::Sltiu { rd, .. } => *rd,
            Instruction::Xori { rd, .. } => *rd,
            Instruction::Ori { rd, .. } => *rd,
            Instruction::Andi { rd, .. } => *rd,
            Instruction::Slli { rd, .. } => *rd,
            Instruction::Srli { rd, .. } => *rd,
            Instruction::Srai { rd, .. } => *rd,
            Instruction::Lui { rd, .. } => *rd,
            Instruction::Auipc { rd, .. } => *rd,
        }
    }
}

/// Bits `[1:0]` are `11` and bits `[4:2]` are not `111`: the word is in the
/// 32-bit instruction format.
pub open spec fn is_32bit_format(inst: u32) -> bool {
    field(inst, 2, 0) == 0b11 && field(inst, 3, 2) != 0b111
}

/// Destination register field, bits `[11:7]`.
pub open spec fn rd_of(inst: u32) -> usize {
    field(inst, 5, 7) as usize
}

/// First source register field, bits `[19:15]`.
pub open spec fn rs1_of(inst: u32) -> usize {
    field(inst, 5, 15) as usize
}

/// 12-bit I-type immediate, bits `[31:20]`, sign-extended.
pub open spec fn imm12_of(inst: u32) -> u64 {
    sext(field(inst, 12, 20) as u64, 12)
}

/// 20-bit U-type immediate, bits `[31:12]`, sign-extended.
pub open spec fn imm20_of(inst: u32) -> u64 {
    sext(field(inst, 20, 12) as u64, 20)
}

/// Shift amount, bits `[25:20]`.
pub open spec fn shamt_of(inst: u32) -> u32 {
    field(inst, 6, 20)
}

/// What a raw word decodes to.
pub open spec fn decode_spec(inst: u32) -> Result<Instruction, RiscvCpuError> {
    if !is_32bit_format(inst) {
        Err(RiscvCpuError::DecodeError)
    } else {
        let opcode = field(inst, 7, 0);
        let rd = rd_of(inst);
        if opcode == OPCODE_AUIPC {
            Ok(Instruction::Auipc { rd, imm: imm20_of(inst) })
        } else if opcode == OPCODE_LUI {
            Ok(Instruction::Lui { rd, imm: imm20_of(inst) })
        } else if opcode == OPCODE_OP_IMM {
            let rs1 = rs1_of(inst);
            let imm = imm12_of(inst);
            let shamt = shamt_of(inst);
            let funct3 = field(inst, 3, 12);
            let funct7 = field(inst, 7, 25);
            if funct3 == 0b000 {
                Ok(Instruction::Addi { rd, rs1, imm })
            } else if funct3 == 0b001 {
                Ok(Instruction::Slli { rd, rs1, shamt })
            } else if funct3 == 0b010 {
                Ok(Instruction::Slti { rd, rs1, imm })
            } else if funct3 == 0b011 {
                Ok(Instruction::Sltiu { rd, rs1, imm })
            } else if funct3 == 0b100 {
                Ok(Instruction::Xori { rd, rs1, imm })
            } else if funct3 == 0b101 {
                if funct7 == FUNCT7_SRLI {
                    Ok(Instruction::Srli { rd, rs1, shamt })
                } else if funct7 == FUNCT7_SRAI {
                    Ok(Instruction::Srai { rd, rs1, shamt })
                } else {
                    Err(RiscvCpuError::DecodeError)
                }
            } else if funct3 == 0b110 {
                Ok(Instruction::Ori { rd, rs1, imm })
            } else {
                Ok(Instruction::Andi { rd, rs1, imm })
            }
        } else {
            Err(RiscvCpuError::DecodeError)
        }
    }
}

/// Every decoded instruction has register indices below 32 and a shift
/// amount below 64.
pub proof fn lemma_decoded_wf(inst: u32)
    ensures
        decode_spec(inst) is Ok ==> decode_spec(inst)->Ok_0.wf(),
{
    assert(field(inst, 5, 7) < 32 && field(inst, 5, 15) < 32 && field(inst, 6, 20) < 64)
        by (bit_vector);
}

/// Whether `inst` is in the 32-bit instruction format.
pub fn is_valid_32bit(inst: u32) -> (r: bool)
    ensures
        r == is_32bit_format(inst),
{
    let enc = extract_field(inst, 2, 0);
    let bbb = extract_field(inst, 3, 2);
    enc == 0b11 && bbb != 0b111
}

/// Decodes a raw word into an instruction, or fails with `DecodeError`.
pub fn decode(inst: u32) -> (r: Result<Instruction, RiscvCpuError>)
    ensures
        r == decode_spec(inst),
        r is Ok ==> r->Ok_0.wf(),
{
    if !is_valid_32bit(inst) {
        return Err(RiscvCpuError::DecodeError);
    }
    proof {
        lemma_decoded_wf(inst);
    }
    let opcode = extract_field(inst, 7, 0);
    let rd = extract_field(inst, 5, 7) as usize;
    if opcode == OPCODE_AUIPC {
        let imm = signext20to64(extract_field(inst, 20, 12));
        Ok(Instruction::Auipc { rd, imm })
    } else if opcode == OPCODE_LUI {
        let imm = signext20to64(extract_field(inst, 20, 12));
        Ok(Instruction::Lui { rd, imm })
    } else if opcode == OPCODE_OP_IMM {
        let rs1 = extract_field(inst, 5, 15) as usize;
        let imm = signext12to64(extract_field(inst, 12, 20));
        let shamt = extract_field(inst, 6, 20);
        let funct3 = extract_field(inst, 3, 12);
        match funct3 {
            0b000 => Ok(Instruction::Addi { rd, rs1, imm }),
            0b001 => Ok(Instruction::Slli { rd, rs1, shamt }),
            0b010 => Ok(Instruction::Slti { rd, rs1, imm }),
            0b011 => Ok(Instruction::Sltiu { rd, rs1, imm }),
            0b100 => Ok(Instruction::Xori { rd, rs1, imm }),
            0b101 => {
                let funct7 = extract_field(inst, 7, 25);
                if funct7 == FUNCT7_SRLI {
                    Ok(Instruction::Srli { rd, rs1, shamt })
                } else if funct7 == FUNCT7_SRAI {
                    Ok(Instruction::Srai { rd, rs1, shamt })
                } else {
                    Err(RiscvCpuError::DecodeError)
                }
            },
            0b110 => Ok(Instruction::Ori { rd, rs1, imm }),
            _ => Ok(Instruction::Andi { rd, rs1, imm }),
        }
    } else {
        Err(RiscvCpuError::DecodeError)
    }
}

} // verus!
