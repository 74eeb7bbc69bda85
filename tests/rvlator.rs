use rvlator::cpu::{REG_A0, REG_A1, REG_A2, REG_S3, REG_S4, REG_T0, REG_ZERO};
use rvlator::{
    decode, extract_field, is_valid_32bit, signext12to64, signext20to64, signext_nto64,
    Instruction, RiscvCpu, RiscvCpuError,
};

/// A two-instruction program: `addi a0,zero,-4` then `addi a0,a0,-1`.
fn image() -> Vec<u8> {
    vec![0x13, 0x05, 0xc0, 0xff, 0x13, 0x05, 0xf5, 0xff]
}

fn prelog() -> RiscvCpu {
    RiscvCpu::new(image())
}

/// Encodes a register-immediate instruction.
fn itype(imm12: u32, rs1: u32, funct3: u32, rd: u32) -> u32 {
    ((imm12 & 0xfff) << 20) | (rs1 << 15) | (funct3 << 12) | (rd << 7) | 0x13
}

#[test]
fn test_newcpu() {
    let mut cpu = prelog();
    let inst = cpu.fetch().unwrap();
    cpu.set_pc(cpu.pc() + 4);
    println!("0x{:08x}", inst);
    assert_eq!(inst, 0xffc00513);
    assert_eq!(cpu.pc(), 4);
}

#[test]
fn test_validdecode() {
    let mut cpu = prelog();
    let inst = cpu.fetch().unwrap();
    cpu.set_pc(cpu.pc() + 4);
    assert_eq!((), cpu.execute(inst).unwrap());
}

#[test]
fn test_invaliddecode1() {
    let mut cpu = prelog();
    assert_eq!(Err(RiscvCpuError::DecodeError), cpu.execute(0x00000000));
}

#[test]
fn test_invaliddecode2() {
    let mut cpu = prelog();
    assert_eq!(Err(RiscvCpuError::DecodeError), cpu.execute(0x0000001f));
}

#[test]
fn test_inst_addi_v1() {
    let mut cpu = prelog();
    // addi a0,zero,-4  (ffc00513)
    cpu.execute(0xffc00513).unwrap();
    assert_eq!(cpu.reg(REG_A0), 0xfffffffffffffffc);
}

#[test]
fn test_inst_addi_v2() {
    let mut cpu = prelog();
    // addi a0,zero,-4  (ffc00513)
    cpu.execute(0xffc00513).unwrap();
    // addi a0, a0, -1 (fff50513)
    cpu.execute(0xfff50513).unwrap();
    assert_eq!(cpu.reg(REG_A0), 0xfffffffffffffffb);
}

#[test]
fn test_inst_slti() {
    let mut cpu = prelog();
    // addi a1,zero,-5
    cpu.execute(0xffb00593).unwrap();
    // slti a2, a1, -4 (ffc5a613)
    cpu.execute(0xffc5a613).unwrap();
    assert_eq!(cpu.reg(REG_A2), 0x0000000000000001)
}

#[test]
fn test_inst_slli() {
    let mut cpu = prelog();
    // addi a0, zero, -4  (ffc00513)
    cpu.execute(0xffc00513).unwrap();
    // slli a2, a0, 0x3c (03c51613)
    cpu.execute(0x03c51613).unwrap();
    assert_eq!(cpu.reg(REG_A2), 0xc000000000000000);
}

#[test]
fn test_inst_lui() {
    let mut cpu = prelog();
    // lui s4, 0xdead (0deada37)
    cpu.execute(0x0deada37).unwrap();
    assert_eq!(cpu.reg(REG_S4), 0x000000000dead000);
}

#[test]
fn test_inst_auipc() {
    let mut cpu = prelog();
    cpu.set_pc(4);
    // auipc s3, 0xdead (0dead997)
    cpu.execute(0x0dead997).unwrap();
    assert_eq!(cpu.reg(REG_S3), 0x000000000dead004);
}

#[test]
fn extract_field_exact_values() {
    assert_eq!(extract_field(0xffc00513, 7, 0), 0x13);
    assert_eq!(extract_field(0xffc00513, 5, 7), 10);
    assert_eq!(extract_field(0xffc00513, 12, 20), 0xffc);
    assert_eq!(extract_field(0xffc00513, 20, 12), 0xffc00);
    assert_eq!(extract_field(0xdeadbeef, 32, 0), 0xdeadbeef);
    assert_eq!(extract_field(0xdeadbeef, 0, 32), 0);
    assert_eq!(extract_field(0x80000000, 1, 31), 1);
}

#[test]
fn extract_field_recovers_deposited_value() {
    let surroundings: [u32; 3] = [0, 0xffffffff, 0xa5a5a5a5];
    let cases: [(u32, u32, u32); 5] = [(0x15, 5, 7), (0xabc, 12, 20), (1, 1, 31), (0x3f, 6, 0), (0xfffff, 20, 12)];
    for &w in surroundings.iter() {
        for &(value, width, pos) in cases.iter() {
            let mask: u32 = ((1u64 << width) - 1) as u32;
            let word = (w & !(mask << pos)) | (value << pos);
            assert_eq!(extract_field(word, width, pos), value);
        }
    }
}

#[test]
fn sign_extension_positive_is_identity() {
    assert_eq!(signext_nto64(0x7ff, 12), 0x7ff);
    assert_eq!(signext_nto64(0, 1), 0);
    assert_eq!(signext_nto64(0x3fff_ffff_ffff_ffff, 63), 0x3fff_ffff_ffff_ffff);
    assert_eq!(signext_nto64(0x7fff_ffff_ffff_ffff, 63), 0xffff_ffff_ffff_ffff);
    // bit 11 clear: the value is kept as it is, higher bits included
    assert_eq!(signext_nto64(0x1_07ff, 12), 0x1_07ff);
}

#[test]
fn sign_extension_negative_fills_high_bits() {
    assert_eq!(signext_nto64(0x800, 12), 0xffff_ffff_ffff_f800);
    assert_eq!(signext_nto64(0xfff, 12), 0xffff_ffff_ffff_ffff);
    assert_eq!(signext_nto64(1, 1), 0xffff_ffff_ffff_ffff);
    assert_eq!(signext_nto64(0x4000_0000_0000_0000, 63), 0xc000_0000_0000_0000);
    assert_eq!(signext_nto64(0x1_0800, 12), 0x1_0800 | (!0u64 << 12));
}

#[test]
fn sign_extension_fixed_widths() {
    assert_eq!(signext12to64(0xffc), 0xffff_ffff_ffff_fffc);
    assert_eq!(signext12to64(0x7ff), 0x7ff);
    assert_eq!(signext20to64(0xdead), 0xdead);
    assert_eq!(signext20to64(0x80000), 0xffff_ffff_fff8_0000);
}

#[test]
fn validator_checks_low_bits() {
    assert!(is_valid_32bit(0xffc00513));
    assert!(!is_valid_32bit(0x00000000));
    assert!(!is_valid_32bit(0x0000001f));
    assert!(!is_valid_32bit(0x00000012));
    assert!(is_valid_32bit(0x00000017));
}

#[test]
fn decode_yields_instruction_kinds() {
    assert_eq!(
        decode(0xffc00513),
        Ok(Instruction::Addi { rd: 10, rs1: 0, imm: 0xffff_ffff_ffff_fffc })
    );
    assert_eq!(decode(0x03c51613), Ok(Instruction::Slli { rd: 12, rs1: 10, shamt: 0x3c }));
    assert_eq!(decode(0x0deada37), Ok(Instruction::Lui { rd: 20, imm: 0xdead }));
    assert_eq!(decode(0x0dead997), Ok(Instruction::Auipc { rd: 19, imm: 0xdead }));
    assert_eq!(decode(itype(0x401, 3, 5, 4)), Ok(Instruction::Srai { rd: 4, rs1: 3, shamt: 1 }));
    assert_eq!(decode(itype(0x001, 3, 5, 4)), Ok(Instruction::Srli { rd: 4, rs1: 3, shamt: 1 }));
}

#[test]
fn decode_rejects_unimplemented_encodings() {
    // OP (register-register) class is not implemented
    assert_eq!(decode(0x00000033), Err(RiscvCpuError::DecodeError));
    // right shift with an undefined funct7
    assert_eq!(decode(itype(0x601, 3, 5, 4)), Err(RiscvCpuError::DecodeError));
}

#[test]
fn decode_error_leaves_state_unchanged() {
    let mut cpu = prelog();
    cpu.execute(0xffc00513).unwrap();
    let before = cpu.registers();
    assert_eq!(cpu.execute(itype(0x601, 10, 5, 10)), Err(RiscvCpuError::DecodeError));
    assert_eq!(cpu.registers(), before);
    assert_eq!(cpu.pc(), 0);
}

#[test]
fn register_zero_ignores_writes() {
    let mut cpu = prelog();
    // addi zero, zero, 5
    cpu.execute(itype(5, 0, 0, 0)).unwrap();
    assert_eq!(cpu.reg(REG_ZERO), 0);
    // lui zero, 0xdead
    cpu.execute(0x0dead037).unwrap();
    assert_eq!(cpu.reg(REG_ZERO), 0);
    assert_eq!(cpu.registers()[0], 0);
}

#[test]
fn sltiu_compares_unsigned() {
    let mut cpu = prelog();
    // addi a1, zero, -5
    cpu.execute(0xffb00593).unwrap();
    // sltiu a2, a1, -4: 0xff..fb < 0xff..fc
    cpu.execute(itype(0xffc, 11, 3, 12)).unwrap();
    assert_eq!(cpu.reg(REG_A2), 1);
    // sltiu a2, a1, 1
    cpu.execute(itype(1, 11, 3, 12)).unwrap();
    assert_eq!(cpu.reg(REG_A2), 0);
    // slti a2, a1, 1: -5 < 1 signed
    cpu.execute(itype(1, 11, 2, 12)).unwrap();
    assert_eq!(cpu.reg(REG_A2), 1);
    assert_eq!(cpu.reg(REG_A1), 0xffff_ffff_ffff_fffb);
}

#[test]
fn logical_immediates() {
    let mut cpu = prelog();
    cpu.execute(0xffc00513).unwrap();
    // xori a2, a0, -1
    cpu.execute(itype(0xfff, 10, 4, 12)).unwrap();
    assert_eq!(cpu.reg(REG_A2), 3);
    // ori a2, zero, 0xf0
    cpu.execute(itype(0x0f0, 0, 6, 12)).unwrap();
    assert_eq!(cpu.reg(REG_A2), 0xf0);
    // andi a2, a0, 0x0f
    cpu.execute(itype(0x00f, 10, 7, 12)).unwrap();
    assert_eq!(cpu.reg(REG_A2), 0x0c);
}

#[test]
fn right_shifts() {
    let mut cpu = prelog();
    cpu.execute(0xffc00513).unwrap();
    // srli a2, a0, 1
    cpu.execute(itype(0x001, 10, 5, 12)).unwrap();
    assert_eq!(cpu.reg(REG_A2), 0x7fff_ffff_ffff_fffe);
    // srai a2, a0, 1
    cpu.execute(itype(0x401, 10, 5, 12)).unwrap();
    assert_eq!(cpu.reg(REG_A2), 0xffff_ffff_ffff_fffe);
    // srai a2, a0, 0
    cpu.execute(itype(0x400, 10, 5, 12)).unwrap();
    assert_eq!(cpu.reg(REG_A2), 0xffff_ffff_ffff_fffc);
}

#[test]
fn upper_immediates_sign_extend_and_wrap() {
    let mut cpu = prelog();
    // lui t0, 0x80000
    cpu.execute(0x800002b7).unwrap();
    assert_eq!(cpu.reg(REG_T0), 0xffff_ffff_8000_0000);
    cpu.set_pc(8);
    // auipc t0, 0xfffff
    cpu.execute(0xfffff297).unwrap();
    assert_eq!(cpu.reg(REG_T0), 0xffff_ffff_ffff_f008);
}

#[test]
fn fetch_past_end_fails() {
    let mut cpu = prelog();
    assert_eq!(cpu.fetch(), Ok(0xffc00513));
    cpu.set_pc(4);
    assert_eq!(cpu.fetch(), Ok(0xfff50513));
    cpu.set_pc(5);
    assert_eq!(cpu.fetch(), Err(RiscvCpuError::FetchError));
    cpu.set_pc(8);
    assert_eq!(cpu.fetch(), Err(RiscvCpuError::FetchError));
    cpu.set_pc(u64::MAX);
    assert_eq!(cpu.fetch(), Err(RiscvCpuError::FetchError));
    let empty = RiscvCpu::new(Vec::new());
    assert_eq!(empty.fetch(), Err(RiscvCpuError::FetchError));
}

#[test]
fn fetch_is_little_endian() {
    let cpu = RiscvCpu::new(vec![0x01, 0x02, 0x03, 0x04]);
    assert_eq!(cpu.fetch(), Ok(0x04030201));
    assert_eq!(cpu.mem_len(), 4);
}

#[test]
fn pipeline_steps_through_program() {
    let mut cpu = prelog();
    assert_eq!(cpu.pipeline(), Ok(()));
    assert_eq!(cpu.pc(), 4);
    assert_eq!(cpu.reg(REG_A0), 0xffff_ffff_ffff_fffc);
    assert_eq!(cpu.pipeline(), Ok(()));
    assert_eq!(cpu.pc(), 8);
    assert_eq!(cpu.reg(REG_A0), 0xffff_ffff_ffff_fffb);
    assert_eq!(cpu.pipeline(), Err(RiscvCpuError::FetchError));
    assert_eq!(cpu.pc(), 8);
}

#[test]
fn pipeline_stops_on_decode_error() {
    let mut cpu = RiscvCpu::new(vec![0, 0, 0, 0]);
    assert_eq!(cpu.pipeline(), Err(RiscvCpuError::DecodeError));
    assert_eq!(cpu.pc(), 0);
}

#[test]
fn reset_state() {
    let cpu = RiscvCpu::new(image());
    assert_eq!(cpu.pc(), 0);
    assert_eq!(cpu.registers(), [0u64; 32]);
    assert_eq!(cpu.mem_len(), 8);
}

#[test]
fn apply_decoded_instruction() {
    let mut cpu = prelog();
    cpu.apply(Instruction::Addi { rd: 11, rs1: 0, imm: 7 });
    assert_eq!(cpu.reg(REG_A1), 7);
    cpu.apply(Instruction::Slli { rd: 11, rs1: 11, shamt: 4 });
    assert_eq!(cpu.reg(REG_A1), 0x70);
}
