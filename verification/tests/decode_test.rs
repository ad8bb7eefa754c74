use riscv_emu::cpu::cpu_instruction::{
    decode, enc_b, enc_i, enc_j, enc_r, enc_s, enc_u, opecode_03, opecode_13, opecode_33,
    mnemonic, opecode_73, parse_type_b, parse_type_csr, parse_type_i, parse_type_j, parse_type_r,
    parse_type_s, parse_type_u, register_name, AluOp, AmoOp, BranchOp, CsrOp, Instruction, InstructionTypeB,
    InstructionTypeCSR, InstructionTypeI, InstructionTypeJ, InstructionTypeR, InstructionTypeS,
    InstructionTypeU, Width,
};

#[test]
fn parse_type_i_takes_rd_rs1_and_the_signed_immediate() {
    // addi x1, x0, 5
    assert_eq!(parse_type_i(0x0050_0093), InstructionTypeI { rd: 1, rs1: 0, imm: 5 });
    // addi sp, sp, -16
    assert_eq!(parse_type_i(0xff01_0113), InstructionTypeI { rd: 2, rs1: 2, imm: -16 });
    // lw a0, 2047(a1)
    assert_eq!(parse_type_i(0x7ff5_a503), InstructionTypeI { rd: 10, rs1: 11, imm: 2047 });
    // lb t6, -2048(t5)
    assert_eq!(parse_type_i(0x800f_0f83), InstructionTypeI { rd: 31, rs1: 30, imm: -2048 });
}

#[test]
fn parse_type_s_joins_the_two_parts_of_the_offset() {
    // sw x2, 0(x1)
    assert_eq!(parse_type_s(0x0020_a023), InstructionTypeS { rs1: 1, rs2: 2, imm: 0 });
    // sd ra, 8(sp)
    assert_eq!(parse_type_s(0x0011_3423), InstructionTypeS { rs1: 2, rs2: 1, imm: 8 });
    // sb a0, -1(a1)
    assert_eq!(parse_type_s(0xfea5_8fa3), InstructionTypeS { rs1: 11, rs2: 10, imm: -1 });
    // sw t1, 252(sp)
    assert_eq!(parse_type_s(0x0e61_2e23), InstructionTypeS { rs1: 2, rs2: 6, imm: 252 });
}

#[test]
fn parse_type_b_orders_the_offset_bits() {
    // beq a0, x0, 0
    assert_eq!(parse_type_b(0x0005_0063), InstructionTypeB { rs1: 10, rs2: 0, imm: 0 });
    // bne a0, x0, 254
    assert_eq!(parse_type_b(0x0e05_1f63), InstructionTypeB { rs1: 10, rs2: 0, imm: 254 });
    // beq s0, x0, -256
    assert_eq!(
        parse_type_b(0xf004_00e3),
        InstructionTypeB { rs1: 8, rs2: 0, imm: (-256i64) as u64 }
    );
    // bltu x1, x2, 4094
    assert_eq!(parse_type_b(0x7e20_efe3), InstructionTypeB { rs1: 1, rs2: 2, imm: 4094 });
    // bge x3, x4, -4096
    assert_eq!(
        parse_type_b(0x8041_d063),
        InstructionTypeB { rs1: 3, rs2: 4, imm: (-4096i64) as u64 }
    );
}

#[test]
fn parse_type_u_keeps_the_upper_twenty_bits() {
    // lui a0, 0x1
    assert_eq!(parse_type_u(0x0000_1537), InstructionTypeU { rd: 10, imm: 0x1000 });
    // lui a5, 0xfffe1
    assert_eq!(
        parse_type_u(0xfffe_17b7),
        InstructionTypeU { rd: 15, imm: 0xffff_ffff_fffe_1000 }
    );
    // auipc t1, 0x80000
    assert_eq!(
        parse_type_u(0x8000_0317),
        InstructionTypeU { rd: 6, imm: 0xffff_ffff_8000_0000 }
    );
}

#[test]
fn parse_type_j_orders_the_offset_bits() {
    // jal x0, 0
    assert_eq!(parse_type_j(0x0000_006f), InstructionTypeJ { rd: 0, imm: 0 });
    // jal x1, 0x620
    assert_eq!(parse_type_j(0x6200_00ef), InstructionTypeJ { rd: 1, imm: 0x620 });
    // jal x0, -2
    assert_eq!(parse_type_j(0xffff_f06f), InstructionTypeJ { rd: 0, imm: (-2i64) as u64 });
    // jal x0, 2046
    assert_eq!(parse_type_j(0x7fe0_006f), InstructionTypeJ { rd: 0, imm: 2046 });
    // jal x0, -1366
    assert_eq!(parse_type_j(0xaabf_f06f), InstructionTypeJ { rd: 0, imm: (-1366i64) as u64 });
    // jal ra, 0xff000
    assert_eq!(parse_type_j(0x000f_f0ef), InstructionTypeJ { rd: 1, imm: 0xff000 });
    // jal ra, -0x100000
    assert_eq!(
        parse_type_j(0x8000_00ef),
        InstructionTypeJ { rd: 1, imm: (-0x10_0000i64) as u64 }
    );
}

#[test]
fn parse_type_r_and_csr_take_their_fields() {
    // add x3, x1, x2
    assert_eq!(parse_type_r(0x0020_81b3), InstructionTypeR { rd: 3, rs1: 1, rs2: 2 });
    // sc.d x2, x3, (x10)
    assert_eq!(parse_type_r(0x1835_312f), InstructionTypeR { rd: 2, rs1: 10, rs2: 3 });
    // csrrw x0, mtvec, x5
    assert_eq!(parse_type_csr(0x3052_9073), InstructionTypeCSR { rd: 0, rs1: 5, csr: 0x305 });
    // csrrsi t0, sstatus, 2
    assert_eq!(parse_type_csr(0x1001_62f3), InstructionTypeCSR { rd: 5, rs1: 2, csr: 0x100 });
    // csrrs a0, 0xfff, x0
    assert_eq!(parse_type_csr(0xfff0_2573), InstructionTypeCSR { rd: 10, rs1: 0, csr: 0xfff });
}

#[test]
fn encoders_make_the_words_that_the_parsers_read() {
    assert_eq!(enc_i(5, 0, 0, 1, 0x13), 0x0050_0093);
    assert_eq!(enc_i(0xffff_fff0, 2, 0, 2, 0x13), 0xff01_0113);
    assert_eq!(enc_r(0, 2, 1, 0, 3, 0x33), 0x0020_81b3);
    assert_eq!(enc_r(0x20, 11, 10, 0, 10, 0x33), 0x40b5_0533);
    assert_eq!(enc_s(8, 1, 2, 3, 0x23), 0x0011_3423);
    assert_eq!(enc_s(0xffff_ffff, 10, 11, 0, 0x23), 0xfea5_8fa3);
    assert_eq!(enc_b(254, 0, 10, 1, 0x63), 0x0e05_1f63);
    assert_eq!(enc_b(0xffff_ff00, 0, 8, 0, 0x63), 0xf004_00e3);
    assert_eq!(enc_u(0xfffe_1000, 15, 0x37), 0xfffe_17b7);
    assert_eq!(enc_j(0x620, 1, 0x6f), 0x6200_00ef);
    assert_eq!(enc_j(0xffff_faaa, 0, 0x6f), 0xaabf_f06f);
    for imm in [-2048i32, -1, 0, 1, 7, 2047] {
        let word = enc_i(imm as u32, 31, 7, 17, 0x13);
        assert_eq!(parse_type_i(word), InstructionTypeI { rd: 17, rs1: 31, imm: imm as i64 });
        let word = enc_s(imm as u32, 9, 30, 3, 0x23);
        assert_eq!(parse_type_s(word), InstructionTypeS { rs1: 30, rs2: 9, imm: imm as i64 });
    }
    for imm in [-4096i32, -2, 0, 2, 4094] {
        let word = enc_b(imm as u32, 3, 4, 5, 0x63);
        assert_eq!(
            parse_type_b(word),
            InstructionTypeB { rs1: 4, rs2: 3, imm: imm as i64 as u64 }
        );
    }
    for imm in [-0x10_0000i32, -2, 0, 2, 0xf_fffe] {
        let word = enc_j(imm as u32, 1, 0x6f);
        assert_eq!(parse_type_j(word), InstructionTypeJ { rd: 1, imm: imm as i64 as u64 });
    }
}

#[test]
fn decode_knows_the_base_instructions() {
    let cases: [(u32, Instruction); 40] = [
        (0x0000_0003, Instruction::Load { width: Width::Byte, signed: true }),
        (0x0000_1003, Instruction::Load { width: Width::Half, signed: true }),
        (0x0000_a183, Instruction::Load { width: Width::Word, signed: true }),
        (0x0081_3083, Instruction::Load { width: Width::Double, signed: true }),
        (0x0000_4003, Instruction::Load { width: Width::Byte, signed: false }),
        (0x0000_5003, Instruction::Load { width: Width::Half, signed: false }),
        (0x0000_6003, Instruction::Load { width: Width::Word, signed: false }),
        (0x0000_0023, Instruction::Store { width: Width::Byte }),
        (0x0000_1023, Instruction::Store { width: Width::Half }),
        (0x0020_a023, Instruction::Store { width: Width::Word }),
        (0x0011_3423, Instruction::Store { width: Width::Double }),
        (0x0045_a507, Instruction::FloatLoad { width: Width::Word }),
        (0x0185_b507, Instruction::FloatLoad { width: Width::Double }),
        (0x04a5_a027, Instruction::FloatStore { width: Width::Word }),
        (0x0ca5_b427, Instruction::FloatStore { width: Width::Double }),
        (0x0ff0_000f, Instruction::Fence),
        (0x0000_100f, Instruction::Fence),
        (0x0050_0093, Instruction::OpImm { alu: AluOp::Add }),
        (0x0025_1513, Instruction::OpImm { alu: AluOp::Sll }),
        (0x03f5_5513, Instruction::OpImm { alu: AluOp::Srl }),
        (0x4215_d593, Instruction::OpImm { alu: AluOp::Sra }),
        (0x0015_7513, Instruction::OpImm { alu: AluOp::And }),
        (0x0015_051b, Instruction::OpImm { alu: AluOp::Addw }),
        (0x0020_81b3, Instruction::Op { alu: AluOp::Add }),
        (0x40b5_0533, Instruction::Op { alu: AluOp::Sub }),
        (0x02b5_0533, Instruction::Op { alu: AluOp::Mul }),
        (0x02b5_4533, Instruction::Op { alu: AluOp::Div }),
        (0x02b5_753b, Instruction::Op { alu: AluOp::Remuw }),
        (0x0000_1537, Instruction::Lui),
        (0x8000_0317, Instruction::Auipc),
        (0x6200_00ef, Instruction::Jal),
        (0x0000_8067, Instruction::Jalr),
        (0x0005_0063, Instruction::Branch { branch: BranchOp::Beq }),
        (0x7e20_efe3, Instruction::Branch { branch: BranchOp::Bltu }),
        (0x3052_9073, Instruction::Csr { csr: CsrOp::ReadWrite }),
        (0x1001_62f3, Instruction::Csr { csr: CsrOp::ReadSetImm }),
        (0x1005_30af, Instruction::LoadReserved { width: Width::Double }),
        (0x1835_312f, Instruction::StoreConditional { width: Width::Double }),
        (0x00b5_252f, Instruction::Amo { amo: AmoOp::Add, width: Width::Word }),
        (0xe0b5_352f, Instruction::Amo { amo: AmoOp::Maxu, width: Width::Double }),
    ];
    for (word, expected) in cases {
        assert_eq!(decode(word), Some(expected), "{:08x}", word);
    }
}

#[test]
fn decode_knows_the_system_instructions() {
    assert_eq!(decode(0x0000_0073), Some(Instruction::Ecall));
    assert_eq!(decode(0x0010_0073), Some(Instruction::Ebreak));
    assert_eq!(decode(0x1020_0073), Some(Instruction::Sret));
    assert_eq!(decode(0x3020_0073), Some(Instruction::Mret));
    assert_eq!(decode(0x1050_0073), Some(Instruction::Wfi));
    assert_eq!(decode(0x1200_0073), Some(Instruction::SfenceVma));
    assert_eq!(decode(0x12b5_0073), Some(Instruction::SfenceVma));
    assert_eq!(decode(0xf005_0553), Some(Instruction::FmvWX));
}

#[test]
fn decode_refuses_words_that_encode_nothing() {
    for word in [
        0x0000_0000u32,
        0xffff_ffff,
        0x0000_7003, // load with funct3 7
        0x0000_4023, // store with funct3 4
        0x0000_0007, // floating-point load of a byte
        0x0000_200f, // fence with funct3 2
        0x0400_1013, // slli with a bit above the shift amount
        0x8000_5013, // shift right with an unknown function
        0x0200_101b, // slliw with a shift amount of 32
        0x0000_202f, // atomic with function 0 and no width... amoadd.w is valid
        0x0400_0033, // register operation with an unknown funct7
        0x4000_1033, // sub-like function on a shift
        0x0000_2063, // branch with funct3 2
        0x0020_0073, // uret
        0x0000_4073, // system with funct3 4
        0x0000_0053, // floating-point arithmetic
        0x0000_007f, // unknown opcode
    ] {
        if word == 0x0000_202f {
            assert!(decode(word).is_some());
        } else {
            assert_eq!(decode(word), None, "{:08x}", word);
        }
    }
}

#[test]
fn opcode_groups_decode_by_their_function_fields() {
    assert_eq!(opecode_03(0x0000_6003), Some(Instruction::Load { width: Width::Word, signed: false }));
    assert_eq!(opecode_03(0x0000_7003), None);
    assert_eq!(opecode_13(0x4215_d593), Some(Instruction::OpImm { alu: AluOp::Sra }));
    assert_eq!(opecode_13(0x0000_2013), Some(Instruction::OpImm { alu: AluOp::Slt }));
    assert_eq!(opecode_13(0x0000_3013), Some(Instruction::OpImm { alu: AluOp::Sltu }));
    assert_eq!(opecode_13(0x0000_4013), Some(Instruction::OpImm { alu: AluOp::Xor }));
    assert_eq!(opecode_13(0x0000_6013), Some(Instruction::OpImm { alu: AluOp::Or }));
    assert_eq!(opecode_33(0x0200_1033), Some(Instruction::Op { alu: AluOp::Mulh }));
    assert_eq!(opecode_33(0x0200_2033), Some(Instruction::Op { alu: AluOp::Mulhsu }));
    assert_eq!(opecode_33(0x0200_3033), Some(Instruction::Op { alu: AluOp::Mulhu }));
    assert_eq!(opecode_33(0x4000_5033), Some(Instruction::Op { alu: AluOp::Sra }));
    assert_eq!(opecode_73(0x3052_a073), Some(Instruction::Csr { csr: CsrOp::ReadSet }));
    assert_eq!(opecode_73(0x3052_b073), Some(Instruction::Csr { csr: CsrOp::ReadClear }));
    assert_eq!(opecode_73(0x3052_d073), Some(Instruction::Csr { csr: CsrOp::ReadWriteImm }));
    assert_eq!(opecode_73(0x3052_f073), Some(Instruction::Csr { csr: CsrOp::ReadClearImm }));
}

#[test]
fn registers_and_instructions_have_their_names() {
    let names = [
        "zero", "ra", "sp", "gp", "tp", "t0", "t1", "t2", "s0", "s1", "a0", "a1", "a2", "a3",
        "a4", "a5", "a6", "a7", "s2", "s3", "s4", "s5", "s6", "s7", "s8", "s9", "s10", "s11",
        "t3", "t4", "t5", "t6",
    ];
    for (r, name) in names.iter().enumerate() {
        assert_eq!(register_name(r as u8), *name);
        assert_eq!(register_name(r as u8 + 32), *name);
    }
    let cases: [(u32, &str); 24] = [
        (0x0050_0093, "addi"),
        (0x0020_81b3, "add"),
        (0x40b5_0533, "sub"),
        (0x4215_d593, "srai"),
        (0x0015_051b, "addiw"),
        (0x02b5_753b, "remuw"),
        (0x0000_4003, "lbu"),
        (0x0081_3083, "ld"),
        (0x0000_6003, "lwu"),
        (0x0011_3423, "sd"),
        (0x0045_a507, "flw"),
        (0x0ca5_b427, "fsd"),
        (0x0ff0_000f, "fence"),
        (0x0000_1537, "lui"),
        (0x8000_0317, "auipc"),
        (0x6200_00ef, "jal"),
        (0x0000_8067, "jalr"),
        (0x7e20_efe3, "bltu"),
        (0x1001_62f3, "csrrsi"),
        (0x1005_30af, "lr.d"),
        (0x1835_312f, "sc.d"),
        (0xe0b5_352f, "amomaxu.d"),
        (0x1200_0073, "sfence.vma"),
        (0xf005_0553, "fmv.w.x"),
    ];
    for (word, name) in cases {
        assert_eq!(mnemonic(decode(word).unwrap()), name, "{:08x}", word);
    }
}
