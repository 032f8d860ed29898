use arm7tdmi::arm::armv4_type;
use arm7tdmi::arm::ArmV4Type;
use arm7tdmi::arm::BranchInstr;
use arm7tdmi::arm::BxInstr;
use arm7tdmi::arm::DataProcessingInstr;
use arm7tdmi::arm::DataProcessingOpCode;
use arm7tdmi::arm::DataProcessingOperand2;
use arm7tdmi::arm::DecodeError;
use arm7tdmi::arm::Instruction;
use arm7tdmi::arm::LoadStoreInstr;
use arm7tdmi::arm::LoadStoreOffset;
use arm7tdmi::arm::LoadStoreOpcode;
use arm7tdmi::arm::MulLongInstr;
use arm7tdmi::arm::ShiftType;
use arm7tdmi::ConditionField;

#[test]
fn condition_names_total_and_distinct() {
    let expected = [
        "EQ", "NE", "CS_HS", "CC_LO", "MI", "PL", "VS", "VC", "HI", "LS", "GE", "LT", "GT", "LE",
        "AL", "NV",
    ];
    for c in 0..16u8 {
        assert_eq!(ConditionField::new(c).to_str(), expected[c as usize]);
    }
    for a in 0..16u8 {
        for b in 0..16u8 {
            if a != b {
                assert_ne!(
                    ConditionField::new(a).to_str(),
                    ConditionField::new(b).to_str()
                );
            }
        }
    }
}

#[test]
fn classify_zero_is_data_processing() {
    assert_eq!(armv4_type(0x00000000).unwrap(), ArmV4Type::DataProcessingPsr);
}

#[test]
fn classify_priority_load_store_before_undefined() {
    // Bits 27..25 are 0b011 and bit 4 is set, so the Undefined predicate
    // holds of this word; the earlier LoadStore predicate (bits 27..26 ==
    // 0b01) still wins.
    assert_eq!(armv4_type(0x06000010).unwrap(), ArmV4Type::LoadStore);
}

#[test]
fn classify_each_reachable_format() {
    assert_eq!(armv4_type(0x00000090).unwrap(), ArmV4Type::Multiply);
    assert_eq!(armv4_type(0x00800090).unwrap(), ArmV4Type::MultiplyLong);
    assert_eq!(armv4_type(0x012FFF10).unwrap(), ArmV4Type::BranchAndExchange);
    assert_eq!(armv4_type(0x01000090).unwrap(), ArmV4Type::SingleDataSwap);
    assert_eq!(
        armv4_type(0x000000B0).unwrap(),
        ArmV4Type::HalfwordDataTransferReg
    );
    assert_eq!(
        armv4_type(0x004000B0).unwrap(),
        ArmV4Type::HalfwordDataTransferImm
    );
    assert_eq!(armv4_type(0x000000D0).unwrap(), ArmV4Type::SignedDataTransfer);
    assert_eq!(armv4_type(0x00000000).unwrap(), ArmV4Type::DataProcessingPsr);
    assert_eq!(armv4_type(0x04000000).unwrap(), ArmV4Type::LoadStore);
    assert_eq!(armv4_type(0x08000000).unwrap(), ArmV4Type::BlockDataTransfer);
    assert_eq!(armv4_type(0x0A000000).unwrap(), ArmV4Type::Branch);
    assert_eq!(armv4_type(0x0C000000).unwrap(), ArmV4Type::CoprocDataTransfer);
    assert_eq!(armv4_type(0x0E000000).unwrap(), ArmV4Type::CoprocDataOp);
    assert_eq!(armv4_type(0x0E000010).unwrap(), ArmV4Type::CoprocRegTransfer);
    assert_eq!(armv4_type(0x0F000000).unwrap(), ArmV4Type::SoftwareInterrupt);
}

#[test]
fn classify_unclassifiable_word() {
    // Bits 27..25 are 0b100 with bit 22 set: the one gap in the predicate
    // table.
    assert_eq!(
        armv4_type(0x08400000),
        Err(DecodeError::UnclassifiedInstruction(0x08400000))
    );
}

#[test]
fn branch_decode_fields() {
    assert_eq!(armv4_type(0xEA00002E).unwrap(), ArmV4Type::Branch);
    let b = BranchInstr::new(0xEA00002E).unwrap();
    assert_eq!(b.cond.0, ConditionField::COND_AL);
    assert_eq!(b.link, false);
    assert_eq!(b.offset, 0x00002E);
}

#[test]
fn branch_link_bit() {
    // Same word with bit 24 set: BL instead of B.
    let b = BranchInstr::new(0xEB00002E).unwrap();
    assert_eq!(b.link, true);
    assert_eq!(b.offset, 0x00002E);
}

#[test]
fn data_processing_decode_mov_imm() {
    assert_eq!(armv4_type(0xE3A00301).unwrap(), ArmV4Type::DataProcessingPsr);
    let d = DataProcessingInstr::new(0xE3A00301).unwrap();
    assert_eq!(d.opcode, DataProcessingOpCode::Mov);
    assert_eq!(
        d.operand2,
        DataProcessingOperand2::ImmRot {
            rotate_count: 3,
            imm_value: 1
        }
    );
    assert_eq!(d.cond.0, ConditionField::COND_AL);
    assert_eq!(d.rn, 0);
    assert_eq!(d.rd, 0);
    assert_eq!(d.s, false);
}

#[test]
fn data_processing_decode_shift_register_forms() {
    // 0xE0841392 read as data processing would be ADD r1, r4, r2, LSL r3;
    // its bit 4 is set and bit 7 is set, so it classifies as MultiplyLong,
    // not DataProcessingPsr. Use words with bits 7..4 clear instead.
    // ADD r1, r4, r2, LSL #3: bit 25 clear, bit 4 clear.
    let d = DataProcessingInstr::new(0xE0841182).unwrap();
    assert_eq!(d.opcode, DataProcessingOpCode::Add);
    assert_eq!(
        d.operand2,
        DataProcessingOperand2::ShiftRegDirect {
            shift_count: 3,
            shift_type: ShiftType::LogicalLeft
        }
    );
    // ADD r1, r4, r2, LSL r3: bit 4 set, bit 7 clear. The register field
    // of the indirect form spans bits 11..7, five bits.
    let d = DataProcessingInstr::new(0xE0841312).unwrap();
    assert_eq!(d.opcode, DataProcessingOpCode::Add);
    assert_eq!(
        d.operand2,
        DataProcessingOperand2::ShiftRegIndirect {
            shift_reg: 6,
            shift_type: ShiftType::LogicalLeft
        }
    );
}

#[test]
fn mul_long_decode_fields() {
    assert_eq!(armv4_type(0xE0841392).unwrap(), ArmV4Type::MultiplyLong);
    let m = MulLongInstr::new(0xE0841392).unwrap();
    assert_eq!(m.unsigned, true);
    assert_eq!(m.accumulate, false);
    assert_eq!(m.s, false);
    assert_eq!(m.rdhi, 4);
    assert_eq!(m.rdlo, 1);
    assert_eq!(m.rs, 3);
    assert_eq!(m.rm, 2);
}

#[test]
fn load_store_decode_fields() {
    assert_eq!(armv4_type(0xE59FD0B8).unwrap(), ArmV4Type::LoadStore);
    let l = LoadStoreInstr::new(0xE59FD0B8).unwrap();
    assert_eq!(l.opcode, LoadStoreOpcode::Ldr);
    assert_eq!(l.offset, LoadStoreOffset::ImmOffset { imm: 0x0B8 });
    assert_eq!(l.rd, 13);
    assert_eq!(l.rn, 15);
    assert_eq!(l.write_back, false);
    assert_eq!(l.byte_or_word, false);
    assert_eq!(l.up_down, true);
    assert_eq!(l.pre_post, true);
}

#[test]
fn load_store_shift_offset() {
    // STR with a register offset: bit 25 set, bit 20 clear.
    // 0xE78200E3: rm = 3, shift type = ArithmeticRight (0b11 in bits 6..5),
    // shift count = 1 (bits 11..7).
    let l = LoadStoreInstr::new(0xE78200E3).unwrap();
    assert_eq!(l.opcode, LoadStoreOpcode::Str);
    assert_eq!(
        l.offset,
        LoadStoreOffset::ShiftOffset {
            shift_count: 1,
            shift_type: ShiftType::ArithmeticRight,
            rm: 3
        }
    );
}

#[test]
fn branch_exchange_decode_fields() {
    let b = BxInstr::new(0x012FFF13).unwrap();
    assert_eq!(b.rn, 3);
    assert_eq!(b.cond.0, ConditionField::COND_EQ);
}

#[test]
fn decode_twice_is_identical() {
    let words = [0x00000000u32, 0xEA00002E, 0xE3A00301, 0xE0841392, 0xE59FD0B8, 0x08400000];
    for &w in words.iter() {
        assert_eq!(armv4_type(w), armv4_type(w));
        assert_eq!(DataProcessingInstr::new(w), DataProcessingInstr::new(w));
        assert_eq!(BranchInstr::new(w), BranchInstr::new(w));
        assert_eq!(BxInstr::new(w), BxInstr::new(w));
        assert_eq!(LoadStoreInstr::new(w), LoadStoreInstr::new(w));
        assert_eq!(MulLongInstr::new(w), MulLongInstr::new(w));
        assert_eq!(Instruction::new(w).instr_type(), Instruction::new(w).instr_type());
        assert_eq!(Instruction::new(w).cond(), Instruction::new(w).cond());
    }
}

#[test]
fn data_processing_decoder_on_branch_word_is_mismatch() {
    assert_eq!(
        DataProcessingInstr::new(0xEA00002E),
        Err(DecodeError::FormatMismatch {
            expected: ArmV4Type::DataProcessingPsr,
            actual: ArmV4Type::Branch
        })
    );
}

#[test]
fn decoders_on_unclassifiable_word() {
    let w = 0x08400000u32;
    let e = Err(DecodeError::UnclassifiedInstruction(w));
    assert_eq!(DataProcessingInstr::new(w), e.clone());
    assert_eq!(
        BranchInstr::new(w),
        Err(DecodeError::UnclassifiedInstruction(w))
    );
    assert_eq!(
        LoadStoreInstr::new(w),
        Err(DecodeError::UnclassifiedInstruction(w))
    );
    assert_eq!(
        MulLongInstr::new(w),
        Err(DecodeError::UnclassifiedInstruction(w))
    );
    assert_eq!(
        BxInstr::new(w),
        Err(DecodeError::UnclassifiedInstruction(w))
    );
}

#[test]
fn instr_type_rejects_top_coarse_value() {
    // Bits 27..26 == 0b11 fall outside the 3-way coarse view.
    assert_eq!(
        Instruction::new(0x0C000000).instr_type(),
        Err(DecodeError::UnclassifiedInstruction(0x0C000000))
    );
}

#[test]
fn facade_accessors() {
    let i = Instruction::new(0xE3A00301);
    assert!(i.is_operand2_imm());
    assert!(!i.s_bit());
    assert_eq!(i.dataprocessing_rn(), 0);
    assert_eq!(i.dataprocessing_rd(), 0);
    assert_eq!(i.dataprocessing_operand2(), 0x301);
    assert_eq!(i.dataprocessing_operand2_as_rotimm(), (3, 1));
    assert_eq!(i.dataprocessing_opcode_str(), "MOV");
    let j = Instruction::new(0xE0841392);
    assert!(!j.is_operand2_imm());
    assert_eq!(j.data_processing_operand2_as_shiftreg(), (0x39, 2));
    assert_eq!(j.dataprocessing_opcode_str(), "ADD");
}

#[test]
fn opcode_table_round_trip() {
    let all = [
        DataProcessingOpCode::And,
        DataProcessingOpCode::Eor,
        DataProcessingOpCode::Sub,
        DataProcessingOpCode::Rsb,
        DataProcessingOpCode::Add,
        DataProcessingOpCode::Adc,
        DataProcessingOpCode::Sbc,
        DataProcessingOpCode::Rsc,
        DataProcessingOpCode::Tst,
        DataProcessingOpCode::Teq,
        DataProcessingOpCode::Cmp,
        DataProcessingOpCode::Cmn,
        DataProcessingOpCode::Orr,
        DataProcessingOpCode::Mov,
        DataProcessingOpCode::Bic,
        DataProcessingOpCode::Mvn,
    ];
    for v in 0..16u32 {
        assert_eq!(DataProcessingOpCode::try_from(v).unwrap(), all[v as usize]);
    }
    assert_eq!(DataProcessingOpCode::try_from(16), Err(()));
}

#[test]
fn shift_type_table_round_trip() {
    assert_eq!(ShiftType::try_from(0).unwrap(), ShiftType::LogicalLeft);
    assert_eq!(ShiftType::try_from(1).unwrap(), ShiftType::LogicalRight);
    assert_eq!(ShiftType::try_from(2).unwrap(), ShiftType::ArithmeticLeft);
    assert_eq!(ShiftType::try_from(3).unwrap(), ShiftType::ArithmeticRight);
    assert_eq!(ShiftType::try_from(4), Err(()));
}
