//! The 16-way instruction format classifier and the per-format decoders.

use vstd::prelude::*;

verus! {

use vstd::arithmetic::power2::lemma2_to64;

use crate::ConditionField;
use crate::InstructionType;
use crate::util::bits_spec;
use crate::util::get_bits;

/// The sixteen mutually exclusive instruction formats of the 32-bit encoding.
#[derive(Debug, Clone, Copy, PartialEq, Eq, Structural)]
pub enum ArmV4Type {
    Multiply,
    MultiplyLong,
    BranchAndExchange,
    SingleDataSwap,
    HalfwordDataTransferReg,
    HalfwordDataTransferImm,
    SignedDataTransfer,
    DataProcessingPsr,
    LoadStore,
    Undefined,
    BlockDataTransfer,
    Branch,
    CoprocDataTransfer,
    CoprocDataOp,
    CoprocRegTransfer,
    SoftwareInterrupt,
}

/// Decode failures. Decoding never aborts: an unclassifiable word and a
/// decoder applied to a word of another format both come back as values.
#[derive(Debug, Clone, Copy, PartialEq, Eq, Structural)]
pub enum DecodeError {
    /// No classifier predicate matched the word.
    UnclassifiedInstruction(u32),
    /// A format-specific decoder was invoked on a word whose classification
    /// is a different format.
    FormatMismatch { expected: ArmV4Type, actual: ArmV4Type },
}

pub open spec fn is_multiply(i: u32) -> bool {
    bits_spec(i, 22, 27) == 0 && bits_spec(i, 4, 7) == 0b1001
}

pub open spec fn is_multiply_long(i: u32) -> bool {
    bits_spec(i, 23, 27) == 1 && bits_spec(i, 4, 7) == 0b1001
}

pub open spec fn is_branch_and_exchange(i: u32) -> bool {
    bits_spec(i, 4, 27) == 0b0001_0010_1111_1111_1111_0001
}

pub open spec fn is_single_data_swap(i: u32) -> bool {
    bits_spec(i, 23, 27) == 0b00010 && bits_spec(i, 20, 21) == 0 && bits_spec(i, 4, 11)
        == 0b0000_1001
}

pub open spec fn is_halfword_transfer_reg(i: u32) -> bool {
    bits_spec(i, 25, 27) == 0 && bits_spec(i, 22, 22) == 0 && bits_spec(i, 4, 11) == 0b0000_1011
}

pub open spec fn is_halfword_transfer_imm(i: u32) -> bool {
    bits_spec(i, 25, 27) == 0 && bits_spec(i, 22, 22) == 1 && bits_spec(i, 4, 7) == 0b1011
}

pub open spec fn is_signed_data_transfer(i: u32) -> bool {
    bits_spec(i, 25, 27) == 0 && bits_spec(i, 6, 7) == 0b11 && bits_spec(i, 4, 4) == 1
}

pub open spec fn is_data_processing_psr(i: u32) -> bool {
    bits_spec(i, 26, 27) == 0
}

pub open spec fn is_load_store(i: u32) -> bool {
    bits_spec(i, 26, 27) == 0b01
}

pub open spec fn is_undefined(i: u32) -> bool {
    bits_spec(i, 25, 27) == 0b011 && bits_spec(i, 4, 4) == 1
}

pub open spec fn is_block_data_transfer(i: u32) -> bool {
    bits_spec(i, 25, 27) == 0b100 && bits_spec(i, 22, 22) == 0
}

pub open spec fn is_branch(i: u32) -> bool {
    bits_spec(i, 25, 27) == 0b101
}

pub open spec fn is_coproc_data_transfer(i: u32) -> bool {
    bits_spec(i, 25, 27) == 0b110
}

pub open spec fn is_coproc_data_op(i: u32) -> bool {
    bits_spec(i, 24, 27) == 0b1110 && bits_spec(i, 4, 4) == 0
}

pub open spec fn is_coproc_reg_transfer(i: u32) -> bool {
    bits_spec(i, 24, 27) == 0b1110 && bits_spec(i, 4, 4) == 1
}

pub open spec fn is_software_interrupt(i: u32) -> bool {
    bits_spec(i, 24, 27) == 0b1111
}

/// The format of a word under the ordered predicate table: the first
/// matching predicate wins. The order is load-bearing, since several
/// predicates overlap on shared bit ranges. `None` means no predicate
/// matched.
pub open spec fn arm_type_spec(i: u32) -> Option<ArmV4Type> {
    if is_multiply(i) {
        Some(ArmV4Type::Multiply)
    } else if is_multiply_long(i) {
        Some(ArmV4Type::MultiplyLong)
    } else if is_branch_and_exchange(i) {
        Some(ArmV4Type::BranchAndExchange)
    } else if is_single_data_swap(i) {
        Some(ArmV4Type::SingleDataSwap)
    } else if is_halfword_transfer_reg(i) {
        Some(ArmV4Type::HalfwordDataTransferReg)
    } else if is_halfword_transfer_imm(i) {
        Some(ArmV4Type::HalfwordDataTransferImm)
    } else if is_signed_data_transfer(i) {
        Some(ArmV4Type::SignedDataTransfer)
    } else if is_data_processing_psr(i) {
        Some(ArmV4Type::DataProcessingPsr)
    } else if is_load_store(i) {
        Some(ArmV4Type::LoadStore)
    } else if is_undefined(i) {
        Some(ArmV4Type::Undefined)
    } else if is_block_data_transfer(i) {
        Some(ArmV4Type::BlockDataTransfer)
    } else if is_branch(i) {
        Some(ArmV4Type::Branch)
    } else if is_coproc_data_transfer(i) {
        Some(ArmV4Type::CoprocDataTransfer)
    } else if is_coproc_data_op(i) {
        Some(ArmV4Type::CoprocDataOp)
    } else if is_coproc_reg_transfer(i) {
        Some(ArmV4Type::CoprocRegTransfer)
    } else if is_software_interrupt(i) {
        Some(ArmV4Type::SoftwareInterrupt)
    } else {
        None
    }
}

/// What classification returns, error case included.
pub open spec fn armv4_type_res_spec(i: u32) -> Result<ArmV4Type, DecodeError> {
    match arm_type_spec(i) {
        Some(t) => Ok(t),
        None => Err(DecodeError::UnclassifiedInstruction(i)),
    }
}

/// Classifies a word as one of the sixteen instruction formats by the
/// ordered predicate table. A word no predicate matches is reported as
/// `UnclassifiedInstruction` rather than aborting.
pub fn armv4_type(i: u32) -> (r: Result<ArmV4Type, DecodeError>)
    ensures
        r == armv4_type_res_spec(i),
{
    let bits27_22 = get_bits(i, 22, 27);
    let bits7_4 = get_bits(i, 4, 7);
    if bits27_22 == 0 && bits7_4 == 0b1001 {
        return Ok(ArmV4Type::Multiply);
    }
    let bits27_23 = get_bits(i, 23, 27);
    if bits27_23 == 1 && bits7_4 == 0b1001 {
        return Ok(ArmV4Type::MultiplyLong);
    }
    let bits27_4 = get_bits(i, 4, 27);
    if bits27_4 == 0b0001_0010_1111_1111_1111_0001 {
        return Ok(ArmV4Type::BranchAndExchange);
    }
    let bits11_4 = get_bits(i, 4, 11);
    let bits21_20 = get_bits(i, 20, 21);
    if bits27_23 == 0b00010 && bits21_20 == 0 && bits11_4 == 0b0000_1001 {
        return Ok(ArmV4Type::SingleDataSwap);
    }
    let bits27_25 = get_bits(i, 25, 27);
    let bit22 = get_bits(i, 22, 22);
    if bits27_25 == 0 && bit22 == 0 && bits11_4 == 0b0000_1011 {
        return Ok(ArmV4Type::HalfwordDataTransferReg);
    }
    if bits27_25 == 0 && bit22 == 1 && bits7_4 == 0b1011 {
        return Ok(ArmV4Type::HalfwordDataTransferImm);
    }
    let bits7_6 = get_bits(i, 6, 7);
    let bit4 = get_bits(i, 4, 4);
    if bits27_25 == 0 && bits7_6 == 0b11 && bit4 == 1 {
        return Ok(ArmV4Type::SignedDataTransfer);
    }
    let bits27_26 = get_bits(i, 26, 27);
    if bits27_26 == 0 {
        return Ok(ArmV4Type::DataProcessingPsr);
    }
    if bits27_26 == 0b01 {
        return Ok(ArmV4Type::LoadStore);
    }
    if bits27_25 == 0b011 && bit4 == 1 {
        return Ok(ArmV4Type::Undefined);
    }
    if bits27_25 == 0b100 && bit22 == 0 {
        return Ok(ArmV4Type::BlockDataTransfer);
    }
    if bits27_25 == 0b101 {
        return Ok(ArmV4Type::Branch);
    }
    if bits27_25 == 0b110 {
        return Ok(ArmV4Type::CoprocDataTransfer);
    }
    let bits27_24 = get_bits(i, 24, 27);
    if bits27_24 == 0b1110 && bit4 == 0 {
        return Ok(ArmV4Type::CoprocDataOp);
    }
    if bits27_24 == 0b1110 && bit4 == 1 {
        return Ok(ArmV4Type::CoprocRegTransfer);
    }
    if bits27_24 == 0b1111 {
        return Ok(ArmV4Type::SoftwareInterrupt);
    }
    Err(DecodeError::UnclassifiedInstruction(i))
}

/// The condition field of a word: bits 31..=28 as a 4-bit value.
pub open spec fn cond_spec(i: u32) -> ConditionField {
    ConditionField(bits_spec(i, 28, 31) as u8)
}

/// A raw instruction word together with cheap, format-agnostic accessors
/// that are usable before or independent of full classification.
#[derive(Debug, Clone, Copy, PartialEq, Eq, Structural)]
pub struct Instruction(pub u32);

/// The coarse 3-way view of a word over bits 27..=26.
pub open spec fn instr_type_spec(i: u32) -> Result<InstructionType, DecodeError> {
    if bits_spec(i, 26, 27) == 0b01 {
        Ok(InstructionType::MemoryProcessing)
    } else if bits_spec(i, 26, 27) == 0b10 {
        Ok(InstructionType::Branch)
    } else if bits_spec(i, 26, 27) == 0b00 {
        Ok(InstructionType::DataProcessing)
    } else {
        Err(DecodeError::UnclassifiedInstruction(i))
    }
}

impl Instruction {
    pub fn new(i: u32) -> (r: Self)
        ensures
            r.0 == i,
    {
        Instruction(i)
    }

    /// The coarse 3-way classification over bits 27..=26, distinct from and
    /// independent of the 16-way format table.
    pub fn instr_type(&self) -> (r: Result<InstructionType, DecodeError>)
        ensures
            r == instr_type_spec(self.0),
    {
        let bits27_26 = get_bits(self.0, 26, 27);
        if bits27_26 == 0b01 {
            return Ok(InstructionType::MemoryProcessing);
        }
        if bits27_26 == 0b10 {
            return Ok(InstructionType::Branch);
        }
        if bits27_26 == 0b00 {
            return Ok(InstructionType::DataProcessing);
        }
        Err(DecodeError::UnclassifiedInstruction(self.0))
    }

    /// The condition field, bits 31..=28.
    pub fn cond(&self) -> (r: ConditionField)
        ensures
            r == cond_spec(self.0),
            r.0 < 16,
    {
        let bits31_28 = get_bits(self.0, 28, 31);
        proof {
            lemma2_to64();
        }
        ConditionField::new(bits31_28 as u8)
    }

    /// Whether bit 25 selects the immediate form of operand 2.
    pub fn is_operand2_imm(&self) -> (r: bool)
        ensures
            r == (bits_spec(self.0, 25, 25) == 1),
    {
        let bit25 = get_bits(self.0, 25, 25);
        bit25 == 1
    }

    /// The fixed name of the data-processing opcode field, bits 24..=21.
    pub fn dataprocessing_opcode_str(&self) -> (r: &'static str)
        ensures
            r@ == dp_opcode_name_spec(bits_spec(self.0, 21, 24)),
    {
        let opcode = get_bits(self.0, 21, 24);
        if opcode == 0 {
            "AND"
        } else if opcode == 1 {
            "EOR"
        } else if opcode == 2 {
            "SUB"
        } else if opcode == 3 {
            "RSB"
        } else if opcode == 4 {
            "ADD"
        } else if opcode == 5 {
            "ADC"
        } else if opcode == 6 {
            "SBC"
        } else if opcode == 7 {
            "RSC"
        } else if opcode == 8 {
            "TST"
        } else if opcode == 9 {
            "TEQ"
        } else if opcode == 10 {
            "CMP"
        } else if opcode == 11 {
            "CMN"
        } else if opcode == 12 {
            "ORR"
        } else if opcode == 13 {
            "MOV"
        } else if opcode == 14 {
            "BIC"
        } else {
            "MVN"
        }
    }

    /// The set-flags bit, bit 20.
    pub fn s_bit(&self) -> (r: bool)
        ensures
            r == (bits_spec(self.0, 20, 20) == 1),
    {
        let bit20 = get_bits(self.0, 20, 20);
        bit20 == 1
    }

    /// The first operand register field, bits 19..=16.
    pub fn dataprocessing_rn(&self) -> (r: usize)
        ensures
            r == bits_spec(self.0, 16, 19) as usize,
            r < 16,
    {
        let bits19_16 = get_bits(self.0, 16, 19);
        proof {
            lemma2_to64();
        }
        bits19_16 as usize
    }

    /// The destination register field, bits 15..=12.
    pub fn dataprocessing_rd(&self) -> (r: usize)
        ensures
            r == bits_spec(self.0, 12, 15) as usize,
            r < 16,
    {
        let bits15_12 = get_bits(self.0, 12, 15);
        proof {
            lemma2_to64();
        }
        bits15_12 as usize
    }

    /// The shift-register form of operand 2: the raw shift field,
    /// bits 11..=4, and the register, bits 3..=0.
    pub fn data_processing_operand2_as_shiftreg(&self) -> (r: (usize, usize))
        ensures
            r.0 == bits_spec(self.0, 4, 11) as usize,
            r.1 == bits_spec(self.0, 0, 3) as usize,
    {
        let shift = get_bits(self.0, 4, 11);
        let rm = get_bits(self.0, 0, 3);
        (shift as usize, rm as usize)
    }

    /// The rotated-immediate form of operand 2: the rotate field,
    /// bits 11..=8, and the immediate, bits 7..=0.
    pub fn dataprocessing_operand2_as_rotimm(&self) -> (r: (usize, usize))
        ensures
            r.0 == bits_spec(self.0, 8, 11) as usize,
            r.1 == bits_spec(self.0, 0, 7) as usize,
    {
        let rot = get_bits(self.0, 8, 11);
        let imm = get_bits(self.0, 0, 7);
        (rot as usize, imm as usize)
    }

    /// The raw 12-bit operand-2 field, bits 11..=0.
    pub fn dataprocessing_operand2(&self) -> (r: u32)
        ensures
            r == bits_spec(self.0, 0, 11),
    {
        get_bits(self.0, 0, 11)
    }
}

/// The 16 data-processing opcodes, in the order of their 4-bit encodings
/// 0b0000 (AND) through 0b1111 (MVN).
#[derive(Debug, Clone, Copy, PartialEq, Eq, Structural)]
pub enum DataProcessingOpCode {
    And,
    Eor,
    Sub,
    Rsb,
    Add,
    Adc,
    Sbc,
    Rsc,
    Tst,
    Teq,
    Cmp,
    Cmn,
    Orr,
    Mov,
    Bic,
    Mvn,
}

/// The opcode that a 4-bit field value encodes.
pub open spec fn dp_opcode_spec(v: u32) -> DataProcessingOpCode
    recommends
        v < 16,
{
    if v == 0 {
        DataProcessingOpCode::And
    } else if v == 1 {
        DataProcessingOpCode::Eor
    } else if v == 2 {
        DataProcessingOpCode::Sub
    } else if v == 3 {
        DataProcessingOpCode::Rsb
    } else if v == 4 {
        DataProcessingOpCode::Add
    } else if v == 5 {
        DataProcessingOpCode::Adc
    } else if v == 6 {
        DataProcessingOpCode::Sbc
    } else if v == 7 {
        DataProcessingOpCode::Rsc
    } else if v == 8 {
        DataProcessingOpCode::Tst
    } else if v == 9 {
        DataProcessingOpCode::Teq
    } else if v == 10 {
        DataProcessingOpCode::Cmp
    } else if v == 11 {
        DataProcessingOpCode::Cmn
    } else if v == 12 {
        DataProcessingOpCode::Orr
    } else if v == 13 {
        DataProcessingOpCode::Mov
    } else if v == 14 {
        DataProcessingOpCode::Bic
    } else {
        DataProcessingOpCode::Mvn
    }
}

/// The fixed name of each data-processing opcode field value.
pub open spec fn dp_opcode_name_spec(v: u32) -> Seq<char>
    recommends
        v < 16,
{
    if v == 0 {
        "AND"@
    } else if v == 1 {
        "EOR"@
    } else if v == 2 {
        "SUB"@
    } else if v == 3 {
        "RSB"@
    } else if v == 4 {
        "ADD"@
    } else if v == 5 {
        "ADC"@
    } else if v == 6 {
        "SBC"@
    } else if v == 7 {
        "RSC"@
    } else if v == 8 {
        "TST"@
    } else if v == 9 {
        "TEQ"@
    } else if v == 10 {
        "CMP"@
    } else if v == 11 {
        "CMN"@
    } else if v == 12 {
        "ORR"@
    } else if v == 13 {
        "MOV"@
    } else if v == 14 {
        "BIC"@
    } else {
        "MVN"@
    }
}

impl DataProcessingOpCode {
    /// The opcode encoded by a 4-bit field value; a value outside the 4-bit
    /// domain is rejected.
    pub fn try_from(v: u32) -> (r: Result<Self, ()>)
        ensures
            v < 16 ==> r == Ok::<Self, ()>(dp_opcode_spec(v)),
            v >= 16 ==> r == Err::<Self, ()>(()),
    {
        if v == 0 {
            Ok(DataProcessingOpCode::And)
        } else if v == 1 {
            Ok(DataProcessingOpCode::Eor)
        } else if v == 2 {
            Ok(DataProcessingOpCode::Sub)
        } else if v == 3 {
            Ok(DataProcessingOpCode::Rsb)
        } else if v == 4 {
            Ok(DataProcessingOpCode::Add)
        } else if v == 5 {
            Ok(DataProcessingOpCode::Adc)
        } else if v == 6 {
            Ok(DataProcessingOpCode::Sbc)
        } else if v == 7 {
            Ok(DataProcessingOpCode::Rsc)
        } else if v == 8 {
            Ok(DataProcessingOpCode::Tst)
        } else if v == 9 {
            Ok(DataProcessingOpCode::Teq)
        } else if v == 10 {
            Ok(DataProcessingOpCode::Cmp)
        } else if v == 11 {
            Ok(DataProcessingOpCode::Cmn)
        } else if v == 12 {
            Ok(DataProcessingOpCode::Orr)
        } else if v == 13 {
            Ok(DataProcessingOpCode::Mov)
        } else if v == 14 {
            Ok(DataProcessingOpCode::Bic)
        } else if v == 15 {
            Ok(DataProcessingOpCode::Mvn)
        } else {
            Err(())
        }
    }
}

/// The four 2-bit shift kinds of a register-form operand.
#[derive(Debug, Clone, Copy, PartialEq, Eq, Structural)]
pub enum ShiftType {
    LogicalLeft,
    LogicalRight,
    ArithmeticLeft,
    ArithmeticRight,
}

/// The shift kind that a 2-bit field value encodes.
pub open spec fn shift_type_spec(v: u32) -> ShiftType
    recommends
        v < 4,
{
    if v == 0 {
        ShiftType::LogicalLeft
    } else if v == 1 {
        ShiftType::LogicalRight
    } else if v == 2 {
        ShiftType::ArithmeticLeft
    } else {
        ShiftType::ArithmeticRight
    }
}

impl ShiftType {
    /// The shift kind encoded by a 2-bit field value; a value outside the
    /// 2-bit domain is rejected.
    pub fn try_from(v: u32) -> (r: Result<Self, ()>)
        ensures
            v < 4 ==> r == Ok::<Self, ()>(shift_type_spec(v)),
            v >= 4 ==> r == Err::<Self, ()>(()),
    {
        if v == 0 {
            Ok(ShiftType::LogicalLeft)
        } else if v == 1 {
            Ok(ShiftType::LogicalRight)
        } else if v == 2 {
            Ok(ShiftType::ArithmeticLeft)
        } else if v == 3 {
            Ok(ShiftType::ArithmeticRight)
        } else {
            Err(())
        }
    }
}

/// The second operand of a data-processing instruction. Exactly one shape
/// applies per word, selected by the immediate bit (25) and bit 4.
#[derive(Debug, Clone, Copy, PartialEq, Eq, Structural)]
pub enum DataProcessingOperand2 {
    /// Bits 11..=7 shift amount, bits 6..=5 shift kind, bit 4 zero.
    ShiftRegDirect { shift_count: u32, shift_type: ShiftType },
    /// Bits 11..=7 register field, bits 6..=5 shift kind, bit 4 one.
    /// The field spans five bits even though a register index has four.
    ShiftRegIndirect { shift_reg: usize, shift_type: ShiftType },
    /// Bits 11..=8 rotate amount, bits 7..=0 immediate value.
    ImmRot { rotate_count: u32, imm_value: u32 },
}

/// The operand-2 shape and fields of a word, by the immediate-bit and
/// bit-4 discriminants.
pub open spec fn dp_operand2_spec(i: u32) -> DataProcessingOperand2 {
    if bits_spec(i, 25, 25) == 1 {
        DataProcessingOperand2::ImmRot {
            rotate_count: bits_spec(i, 8, 11),
            imm_value: bits_spec(i, 0, 7),
        }
    } else if bits_spec(i, 4, 4) == 0 {
        DataProcessingOperand2::ShiftRegDirect {
            shift_count: bits_spec(i, 7, 11),
            shift_type: shift_type_spec(bits_spec(i, 5, 6)),
        }
    } else {
        DataProcessingOperand2::ShiftRegIndirect {
            shift_reg: bits_spec(i, 7, 11) as usize,
            shift_type: shift_type_spec(bits_spec(i, 5, 6)),
        }
    }
}

/// A decoded data-processing instruction.
#[derive(Debug, Clone, Copy, PartialEq, Eq, Structural)]
pub struct DataProcessingInstr {
    pub i: u32,
    pub cond: ConditionField,
    pub opcode: DataProcessingOpCode,
    pub rn: u8,
    pub rd: u8,
    pub s: bool,
    pub operand2: DataProcessingOperand2,
}

/// What decoding a word as a data-processing instruction returns: the
/// decoded record if the word classifies as `DataProcessingPsr`, the exact
/// mismatch otherwise.
pub open spec fn dp_new_spec(i: u32) -> Result<DataProcessingInstr, DecodeError> {
    match arm_type_spec(i) {
        Some(ArmV4Type::DataProcessingPsr) => Ok(
            (DataProcessingInstr {
                i,
                cond: cond_spec(i),
                opcode: dp_opcode_spec(bits_spec(i, 21, 24)),
                rn: bits_spec(i, 16, 19) as u8,
                rd: bits_spec(i, 12, 15) as u8,
                s: bits_spec(i, 20, 20) == 1,
                operand2: dp_operand2_spec(i),
            }),
        ),
        Some(t) => Err(
            (DecodeError::FormatMismatch { expected: ArmV4Type::DataProcessingPsr, actual: t }),
        ),
        None => Err(DecodeError::UnclassifiedInstruction(i)),
    }
}

impl DataProcessingInstr {
    /// Decodes a word whose classification is `DataProcessingPsr`; any
    /// other word is returned as the matching error.
    pub fn new(i: u32) -> (r: Result<Self, DecodeError>)
        ensures
            r == dp_new_spec(i),
            r is Ok <==> arm_type_spec(i) == Some(ArmV4Type::DataProcessingPsr),
    {
        match armv4_type(i) {
            Ok(ArmV4Type::DataProcessingPsr) => {
                proof {
                    lemma2_to64();
                }
                let opcode = DataProcessingOpCode::try_from(get_bits(i, 21, 24)).unwrap();
                let immbit = get_bits(i, 25, 25) == 1;
                let operand2: DataProcessingOperand2;
                if immbit {
                    let rotate2 = get_bits(i, 8, 11);
                    let imm = get_bits(i, 0, 7);
                    operand2 = DataProcessingOperand2::ImmRot {
                        rotate_count: rotate2,
                        imm_value: imm,
                    };
                } else {
                    if get_bits(i, 4, 4) == 0 {
                        operand2 = DataProcessingOperand2::ShiftRegDirect {
                            shift_count: get_bits(i, 7, 11),
                            shift_type: ShiftType::try_from(get_bits(i, 5, 6)).unwrap(),
                        };
                    } else {
                        operand2 = DataProcessingOperand2::ShiftRegIndirect {
                            shift_reg: get_bits(i, 7, 11) as usize,
                            shift_type: ShiftType::try_from(get_bits(i, 5, 6)).unwrap(),
                        };
                    }
                }
                Ok(
                    DataProcessingInstr {
                        i,
                        cond: ConditionField::new(get_bits(i, 28, 31) as u8),
                        opcode,
                        rn: get_bits(i, 16, 19) as u8,
                        rd: get_bits(i, 12, 15) as u8,
                        s: get_bits(i, 20, 20) == 1,
                        operand2,
                    },
                )
            },
            Ok(t) => Err(
                DecodeError::FormatMismatch { expected: ArmV4Type::DataProcessingPsr, actual: t },
            ),
            Err(e) => Err(e),
        }
    }
}

/// A decoded branch-and-exchange instruction: a branch to the address held
/// in `rn`, with bit 0 of that register selecting the 16-bit instruction
/// width. Only the register index is decoded; the branch itself is
/// execution-time behaviour.
#[derive(Debug, Clone, Copy, PartialEq, Eq, Structural)]
pub struct BxInstr {
    pub i: u32,
    pub cond: ConditionField,
    pub rn: u8,
}

/// What decoding a word as branch-and-exchange returns.
pub open spec fn bx_new_spec(i: u32) -> Result<BxInstr, DecodeError> {
    match arm_type_spec(i) {
        Some(ArmV4Type::BranchAndExchange) => Ok(
            (BxInstr { i, cond: cond_spec(i), rn: bits_spec(i, 0, 3) as u8 }),
        ),
        Some(t) => Err(
            (DecodeError::FormatMismatch { expected: ArmV4Type::BranchAndExchange, actual: t }),
        ),
        None => Err(DecodeError::UnclassifiedInstruction(i)),
    }
}

impl BxInstr {
    /// Decodes a word whose classification is `BranchAndExchange`; any
    /// other word is returned as the matching error.
    pub fn new(i: u32) -> (r: Result<Self, DecodeError>)
        ensures
            r == bx_new_spec(i),
            r is Ok <==> arm_type_spec(i) == Some(ArmV4Type::BranchAndExchange),
    {
        match armv4_type(i) {
            Ok(ArmV4Type::BranchAndExchange) => {
                proof {
                    lemma2_to64();
                }
                Ok(
                    BxInstr {
                        i,
                        cond: ConditionField::new(get_bits(i, 28, 31) as u8),
                        rn: get_bits(i, 0, 3) as u8,
                    },
                )
            },
            Ok(t) => Err(
                DecodeError::FormatMismatch { expected: ArmV4Type::BranchAndExchange, actual: t },
            ),
            Err(e) => Err(e),
        }
    }
}

/// A decoded branch (B/BL) instruction. The offset is kept as the raw
/// unsigned 24-bit field, with no sign extension and no scaling to a byte
/// address.
#[derive(Debug, Clone, Copy, PartialEq, Eq, Structural)]
pub struct BranchInstr {
    pub i: u32,
    pub cond: ConditionField,
    pub link: bool,
    pub offset: u32,
}

/// What decoding a word as a branch returns.
pub open spec fn branch_new_spec(i: u32) -> Result<BranchInstr, DecodeError> {
    match arm_type_spec(i) {
        Some(ArmV4Type::Branch) => Ok(
            (BranchInstr {
                i,
                cond: cond_spec(i),
                link: bits_spec(i, 24, 24) == 1,
                offset: bits_spec(i, 0, 23),
            }),
        ),
        Some(t) => Err((DecodeError::FormatMismatch { expected: ArmV4Type::Branch, actual: t })),
        None => Err(DecodeError::UnclassifiedInstruction(i)),
    }
}

impl BranchInstr {
    /// Decodes a word whose classification is `Branch`; any other word is
    /// returned as the matching error.
    pub fn new(i: u32) -> (r: Result<Self, DecodeError>)
        ensures
            r == branch_new_spec(i),
            r is Ok <==> arm_type_spec(i) == Some(ArmV4Type::Branch),
    {
        match armv4_type(i) {
            Ok(ArmV4Type::Branch) => {
                proof {
                    lemma2_to64();
                }
                Ok(
                    BranchInstr {
                        i,
                        cond: ConditionField::new(get_bits(i, 28, 31) as u8),
                        link: get_bits(i, 24, 24) == 1,
                        offset: get_bits(i, 0, 23),
                    },
                )
            },
            Ok(t) => Err(DecodeError::FormatMismatch { expected: ArmV4Type::Branch, actual: t }),
            Err(e) => Err(e),
        }
    }
}

/// The two load/store opcodes, selected by bit 20.
#[derive(Debug, Clone, Copy, PartialEq, Eq, Structural)]
pub enum LoadStoreOpcode {
    Str,
    Ldr,
}

/// The addressing-mode offset of a load/store instruction, selected by
/// bit 25: a 12-bit immediate, or a shifted register.
#[derive(Debug, Clone, Copy, PartialEq, Eq, Structural)]
pub enum LoadStoreOffset {
    ImmOffset { imm: u16 },
    ShiftOffset { shift_count: u32, shift_type: ShiftType, rm: u8 },
}

/// The offset shape and fields of a load/store word.
pub open spec fn ls_offset_spec(i: u32) -> LoadStoreOffset {
    if bits_spec(i, 25, 25) == 1 {
        LoadStoreOffset::ShiftOffset {
            shift_count: bits_spec(i, 7, 11),
            shift_type: shift_type_spec(bits_spec(i, 5, 6)),
            rm: bits_spec(i, 0, 3) as u8,
        }
    } else {
        LoadStoreOffset::ImmOffset { imm: bits_spec(i, 0, 11) as u16 }
    }
}

/// A decoded load/store instruction.
#[derive(Debug, Clone, Copy, PartialEq, Eq, Structural)]
pub struct LoadStoreInstr {
    pub i: u32,
    pub cond: ConditionField,
    pub opcode: LoadStoreOpcode,
    pub rd: u8,
    pub rn: u8,
    pub write_back: bool,
    pub byte_or_word: bool,
    pub up_down: bool,
    pub pre_post: bool,
    pub offset: LoadStoreOffset,
}

/// What decoding a word as a load/store returns.
pub open spec fn ls_new_spec(i: u32) -> Result<LoadStoreInstr, DecodeError> {
    match arm_type_spec(i) {
        Some(ArmV4Type::LoadStore) => Ok(
            (LoadStoreInstr {
                i,
                cond: cond_spec(i),
                opcode: if bits_spec(i, 20, 20) == 1 {
                    LoadStoreOpcode::Ldr
                } else {
                    LoadStoreOpcode::Str
                },
                rd: bits_spec(i, 12, 15) as u8,
                rn: bits_spec(i, 16, 19) as u8,
                write_back: bits_spec(i, 21, 21) == 1,
                byte_or_word: bits_spec(i, 22, 22) == 1,
                up_down: bits_spec(i, 23, 23) == 1,
                pre_post: bits_spec(i, 24, 24) == 1,
                offset: ls_offset_spec(i),
            }),
        ),
        Some(t) => Err((DecodeError::FormatMismatch { expected: ArmV4Type::LoadStore, actual: t })),
        None => Err(DecodeError::UnclassifiedInstruction(i)),
    }
}

impl LoadStoreInstr {
    /// Decodes a word whose classification is `LoadStore`; any other word
    /// is returned as the matching error.
    pub fn new(i: u32) -> (r: Result<Self, DecodeError>)
        ensures
            r == ls_new_spec(i),
            r is Ok <==> arm_type_spec(i) == Some(ArmV4Type::LoadStore),
    {
        match armv4_type(i) {
            Ok(ArmV4Type::LoadStore) => {
                proof {
                    lemma2_to64();
                }
                let opcode = if get_bits(i, 20, 20) == 1 {
                    LoadStoreOpcode::Ldr
                } else {
                    LoadStoreOpcode::Str
                };
                let rd = get_bits(i, 12, 15);
                let rn = get_bits(i, 16, 19);
                let write_back = get_bits(i, 21, 21) == 1;
                let byte_or_word = get_bits(i, 22, 22) == 1;
                let up_down = get_bits(i, 23, 23) == 1;
                let pre_post = get_bits(i, 24, 24) == 1;
                let offset: LoadStoreOffset;
                if get_bits(i, 25, 25) == 1 {
                    let shift_count = get_bits(i, 7, 11);
                    let shift_type = get_bits(i, 5, 6);
                    let rm = get_bits(i, 0, 3);
                    offset = LoadStoreOffset::ShiftOffset {
                        shift_count,
                        shift_type: ShiftType::try_from(shift_type).unwrap(),
                        rm: rm as u8,
                    };
                } else {
                    offset = LoadStoreOffset::ImmOffset { imm: get_bits(i, 0, 11) as u16 };
                }
                Ok(
                    LoadStoreInstr {
                        i,
                        cond: ConditionField::new(get_bits(i, 28, 31) as u8),
                        rd: rd as u8,
                        rn: rn as u8,
                        opcode,
                        write_back,
                        byte_or_word,
                        up_down,
                        pre_post,
                        offset,
                    },
                )
            },
            Ok(t) => Err(DecodeError::FormatMismatch { expected: ArmV4Type::LoadStore, actual: t }),
            Err(e) => Err(e),
        }
    }
}

/// A decoded long-multiply instruction.
#[derive(Debug, Clone, Copy, PartialEq, Eq, Structural)]
pub struct MulLongInstr {
    pub i: u32,
    pub cond: ConditionField,
    pub unsigned: bool,
    pub accumulate: bool,
    pub s: bool,
    pub rdhi: u8,
    pub rdlo: u8,
    pub rs: u8,
    pub rm: u8,
}

/// What decoding a word as a long multiply returns.
pub open spec fn mul_long_new_spec(i: u32) -> Result<MulLongInstr, DecodeError> {
    match arm_type_spec(i) {
        Some(ArmV4Type::MultiplyLong) => Ok(
            (MulLongInstr {
                i,
                cond: cond_spec(i),
                unsigned: bits_spec(i, 22, 22) == 0,
                accumulate: bits_spec(i, 21, 21) == 1,
                s: bits_spec(i, 20, 20) == 1,
                rdhi: bits_spec(i, 16, 19) as u8,
                rdlo: bits_spec(i, 12, 15) as u8,
                rs: bits_spec(i, 8, 11) as u8,
                rm: bits_spec(i, 0, 3) as u8,
            }),
        ),
        Some(t) => Err(
            (DecodeError::FormatMismatch { expected: ArmV4Type::MultiplyLong, actual: t }),
        ),
        None => Err(DecodeError::UnclassifiedInstruction(i)),
    }
}

impl MulLongInstr {
    /// Decodes a word whose classification is `MultiplyLong`; any other
    /// word is returned as the matching error.
    pub fn new(i: u32) -> (r: Result<Self, DecodeError>)
        ensures
            r == mul_long_new_spec(i),
            r is Ok <==> arm_type_spec(i) == Some(ArmV4Type::MultiplyLong),
    {
        match armv4_type(i) {
            Ok(ArmV4Type::MultiplyLong) => {
                proof {
                    lemma2_to64();
                }
                Ok(
                    MulLongInstr {
                        i,
                        cond: ConditionField::new(get_bits(i, 28, 31) as u8),
                        unsigned: get_bits(i, 22, 22) == 0,
                        accumulate: get_bits(i, 21, 21) == 1,
                        s: get_bits(i, 20, 20) == 1,
                        rdhi: get_bits(i, 16, 19) as u8,
                        rdlo: get_bits(i, 12, 15) as u8,
                        rs: get_bits(i, 8, 11) as u8,
                        rm: get_bits(i, 0, 3) as u8,
                    },
                )
            },
            Ok(t) => Err(
                DecodeError::FormatMismatch { expected: ArmV4Type::MultiplyLong, actual: t },
            ),
            Err(e) => Err(e),
        }
    }
}

/// The CPU state container is an external collaborator; the decoder core
/// holds no state of its own.
pub struct ARMCpu {}

/// Classification is a pure function of the word: any two results of
/// `armv4_type` on the same word are equal, so calling it twice yields
/// bit-identical results.
pub proof fn lemma_armv4_type_deterministic(
    i: u32,
    r1: Result<ArmV4Type, DecodeError>,
    r2: Result<ArmV4Type, DecodeError>,
)
    requires
        r1 == armv4_type_res_spec(i),
        r2 == armv4_type_res_spec(i),
    ensures
        r1 == r2,
{
}

/// Data-processing decoding is a pure function of the word: any two
/// results of `DataProcessingInstr::new` on the same word are equal.
pub proof fn lemma_dp_new_deterministic(
    i: u32,
    r1: Result<DataProcessingInstr, DecodeError>,
    r2: Result<DataProcessingInstr, DecodeError>,
)
    requires
        r1 == dp_new_spec(i),
        r2 == dp_new_spec(i),
    ensures
        r1 == r2,
{
}

/// Branch-and-exchange decoding is a pure function of the word.
pub proof fn lemma_bx_new_deterministic(
    i: u32,
    r1: Result<BxInstr, DecodeError>,
    r2: Result<BxInstr, DecodeError>,
)
    requires
        r1 == bx_new_spec(i),
        r2 == bx_new_spec(i),
    ensures
        r1 == r2,
{
}

/// Branch decoding is a pure function of the word.
pub proof fn lemma_branch_new_deterministic(
    i: u32,
    r1: Result<BranchInstr, DecodeError>,
    r2: Result<BranchInstr, DecodeError>,
)
    requires
        r1 == branch_new_spec(i),
        r2 == branch_new_spec(i),
    ensures
        r1 == r2,
{
}

/// Load/store decoding is a pure function of the word.
pub proof fn lemma_ls_new_deterministic(
    i: u32,
    r1: Result<LoadStoreInstr, DecodeError>,
    r2: Result<LoadStoreInstr, DecodeError>,
)
    requires
        r1 == ls_new_spec(i),
        r2 == ls_new_spec(i),
    ensures
        r1 == r2,
{
}

/// Long-multiply decoding is a pure function of the word.
pub proof fn lemma_mul_long_new_deterministic(
    i: u32,
    r1: Result<MulLongInstr, DecodeError>,
    r2: Result<MulLongInstr, DecodeError>,
)
    requires
        r1 == mul_long_new_spec(i),
        r2 == mul_long_new_spec(i),
    ensures
        r1 == r2,
{
}

/// Mismatch safety: the data-processing decoder applied to a word that
/// classifies as any other format returns exactly the `FormatMismatch`
/// error naming both formats, never an abort.
pub proof fn lemma_dp_new_mismatch(i: u32, t: ArmV4Type)
    requires
        arm_type_spec(i) == Some(t),
        t != ArmV4Type::DataProcessingPsr,
    ensures
        dp_new_spec(i) == Err::<DataProcessingInstr, DecodeError>(
            (DecodeError::FormatMismatch { expected: ArmV4Type::DataProcessingPsr, actual: t }),
        ),
{
}

/// The predicate order is load-bearing: every word the Multiply predicate
/// matches also satisfies the broader Data-Processing predicate, and only
/// the table order makes such a word classify as `Multiply`.
pub proof fn lemma_multiply_overlaps_data_processing(i: u32)
    requires
        is_multiply(i),
    ensures
        is_data_processing_psr(i),
        arm_type_spec(i) == Some(ArmV4Type::Multiply),
{
    vstd::bits::lemma_low_bits_mask_values();
    assert(bits_spec(i, 22, 27) == (i >> 22u32) & 0x3fu32);
    assert(bits_spec(i, 26, 27) == (i >> 26u32) & 0x3u32);
    assert((i >> 22u32) & 0x3fu32 == 0 ==> (i >> 26u32) & 0x3u32 == 0) by (bit_vector);
}

/// The `Undefined` predicate is dead: any word it matches has bits 27..=26
/// equal to 0b01, so the earlier `LoadStore` predicate always wins.
pub proof fn lemma_undefined_never_classified(i: u32)
    requires
        is_undefined(i),
    ensures
        is_load_store(i),
        arm_type_spec(i) == Some(ArmV4Type::LoadStore),
{
    vstd::bits::lemma_low_bits_mask_values();
    assert(bits_spec(i, 25, 27) == (i >> 25u32) & 0x7u32);
    assert(bits_spec(i, 4, 4) == (i >> 4u32) & 0x1u32);
    assert(bits_spec(i, 26, 27) == (i >> 26u32) & 0x3u32);
    assert(bits_spec(i, 22, 27) == (i >> 22u32) & 0x3fu32);
    assert(bits_spec(i, 23, 27) == (i >> 23u32) & 0x1fu32);
    assert(bits_spec(i, 4, 27) == (i >> 4u32) & 0xffffffu32);
    assert((i >> 25u32) & 0x7u32 == 3 ==> ((i >> 26u32) & 0x3u32 == 1 && (i >> 22u32) & 0x3fu32
        != 0 && (i >> 23u32) & 0x1fu32 != 1 && (i >> 23u32) & 0x1fu32 != 2 && (i >> 4u32)
        & 0xffffffu32 != 0b0001_0010_1111_1111_1111_0001u32)) by (bit_vector);
}

/// The predicate table leaves exactly one gap: a word is unclassifiable
/// precisely when bits 27..=25 are 0b100 and bit 22 is set. Every other
/// word matches some predicate.
pub proof fn lemma_unclassified_characterized(i: u32)
    ensures
        arm_type_spec(i) is None <==> (bits_spec(i, 25, 27) == 0b100 && bits_spec(i, 22, 22) == 1),
{
    vstd::bits::lemma_low_bits_mask_values();
    assert(bits_spec(i, 22, 27) == (i >> 22u32) & 0x3fu32);
    assert(bits_spec(i, 4, 7) == (i >> 4u32) & 0xfu32);
    assert(bits_spec(i, 23, 27) == (i >> 23u32) & 0x1fu32);
    assert(bits_spec(i, 4, 27) == (i >> 4u32) & 0xffffffu32);
    assert(bits_spec(i, 4, 11) == (i >> 4u32) & 0xffu32);
    assert(bits_spec(i, 20, 21) == (i >> 20u32) & 0x3u32);
    assert(bits_spec(i, 25, 27) == (i >> 25u32) & 0x7u32);
    assert(bits_spec(i, 22, 22) == (i >> 22u32) & 0x1u32);
    assert(bits_spec(i, 6, 7) == (i >> 6u32) & 0x3u32);
    assert(bits_spec(i, 4, 4) == (i >> 4u32) & 0x1u32);
    assert(bits_spec(i, 26, 27) == (i >> 26u32) & 0x3u32);
    assert(bits_spec(i, 24, 27) == (i >> 24u32) & 0xfu32);
    assert((!((i >> 22u32) & 0x3fu32 == 0 && (i >> 4u32) & 0xfu32 == 9) && !((i >> 23u32)
        & 0x1fu32 == 1 && (i >> 4u32) & 0xfu32 == 9) && !((i >> 4u32) & 0xffffffu32
        == 0b0001_0010_1111_1111_1111_0001u32) && !((i >> 23u32) & 0x1fu32 == 2 && (i >> 20u32)
        & 0x3u32 == 0 && (i >> 4u32) & 0xffu32 == 9) && !((i >> 25u32) & 0x7u32 == 0 && (i
        >> 22u32) & 0x1u32 == 0 && (i >> 4u32) & 0xffu32 == 11) && !((i >> 25u32) & 0x7u32 == 0
        && (i >> 22u32) & 0x1u32 == 1 && (i >> 4u32) & 0xfu32 == 11) && !((i >> 25u32) & 0x7u32
        == 0 && (i >> 6u32) & 0x3u32 == 3 && (i >> 4u32) & 0x1u32 == 1) && !((i >> 26u32) & 0x3u32
        == 0) && !((i >> 26u32) & 0x3u32 == 1) && !((i >> 25u32) & 0x7u32 == 3 && (i >> 4u32)
        & 0x1u32 == 1) && !((i >> 25u32) & 0x7u32 == 4 && (i >> 22u32) & 0x1u32 == 0) && !((i
        >> 25u32) & 0x7u32 == 5) && !((i >> 25u32) & 0x7u32 == 6) && !((i >> 24u32) & 0xfu32 == 14
        && (i >> 4u32) & 0x1u32 == 0) && !((i >> 24u32) & 0xfu32 == 14 && (i >> 4u32) & 0x1u32
        == 1) && !((i >> 24u32) & 0xfu32 == 15)) <==> ((i >> 25u32) & 0x7u32 == 4 && (i >> 22u32)
        & 0x1u32 == 1)) by (bit_vector);
}

} // verus!
