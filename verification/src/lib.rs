//! Decoder core for a fixed-width 32-bit ARM-family instruction encoding.
//!
//! A raw 32-bit word is classified into one of sixteen mutually exclusive
//! instruction formats by an ordered predicate table, and per-format decoders
//! extract typed fields (condition codes, registers, opcodes, addressing-mode
//! operands) from the word. Every operation is a pure function of its input
//! word; failures are reported as typed results, never as aborts.

use vstd::prelude::*;

pub mod arm;
pub mod util;

verus! {

/// Coarse 3-way classification of a word over bits 27..=26, independent of
/// the 16-way format table: 0b00 data processing, 0b01 memory, 0b10 branch.
#[derive(Debug, Clone, Copy, PartialEq, Eq, Structural)]
pub enum InstructionType {
    DataProcessing,
    Branch,
    MemoryProcessing,
}

/// The name of each 4-bit condition code, by its field value.
pub open spec fn cond_name_spec(c: u8) -> Seq<char> {
    if c == 0 {
        "EQ"@
    } else if c == 1 {
        "NE"@
    } else if c == 2 {
        "CS_HS"@
    } else if c == 3 {
        "CC_LO"@
    } else if c == 4 {
        "MI"@
    } else if c == 5 {
        "PL"@
    } else if c == 6 {
        "VS"@
    } else if c == 7 {
        "VC"@
    } else if c == 8 {
        "HI"@
    } else if c == 9 {
        "LS"@
    } else if c == 10 {
        "GE"@
    } else if c == 11 {
        "LT"@
    } else if c == 12 {
        "GT"@
    } else if c == 13 {
        "LE"@
    } else if c == 14 {
        "AL"@
    } else {
        "NV"@
    }
}

/// The condition field of an instruction: bits 31..=28, a 4-bit value
/// selecting conditional execution based on the processor flags.
#[derive(Debug, Clone, Copy, PartialEq, Eq, Structural)]
pub struct ConditionField(pub u8);

impl ConditionField {
    pub const COND_EQ: u8 = 0b0000;

    pub const COND_NE: u8 = 0b0001;

    pub const COND_CS_HS: u8 = 0b0010;

    pub const COND_CC_LO: u8 = 0b0011;

    pub const COND_MI: u8 = 0b0100;

    pub const COND_PL: u8 = 0b0101;

    pub const COND_VS: u8 = 0b0110;

    pub const COND_VC: u8 = 0b0111;

    pub const COND_HI: u8 = 0b1000;

    pub const COND_LS: u8 = 0b1001;

    pub const COND_GE: u8 = 0b1010;

    pub const COND_LT: u8 = 0b1011;

    pub const COND_GT: u8 = 0b1100;

    pub const COND_LE: u8 = 0b1101;

    pub const COND_AL: u8 = 0b1110;

    pub const COND_NV: u8 = 0b1111;

    pub fn new(i: u8) -> (r: Self)
        requires
            i < 16,
        ensures
            r.0 == i,
    {
        ConditionField(i)
    }

    /// The fixed name of this condition code.
    pub fn to_str(&self) -> (r: &'static str)
        requires
            self.0 < 16,
        ensures
            r@ == cond_name_spec(self.0),
    {
        match self.0 {
            0 => "EQ",
            1 => "NE",
            2 => "CS_HS",
            3 => "CC_LO",
            4 => "MI",
            5 => "PL",
            6 => "VS",
            7 => "VC",
            8 => "HI",
            9 => "LS",
            10 => "GE",
            11 => "LT",
            12 => "GT",
            13 => "LE",
            14 => "AL",
            _ => "NV",
        }
    }
}

/// Condition decoding is total and injective: every value of the 4-bit
/// condition field has a name, and distinct field values have distinct names.
pub proof fn lemma_condition_total_and_distinct()
    ensures
        forall|c: u8| c < 16 ==> (#[trigger] cond_name_spec(c)).len() >= 2,
        forall|a: u8, b: u8|
            a < 16 && b < 16 && a != b ==> cond_name_spec(a) != cond_name_spec(b),
{
    reveal_strlit("EQ");
    reveal_strlit("NE");
    reveal_strlit("CS_HS");
    reveal_strlit("CC_LO");
    reveal_strlit("MI");
    reveal_strlit("PL");
    reveal_strlit("VS");
    reveal_strlit("VC");
    reveal_strlit("HI");
    reveal_strlit("LS");
    reveal_strlit("GE");
    reveal_strlit("LT");
    reveal_strlit("GT");
    reveal_strlit("LE");
    reveal_strlit("AL");
    reveal_strlit("NV");
    assert forall|a: u8, b: u8| a < 16 && b < 16 && a != b implies cond_name_spec(a)
        != cond_name_spec(b) by {
        if cond_name_spec(a) == cond_name_spec(b) {
            assert(cond_name_spec(a)[0] == cond_name_spec(b)[0]);
            assert(cond_name_spec(a)[1] == cond_name_spec(b)[1]);
            assert(cond_name_spec(a).len() == cond_name_spec(b).len());
        }
    }
}

} // verus!
