//! The 7-series JTAG instruction set.
use vstd::prelude::*;
use crate::bits::bit8;

verus! {

/// 7-series JTAG instructions.
#[derive(Copy, Clone, Debug, PartialEq, Eq, Structural)]
#[allow(non_camel_case_types)]
pub enum Command {
    EXTEST,
    EXTEST_PULSE,
    EXTEST_TRAIN,
    SAMPLE,
    USER1,
    USER2,
    USER3,
    USER4,
    CFG_OUT,
    CFG_IN,
    USERCODE,
    IDCODE,
    HIGHZ_IO,
    JPROGRAM,
    JSTART,
    JSHUTDOWN,
    XADC_DRP,
    ISC_ENABLE,
    ISC_PROGRAM,
    XSC_PROGRAM_KEY,
    XSC_DNA,
    FUSE_DNA,
    ISC_NOOP,
    ISC_DISABLE,
    BYPASS,
}

impl Command {
    /// The opcode of this instruction.
    pub open spec fn spec_opcode(self) -> u8 {
        match self {
            Command::EXTEST => 0b100110,
            Command::EXTEST_PULSE => 0b111100,
            Command::EXTEST_TRAIN => 0b1111101,
            Command::SAMPLE => 0b000001,
            Command::USER1 => 0b000010,
            Command::USER2 => 0b000011,
            Command::USER3 => 0b100010,
            Command::USER4 => 0b100011,
            Command::CFG_OUT => 0b000100,
            Command::CFG_IN => 0b000101,
            Command::USERCODE => 0b001000,
            Command::IDCODE => 0b001001,
            Command::HIGHZ_IO => 0b001010,
            Command::JPROGRAM => 0b001011,
            Command::JSTART => 0b001100,
            Command::JSHUTDOWN => 0b001101,
            Command::XADC_DRP => 0b110111,
            Command::ISC_ENABLE => 0b010000,
            Command::ISC_PROGRAM => 0b010001,
            Command::XSC_PROGRAM_KEY => 0b010010,
            Command::XSC_DNA => 0b010111,
            Command::FUSE_DNA => 0b110010,
            Command::ISC_NOOP => 0b010100,
            Command::ISC_DISABLE => 0b010110,
            Command::BYPASS => 0b111111,
        }
    }

    /// The width of this instruction, in bits.
    pub open spec fn spec_width(self) -> u8 {
        match self {
            Command::EXTEST_TRAIN => 7,
            _ => 6,
        }
    }

    /// The bits that load this instruction, least significant bit first.
    pub open spec fn spec_bits(self) -> Seq<bool> {
        Seq::new(self.spec_width() as nat, |i: int| bit8(self.spec_opcode(), i as u8))
    }

    /// The opcode of this instruction.
    pub fn opcode(&self) -> (r: u8)
        ensures
            r == self.spec_opcode(),
    {
        match self {
            Command::EXTEST => 0b100110,
            Command::EXTEST_PULSE => 0b111100,
            Command::EXTEST_TRAIN => 0b1111101,
            Command::SAMPLE => 0b000001,
            Command::USER1 => 0b000010,
            Command::USER2 => 0b000011,
            Command::USER3 => 0b100010,
            Command::USER4 => 0b100011,
            Command::CFG_OUT => 0b000100,
            Command::CFG_IN => 0b000101,
            Command::USERCODE => 0b001000,
            Command::IDCODE => 0b001001,
            Command::HIGHZ_IO => 0b001010,
            Command::JPROGRAM => 0b001011,
            Command::JSTART => 0b001100,
            Command::JSHUTDOWN => 0b001101,
            Command::XADC_DRP => 0b110111,
            Command::ISC_ENABLE => 0b010000,
            Command::ISC_PROGRAM => 0b010001,
            Command::XSC_PROGRAM_KEY => 0b010010,
            Command::XSC_DNA => 0b010111,
            Command::FUSE_DNA => 0b110010,
            Command::ISC_NOOP => 0b010100,
            Command::ISC_DISABLE => 0b010110,
            Command::BYPASS => 0b111111,
        }
    }

    /// The width of this instruction, in bits.
    pub fn width(&self) -> (r: u8)
        ensures
            r == self.spec_width(),
    {
        match self {
            Command::EXTEST_TRAIN => 7,
            _ => 6,
        }
    }

    /// The bits that load this instruction into the instruction register,
    /// least significant bit first.
    pub fn bits(&self) -> (r: Vec<bool>)
        ensures
            r@ == self.spec_bits(),
    {
        let op = self.opcode();
        let width = self.width();
        let mut r: Vec<bool> = Vec::new();
        let mut i: u8 = 0;
        while i < width
            invariant
                op == self.spec_opcode(),
                width == self.spec_width(),
                width <= 7,
                i <= width,
                r@.len() == i,
                forall|k: int| 0 <= k < i ==> #[trigger] r@[k] == bit8(op, k as u8),
            decreases width - i,
        {
            r.push((op >> i) & 1u8 == 1u8);
            i = i + 1;
        }
        assert(r@ =~= self.spec_bits());
        r
    }
}

} // verus!
