use vstd::prelude::*;

verus! {

/// A 32-bit R3000A instruction word.
#[derive(Clone, Copy, Debug, PartialEq, Eq, Structural)]
pub struct Instruction(pub u32);

/// The decoded operation of an instruction.
#[derive(Clone, Copy, Debug, PartialEq, Eq, Structural)]
pub enum Opcode {
    NOP,
    SLL,
    SRL,
    SRA,
    SLLV,
    SRLV,
    SRAV,
    JR,
    JALR,
    SYSCALL,
    BREAK,
    MFHI,
    MTHI,
    MFLO,
    MTLO,
    MULT,
    MULTU,
    DIV,
    DIVU,
    ADD,
    ADDU,
    SUB,
    SUBU,
    AND,
    OR,
    XOR,
    NOR,
    SLT,
    SLTU,
    BLTZ,
    BGEZ,
    BLTZAL,
    BGEZAL,
    J,
    JAL,
    BEQ,
    BNE,
    BLEZ,
    BGTZ,
    ADDI,
    ADDIU,
    SLTI,
    SLTIU,
    ANDI,
    ORI,
    XORI,
    LUI,
    MFCn,
    CFCn,
    MTCn,
    CTCn,
    BCnF,
    BCnT,
    TLBR,
    TLBWI,
    TLBWR,
    TLBP,
    RFE,
    COPn,
    LB,
    LH,
    LWL,
    LW,
    LBU,
    LHU,
    LWR,
    SB,
    SH,
    SWL,
    SW,
    SWR,
    LWC0,
    LWC1,
    LWC2,
    LWC3,
    SWC0,
    SWC1,
    SWC2,
    SWC3,
    UNKNOWN,
}

/// Bounds of the bit fields of an instruction word.
proof fn lemma_field_bounds(x: u32)
    by (bit_vector)
    ensures
        (x >> 26u32) < 64u32,
        ((x >> 21u32) & 0x1Fu32) < 32u32,
        ((x >> 16u32) & 0x1Fu32) < 32u32,
        ((x >> 11u32) & 0x1Fu32) < 32u32,
        ((x >> 6u32) & 0x1Fu32) < 32u32,
        (x & 0x3Fu32) < 64u32,
{
}

impl Instruction {
    /// Primary opcode (bits 26..31).
    pub fn op(&self) -> (r: u32)
        ensures r == self.0 >> 26u32, r < 64,
    {
        proof { lemma_field_bounds(self.0); }
        self.0 >> 26u32
    }
    /// Source register (bits 21..25).
    pub fn rs(&self) -> (r: usize)
        ensures r == ((self.0 >> 21u32) & 0x1Fu32) as usize, r < 32,
    {
        proof { lemma_field_bounds(self.0); }
        ((self.0 >> 21u32) & 0x1Fu32) as usize
    }
    /// Target register (bits 16..20).
    pub fn rt(&self) -> (r: usize)
        ensures r == ((self.0 >> 16u32) & 0x1Fu32) as usize, r < 32,
    {
        proof { lemma_field_bounds(self.0); }
        ((self.0 >> 16u32) & 0x1Fu32) as usize
    }
    /// Destination register (bits 11..15).
    pub fn rd(&self) -> (r: usize)
        ensures r == ((self.0 >> 11u32) & 0x1Fu32) as usize, r < 32,
    {
        proof { lemma_field_bounds(self.0); }
        ((self.0 >> 11u32) & 0x1Fu32) as usize
    }
    /// Shift amount (bits 6..10).
    pub fn shift_amount(&self) -> (r: u32)
        ensures r == (self.0 >> 6u32) & 0x1Fu32, r < 32,
    {
        proof { lemma_field_bounds(self.0); }
        (self.0 >> 6u32) & 0x1Fu32
    }
    /// Secondary opcode (bits 0..5).
    pub fn function(&self) -> (r: u32)
        ensures r == self.0 & 0x3Fu32, r < 64,
    {
        proof { lemma_field_bounds(self.0); }
        self.0 & 0x3Fu32
    }
    /// The 16-bit immediate sign-extended to 32 bits.
    pub fn signed_immediate16(&self) -> (r: u32)
        ensures r == ((self.0 & 0xFFFFu32) as i16) as u32,
    {
        let offset = (self.0 & 0xFFFFu32) as i16;
        offset as u32
    }
    /// The 16-bit immediate zero-extended.
    pub fn unsigned_immediate16(&self) -> (r: u32)
        ensures r == self.0 & 0xFFFFu32,
    {
        self.0 & 0xFFFFu32
    }
    /// The 20-bit code of SYSCALL/BREAK (bits 6..25).
    pub fn imm20(&self) -> (r: u32)
        ensures r == (self.0 >> 6u32) & 0xF_FFFFu32,
    {
        (self.0 >> 6u32) & 0xF_FFFFu32
    }
    /// The 26-bit jump target (bits 0..25).
    pub fn imm26(&self) -> (r: u32)
        ensures r == self.0 & 0x3FF_FFFFu32,
    {
        self.0 & 0x3FF_FFFFu32
    }
    /// The 25-bit coprocessor command (bits 0..24).
    pub fn imm25(&self) -> (r: u32)
        ensures r == self.0 & 0x1FF_FFFFu32,
    {
        self.0 & 0x1FF_FFFFu32
    }
}

pub open spec fn op_of(i: u32) -> u32 { i >> 26u32 }
pub open spec fn rs_of(i: u32) -> u32 { (i >> 21u32) & 0x1Fu32 }
pub open spec fn rt_of(i: u32) -> u32 { (i >> 16u32) & 0x1Fu32 }
pub open spec fn rd_of(i: u32) -> u32 { (i >> 11u32) & 0x1Fu32 }
pub open spec fn sa_of(i: u32) -> u32 { (i >> 6u32) & 0x1Fu32 }
pub open spec fn funct_of(i: u32) -> u32 { i & 0x3Fu32 }

/// Decoding of a SPECIAL (primary opcode 0) instruction by its secondary opcode.
pub open spec fn decode_special(i: u32) -> Opcode {
    let f = funct_of(i);
    if f == 0x00 {
        if rd_of(i) == 0 && rt_of(i) == 0 && sa_of(i) == 0 { Opcode::NOP } else { Opcode::SLL }
    }
    else if f == 0x02 { Opcode::SRL }
        else if f == 0x03 { Opcode::SRA }
        else if f == 0x04 { Opcode::SLLV }
        else if f == 0x06 { Opcode::SRLV }
        else if f == 0x07 { Opcode::SRAV }
        else if f == 0x08 { Opcode::JR }
        else if f == 0x09 { Opcode::JALR }
        else if f == 0x0C { Opcode::SYSCALL }
        else if f == 0x0D { Opcode::BREAK }
        else if f == 0x10 { Opcode::MFHI }
        else if f == 0x11 { Opcode::MTHI }
        else if f == 0x12 { Opcode::MFLO }
        else if f == 0x13 { Opcode::MTLO }
        else if f == 0x18 { Opcode::MULT }
        else if f == 0x19 { Opcode::MULTU }
        else if f == 0x1A { Opcode::DIV }
        else if f == 0x1B { Opcode::DIVU }
        else if f == 0x20 { Opcode::ADD }
        else if f == 0x21 { Opcode::ADDU }
        else if f == 0x22 { Opcode::SUB }
        else if f == 0x23 { Opcode::SUBU }
        else if f == 0x24 { Opcode::AND }
        else if f == 0x25 { Opcode::OR }
        else if f == 0x26 { Opcode::XOR }
        else if f == 0x27 { Opcode::NOR }
        else if f == 0x2A { Opcode::SLT }
        else if f == 0x2B { Opcode::SLTU }
        else { Opcode::UNKNOWN }
}

/// Decoding of a BcondZ (primary opcode 1) instruction by its rt field; undocumented rt values
/// decode as BLTZ (bit 16 clear) or BGEZ (bit 16 set and bits 17..19 nonzero).
pub open spec fn decode_bcondz(i: u32) -> Opcode {
    let rt = rt_of(i);
    if rt == 0x00 { Opcode::BLTZ }
    else if rt == 0x01 { Opcode::BGEZ }
    else if rt == 0x10 { Opcode::BLTZAL }
    else if rt == 0x11 { Opcode::BGEZAL }
    else if rt & 1 == 0 { Opcode::BLTZ }
    else if (rt >> 1u32) & 7 != 0 { Opcode::BGEZ }
    else { Opcode::UNKNOWN }
}

/// Decoding of a coprocessor (primary opcode 10h..13h) instruction.
pub open spec fn decode_cop(i: u32) -> Opcode {
    let rs = rs_of(i);
    if rs == 0x00 { Opcode::MFCn }
    else if rs == 0x02 { Opcode::CFCn }
    else if rs == 0x04 { Opcode::MTCn }
    else if rs == 0x06 { Opcode::CTCn }
    else if rs == 0x08 {
        if rt_of(i) == 0 { Opcode::BCnF } else if rt_of(i) == 1 { Opcode::BCnT } else { Opcode::UNKNOWN }
    }
    else if (op_of(i) & 0xF) == 0 && rs == 0x10 {
        let f = funct_of(i);
        if f == 0x01 { Opcode::TLBR }
        else if f == 0x02 { Opcode::TLBWI }
        else if f == 0x06 { Opcode::TLBWR }
        else if f == 0x08 { Opcode::TLBP }
        else if f == 0x10 { Opcode::RFE }
        else { Opcode::COPn }
    }
    else { Opcode::COPn }
}

/// The decoded operation of an instruction word.
pub open spec fn decode(i: u32) -> Opcode {
    let op = op_of(i);
    if op == 0x00 { decode_special(i) }
    else if op == 0x01 { decode_bcondz(i) }
    else if 0x10 <= op <= 0x13 { decode_cop(i) }
    else if op == 0x02 { Opcode::J }
        else if op == 0x03 { Opcode::JAL }
        else if op == 0x04 { Opcode::BEQ }
        else if op == 0x05 { Opcode::BNE }
        else if op == 0x06 { Opcode::BLEZ }
        else if op == 0x07 { Opcode::BGTZ }
        else if op == 0x08 { Opcode::ADDI }
        else if op == 0x09 { Opcode::ADDIU }
        else if op == 0x0A { Opcode::SLTI }
        else if op == 0x0B { Opcode::SLTIU }
        else if op == 0x0C { Opcode::ANDI }
        else if op == 0x0D { Opcode::ORI }
        else if op == 0x0E { Opcode::XORI }
        else if op == 0x0F { Opcode::LUI }
        else if op == 0x20 { Opcode::LB }
        else if op == 0x21 { Opcode::LH }
        else if op == 0x22 { Opcode::LWL }
        else if op == 0x23 { Opcode::LW }
        else if op == 0x24 { Opcode::LBU }
        else if op == 0x25 { Opcode::LHU }
        else if op == 0x26 { Opcode::LWR }
        else if op == 0x28 { Opcode::SB }
        else if op == 0x29 { Opcode::SH }
        else if op == 0x2A { Opcode::SWL }
        else if op == 0x2B { Opcode::SW }
        else if op == 0x2E { Opcode::SWR }
        else if op == 0x30 { Opcode::LWC0 }
        else if op == 0x31 { Opcode::LWC1 }
        else if op == 0x32 { Opcode::LWC2 }
        else if op == 0x33 { Opcode::LWC3 }
        else if op == 0x38 { Opcode::SWC0 }
        else if op == 0x39 { Opcode::SWC1 }
        else if op == 0x3A { Opcode::SWC2 }
        else if op == 0x3B { Opcode::SWC3 }
        else { Opcode::UNKNOWN }
}

fn decode_special_exec(instruction: &Instruction) -> (r: Opcode)
    ensures r == decode_special(instruction.0),
{
    match instruction.function() {
        0x00 => {
            if instruction.rd() == 0 && instruction.rt() == 0 && instruction.shift_amount() == 0 {
                Opcode::NOP
            } else {
                Opcode::SLL
            }
        },
            0x02 => Opcode::SRL,
            0x03 => Opcode::SRA,
            0x04 => Opcode::SLLV,
            0x06 => Opcode::SRLV,
            0x07 => Opcode::SRAV,
            0x08 => Opcode::JR,
            0x09 => Opcode::JALR,
            0x0C => Opcode::SYSCALL,
            0x0D => Opcode::BREAK,
            0x10 => Opcode::MFHI,
            0x11 => Opcode::MTHI,
            0x12 => Opcode::MFLO,
            0x13 => Opcode::MTLO,
            0x18 => Opcode::MULT,
            0x19 => Opcode::MULTU,
            0x1A => Opcode::DIV,
            0x1B => Opcode::DIVU,
            0x20 => Opcode::ADD,
            0x21 => Opcode::ADDU,
            0x22 => Opcode::SUB,
            0x23 => Opcode::SUBU,
            0x24 => Opcode::AND,
            0x25 => Opcode::OR,
            0x26 => Opcode::XOR,
            0x27 => Opcode::NOR,
            0x2A => Opcode::SLT,
            0x2B => Opcode::SLTU,
            _ => Opcode::UNKNOWN,
    }
}

fn decode_bcondz_exec(instruction: &Instruction) -> (r: Opcode)
    ensures r == decode_bcondz(instruction.0),
{
    let rt = instruction.rt();
    match rt {
        0x00 => Opcode::BLTZ,
        0x01 => Opcode::BGEZ,
        0x10 => Opcode::BLTZAL,
        0x11 => Opcode::BGEZAL,
        _ => {
            let rt32 = rt as u32;
            if (rt32 & 1u32) == 0 {
                Opcode::BLTZ
            } else if ((rt32 >> 1u32) & 7u32) != 0 {
                Opcode::BGEZ
            } else {
                Opcode::UNKNOWN
            }
        },
    }
}

fn decode_cop_exec(instruction: &Instruction) -> (r: Opcode)
    ensures r == decode_cop(instruction.0),
{
    match instruction.rs() {
        0x00 => Opcode::MFCn,
        0x02 => Opcode::CFCn,
        0x04 => Opcode::MTCn,
        0x06 => Opcode::CTCn,
        0x08 => {
            match instruction.rt() {
                0x00 => Opcode::BCnF,
                0x01 => Opcode::BCnT,
                _ => Opcode::UNKNOWN,
            }
        },
        _ => {
            let cop_n = instruction.op() & 0xFu32;
            if cop_n == 0 && instruction.rs() == 0x10 {
                match instruction.function() {
                    0x01 => Opcode::TLBR,
                    0x02 => Opcode::TLBWI,
                    0x06 => Opcode::TLBWR,
                    0x08 => Opcode::TLBP,
                    0x10 => Opcode::RFE,
                    _ => Opcode::COPn,
                }
            } else {
                Opcode::COPn
            }
        },
    }
}

impl Opcode {
    /// Loads from memory.
    pub fn is_read_memory(&self) -> (r: bool)
        ensures r == (*self == Opcode::LB || *self == Opcode::LH || *self == Opcode::LWL || *self == Opcode::LW
            || *self == Opcode::LBU || *self == Opcode::LHU || *self == Opcode::LWR),
    {
        match self {
            Opcode::LB | Opcode::LH | Opcode::LWL | Opcode::LW | Opcode::LBU | Opcode::LHU | Opcode::LWR => true,
            _ => false,
        }
    }

    /// Stores to memory.
    pub fn is_write_memory(&self) -> (r: bool)
        ensures r == (*self == Opcode::SB || *self == Opcode::SH || *self == Opcode::SWL || *self == Opcode::SW
            || *self == Opcode::SWR),
    {
        match self {
            Opcode::SB | Opcode::SH | Opcode::SWL | Opcode::SW | Opcode::SWR => true,
            _ => false,
        }
    }

    /// Moves from or to HI/LO.
    pub fn is_accessing_hi_low(&self) -> (r: bool)
        ensures r == (*self == Opcode::MFHI || *self == Opcode::MFLO || *self == Opcode::MTHI || *self == Opcode::MTLO),
    {
        match self {
            Opcode::MFHI | Opcode::MFLO | Opcode::MTHI | Opcode::MTLO => true,
            _ => false,
        }
    }

    /// Decodes an instruction word.
    pub fn from_instruction(instruction: &Instruction) -> (r: Opcode)
        ensures r == decode(instruction.0),
    {
        let op = instruction.op();
        if op == 0x00 {
            decode_special_exec(instruction)
        } else if op == 0x01 {
            decode_bcondz_exec(instruction)
        } else if 0x10 <= op && op <= 0x13 {
            decode_cop_exec(instruction)
        } else {
            match op {
            0x02 => Opcode::J,
            0x03 => Opcode::JAL,
            0x04 => Opcode::BEQ,
            0x05 => Opcode::BNE,
            0x06 => Opcode::BLEZ,
            0x07 => Opcode::BGTZ,
            0x08 => Opcode::ADDI,
            0x09 => Opcode::ADDIU,
            0x0A => Opcode::SLTI,
            0x0B => Opcode::SLTIU,
            0x0C => Opcode::ANDI,
            0x0D => Opcode::ORI,
            0x0E => Opcode::XORI,
            0x0F => Opcode::LUI,
            0x20 => Opcode::LB,
            0x21 => Opcode::LH,
            0x22 => Opcode::LWL,
            0x23 => Opcode::LW,
            0x24 => Opcode::LBU,
            0x25 => Opcode::LHU,
            0x26 => Opcode::LWR,
            0x28 => Opcode::SB,
            0x29 => Opcode::SH,
            0x2A => Opcode::SWL,
            0x2B => Opcode::SW,
            0x2E => Opcode::SWR,
            0x30 => Opcode::LWC0,
            0x31 => Opcode::LWC1,
            0x32 => Opcode::LWC2,
            0x33 => Opcode::LWC3,
            0x38 => Opcode::SWC0,
            0x39 => Opcode::SWC1,
            0x3A => Opcode::SWC2,
            0x3B => Opcode::SWC3,
            _ => Opcode::UNKNOWN,
            }
        }
    }
}

} // verus!
