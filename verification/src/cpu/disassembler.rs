use vstd::prelude::*;
use crate::cpu::instruction::{Instruction, Opcode, decode, rs_of, rt_of, rd_of, sa_of, op_of};
use crate::text::{append_str, append_padded, hex_upper, hex_padded, hex_digits, dec_digits, dec_string, trim, trim_spec,
    pad_right, push_char, ascii_lower};

verus! {

/// A disassembled instruction: its address, opcode, operand text and the full listing line.
#[derive(Debug)]
pub struct Disassembled {
    pub address: u32,
    pub opcode: Opcode,
    pub parameters: String,
    pub formatted: String,
}

/// Registers are shown by their conventional names rather than their numbers.
pub const USE_REGISTER_ALIASES: bool = true;

/// Conventional name of general register `i`.
pub open spec fn register_name(i: int) -> Seq<char> {
    if i == 0 { "$zero"@ }
    else if i == 1 { "$at"@ }
    else if i == 2 { "$v0"@ }
    else if i == 3 { "$v1"@ }
    else if i == 4 { "$a0"@ }
    else if i == 5 { "$a1"@ }
    else if i == 6 { "$a2"@ }
    else if i == 7 { "$a3"@ }
    else if i == 8 { "$t0"@ }
    else if i == 9 { "$t1"@ }
    else if i == 10 { "$t2"@ }
    else if i == 11 { "$t3"@ }
    else if i == 12 { "$t4"@ }
    else if i == 13 { "$t5"@ }
    else if i == 14 { "$t6"@ }
    else if i == 15 { "$t7"@ }
    else if i == 16 { "$s0"@ }
    else if i == 17 { "$s1"@ }
    else if i == 18 { "$s2"@ }
    else if i == 19 { "$s3"@ }
    else if i == 20 { "$s4"@ }
    else if i == 21 { "$s5"@ }
    else if i == 22 { "$s6"@ }
    else if i == 23 { "$s7"@ }
    else if i == 24 { "$t8"@ }
    else if i == 25 { "$t9"@ }
    else if i == 26 { "$k0"@ }
    else if i == 27 { "$k1"@ }
    else if i == 28 { "$gp"@ }
    else if i == 29 { "$sp"@ }
    else if i == 30 { "$fp"@ }
    else { "$ra"@ }
}

/// Conventional name of general register `i`.
fn register_name_str(i: usize) -> (r: &'static str)
    requires
        i < 32,
    ensures
        r@ == register_name(i as int),
{
    match i {
        0 => "$zero",
        1 => "$at",
        2 => "$v0",
        3 => "$v1",
        4 => "$a0",
        5 => "$a1",
        6 => "$a2",
        7 => "$a3",
        8 => "$t0",
        9 => "$t1",
        10 => "$t2",
        11 => "$t3",
        12 => "$t4",
        13 => "$t5",
        14 => "$t6",
        15 => "$t7",
        16 => "$s0",
        17 => "$s1",
        18 => "$s2",
        19 => "$s3",
        20 => "$s4",
        21 => "$s5",
        22 => "$s6",
        23 => "$s7",
        24 => "$t8",
        25 => "$t9",
        26 => "$k0",
        27 => "$k1",
        28 => "$gp",
        29 => "$sp",
        30 => "$fp",
        _ => "$ra",
    }
}

/// Name of system control register `i`.
pub open spec fn cop0_register_name(i: int) -> Seq<char> {
    if i == 0 { "$cop0_r0"@ }
    else if i == 1 { "$cop0_r1"@ }
    else if i == 2 { "$cop0_r2"@ }
    else if i == 3 { "$cop0_bpc"@ }
    else if i == 4 { "$cop0_r4"@ }
    else if i == 5 { "$cop0_bda"@ }
    else if i == 6 { "$cop0_jumpdest"@ }
    else if i == 7 { "$cop0_dcic"@ }
    else if i == 8 { "$cop0_badvaddr"@ }
    else if i == 9 { "$cop0_bdam"@ }
    else if i == 10 { "$cop0_r10"@ }
    else if i == 11 { "$cop0_bpcm"@ }
    else if i == 12 { "$cop0_sr"@ }
    else if i == 13 { "$cop0_cause"@ }
    else if i == 14 { "$cop0_epc"@ }
    else if i == 15 { "$cop0_prid"@ }
    else if i == 16 { "$cop0_r16"@ }
    else if i == 17 { "$cop0_r17"@ }
    else if i == 18 { "$cop0_r18"@ }
    else if i == 19 { "$cop0_r19"@ }
    else if i == 20 { "$cop0_r20"@ }
    else if i == 21 { "$cop0_r21"@ }
    else if i == 22 { "$cop0_r22"@ }
    else if i == 23 { "$cop0_r23"@ }
    else if i == 24 { "$cop0_r24"@ }
    else if i == 25 { "$cop0_r25"@ }
    else if i == 26 { "$cop0_r26"@ }
    else if i == 27 { "$cop0_r27"@ }
    else if i == 28 { "$cop0_r28"@ }
    else if i == 29 { "$cop0_r29"@ }
    else if i == 30 { "$cop0_r30"@ }
    else { "$cop0_r31"@ }
}

/// Name of system control register `i`.
fn cop0_register_name_str(i: usize) -> (r: &'static str)
    requires
        i < 32,
    ensures
        r@ == cop0_register_name(i as int),
{
    match i {
        0 => "$cop0_r0",
        1 => "$cop0_r1",
        2 => "$cop0_r2",
        3 => "$cop0_bpc",
        4 => "$cop0_r4",
        5 => "$cop0_bda",
        6 => "$cop0_jumpdest",
        7 => "$cop0_dcic",
        8 => "$cop0_badvaddr",
        9 => "$cop0_bdam",
        10 => "$cop0_r10",
        11 => "$cop0_bpcm",
        12 => "$cop0_sr",
        13 => "$cop0_cause",
        14 => "$cop0_epc",
        15 => "$cop0_prid",
        16 => "$cop0_r16",
        17 => "$cop0_r17",
        18 => "$cop0_r18",
        19 => "$cop0_r19",
        20 => "$cop0_r20",
        21 => "$cop0_r21",
        22 => "$cop0_r22",
        23 => "$cop0_r23",
        24 => "$cop0_r24",
        25 => "$cop0_r25",
        26 => "$cop0_r26",
        27 => "$cop0_r27",
        28 => "$cop0_r28",
        29 => "$cop0_r29",
        30 => "$cop0_r30",
        _ => "$cop0_r31",
    }
}

/// Name of GTE data register `i`.
pub open spec fn cop2_data_register_name(i: int) -> Seq<char> {
    if i == 0 { "$cop2_vxy0"@ }
    else if i == 1 { "$cop2_vz0"@ }
    else if i == 2 { "$cop2_vxy1"@ }
    else if i == 3 { "$cop2_vz1"@ }
    else if i == 4 { "$cop2_vxy2"@ }
    else if i == 5 { "$cop2_vz2"@ }
    else if i == 6 { "$cop2_rgb"@ }
    else if i == 7 { "$cop2_otz"@ }
    else if i == 8 { "$cop2_ir0"@ }
    else if i == 9 { "$cop2_ir1"@ }
    else if i == 10 { "$cop2_ir2"@ }
    else if i == 11 { "$cop2_ir3"@ }
    else if i == 12 { "$cop2_sxy0"@ }
    else if i == 13 { "$cop2_sxy1"@ }
    else if i == 14 { "$cop2_sxy2"@ }
    else if i == 15 { "$cop2_sxyp"@ }
    else if i == 16 { "$cop2_sz0"@ }
    else if i == 17 { "$cop2_sz1"@ }
    else if i == 18 { "$cop2_sz2"@ }
    else if i == 19 { "$cop2_sz3"@ }
    else if i == 20 { "$cop2_rgb0"@ }
    else if i == 21 { "$cop2_rgb1"@ }
    else if i == 22 { "$cop2_rgb2"@ }
    else if i == 23 { "$cop2_res1"@ }
    else if i == 24 { "$cop2_mac0"@ }
    else if i == 25 { "$cop2_mac1"@ }
    else if i == 26 { "$cop2_mac2"@ }
    else if i == 27 { "$cop2_mac3"@ }
    else if i == 28 { "$cop2_irgb"@ }
    else if i == 29 { "$cop2_orgb"@ }
    else if i == 30 { "$cop2_lzcs"@ }
    else { "$cop2_lzcr"@ }
}

/// Name of GTE data register `i`.
fn cop2_data_register_name_str(i: usize) -> (r: &'static str)
    requires
        i < 32,
    ensures
        r@ == cop2_data_register_name(i as int),
{
    match i {
        0 => "$cop2_vxy0",
        1 => "$cop2_vz0",
        2 => "$cop2_vxy1",
        3 => "$cop2_vz1",
        4 => "$cop2_vxy2",
        5 => "$cop2_vz2",
        6 => "$cop2_rgb",
        7 => "$cop2_otz",
        8 => "$cop2_ir0",
        9 => "$cop2_ir1",
        10 => "$cop2_ir2",
        11 => "$cop2_ir3",
        12 => "$cop2_sxy0",
        13 => "$cop2_sxy1",
        14 => "$cop2_sxy2",
        15 => "$cop2_sxyp",
        16 => "$cop2_sz0",
        17 => "$cop2_sz1",
        18 => "$cop2_sz2",
        19 => "$cop2_sz3",
        20 => "$cop2_rgb0",
        21 => "$cop2_rgb1",
        22 => "$cop2_rgb2",
        23 => "$cop2_res1",
        24 => "$cop2_mac0",
        25 => "$cop2_mac1",
        26 => "$cop2_mac2",
        27 => "$cop2_mac3",
        28 => "$cop2_irgb",
        29 => "$cop2_orgb",
        30 => "$cop2_lzcs",
        _ => "$cop2_lzcr",
    }
}

/// Name of GTE control register `i`.
pub open spec fn cop2_control_register_name(i: int) -> Seq<char> {
    if i == 0 { "$cop2_r11r12"@ }
    else if i == 1 { "$cop2_r13r21"@ }
    else if i == 2 { "$cop2_r22r23"@ }
    else if i == 3 { "$cop2_r31r32"@ }
    else if i == 4 { "$cop2_r33"@ }
    else if i == 5 { "$cop2_trx"@ }
    else if i == 6 { "$cop2_try"@ }
    else if i == 7 { "$cop2_trz"@ }
    else if i == 8 { "$cop2_l11l12"@ }
    else if i == 9 { "$cop2_l13l21"@ }
    else if i == 10 { "$cop2_l22l23"@ }
    else if i == 11 { "$cop2_l31l32"@ }
    else if i == 12 { "$cop2_l33"@ }
    else if i == 13 { "$cop2_rbk"@ }
    else if i == 14 { "$cop2_bbk"@ }
    else if i == 15 { "$cop2_gbk"@ }
    else if i == 16 { "$cop2_lr1lr2"@ }
    else if i == 17 { "$cop2_lr3lg1"@ }
    else if i == 18 { "$cop2_lg2lg3"@ }
    else if i == 19 { "$cop2_lb1lb2"@ }
    else if i == 20 { "$cop2_lb3"@ }
    else if i == 21 { "$cop2_rfc"@ }
    else if i == 22 { "$cop2_gfc"@ }
    else if i == 23 { "$cop2_bfc"@ }
    else if i == 24 { "$cop2_ofx"@ }
    else if i == 25 { "$cop2_ofy"@ }
    else if i == 26 { "$cop2_h"@ }
    else if i == 27 { "$cop2_dqa"@ }
    else if i == 28 { "$cop2_dqb"@ }
    else if i == 29 { "$cop2_zsf3"@ }
    else if i == 30 { "$cop2_zsf4"@ }
    else { "$cop2_flag"@ }
}

/// Name of GTE control register `i`.
fn cop2_control_register_name_str(i: usize) -> (r: &'static str)
    requires
        i < 32,
    ensures
        r@ == cop2_control_register_name(i as int),
{
    match i {
        0 => "$cop2_r11r12",
        1 => "$cop2_r13r21",
        2 => "$cop2_r22r23",
        3 => "$cop2_r31r32",
        4 => "$cop2_r33",
        5 => "$cop2_trx",
        6 => "$cop2_try",
        7 => "$cop2_trz",
        8 => "$cop2_l11l12",
        9 => "$cop2_l13l21",
        10 => "$cop2_l22l23",
        11 => "$cop2_l31l32",
        12 => "$cop2_l33",
        13 => "$cop2_rbk",
        14 => "$cop2_bbk",
        15 => "$cop2_gbk",
        16 => "$cop2_lr1lr2",
        17 => "$cop2_lr3lg1",
        18 => "$cop2_lg2lg3",
        19 => "$cop2_lb1lb2",
        20 => "$cop2_lb3",
        21 => "$cop2_rfc",
        22 => "$cop2_gfc",
        23 => "$cop2_bfc",
        24 => "$cop2_ofx",
        25 => "$cop2_ofy",
        26 => "$cop2_h",
        27 => "$cop2_dqa",
        28 => "$cop2_dqb",
        29 => "$cop2_zsf3",
        30 => "$cop2_zsf4",
        _ => "$cop2_flag",
    }
}

/// The lower-case name of an opcode.
pub open spec fn opcode_name(o: Opcode) -> Seq<char> {
    match o {
        Opcode::NOP => "nop"@,
        Opcode::SLL => "sll"@,
        Opcode::SRL => "srl"@,
        Opcode::SRA => "sra"@,
        Opcode::SLLV => "sllv"@,
        Opcode::SRLV => "srlv"@,
        Opcode::SRAV => "srav"@,
        Opcode::JR => "jr"@,
        Opcode::JALR => "jalr"@,
        Opcode::SYSCALL => "syscall"@,
        Opcode::BREAK => "break"@,
        Opcode::MFHI => "mfhi"@,
        Opcode::MTHI => "mthi"@,
        Opcode::MFLO => "mflo"@,
        Opcode::MTLO => "mtlo"@,
        Opcode::MULT => "mult"@,
        Opcode::MULTU => "multu"@,
        Opcode::DIV => "div"@,
        Opcode::DIVU => "divu"@,
        Opcode::ADD => "add"@,
        Opcode::ADDU => "addu"@,
        Opcode::SUB => "sub"@,
        Opcode::SUBU => "subu"@,
        Opcode::AND => "and"@,
        Opcode::OR => "or"@,
        Opcode::XOR => "xor"@,
        Opcode::NOR => "nor"@,
        Opcode::SLT => "slt"@,
        Opcode::SLTU => "sltu"@,
        Opcode::BLTZ => "bltz"@,
        Opcode::BGEZ => "bgez"@,
        Opcode::BLTZAL => "bltzal"@,
        Opcode::BGEZAL => "bgezal"@,
        Opcode::J => "j"@,
        Opcode::JAL => "jal"@,
        Opcode::BEQ => "beq"@,
        Opcode::BNE => "bne"@,
        Opcode::BLEZ => "blez"@,
        Opcode::BGTZ => "bgtz"@,
        Opcode::ADDI => "addi"@,
        Opcode::ADDIU => "addiu"@,
        Opcode::SLTI => "slti"@,
        Opcode::SLTIU => "sltiu"@,
        Opcode::ANDI => "andi"@,
        Opcode::ORI => "ori"@,
        Opcode::XORI => "xori"@,
        Opcode::LUI => "lui"@,
        Opcode::MFCn => "mfcn"@,
        Opcode::CFCn => "cfcn"@,
        Opcode::MTCn => "mtcn"@,
        Opcode::CTCn => "ctcn"@,
        Opcode::BCnF => "bcnf"@,
        Opcode::BCnT => "bcnt"@,
        Opcode::TLBR => "tlbr"@,
        Opcode::TLBWI => "tlbwi"@,
        Opcode::TLBWR => "tlbwr"@,
        Opcode::TLBP => "tlbp"@,
        Opcode::RFE => "rfe"@,
        Opcode::COPn => "copn"@,
        Opcode::LB => "lb"@,
        Opcode::LH => "lh"@,
        Opcode::LWL => "lwl"@,
        Opcode::LW => "lw"@,
        Opcode::LBU => "lbu"@,
        Opcode::LHU => "lhu"@,
        Opcode::LWR => "lwr"@,
        Opcode::SB => "sb"@,
        Opcode::SH => "sh"@,
        Opcode::SWL => "swl"@,
        Opcode::SW => "sw"@,
        Opcode::SWR => "swr"@,
        Opcode::LWC0 => "lwc0"@,
        Opcode::LWC1 => "lwc1"@,
        Opcode::LWC2 => "lwc2"@,
        Opcode::LWC3 => "lwc3"@,
        Opcode::SWC0 => "swc0"@,
        Opcode::SWC1 => "swc1"@,
        Opcode::SWC2 => "swc2"@,
        Opcode::SWC3 => "swc3"@,
        Opcode::UNKNOWN => "unknown"@,
    }
}

/// The lower-case name of an opcode.
pub fn opcode_name_str(o: Opcode) -> (r: &'static str)
    ensures
        r@ == opcode_name(o),
{
    match o {
        Opcode::NOP => "nop",
        Opcode::SLL => "sll",
        Opcode::SRL => "srl",
        Opcode::SRA => "sra",
        Opcode::SLLV => "sllv",
        Opcode::SRLV => "srlv",
        Opcode::SRAV => "srav",
        Opcode::JR => "jr",
        Opcode::JALR => "jalr",
        Opcode::SYSCALL => "syscall",
        Opcode::BREAK => "break",
        Opcode::MFHI => "mfhi",
        Opcode::MTHI => "mthi",
        Opcode::MFLO => "mflo",
        Opcode::MTLO => "mtlo",
        Opcode::MULT => "mult",
        Opcode::MULTU => "multu",
        Opcode::DIV => "div",
        Opcode::DIVU => "divu",
        Opcode::ADD => "add",
        Opcode::ADDU => "addu",
        Opcode::SUB => "sub",
        Opcode::SUBU => "subu",
        Opcode::AND => "and",
        Opcode::OR => "or",
        Opcode::XOR => "xor",
        Opcode::NOR => "nor",
        Opcode::SLT => "slt",
        Opcode::SLTU => "sltu",
        Opcode::BLTZ => "bltz",
        Opcode::BGEZ => "bgez",
        Opcode::BLTZAL => "bltzal",
        Opcode::BGEZAL => "bgezal",
        Opcode::J => "j",
        Opcode::JAL => "jal",
        Opcode::BEQ => "beq",
        Opcode::BNE => "bne",
        Opcode::BLEZ => "blez",
        Opcode::BGTZ => "bgtz",
        Opcode::ADDI => "addi",
        Opcode::ADDIU => "addiu",
        Opcode::SLTI => "slti",
        Opcode::SLTIU => "sltiu",
        Opcode::ANDI => "andi",
        Opcode::ORI => "ori",
        Opcode::XORI => "xori",
        Opcode::LUI => "lui",
        Opcode::MFCn => "mfcn",
        Opcode::CFCn => "cfcn",
        Opcode::MTCn => "mtcn",
        Opcode::CTCn => "ctcn",
        Opcode::BCnF => "bcnf",
        Opcode::BCnT => "bcnt",
        Opcode::TLBR => "tlbr",
        Opcode::TLBWI => "tlbwi",
        Opcode::TLBWR => "tlbwr",
        Opcode::TLBP => "tlbp",
        Opcode::RFE => "rfe",
        Opcode::COPn => "copn",
        Opcode::LB => "lb",
        Opcode::LH => "lh",
        Opcode::LWL => "lwl",
        Opcode::LW => "lw",
        Opcode::LBU => "lbu",
        Opcode::LHU => "lhu",
        Opcode::LWR => "lwr",
        Opcode::SB => "sb",
        Opcode::SH => "sh",
        Opcode::SWL => "swl",
        Opcode::SW => "sw",
        Opcode::SWR => "swr",
        Opcode::LWC0 => "lwc0",
        Opcode::LWC1 => "lwc1",
        Opcode::LWC2 => "lwc2",
        Opcode::LWC3 => "lwc3",
        Opcode::SWC0 => "swc0",
        Opcode::SWC1 => "swc1",
        Opcode::SWC2 => "swc2",
        Opcode::SWC3 => "swc3",
        Opcode::UNKNOWN => "unknown",
    }
}

/// The text of general register `i`.
pub open spec fn reg_text(i: int) -> Seq<char> {
    if USE_REGISTER_ALIASES { register_name(i) } else { seq!['$'] + dec_digits(i as nat) }
}

/// The text of register `reg` of coprocessor `cop`.
pub open spec fn cop_reg_text(cop: int, reg: int, data: bool) -> Seq<char> {
    if USE_REGISTER_ALIASES && cop == 0 {
        cop0_register_name(reg)
    } else if USE_REGISTER_ALIASES && cop == 2 {
        if data { cop2_data_register_name(reg) } else { cop2_control_register_name(reg) }
    } else {
        "$cop_r"@ + dec_digits(reg as nat)
    }
}

/// The text of a general register.
pub fn register_alias(reg_index: usize) -> (r: String)
    requires
        reg_index < 32,
    ensures
        r@ == reg_text(reg_index as int),
{
    if USE_REGISTER_ALIASES {
        register_name_str(reg_index).to_owned()
    } else {
        let mut s = "$".to_owned();
        let d = dec_string(reg_index);
        append_str(&mut s, d.as_str());
        s
    }
}

/// The text of a coprocessor register.
pub fn cop_register_alias(cop_index: usize, reg_index: usize, data: bool) -> (r: String)
    requires
        reg_index < 32,
    ensures
        r@ == cop_reg_text(cop_index as int, reg_index as int, data),
{
    if USE_REGISTER_ALIASES {
        if cop_index == 0 {
            return cop0_register_name_str(reg_index).to_owned();
        } else if cop_index == 2 {
            if data {
                return cop2_data_register_name_str(reg_index).to_owned();
            } else {
                return cop2_control_register_name_str(reg_index).to_owned();
            }
        }
    }
    let mut s = "$cop_r".to_owned();
    let d = dec_string(reg_index);
    append_str(&mut s, d.as_str());
    s
}

/// A 16-bit immediate shown signed: `-` and the magnitude for negative values, 4 hex digits each.
pub open spec fn hex16_signed_spec(v: u32) -> Seq<char> {
    let iv = v as i16;
    if iv < 0 { seq!['-'] + hex_padded((-iv) as u16 as nat, 4) } else { hex_padded(iv as u16 as nat, 4) }
}

/// A 16-bit immediate shown signed.
pub fn hex16_signed(v: u32) -> (r: String)
    ensures
        r@ == hex16_signed_spec(v),
{
    let iv = v as i16;
    if iv < 0 {
        let m = (-(iv as i32)) as u16;
        let mut s = String::new();
        push_char(&mut s, '-');
        let h = hex_upper(m as u32, 4);
        append_str(&mut s, h.as_str());
        s
    } else {
        hex_upper(iv as u16 as u32, 4)
    }
}


/// Target of a relative branch at `pc`: the delay slot address plus the offset times four (wrapping).
pub open spec fn branch_target(pc: u32, w: u32) -> u32 {
    vstd::wrapping::u32_specs::wrapping_add(vstd::wrapping::u32_specs::wrapping_add(pc, 4),
        (((w & 0xFFFFu32) as i16) as u32) << 2u32)
}

/// Target of an absolute jump at `pc`.
pub open spec fn jump_target(pc: u32, w: u32) -> u32 {
    (pc & 0xF000_0000u32) | ((w & 0x3FF_FFFFu32) << 2u32)
}

pub open spec fn simm(w: u32) -> u32 {
    ((w & 0xFFFFu32) as i16) as u32
}

pub open spec fn fmt_rr(a: int, b: int) -> Seq<char> {
    reg_text(a) + ", "@ + reg_text(b)
}

pub open spec fn fmt_rrr(a: int, b: int, c: int) -> Seq<char> {
    reg_text(a) + ", "@ + reg_text(b) + ", "@ + reg_text(c)
}

/// `first,offset(base)` of a load or store.
pub open spec fn fmt_mem(first: Seq<char>, w: u32) -> Seq<char> {
    first + ","@ + hex16_signed_spec(simm(w)) + "("@ + reg_text(rs_of(w) as int) + ")"@
}

/// The operand text of the instruction `w` at `pc`.
pub open spec fn parameters_spec(pc: u32, w: u32) -> Seq<char> {
    let rs = rs_of(w) as int;
    let rt = rt_of(w) as int;
    let rd = rd_of(w) as int;
    let sa = sa_of(w) as nat;
    let cop = (op_of(w) & 0xFu32) as int;
    match decode(w) {
        Opcode::SLL => fmt_rr(rd, rt) + ", "@ + hex_padded(sa, 0),
        Opcode::SRL | Opcode::SRA => fmt_rr(rd, rt) + ", 0x"@ + hex_padded(sa, 0),
        Opcode::SLLV | Opcode::SRLV | Opcode::SRAV => fmt_rrr(rd, rt, rs),
        Opcode::JR | Opcode::MTHI | Opcode::MTLO => reg_text(rs),
        Opcode::JALR => if rd == 31 { reg_text(rs) } else { fmt_rr(rd, rs) },
        Opcode::SYSCALL | Opcode::BREAK => "0x"@ + hex_padded(((w >> 6u32) & 0xF_FFFFu32) as nat, 0),
        Opcode::MFHI | Opcode::MFLO => reg_text(rd),
        Opcode::MULT | Opcode::MULTU | Opcode::DIV | Opcode::DIVU => fmt_rr(rs, rt),
        Opcode::ADDU | Opcode::OR => if rt == 0 { fmt_rr(rd, rs) } else { fmt_rrr(rd, rs, rt) },
        Opcode::ADD | Opcode::SUB | Opcode::SUBU | Opcode::AND | Opcode::XOR | Opcode::NOR | Opcode::SLT
            | Opcode::SLTU => fmt_rrr(rd, rs, rt),
        Opcode::BLTZ | Opcode::BGEZ | Opcode::BLTZAL | Opcode::BGEZAL =>
            reg_text(rs) + ", 0x"@ + hex_padded(branch_target(pc, w) as nat, 8),
        Opcode::J | Opcode::JAL => "0x"@ + hex_padded(jump_target(pc, w) as nat, 8),
        Opcode::BEQ | Opcode::BNE => if rt == 0 {
            reg_text(rs) + ", "@ + hex_padded(branch_target(pc, w) as nat, 8)
        } else {
            fmt_rr(rs, rt) + ", "@ + hex_padded(branch_target(pc, w) as nat, 8)
        },
        Opcode::BLEZ | Opcode::BGTZ => reg_text(rs) + ", "@ + hex_padded(branch_target(pc, w) as nat, 8),
        Opcode::ADDI | Opcode::ADDIU | Opcode::SLTI | Opcode::SLTIU => fmt_rr(rt, rs) + ", "@ + hex16_signed_spec(simm(w)),
        Opcode::ANDI | Opcode::ORI | Opcode::XORI => fmt_rr(rt, rs) + ", "@ + hex_padded((w & 0xFFFFu32) as nat, 4),
        Opcode::LUI => reg_text(rt) + ", "@ + hex_padded((w & 0xFFFFu32) as nat, 4),
        Opcode::MFCn | Opcode::MTCn => reg_text(rt) + ", "@ + cop_reg_text(cop, rd, true),
        Opcode::CFCn | Opcode::CTCn => reg_text(rt) + ", "@ + cop_reg_text(cop, rd, false),
        Opcode::COPn => hex_padded((w & 0x1FF_FFFFu32) as nat, 3),
        Opcode::BCnF | Opcode::BCnT => hex_padded((w & 0xFFFFu32) as nat, 4),
        Opcode::LB | Opcode::LH | Opcode::LWL | Opcode::LW | Opcode::LBU | Opcode::LHU | Opcode::LWR
            | Opcode::SB | Opcode::SH | Opcode::SWL | Opcode::SW | Opcode::SWR => fmt_mem(reg_text(rt), w),
        Opcode::LWC0 | Opcode::LWC1 | Opcode::LWC2 | Opcode::LWC3 | Opcode::SWC0 | Opcode::SWC1 | Opcode::SWC2
            | Opcode::SWC3 => fmt_mem(cop_reg_text(cop, rt, false), w),
        _ => Seq::empty(),
    }
}

/// The mnemonic shown instead of the opcode name, if any.
pub open spec fn alias_spec(w: u32) -> Option<Seq<char>> {
    let rt = rt_of(w) as int;
    let n = dec_digits((op_of(w) & 0xFu32) as nat);
    match decode(w) {
        Opcode::ADDU | Opcode::OR => if rt == 0 { Some("move"@) } else { None },
        Opcode::BEQ => if rt == 0 { Some("beqz"@) } else { None },
        Opcode::BNE => if rt == 0 { Some("bnez"@) } else { None },
        Opcode::MFCn => Some("mfc"@ + n),
        Opcode::CFCn => Some("cfc"@ + n),
        Opcode::MTCn => Some("mtc"@ + n),
        Opcode::CTCn => Some("ctc"@ + n),
        Opcode::COPn => Some("cop"@ + n),
        Opcode::UNKNOWN => Some("???"@),
        _ => None,
    }
}

pub open spec fn lower(s: Seq<char>) -> Seq<char> {
    s.map_values(|c: char| ascii_lower(c))
}

/// The mnemonic of the instruction `w`.
pub open spec fn mnemonic_spec(w: u32) -> Seq<char> {
    match alias_spec(w) {
        Some(a) => lower(a),
        None => opcode_name(decode(w)),
    }
}

/// The listing line: address, instruction word, mnemonic padded to 7 characters, operands.
pub open spec fn listing_spec(pc: u32, w: u32) -> Seq<char> {
    hex_padded(pc as nat, 8) + " "@ + hex_padded(w as nat, 8) + " "@
        + (pad_right(mnemonic_spec(w), 7) + trim_spec(parameters_spec(pc, w)))
}

fn lower_ascii(s: &str) -> (r: String)
    ensures
        r@ == lower(s@),
{
    let v = crate::text::chars_of(s);
    let mut r = String::new();
    let mut i: usize = 0;
    while i < v.len()
        invariant
            i <= v.len(),
            v@ == s@,
            r@ == lower(v@.take(i as int)),
        decreases v.len() - i,
    {
        let c = v[i];
        let l = if 'A' <= c && c <= 'Z' { ((c as u32) + 32) as u8 as char } else { c };
        push_char(&mut r, l);
        proof {
            assert(lower(v@.take((i + 1) as int)) =~= lower(v@.take(i as int)).push(ascii_lower(c)));
        }
        i += 1;
    }
    proof { assert(v@.take(v.len() as int) =~= v@); }
    r
}

fn two_regs(a: usize, b: usize) -> (r: String)
    requires a < 32, b < 32,
    ensures r@ == fmt_rr(a as int, b as int),
{
    let mut s = register_alias(a);
    append_str(&mut s, ", ");
    let t = register_alias(b);
    append_str(&mut s, t.as_str());
    s
}

fn three_regs(a: usize, b: usize, c: usize) -> (r: String)
    requires a < 32, b < 32, c < 32,
    ensures r@ == fmt_rrr(a as int, b as int, c as int),
{
    let mut s = two_regs(a, b);
    append_str(&mut s, ", ");
    let t = register_alias(c);
    append_str(&mut s, t.as_str());
    s
}

fn mem_operand(first: String, instr: &Instruction) -> (r: String)
    ensures r@ == fmt_mem(first@, instr.0),
{
    let mut s = first;
    append_str(&mut s, ",");
    let h = hex16_signed(instr.signed_immediate16());
    append_str(&mut s, h.as_str());
    append_str(&mut s, "(");
    let b = register_alias(instr.rs());
    append_str(&mut s, b.as_str());
    append_str(&mut s, ")");
    s
}

/// `prefix` followed by `tail`.
fn cat(prefix: &str, tail: &str) -> (r: String)
    ensures r@ == prefix@ + tail@,
{
    let mut s = prefix.to_owned();
    append_str(&mut s, tail);
    s
}

/// Disassembles the instruction `instruction` located at `pc`.
pub fn disassemble(pc: u32, instruction: u32) -> (r: Disassembled)
    ensures
        r.address == pc,
        r.opcode == decode(instruction),
        r.parameters@ == parameters_spec(pc, instruction),
        r.formatted@ == listing_spec(pc, instruction),
{
    let instr = Instruction(instruction);
    let opcode = Opcode::from_instruction(&instr);
    let op = instr.op();
    let rs = instr.rs();
    let rd = instr.rd();
    let rt = instr.rt();
    let sa = instr.shift_amount();
    let cop = (op & 0xFu32) as usize;
    let copn = dec_string(cop);
    let target = pc.wrapping_add(4).wrapping_add(instr.signed_immediate16() << 2u32);
    let mut alias: Option<String> = None;
    let parameters: String = match opcode {
        Opcode::SLL => {
            let mut s = two_regs(rd, rt);
            append_str(&mut s, ", ");
            let h = hex_upper(sa, 0);
            append_str(&mut s, h.as_str());
            s
        },
        Opcode::SRL | Opcode::SRA => {
            let mut s = two_regs(rd, rt);
            append_str(&mut s, ", 0x");
            let h = hex_upper(sa, 0);
            append_str(&mut s, h.as_str());
            s
        },
        Opcode::SLLV | Opcode::SRLV | Opcode::SRAV => three_regs(rd, rt, rs),
        Opcode::JR | Opcode::MTHI | Opcode::MTLO => register_alias(rs),
        Opcode::JALR => if rd == 31 { register_alias(rs) } else { two_regs(rd, rs) },
        Opcode::SYSCALL | Opcode::BREAK => {
            let h = hex_upper(instr.imm20(), 0);
            cat("0x", h.as_str())
        },
        Opcode::MFHI | Opcode::MFLO => register_alias(rd),
        Opcode::MULT | Opcode::MULTU | Opcode::DIV | Opcode::DIVU => two_regs(rs, rt),
        Opcode::ADDU | Opcode::OR => {
            if rt == 0 {
                alias = Some("move".to_owned());
                two_regs(rd, rs)
            } else {
                three_regs(rd, rs, rt)
            }
        },
        Opcode::ADD | Opcode::SUB | Opcode::SUBU | Opcode::AND | Opcode::XOR | Opcode::NOR | Opcode::SLT
            | Opcode::SLTU => three_regs(rd, rs, rt),
        Opcode::BLTZ | Opcode::BGEZ | Opcode::BLTZAL | Opcode::BGEZAL => {
            let mut s = register_alias(rs);
            append_str(&mut s, ", 0x");
            let h = hex_upper(target, 8);
            append_str(&mut s, h.as_str());
            s
        },
        Opcode::J | Opcode::JAL => {
            let h = hex_upper((pc & 0xF000_0000u32) | (instr.imm26() << 2u32), 8);
            cat("0x", h.as_str())
        },
        Opcode::BEQ | Opcode::BNE => {
            let mut s = if rt == 0 {
                alias = Some(if let Opcode::BEQ = opcode { "beqz".to_owned() } else { "bnez".to_owned() });
                register_alias(rs)
            } else {
                two_regs(rs, rt)
            };
            append_str(&mut s, ", ");
            let h = hex_upper(target, 8);
            append_str(&mut s, h.as_str());
            s
        },
        Opcode::BLEZ | Opcode::BGTZ => {
            let mut s = register_alias(rs);
            append_str(&mut s, ", ");
            let h = hex_upper(target, 8);
            append_str(&mut s, h.as_str());
            s
        },
        Opcode::ADDI | Opcode::ADDIU | Opcode::SLTI | Opcode::SLTIU => {
            let mut s = two_regs(rt, rs);
            append_str(&mut s, ", ");
            let h = hex16_signed(instr.signed_immediate16());
            append_str(&mut s, h.as_str());
            s
        },
        Opcode::ANDI | Opcode::ORI | Opcode::XORI => {
            let mut s = two_regs(rt, rs);
            append_str(&mut s, ", ");
            let h = hex_upper(instr.unsigned_immediate16(), 4);
            append_str(&mut s, h.as_str());
            s
        },
        Opcode::LUI => {
            let mut s = register_alias(rt);
            append_str(&mut s, ", ");
            let h = hex_upper(instr.unsigned_immediate16(), 4);
            append_str(&mut s, h.as_str());
            s
        },
        Opcode::MFCn | Opcode::MTCn | Opcode::CFCn | Opcode::CTCn => {
            let data = match opcode { Opcode::MFCn | Opcode::MTCn => true, _ => false };
            let name = match opcode { Opcode::MFCn => "mfc", Opcode::MTCn => "mtc", Opcode::CFCn => "cfc", _ => "ctc" };
            alias = Some(cat(name, copn.as_str()));
            let mut s = register_alias(rt);
            append_str(&mut s, ", ");
            let c = cop_register_alias(cop, rd, data);
            append_str(&mut s, c.as_str());
            s
        },
        Opcode::COPn => {
            alias = Some(cat("cop", copn.as_str()));
            hex_upper(instr.imm25(), 3)
        },
        Opcode::BCnF | Opcode::BCnT => hex_upper(instr.unsigned_immediate16(), 4),
        Opcode::LB | Opcode::LH | Opcode::LWL | Opcode::LW | Opcode::LBU | Opcode::LHU | Opcode::LWR
            | Opcode::SB | Opcode::SH | Opcode::SWL | Opcode::SW | Opcode::SWR => mem_operand(register_alias(rt), &instr),
        Opcode::LWC0 | Opcode::LWC1 | Opcode::LWC2 | Opcode::LWC3 | Opcode::SWC0 | Opcode::SWC1 | Opcode::SWC2
            | Opcode::SWC3 => mem_operand(cop_register_alias(cop, rt, false), &instr),
        Opcode::UNKNOWN => {
            alias = Some("???".to_owned());
            String::new()
        },
        _ => String::new(),
    };
    proof {
        assert(alias matches Some(a) ==> alias_spec(instruction) == Some(a@));
        assert(alias is None ==> alias_spec(instruction) is None);
    }
    let opcode_string = match alias {
        Some(a) => lower_ascii(a.as_str()),
        None => opcode_name_str(opcode).to_owned(),
    };
    let mut formatted = String::new();
    append_padded(&mut formatted, opcode_string.as_str(), 7);
    let t = trim(parameters.as_str());
    append_str(&mut formatted, t.as_str());
    let mut dump = hex_upper(pc, 8);
    append_str(&mut dump, " ");
    let hw = hex_upper(instruction, 8);
    append_str(&mut dump, hw.as_str());
    append_str(&mut dump, " ");
    append_str(&mut dump, formatted.as_str());
    proof {
        assert(formatted@ =~= pad_right(mnemonic_spec(instruction), 7) + trim_spec(parameters_spec(pc, instruction)));
    }
    Disassembled { address: pc, opcode, parameters, formatted: dump }
}


/// The operand of a disassembled J or JAL is the address the CPU jumps to.
pub proof fn lemma_jump_operand(pc: u32, w: u32)
    requires
        decode(w) == Opcode::J || decode(w) == Opcode::JAL,
    ensures
        parameters_spec(pc, w) == "0x"@ + hex_padded(crate::cpu::processor::jump_target(pc, w) as nat, 8),
        crate::cpu::processor::jump_target(pc, w) as int == (pc as int / 0x1000_0000) * 0x1000_0000 + (w as int % 0x400_0000) * 4,
{
    crate::cpu::processor::lemma_jump_target(pc, w);
}


/// The target shown for a conditional branch is the address the CPU branches to.
pub proof fn lemma_branch_operand(pc: u32, w: u32)
    requires
        decode(w) == Opcode::BEQ || decode(w) == Opcode::BNE || decode(w) == Opcode::BLEZ || decode(w) == Opcode::BGTZ
            || decode(w) == Opcode::BLTZ || decode(w) == Opcode::BGEZ || decode(w) == Opcode::BLTZAL || decode(w) == Opcode::BGEZAL,
    ensures
        exists|operands: Seq<char>| parameters_spec(pc, w)
            == operands + hex_padded(crate::cpu::processor::branch_target(pc, w) as nat, 8),
        crate::cpu::processor::branch_target(pc, w) as int
            == (pc as int + 4 + 4 * crate::cpu::processor::imm_value(w)) % 0x1_0000_0000,
{
    crate::cpu::processor::lemma_branch_target(pc, w);
    assert(branch_target(pc, w) == crate::cpu::processor::branch_target(pc, w));
    let rs = rs_of(w) as int;
    let rt = rt_of(w) as int;
    let t = hex_padded(crate::cpu::processor::branch_target(pc, w) as nat, 8);
    let d = decode(w);
    if d == Opcode::BLTZ || d == Opcode::BGEZ || d == Opcode::BLTZAL || d == Opcode::BGEZAL {
        assert(parameters_spec(pc, w) == (reg_text(rs) + ", 0x"@) + t);
    } else if d == Opcode::BEQ || d == Opcode::BNE {
        if rt == 0 {
            assert(parameters_spec(pc, w) == (reg_text(rs) + ", "@) + t);
        } else {
            assert(parameters_spec(pc, w) == (fmt_rr(rs, rt) + ", "@) + t);
        }
    } else {
        assert(parameters_spec(pc, w) == (reg_text(rs) + ", "@) + t);
    }
}

} // verus!
