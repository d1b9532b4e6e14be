use vstd::prelude::*;
use crate::cpu::{CopResult, Coprocessor, CpuException, exception_code};

verus! {

/// Value of the processor id register.
pub const PRID_VALUE: u32 = 1;

/// Register numbers of the system control coprocessor.
pub enum Cop0Reg {
    BPC,
    BDA,
    DCIC,
    BadVAddr,
    BDAM,
    BPCM,
    SR,
    CAUSE,
    EPC,
}

impl Cop0Reg {
    /// The register number.
    pub fn index(&self) -> (r: usize)
        ensures
            r == cop0_reg_index(*self),
    {
        match self {
            Cop0Reg::BPC => 3,
            Cop0Reg::BDA => 5,
            Cop0Reg::DCIC => 7,
            Cop0Reg::BadVAddr => 8,
            Cop0Reg::BDAM => 9,
            Cop0Reg::BPCM => 11,
            Cop0Reg::SR => 12,
            Cop0Reg::CAUSE => 13,
            Cop0Reg::EPC => 14,
        }
    }
}

pub open spec fn cop0_reg_index(r: Cop0Reg) -> usize {
    match r {
        Cop0Reg::BPC => 3,
        Cop0Reg::BDA => 5,
        Cop0Reg::DCIC => 7,
        Cop0Reg::BadVAddr => 8,
        Cop0Reg::BDAM => 9,
        Cop0Reg::BPCM => 11,
        Cop0Reg::SR => 12,
        Cop0Reg::CAUSE => 13,
        Cop0Reg::EPC => 14,
    }
}


/// The system control coprocessor: status, cause, exception return and breakpoint registers.
pub struct Cop0 {
    pub regs: [u32; 32],
    /// An interrupt enabled by the last SR write may only be taken after the next opcode.
    pub pending_int_on_next_opcode: bool,
}

/// SR after the exception pushes "kernel mode, interrupts disabled" on the 3-level mode stack.
pub open spec fn sr_push(sr: u32) -> u32 {
    (sr & !0x3Fu32) | (((sr & 0x3Fu32) << 2u32) & 0x3Fu32)
}

/// SR after RFE pops the 3-level mode stack.
pub open spec fn sr_pop(sr: u32) -> u32 {
    (sr & !0xFu32) | (((sr & 0x3Fu32) >> 2u32) & 0xFu32)
}

/// CAUSE after an exception (interrupt-pending bits 8..15 kept).
pub open spec fn cause_after(cause: u32, e: CpuException, bd: bool, taken: bool, opcode: u32) -> u32 {
    let c1 = (cause & 0xFF00u32) | ((exception_code(e) as u32) << 2u32);
    let c2 = if bd { (c1 | ((taken as u32) << 30u32)) | (1u32 << 31u32) } else { c1 };
    c2 | (((opcode >> 26u32) & 3u32) << 28u32)
}

/// The exception handler address: the BEV vector (or the debug vector for a hardware breakpoint).
pub open spec fn handler_address(sr: u32, e: CpuException) -> u32 {
    if e == CpuException::BreakPoint(0xFFFFFFFFu32) {
        0x80000040u32
    } else if sr & (1u32 << 22u32) == 0 {
        0x80000080u32
    } else {
        0xBFC00180u32
    }
}

/// The registers after an exception is taken.
pub open spec fn exception_regs(regs: Seq<u32>, pc: u32, e: CpuException, bd: bool, taken: bool, target: u32, opcode: u32) -> Seq<u32> {
    let r1 = regs.update(12, sr_push(regs[12]));
    let r2 = r1.update(14, if bd { pc.wrapping_sub(4) } else { pc });
    let r3 = r2.update(13, cause_after(regs[13], e, bd, taken, opcode));
    let r4 = if bd { r3.update(6, if taken { target } else { pc.wrapping_add(4) }) } else { r3 };
    match e {
        CpuException::AddressErrorLoad(a) => r4.update(8, a),
        CpuException::AddressErrorStore(a) => r4.update(8, a),
        _ => r4,
    }
}

/// The value SR takes when software writes `value` (bits 6-7, 23-24 and 26-27 are always zero).
pub open spec fn written_sr(value: u32) -> u32 {
    value & !0xD8000C0u32
}

/// The registers after software writes `value` to register `index`:
/// JUMPDEST, BadVAddr, EPC and PRID are read-only, only bits 8-9 of CAUSE are writable.
pub open spec fn write_regs(regs: Seq<u32>, index: int, value: u32) -> Seq<u32> {
    if index == 6 || index == 8 || index == 14 || index == 15 {
        regs
    } else if index == 12 {
        regs.update(12, written_sr(value))
    } else if index == 13 {
        regs.update(13, (regs[13] & 0xFFFFFCFFu32) | (value & 0x300u32))
    } else {
        regs.update(index, value)
    }
}

impl Cop0 {
    /// A coprocessor in its reset state.
    pub fn new() -> (r: Cop0)
        ensures
            r.regs@ == Seq::new(32, |i: int| 0u32).update(12, 1u32 << 22u32).update(15, PRID_VALUE),
            !r.pending_int_on_next_opcode,
    {
        let mut cop0 = Cop0 { regs: [0u32; 32], pending_int_on_next_opcode: false };
        proof { assert(cop0.regs@ =~= Seq::new(32, |i: int| 0u32)); }
        cop0.reset();
        cop0
    }

    pub fn get_regs(&self) -> (r: &[u32; 32])
        ensures
            r@ == self.regs@,
    {
        &self.regs
    }

    /// Reset: BEV set (everything else in SR cleared), PRID restored, no pending interrupt.
    pub fn reset(&mut self)
        ensures
            final(self).regs@ == old(self).regs@.update(12, 1u32 << 22u32).update(15, PRID_VALUE),
            !final(self).pending_int_on_next_opcode,
    {
        self.regs.set(12, 1u32 << 22u32);
        self.regs.set(15, PRID_VALUE);
        self.pending_int_on_next_opcode = false;
    }

    /// Kernel mode: SR.KUc clear.
    pub fn is_in_kernel_mode(&self) -> (r: bool)
        ensures
            r == (self.regs@[12] & 2u32 == 0),
    {
        (self.regs[12] & 2u32) == 0
    }

    /// SR.Isc set: loads and stores go to the data cache only.
    pub fn is_cache_isolated(&self) -> (r: bool)
        ensures
            r == (self.regs@[12] & (1u32 << 16u32) != 0),
    {
        (self.regs[12] & (1u32 << 16u32)) != 0
    }

    /// An execute breakpoint is armed (DCIC DE bit 23 and PCE bit 24) and `pc` matches BPC under
    /// the BPCM mask.
    pub fn is_at_pc_breakpoint(&self, pc: u32) -> (r: bool)
        ensures
            r == ((self.regs@[7] & 0x0180_0000u32) == 0x0180_0000u32 && ((pc ^ self.regs@[3]) & self.regs@[11]) == 0),
    {
        let dcic = self.regs[7];
        let bpc = self.regs[3];
        let bpcm = self.regs[11];
        (dcic & 0x0180_0000u32) == 0x0180_0000u32 && ((pc ^ bpc) & bpcm) == 0
    }

    /// A data breakpoint is armed (DCIC DE bit 23 and DAE bit 25), `address` matches BDA under
    /// the BDAM mask, and the access kind is enabled (DR bit 26 for reads, DW bit 27 for writes).
    pub fn is_at_rw_breakpoint(&self, address: u32, is_read: bool) -> (r: bool)
        ensures
            r == ((self.regs@[7] & 0x0280_0000u32) == 0x0280_0000u32 && ((address ^ self.regs@[5]) & self.regs@[9]) == 0
                && ((is_read && (self.regs@[7] & (1u32 << 26u32)) != 0) || (!is_read && (self.regs@[7] & (1u32 << 27u32)) != 0))),
    {
        let dcic = self.regs[7];
        let dba = self.regs[5];
        let bdam = self.regs[9];
        let rw_cond = (is_read && (dcic & (1u32 << 26u32)) != 0) || (!is_read && (dcic & (1u32 << 27u32)) != 0);
        (dcic & 0x0280_0000u32) == 0x0280_0000u32 && ((address ^ dba) & bdam) == 0 && rw_cond
    }

    /// Takes an exception: updates SR, EPC, CAUSE (and JUMPDEST, BadVAddr) and returns the handler address.
    pub fn do_exception(&mut self, pc: u32, exception: CpuException, is_branch_delay_slot: bool, branch_taken: bool,
        branch_target_address: u32, opcode: u32) -> (r: u32)
        requires
            !(exception is ReadWriteWait),
        ensures
            final(self).regs@ == exception_regs(old(self).regs@, pc, exception, is_branch_delay_slot, branch_taken,
                branch_target_address, opcode),
            final(self).pending_int_on_next_opcode == old(self).pending_int_on_next_opcode,
            r == handler_address(final(self).regs@[12], exception),
    {
        let sr = self.regs[12];
        let stack = sr & 0x3Fu32;
        self.regs.set(12, (sr & !0x3Fu32) | ((stack << 2u32) & 0x3Fu32));
        let pc_to_save = if is_branch_delay_slot { pc.wrapping_sub(4) } else { pc };
        self.regs.set(14, pc_to_save);
        let mut cause = (self.regs[13] & 0xFF00u32) | ((exception.id() as u32) << 2u32);
        if is_branch_delay_slot {
            cause = cause | ((branch_taken as u32) << 30u32);
            cause = cause | (1u32 << 31u32);
            let jump_dest = if branch_taken { branch_target_address } else { pc.wrapping_add(4) };
            self.regs.set(6, jump_dest);
        }
        let cop_num = (opcode >> 26u32) & 3u32;
        cause = cause | (cop_num << 28u32);
        self.regs.set(13, cause);
        let mut handler_address = if (self.regs[12] & (1u32 << 22u32)) == 0 { 0x80000080u32 } else { 0xBFC00180u32 };
        match exception {
            CpuException::AddressErrorLoad(address) | CpuException::AddressErrorStore(address) => {
                self.regs.set(8, address);
            },
            CpuException::BreakPoint(code) => {
                if code == 0xFFFFFFFFu32 {
                    handler_address = 0x80000040u32;
                }
            },
            _ => {},
        }
        proof {
            assert(exception_code(exception) <= 32);
            assert(self.regs@ =~= exception_regs(old(self).regs@, pc, exception, is_branch_delay_slot, branch_taken,
                branch_target_address, opcode));
        }
        handler_address
    }

    /// Raises the hardware interrupt line (CAUSE bit 10).
    pub fn set_hw_interrupt(&mut self)
        ensures
            final(self).regs@ == old(self).regs@.update(13, old(self).regs@[13] | (1u32 << 10u32)),
            final(self).pending_int_on_next_opcode == old(self).pending_int_on_next_opcode,
    {
        let c = self.regs[13];
        self.regs.set(13, c | (1u32 << 10u32));
    }

    /// Lowers the hardware interrupt line (CAUSE bit 10).
    pub fn clear_hw_interrupt(&mut self)
        ensures
            final(self).regs@ == old(self).regs@.update(13, old(self).regs@[13] & !(1u32 << 10u32)),
            final(self).pending_int_on_next_opcode == old(self).pending_int_on_next_opcode,
    {
        let c = self.regs[13];
        self.regs.set(13, c & !(1u32 << 10u32));
    }

    /// True when an interrupt must be taken now: interrupts enabled, a pending line unmasked, and no
    /// delay requested by the last SR write. The delay request is consumed.
    pub fn check_interrupt_pending(&mut self) -> (r: bool)
        ensures
            r == (!old(self).pending_int_on_next_opcode && (old(self).regs@[12] & 1u32) == 1u32
                && (((old(self).regs@[12] >> 8u32) as u8) & ((old(self).regs@[13] >> 8u32) as u8)) != 0u8),
            final(self).regs@ == old(self).regs@,
            !final(self).pending_int_on_next_opcode,
            *final(self) == (Cop0 { pending_int_on_next_opcode: false, ..*old(self) }),
    {
        let sr = self.regs[12];
        let im = (sr >> 8u32) as u8;
        let ip = (self.regs[13] >> 8u32) as u8;
        let pending_int = !self.pending_int_on_next_opcode && (sr & 1u32) == 1u32 && (im & ip) != 0u8;
        self.pending_int_on_next_opcode = false;
        pending_int
    }

    /// RFE: pops the mode stack.
    pub fn cmd_rfe(&mut self)
        ensures
            final(self).regs@ == old(self).regs@.update(12, sr_pop(old(self).regs@[12])),
            final(self).pending_int_on_next_opcode == old(self).pending_int_on_next_opcode,
    {
        let sr = self.regs[12];
        let stack = sr & 0x3Fu32;
        self.regs.set(12, (sr & !0xFu32) | ((stack >> 2u32) & 0xFu32));
    }

    /// Coprocessor `COP_INDEX` may be used: COP0 always in kernel mode, otherwise when its CU bit is set.
    pub fn is_accessible<const COP_INDEX: usize>(&self) -> (r: bool)
        requires
            COP_INDEX <= 3,
        ensures
            COP_INDEX == 0 ==> r == ((self.regs@[12] & 2u32) == 0 || (self.regs@[12] & (1u32 << (28 + COP_INDEX) as u32)) != 0),
            COP_INDEX != 0 ==> r == ((self.regs@[12] & (1u32 << (28 + COP_INDEX) as u32)) != 0),
    {
        let sr = self.regs[12];
        let bit = 1u32 << (28 + COP_INDEX) as u32;
        if COP_INDEX == 0 {
            (sr & 2u32) == 0 || (sr & bit) != 0
        } else {
            (sr & bit) != 0
        }
    }

    /// The CU bit of coprocessor `cop_index`.
    pub fn is_cop_enabled(&self, cop_index: usize) -> (r: bool)
        requires
            cop_index <= 3,
        ensures
            r == ((self.regs@[12] & (1u32 << (28 + cop_index) as u32)) != 0),
    {
        let sr = self.regs[12];
        (sr & (1u32 << (28 + cop_index) as u32)) != 0
    }
}

impl Coprocessor for Cop0 {
    fn get_name(&self) -> &'static str {
        "COP0"
    }

    fn read_data_register(&self, reg_index: usize) -> (r: CopResult)
        ensures
            r == CopResult(self.regs@[reg_index as int], 0),
    {
        CopResult(self.regs[reg_index], 0)
    }

    fn write_data_register(&mut self, reg_index: usize, value: u32) -> (r: CopResult)
        ensures
            final(self).regs@ == write_regs(old(self).regs@, reg_index as int, value),
            final(self).pending_int_on_next_opcode == (old(self).pending_int_on_next_opcode
                || (reg_index == 12 && (old(self).regs@[12] & 1u32) == 0 && (value & 1u32) == 1u32)),
            r == CopResult(0, 0),
    {
        if reg_index == 6 || reg_index == 8 || reg_index == 14 || reg_index == 15 {
            // read-only
        } else if reg_index == 12 {
            let sr = self.regs[12];
            if (sr & 1u32) == 0 && (value & 1u32) == 1u32 {
                self.pending_int_on_next_opcode = true;
            }
            self.regs.set(12, value & !0xD8000C0u32);
        } else if reg_index == 13 {
            let c = self.regs[13];
            self.regs.set(13, (c & 0xFFFFFCFFu32) | (value & 0x300u32));
        } else {
            self.regs.set(reg_index, value);
        }
        CopResult(0, 0)
    }

    fn read_control_register(&self, reg_index: usize) -> (r: CopResult)
        ensures
            r == CopResult(0, 0),
    {
        CopResult(0, 0)
    }

    fn write_control_register(&mut self, reg_index: usize, value: u32) -> (r: CopResult)
        ensures
            final(self).regs@ == old(self).regs@,
            final(self).pending_int_on_next_opcode == old(self).pending_int_on_next_opcode,
            r == CopResult(0, 0),
    {
        CopResult(0, 0)
    }

    fn execute_command(&mut self, cmd: u32) -> (r: CopResult)
        ensures
            (cmd & 0x3Fu32) == 0x10u32 ==> final(self).regs@ == old(self).regs@.update(12, sr_pop(old(self).regs@[12])),
            (cmd & 0x3Fu32) != 0x10u32 ==> final(self).regs@ == old(self).regs@,
            final(self).pending_int_on_next_opcode == old(self).pending_int_on_next_opcode,
            r == CopResult(0, 0),
    {
        if (cmd & 0x3Fu32) == 0x10u32 {
            self.cmd_rfe();
        }
        CopResult(0, 0)
    }
}

} // verus!
