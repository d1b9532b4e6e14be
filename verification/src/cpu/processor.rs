use vstd::prelude::*;
use crate::cpu::{CpuException, CopResult, Coprocessor, ICache, ICacheResult, WriteQueue, RESET_ADDRESS, icache_read_outcome,
    ICACHE_LINE_CYCLES, line_index, line_tag, word_offset, line_fill, entry_covers};
use crate::text::{push_char, char_from_u32, lemma_char_of_code};
use crate::cpu::cop0::{Cop0, exception_regs, handler_address, write_regs, sr_pop};
use crate::cpu::cop2::{Cop2, GTE_REG_WRITE_CYCLES, read_data_spec, read_control_spec, write_data_spec, write_control_spec,
    fix_flags, run_spec, setup_spec, command_penalty_spec};
use crate::cpu::instruction::{Instruction, Opcode, decode};
use crate::memory::{Memory, ReadMemoryAccess, WriteMemoryAccess, MemorySection, MemorySegment, get_memory_seg,
    get_memory_section, seg_of, section_of};

verus! {

/// Average cycles of a multiplication.
pub const MUL_AVERAGE_CYCLES: usize = 9;
/// Cycles of a division.
pub const DIV_CYCLES: usize = 36;
/// Cycles the write queue takes to store one entry.
pub const QUEUE_WRITE_MEM_CYCLES: usize = 4;
/// BREAK code recorded for a hardware breakpoint.
pub const HW_BREAKPOINT_VALUE: u32 = 0xFFFF_FFFF;

/// The R3000A core: registers, pipeline state, instruction cache, write queue and the GTE.
pub struct Cpu {
    pub cop2: Cop2,
    pub i_cache: ICache,
    pub write_queue: WriteQueue,
    pub pc: u32,
    pub regs: [u32; 32],
    pub hi: u32,
    pub lo: u32,
    /// Load waiting for its delay slot to end (register, value).
    pub delayed_load: (usize, u32),
    /// Load issued by the current instruction.
    pub delayed_load_next: (usize, u32),
    pub branch_address: u32,
    pub branch_taken: bool,
    pub in_branch_delay_slot: bool,
    pub mul_div_pending_cycles: usize,
    pub op_cycles: usize,
    pub write_queue_elapsed: usize,
    pub bios_tty_capture_enabled: bool,
    /// The BIOS console line being written.
    pub bios_tty_buffer: String,
    /// BIOS console lines completed since they were last taken.
    pub bios_tty_lines: Vec<String>,
    pub last_mem_read_address: Option<u32>,
    pub last_mem_write_address: Option<u32>,
    pub last_mem_rw_value: u32,
    pub last_opcode: u32,
    pub cop2_remaining_cycles: usize,
}

/// Fields outside the register file, HI/LO and the pending loads are equal.
pub open spec fn same_machine(a: Cpu, b: Cpu) -> bool {
    &&& b.cop2 == a.cop2
    &&& b.i_cache == a.i_cache
    &&& b.write_queue == a.write_queue
    &&& b.pc == a.pc
    &&& b.branch_address == a.branch_address
    &&& b.branch_taken == a.branch_taken
    &&& b.in_branch_delay_slot == a.in_branch_delay_slot
    &&& b.mul_div_pending_cycles == a.mul_div_pending_cycles
    &&& b.op_cycles == a.op_cycles
    &&& b.write_queue_elapsed == a.write_queue_elapsed
    &&& b.bios_tty_capture_enabled == a.bios_tty_capture_enabled
    &&& b.bios_tty_buffer == a.bios_tty_buffer
    &&& b.bios_tty_lines == a.bios_tty_lines
    &&& b.last_mem_read_address == a.last_mem_read_address
    &&& b.last_mem_write_address == a.last_mem_write_address
    &&& b.last_mem_rw_value == a.last_mem_rw_value
    &&& b.last_opcode == a.last_opcode
    &&& b.cop2_remaining_cycles == a.cop2_remaining_cycles
}

/// `b` is `a` after register `reg` is written with `value`: register 0 stays zero and a pending
/// load into the same register is cancelled.
pub open spec fn wrote_reg(a: Cpu, b: Cpu, reg: int, value: u32) -> bool {
    &&& b.regs@ == a.regs@.update(reg, value).update(0, 0u32)
    &&& b.delayed_load == (if a.delayed_load.0 == reg { (0usize, 0u32) } else { a.delayed_load })
    &&& b.delayed_load_next == a.delayed_load_next
    &&& b.hi == a.hi
    &&& b.lo == a.lo
    &&& same_machine(a, b)
}

/// `b` is `a` after a load into `reg` is issued: it lands after the next instruction, and a pending
/// load into the same register is cancelled.
pub open spec fn issued_load(a: Cpu, b: Cpu, reg: int, value: u32) -> bool {
    &&& b.delayed_load_next == (reg as usize, value)
    &&& b.delayed_load == (if a.delayed_load.0 == reg { (0usize, 0u32) } else { a.delayed_load })
    &&& b.regs == a.regs
    &&& b.hi == a.hi
    &&& b.lo == a.lo
}

/// Sign extension of the low byte.
pub open spec fn sext8(v: u32) -> u32 {
    ((v as u8) as i8) as i32 as u32
}

/// Sign extension of the low half-word.
pub open spec fn sext16(v: u32) -> u32 {
    ((v as u16) as i16) as i32 as u32
}

/// Zero-extended immediate (bits 0..15).
pub open spec fn uimm(i: u32) -> u32 {
    i & 0xFFFF
}

/// Sign-extended immediate (bits 0..15).
pub open spec fn simm(i: u32) -> u32 {
    ((i & 0xFFFFu32) as i16) as u32
}

/// Register-field values of an instruction word.
pub open spec fn rs_idx(i: u32) -> int { ((i >> 21u32) & 0x1Fu32) as int }
pub open spec fn rt_idx(i: u32) -> int { ((i >> 16u32) & 0x1Fu32) as int }
pub open spec fn rd_idx(i: u32) -> int { ((i >> 11u32) & 0x1Fu32) as int }
pub open spec fn sa_of(i: u32) -> u32 { (i >> 6u32) & 0x1Fu32 }

/// Result of a register-to-register or immediate operation (no trap).
pub open spec fn alu_value(op: Opcode, rs: u32, rt: u32, i: u32) -> u32 {
    match op {
        Opcode::AND => rs & rt,
        Opcode::OR => rs | rt,
        Opcode::XOR => rs ^ rt,
        Opcode::NOR => !(rs | rt),
        Opcode::ANDI => rs & uimm(i),
        Opcode::ORI => rs | uimm(i),
        Opcode::XORI => rs ^ uimm(i),
        Opcode::LUI => uimm(i) << 16u32,
        Opcode::SLL => rt << sa_of(i),
        Opcode::SRL => rt >> sa_of(i),
        Opcode::SRA => ((rt as i32) >> sa_of(i)) as u32,
        Opcode::SLLV => rt << (rs & 0x1Fu32),
        Opcode::SRLV => rt >> (rs & 0x1Fu32),
        Opcode::SRAV => ((rt as i32) >> (rs & 0x1Fu32)) as u32,
        Opcode::SLT => if (rs as i32) < (rt as i32) { 1 } else { 0 },
        Opcode::SLTU => if rs < rt { 1 } else { 0 },
        Opcode::SLTI => if (rs as i32) < (simm(i) as i32) { 1 } else { 0 },
        Opcode::SLTIU => if rs < simm(i) { 1 } else { 0 },
        Opcode::ADD => ((rs as i32) + (rt as i32)) as i32 as u32,
        Opcode::SUB => ((rs as i32) - (rt as i32)) as i32 as u32,
        Opcode::ADDI => ((rs as i32) + (simm(i) as i32)) as i32 as u32,
        Opcode::ADDU => rs.wrapping_add(rt),
        Opcode::SUBU => rs.wrapping_sub(rt),
        Opcode::ADDIU => rs.wrapping_add(simm(i)),
        _ => 0,
    }
}

/// The register an operation writes: `rt` for the immediate forms, `rd` otherwise.
pub open spec fn alu_dest(op: Opcode, i: u32) -> int {
    match op {
        Opcode::ANDI | Opcode::ORI | Opcode::XORI | Opcode::LUI | Opcode::SLTI | Opcode::SLTIU
        | Opcode::ADDI | Opcode::ADDIU => rt_idx(i),
        _ => rd_idx(i),
    }
}

/// The trapping additions and subtractions overflow as signed 32-bit operations.
pub open spec fn alu_overflows(op: Opcode, rs: u32, rt: u32, i: u32) -> bool {
    match op {
        Opcode::ADD => (rs as i32) + (rt as i32) > i32::MAX || (rs as i32) + (rt as i32) < i32::MIN,
        Opcode::SUB => (rs as i32) - (rt as i32) > i32::MAX || (rs as i32) - (rt as i32) < i32::MIN,
        Opcode::ADDI => (rs as i32) + (simm(i) as i32) > i32::MAX || (rs as i32) + (simm(i) as i32) < i32::MIN,
        _ => false,
    }
}

/// The operations `alu_value` covers.
pub open spec fn is_alu(op: Opcode) -> bool {
    match op {
        Opcode::AND | Opcode::OR | Opcode::XOR | Opcode::NOR | Opcode::ANDI | Opcode::ORI | Opcode::XORI
        | Opcode::LUI | Opcode::SLL | Opcode::SRL | Opcode::SRA | Opcode::SLLV | Opcode::SRLV | Opcode::SRAV
        | Opcode::SLT | Opcode::SLTU | Opcode::SLTI | Opcode::SLTIU | Opcode::ADD | Opcode::ADDU | Opcode::SUB
        | Opcode::SUBU | Opcode::ADDI | Opcode::ADDIU => true,
        _ => false,
    }
}

/// HI and LO after a multiplication (signed or not) of two registers.
pub open spec fn mult_result(signed: bool, rs: u32, rt: u32) -> (u32, u32) {
    let p: int = if signed { (rs as i32) as int * (rt as i32) as int } else { rs as int * rt as int };
    let u: u64 = p as u64;
    ((u >> 32u64) as u32, u as u32)
}

/// Magnitude of a 32-bit two's complement value, as an unsigned number.
pub open spec fn magnitude(v: u32) -> u32 {
    if (v as i32) < 0 { 0u32.wrapping_sub(v) } else { v }
}

/// HI and LO after a division (signed or not), with the R3000A results for division by zero
/// and for the one signed overflow. Signed division truncates toward zero and the remainder
/// takes the sign of the dividend.
pub open spec fn div_result(signed: bool, rs: u32, rt: u32) -> (u32, u32) {
    if signed {
        if rt == 0 {
            (rs, if (rs as i32) >= 0 { 0xFFFF_FFFFu32 } else { 1u32 })
        } else if rs == 0x8000_0000u32 && rt == 0xFFFF_FFFFu32 {
            (0u32, 0x8000_0000u32)
        } else {
            let q = magnitude(rs) / magnitude(rt);
            let r = magnitude(rs) % magnitude(rt);
            let negative_q = ((rs as i32) < 0) != ((rt as i32) < 0);
            (if (rs as i32) < 0 { 0u32.wrapping_sub(r) } else { r }, if negative_q { 0u32.wrapping_sub(q) } else { q })
        }
    } else {
        if rt == 0 {
            (rs, 0xFFFF_FFFFu32)
        } else {
            (rs % rt, rs / rt)
        }
    }
}

/// Whether a branch's condition holds.
pub open spec fn branch_cond(op: Opcode, rs: u32, rt: u32) -> bool {
    match op {
        Opcode::BEQ => rs == rt,
        Opcode::BNE => rs != rt,
        Opcode::BLTZ | Opcode::BLTZAL => (rs as i32) < 0,
        Opcode::BGEZ | Opcode::BGEZAL => (rs as i32) >= 0,
        Opcode::BLEZ => (rs as i32) <= 0,
        Opcode::BGTZ => (rs as i32) > 0,
        _ => false,
    }
}

/// Target of a relative branch: the delay slot address plus four times the immediate.
pub open spec fn branch_target(pc: u32, i: u32) -> u32 {
    pc.wrapping_add(4).wrapping_add(simm(i) << 2u32)
}

/// Target of J and JAL: the 256 MB region of `pc` and the 26-bit index times four.
pub open spec fn jump_target(pc: u32, i: u32) -> u32 {
    (pc & 0xF000_0000u32) | ((i & 0x03FF_FFFFu32) << 2u32)
}

/// Address of a load or store: base register plus sign-extended offset.
pub open spec fn mem_address(regs: Seq<u32>, i: u32) -> u32 {
    regs[rs_idx(i)].wrapping_add(simm(i))
}

/// Register value after LWL merges the aligned word (most significant bytes).
pub open spec fn lwl_value(cur: u32, word: u32, addr: u32) -> u32 {
    let k = addr & 3u32;
    if k == 0 { (cur & 0x00ff_ffffu32) | (word << 24u32) }
    else if k == 1 { (cur & 0x0000_ffffu32) | (word << 16u32) }
    else if k == 2 { (cur & 0x0000_00ffu32) | (word << 8u32) }
    else { word }
}

/// Register value after LWR merges the aligned word (least significant bytes).
pub open spec fn lwr_value(cur: u32, word: u32, addr: u32) -> u32 {
    let k = addr & 3u32;
    if k == 0 { word }
    else if k == 1 { (cur & 0xff00_0000u32) | (word >> 8u32) }
    else if k == 2 { (cur & 0xffff_0000u32) | (word >> 16u32) }
    else { (cur & 0xffff_ff00u32) | (word >> 24u32) }
}

/// Memory word after SWL stores the most significant bytes of `v`.
pub open spec fn swl_value(mem: u32, v: u32, addr: u32) -> u32 {
    let k = addr & 3u32;
    if k == 0 { (mem & 0xffff_ff00u32) | (v >> 24u32) }
    else if k == 1 { (mem & 0xffff_0000u32) | (v >> 16u32) }
    else if k == 2 { (mem & 0xff00_0000u32) | (v >> 8u32) }
    else { v }
}

/// Memory word after SWR stores the least significant bytes of `v`.
pub open spec fn swr_value(mem: u32, v: u32, addr: u32) -> u32 {
    let k = addr & 3u32;
    if k == 0 { v }
    else if k == 1 { (mem & 0x0000_00ffu32) | (v << 8u32) }
    else if k == 2 { (mem & 0x0000_ffffu32) | (v << 16u32) }
    else { (mem & 0x00ff_ffffu32) | (v << 24u32) }
}

/// The register value an in-flight load into `reg` would leave, else the register itself.
pub open spec fn current_value(c: Cpu, reg: int) -> u32 {
    if c.delayed_load.0 == reg { c.delayed_load.1 } else { c.regs@[reg] }
}

/// The memory serves accesses of every size at every address.
pub open spec fn accepts_all<M: Memory>(m: M) -> bool {
    forall|a: u32, s: usize| (s == 8 || s == 16 || s == 32) ==> #[trigger] m.accepts(a, s)
}

/// Result of a data load by the memory's answer.
pub open spec fn load_result(r: ReadMemoryAccess, address: u32) -> Result<u32, CpuException> {
    match r {
        ReadMemoryAccess::Read(d, _) => Ok(d),
        ReadMemoryAccess::BusError => Err(CpuException::BusErrorData(address)),
        ReadMemoryAccess::MemoryError => Err(CpuException::AddressErrorLoad(address)),
        ReadMemoryAccess::Wait => Err(CpuException::ReadWriteWait),
    }
}

/// Result of a direct data store by the memory's answer.
pub open spec fn store_result(r: WriteMemoryAccess, address: u32) -> Result<(), CpuException> {
    match r {
        WriteMemoryAccess::Write(_) => Ok(()),
        WriteMemoryAccess::BusError => Err(CpuException::BusErrorData(address)),
        WriteMemoryAccess::WriteErrorReadOnly(_) => Err(CpuException::BusErrorData(address)),
        WriteMemoryAccess::MemoryError => Err(CpuException::AddressErrorStore(address)),
        WriteMemoryAccess::InvalidateICacheTag => Ok(()),
        WriteMemoryAccess::InvalidateICacheOpcode => Ok(()),
        WriteMemoryAccess::Wait => Err(CpuException::ReadWriteWait),
    }
}

/// Cycles a memory answer adds.
pub open spec fn read_cycles(r: ReadMemoryAccess) -> usize {
    match r {
        ReadMemoryAccess::Read(_, c) => c,
        _ => 0,
    }
}

pub open spec fn write_cycles(r: WriteMemoryAccess) -> usize {
    match r {
        WriteMemoryAccess::Write(c) => c,
        WriteMemoryAccess::WriteErrorReadOnly(c) => c,
        _ => 0,
    }
}

/// A data breakpoint of COP0 matches the access: DCIC debug enable (bit 23) and data address
/// breakpoint enable (bit 25) set, the address matching BDA under BDAM, reads or writes enabled.
pub open spec fn rw_breakpoint(cop0: Cop0, address: u32, is_read: bool) -> bool {
    (cop0.regs@[7] & 0x0280_0000u32) == 0x0280_0000u32 && ((address ^ cop0.regs@[5]) & cop0.regs@[9]) == 0
        && ((is_read && (cop0.regs@[7] & (1u32 << 26u32)) != 0) || (!is_read && (cop0.regs@[7] & (1u32 << 27u32)) != 0))
}

/// An execute breakpoint of COP0 matches the address: DCIC debug enable (bit 23) and program
/// counter breakpoint enable (bit 24) set, the address matching BPC under BPCM.
pub open spec fn pc_breakpoint(cop0: Cop0, pc: u32) -> bool {
    (cop0.regs@[7] & 0x0180_0000u32) == 0x0180_0000u32 && ((pc ^ cop0.regs@[3]) & cop0.regs@[11]) == 0
}

impl Cpu {
    /// Structural invariant: cache and queue well formed, pending loads name registers.
    pub open spec fn wf(&self) -> bool {
        &&& self.i_cache.wf()
        &&& self.write_queue.wf()
        &&& self.delayed_load.0 < 32
        &&& self.delayed_load_next.0 < 32
        &&& forall|k: int| 0 <= k < self.write_queue.view().len()
            ==> (#[trigger] self.write_queue.view()[k]).2 == 1 || self.write_queue.view()[k].2 == 2 || self.write_queue.view()[k].2 == 4
    }

    /// A CPU in its reset state.
    pub fn new() -> (r: Cpu)
        ensures
            r.wf(),
            r.pc == RESET_ADDRESS,
            forall|i: int| 0 <= i < 32 ==> r.regs@[i] == 0,
            r.hi == 0 && r.lo == 0,
            r.delayed_load == (0usize, 0u32) && r.delayed_load_next == (0usize, 0u32),
            !r.in_branch_delay_slot && !r.branch_taken,
            r.write_queue.view().len() == 0,
            r.cop2 == crate::cpu::cop2::initial_cop2(),
    {
        Cpu {
            cop2: Cop2::new(),
            i_cache: ICache::new(),
            write_queue: WriteQueue::new(),
            pc: RESET_ADDRESS,
            regs: [0u32; 32],
            hi: 0,
            lo: 0,
            delayed_load: (0, 0),
            delayed_load_next: (0, 0),
            branch_address: 0,
            branch_taken: false,
            in_branch_delay_slot: false,
            mul_div_pending_cycles: 0,
            op_cycles: 0,
            write_queue_elapsed: 0,
            bios_tty_capture_enabled: false,
            bios_tty_buffer: String::new(),
            bios_tty_lines: Vec::new(),
            last_mem_read_address: None,
            last_mem_write_address: None,
            last_mem_rw_value: 0,
            last_opcode: 0,
            cop2_remaining_cycles: 0,
        }
    }

    pub fn set_bios_tty_capture_enabled(&mut self, bios_tty_capture_enabled: bool)
        ensures
            *final(self) == (Cpu { bios_tty_capture_enabled, ..*old(self) }),
    {
        self.bios_tty_capture_enabled = bios_tty_capture_enabled;
    }

    pub fn get_last_elapsed_cycles(&self) -> (r: usize)
        ensures
            r == self.op_cycles,
    {
        self.op_cycles
    }

    pub fn get_pc(&self) -> (r: u32)
        ensures
            r == self.pc,
    {
        self.pc
    }

    pub fn get_last_mem_read_address(&self) -> (r: Option<u32>)
        ensures
            r == self.last_mem_read_address,
    {
        self.last_mem_read_address
    }

    pub fn get_last_mem_write_address(&self) -> (r: Option<u32>)
        ensures
            r == self.last_mem_write_address,
    {
        self.last_mem_write_address
    }

    pub fn get_last_mem_rw_value(&self) -> (r: u32)
        ensures
            r == self.last_mem_rw_value,
    {
        self.last_mem_rw_value
    }

    pub fn set_pc(&mut self, pc: u32)
        ensures
            *final(self) == (Cpu { pc, ..*old(self) }),
    {
        self.pc = pc;
    }

    pub fn get_lo(&self) -> (r: u32)
        ensures
            r == self.lo,
    {
        self.lo
    }

    pub fn get_hi(&self) -> (r: u32)
        ensures
            r == self.hi,
    {
        self.hi
    }

    pub fn get_last_opcode(&self) -> (r: u32)
        ensures
            r == self.last_opcode,
    {
        self.last_opcode
    }

    pub fn get_registers(&self) -> (r: &[u32; 32])
        ensures
            r@ == self.regs@,
    {
        &self.regs
    }

    /// Writes a general register directly (as a debugger does); register 0 is kept zero.
    pub fn set_register(&mut self, index: usize, value: u32)
        requires
            index < 32,
        ensures
            final(self).regs@ == old(self).regs@.update(index as int, value).update(0, 0u32),
            same_machine(*old(self), *final(self)),
            final(self).delayed_load == old(self).delayed_load,
            final(self).delayed_load_next == old(self).delayed_load_next,
            final(self).hi == old(self).hi && final(self).lo == old(self).lo,
    {
        self.regs.set(index, value);
        self.regs.set(0, 0);
    }

    /// The BIOS console lines completed so far; the list is emptied.
    pub fn take_bios_tty_lines(&mut self) -> (r: Vec<String>)
        ensures
            r@ == old(self).bios_tty_lines@,
            final(self).bios_tty_lines@.len() == 0,
    {
        let mut lines: Vec<String> = Vec::new();
        std::mem::swap(&mut lines, &mut self.bios_tty_lines);
        lines
    }

    /// Reset: PC to the reset vector, caches, queue and registers cleared.
    pub fn reset(&mut self)
        requires
            old(self).wf(),
        ensures
            final(self).wf(),
            final(self).pc == RESET_ADDRESS,
            forall|i: int| 0 <= i < 32 ==> final(self).regs@[i] == 0,
            final(self).hi == 0 && final(self).lo == 0,
            final(self).delayed_load == (0usize, 0u32) && final(self).delayed_load_next == (0usize, 0u32),
            final(self).write_queue.view().len() == 0,
            final(self).write_queue_elapsed == 0,
            final(self).mul_div_pending_cycles == 0,
            forall|j: int| 0 <= j < 256 ==> !(#[trigger] final(self).i_cache.lines@[j]).valid,
    {
        self.pc = RESET_ADDRESS;
        self.i_cache.reset();
        self.write_queue.reset();
        self.write_queue_elapsed = 0;
        self.mul_div_pending_cycles = 0;
        self.hi = 0;
        self.lo = 0;
        self.regs = [0u32; 32];
        self.delayed_load = (0, 0);
        self.delayed_load_next = (0, 0);
    }

    // -----------------------------------------------------------------------
    // Register file
    // -----------------------------------------------------------------------

    fn write_reg(&mut self, register: usize, value: u32)
        requires
            register < 32,
        ensures
            wrote_reg(*old(self), *final(self), register as int, value),
    {
        self.regs.set(register, value);
        let (delayed_reg, _) = self.delayed_load;
        if delayed_reg == register {
            self.delayed_load = (0, 0);
        }
        self.regs.set(0, 0);
    }

    fn write_delayed_reg(&mut self, register: usize, value: u32)
        requires
            register < 32,
        ensures
            issued_load(*old(self), *final(self), register as int, value),
            same_machine(*old(self), *final(self)),
    {
        self.delayed_load_next = (register, value);
        let (delayed_reg, _) = self.delayed_load;
        if delayed_reg == register {
            self.delayed_load = (0, 0);
        }
    }

    /// Ends a load delay: the pending load lands, register 0 is cleared, and the load issued by
    /// this instruction becomes the pending one.
    fn apply_delayed_load(&mut self)
        requires
            old(self).delayed_load.0 < 32,
        ensures
            final(self).regs@ == old(self).regs@.update(old(self).delayed_load.0 as int, old(self).delayed_load.1).update(0, 0u32),
            final(self).delayed_load == old(self).delayed_load_next,
            final(self).delayed_load_next == (0usize, 0u32),
            final(self).hi == old(self).hi && final(self).lo == old(self).lo,
            same_machine(*old(self), *final(self)),
    {
        let (delayed_reg, delayed_value) = self.delayed_load;
        self.regs.set(delayed_reg, delayed_value);
        self.regs.set(0, 0);
        self.delayed_load = self.delayed_load_next;
        self.delayed_load_next = (0, 0);
    }
}

/// `b` is `a` with a branch recorded for the delay slot.
pub open spec fn with_branch(a: Cpu, target: u32, taken: bool) -> Cpu {
    Cpu { branch_address: target, branch_taken: taken, in_branch_delay_slot: true, ..a }
}

/// What a register, immediate, branch, jump or HI/LO instruction does; `None` for the others.
pub open spec fn simple_step(op: Opcode, a: Cpu, b: Cpu, i: u32, r: Result<(), CpuException>) -> Option<bool> {
    let rs = a.regs@[rs_idx(i)];
    let rt = a.regs@[rt_idx(i)];
    if is_alu(op) {
        Some(if alu_overflows(op, rs, rt, i) {
            r == Err::<(), CpuException>(CpuException::ArithmeticOverflow) && b == a
        } else {
            r == Ok::<(), CpuException>(()) && wrote_reg(a, b, alu_dest(op, i), alu_value(op, rs, rt, i))
        })
    } else {
        match op {
            Opcode::NOP => Some(r == Ok::<(), CpuException>(()) && b == a),
            Opcode::BEQ | Opcode::BNE | Opcode::BLTZ | Opcode::BGEZ | Opcode::BLEZ | Opcode::BGTZ =>
                Some(r == Ok::<(), CpuException>(()) && b == with_branch(a, branch_target(a.pc, i), branch_cond(op, rs, rt))),
            Opcode::BLTZAL | Opcode::BGEZAL =>
                Some(r == Ok::<(), CpuException>(()) && wrote_reg(with_branch(a, branch_target(a.pc, i), branch_cond(op, rs, rt)), b, 31, a.pc.wrapping_add(8))),
            Opcode::J => Some(r == Ok::<(), CpuException>(()) && b == with_branch(a, jump_target(a.pc, i), true)),
            Opcode::JAL => Some(r == Ok::<(), CpuException>(()) && wrote_reg(with_branch(a, jump_target(a.pc, i), true), b, 31, a.pc.wrapping_add(8))),
            Opcode::JR => Some(r == Ok::<(), CpuException>(()) && b == with_branch(a, rs, true)),
            Opcode::JALR => Some(r == Ok::<(), CpuException>(()) && wrote_reg(with_branch(a, rs, true), b, rd_idx(i), a.pc.wrapping_add(8))),
            Opcode::SYSCALL => Some(r == Err::<(), CpuException>(CpuException::SysCall((i >> 6u32) & 0xF_FFFFu32)) && b == a),
            Opcode::BREAK => Some(r == Err::<(), CpuException>(CpuException::BreakPoint((i >> 6u32) & 0xF_FFFFu32)) && b == a),
            Opcode::MFHI => Some(r == Ok::<(), CpuException>(()) && wrote_reg(a, b, rd_idx(i), a.hi)),
            Opcode::MFLO => Some(r == Ok::<(), CpuException>(()) && wrote_reg(a, b, rd_idx(i), a.lo)),
            Opcode::MTHI => Some(r == Ok::<(), CpuException>(()) && b == Cpu { hi: rs, ..a }),
            Opcode::MTLO => Some(r == Ok::<(), CpuException>(()) && b == Cpu { lo: rs, ..a }),
            Opcode::MULT | Opcode::MULTU => Some(r == Ok::<(), CpuException>(()) && b == Cpu {
                hi: mult_result(op == Opcode::MULT, rs, rt).0,
                lo: mult_result(op == Opcode::MULT, rs, rt).1,
                mul_div_pending_cycles: MUL_AVERAGE_CYCLES,
                ..a
            }),
            Opcode::DIV | Opcode::DIVU => Some(r == Ok::<(), CpuException>(()) && b == Cpu {
                hi: div_result(op == Opcode::DIV, rs, rt).0,
                lo: div_result(op == Opcode::DIV, rs, rt).1,
                mul_div_pending_cycles: DIV_CYCLES,
                ..a
            }),
            _ => None,
        }
    }
}

impl Cpu {
    /// Register and immediate arithmetic, logic, shifts and comparisons.
    fn op_alu(&mut self, op: Opcode, instr: &Instruction) -> (r: Result<(), CpuException>)
        requires
            is_alu(op),
            old(self).wf(),
        ensures
            simple_step(op, *old(self), *final(self), instr.0, r) == Some(true),
    {
        let rs = self.regs[instr.rs()];
        let rt = self.regs[instr.rt()];
        let i = instr.0;
        let value: u32 = match op {
            Opcode::AND => rs & rt,
            Opcode::OR => rs | rt,
            Opcode::XOR => rs ^ rt,
            Opcode::NOR => !(rs | rt),
            Opcode::ANDI => rs & instr.unsigned_immediate16(),
            Opcode::ORI => rs | instr.unsigned_immediate16(),
            Opcode::XORI => rs ^ instr.unsigned_immediate16(),
            Opcode::LUI => instr.unsigned_immediate16() << 16u32,
            Opcode::SLL => rt << instr.shift_amount(),
            Opcode::SRL => rt >> instr.shift_amount(),
            Opcode::SRA => ((rt as i32) >> instr.shift_amount()) as u32,
            Opcode::SLLV => {
                let sh = rs & 0x1Fu32;
                assert(sh < 32) by (bit_vector) requires sh == rs & 0x1Fu32;
                rt << sh
            },
            Opcode::SRLV => {
                let sh = rs & 0x1Fu32;
                assert(sh < 32) by (bit_vector) requires sh == rs & 0x1Fu32;
                rt >> sh
            },
            Opcode::SRAV => {
                let sh = rs & 0x1Fu32;
                assert(sh < 32) by (bit_vector) requires sh == rs & 0x1Fu32;
                ((rt as i32) >> sh) as u32
            },
            Opcode::SLT => if (rs as i32) < (rt as i32) { 1 } else { 0 },
            Opcode::SLTU => if rs < rt { 1 } else { 0 },
            Opcode::SLTI => {
                let imm = instr.signed_immediate16();
                if (rs as i32) < (imm as i32) { 1 } else { 0 }
            },
            Opcode::SLTIU => {
                let imm = instr.signed_immediate16();
                if rs < imm { 1 } else { 0 }
            },
            Opcode::ADD => match (rs as i32).checked_add(rt as i32) {
                Some(sum) => sum as u32,
                None => return Err(CpuException::ArithmeticOverflow),
            },
            Opcode::SUB => match (rs as i32).checked_sub(rt as i32) {
                Some(diff) => diff as u32,
                None => return Err(CpuException::ArithmeticOverflow),
            },
            Opcode::ADDI => {
                let imm = instr.signed_immediate16();
                match (rs as i32).checked_add(imm as i32) {
                    Some(sum) => sum as u32,
                    None => return Err(CpuException::ArithmeticOverflow),
                }
            },
            Opcode::ADDU => rs.wrapping_add(rt),
            Opcode::SUBU => rs.wrapping_sub(rt),
            _ => {
                let imm = instr.signed_immediate16();
                rs.wrapping_add(imm)
            },
        };
        let dest = match op {
            Opcode::ANDI | Opcode::ORI | Opcode::XORI | Opcode::LUI | Opcode::SLTI | Opcode::SLTIU
            | Opcode::ADDI | Opcode::ADDIU => instr.rt(),
            _ => instr.rd(),
        };
        self.write_reg(dest, value);
        Ok(())
    }

    /// Conditional branches, with or without link.
    fn op_branch(&mut self, op: Opcode, instr: &Instruction) -> (r: Result<(), CpuException>)
        requires
            op == Opcode::BEQ || op == Opcode::BNE || op == Opcode::BLTZ || op == Opcode::BGEZ || op == Opcode::BLEZ
                || op == Opcode::BGTZ || op == Opcode::BLTZAL || op == Opcode::BGEZAL,
            old(self).wf(),
        ensures
            simple_step(op, *old(self), *final(self), instr.0, r) == Some(true),
    {
        let rs = self.regs[instr.rs()];
        let rt = self.regs[instr.rt()];
        let offset = instr.signed_immediate16() << 2u32;
        let base = self.pc.wrapping_add(4);
        let target = base.wrapping_add(offset);
        self.branch_address = target;
        let taken = match op {
            Opcode::BEQ => rs == rt,
            Opcode::BNE => rs != rt,
            Opcode::BLTZ | Opcode::BLTZAL => (rs as i32) < 0,
            Opcode::BGEZ | Opcode::BGEZAL => (rs as i32) >= 0,
            Opcode::BLEZ => (rs as i32) <= 0,
            _ => (rs as i32) > 0,
        };
        self.branch_taken = taken;
        self.in_branch_delay_slot = true;
        if op == Opcode::BLTZAL || op == Opcode::BGEZAL {
            let link = self.pc.wrapping_add(8);
            self.write_reg(31, link);
        }
        Ok(())
    }

    /// J, JAL, JR and JALR.
    fn op_jump(&mut self, op: Opcode, instr: &Instruction) -> (r: Result<(), CpuException>)
        requires
            op == Opcode::J || op == Opcode::JAL || op == Opcode::JR || op == Opcode::JALR,
            old(self).wf(),
        ensures
            simple_step(op, *old(self), *final(self), instr.0, r) == Some(true),
    {
        let target = if op == Opcode::J || op == Opcode::JAL {
            (self.pc & 0xF000_0000u32) | (instr.imm26() << 2u32)
        } else {
            self.regs[instr.rs()]
        };
        self.branch_address = target;
        self.in_branch_delay_slot = true;
        self.branch_taken = true;
        if op == Opcode::JAL {
            let link = self.pc.wrapping_add(8);
            self.write_reg(31, link);
        } else if op == Opcode::JALR {
            let link = self.pc.wrapping_add(8);
            self.write_reg(instr.rd(), link);
        }
        Ok(())
    }

    /// MFHI, MFLO, MTHI, MTLO, MULT, MULTU, DIV and DIVU.
    fn op_hilo(&mut self, op: Opcode, instr: &Instruction) -> (r: Result<(), CpuException>)
        requires
            op == Opcode::MFHI || op == Opcode::MFLO || op == Opcode::MTHI || op == Opcode::MTLO
                || op == Opcode::MULT || op == Opcode::MULTU || op == Opcode::DIV || op == Opcode::DIVU,
            old(self).wf(),
        ensures
            simple_step(op, *old(self), *final(self), instr.0, r) == Some(true),
    {
        let rs = self.regs[instr.rs()];
        let rt = self.regs[instr.rt()];
        match op {
            Opcode::MFHI => {
                let v = self.hi;
                self.write_reg(instr.rd(), v);
            },
            Opcode::MFLO => {
                let v = self.lo;
                self.write_reg(instr.rd(), v);
            },
            Opcode::MTHI => {
                self.hi = rs;
            },
            Opcode::MTLO => {
                self.lo = rs;
            },
            Opcode::MULT => {
                let a = (rs as i32) as i64;
                let b = (rt as i32) as i64;
                assert(-0x4000_0000_0000_0000 <= a * b <= 0x4000_0000_0000_0000) by (nonlinear_arith)
                    requires -0x8000_0000 <= a <= 0x7FFF_FFFF, -0x8000_0000 <= b <= 0x7FFF_FFFF;
                let p = a * b;
                let u = p as u64;
                self.lo = u as u32;
                self.hi = (u >> 32u64) as u32;
                self.mul_div_pending_cycles = MUL_AVERAGE_CYCLES;
            },
            Opcode::MULTU => {
                assert((rs as u64) * (rt as u64) <= 0xFFFF_FFFF * 0xFFFF_FFFF) by (nonlinear_arith)
                    requires rs <= 0xFFFF_FFFFu32, rt <= 0xFFFF_FFFFu32;
                let u: u64 = (rs as u64) * (rt as u64);
                self.lo = u as u32;
                self.hi = (u >> 32u64) as u32;
                self.mul_div_pending_cycles = MUL_AVERAGE_CYCLES;
            },
            Opcode::DIV => {
                if rt == 0 {
                    self.hi = rs;
                    self.lo = if (rs as i32) >= 0 { 0xFFFF_FFFF } else { 1 };
                } else if rs == 0x8000_0000 && rt == 0xFFFF_FFFF {
                    self.hi = 0;
                    self.lo = 0x8000_0000;
                } else {
                    let n_neg = (rs as i32) < 0;
                    let d_neg = (rt as i32) < 0;
                    let n = if n_neg { 0u32.wrapping_sub(rs) } else { rs };
                    let d = if d_neg { 0u32.wrapping_sub(rt) } else { rt };
                    let q = n / d;
                    let m = n % d;
                    self.lo = if n_neg != d_neg { 0u32.wrapping_sub(q) } else { q };
                    self.hi = if n_neg { 0u32.wrapping_sub(m) } else { m };
                }
                self.mul_div_pending_cycles = DIV_CYCLES;
            },
            _ => {
                if rt == 0 {
                    self.hi = rs;
                    self.lo = 0xFFFF_FFFF;
                } else {
                    self.lo = rs / rt;
                    self.hi = rs % rt;
                }
                self.mul_div_pending_cycles = DIV_CYCLES;
            },
        }
        Ok(())
    }
}

/// `b` is `a` after a data read at `address` that the memory answered with `rr`.
pub open spec fn after_read(a: Cpu, address: u32, rr: ReadMemoryAccess) -> Cpu {
    match rr {
        ReadMemoryAccess::Read(d, c) => Cpu {
            last_mem_read_address: Some(address),
            op_cycles: a.op_cycles.saturating_add(c),
            last_mem_rw_value: d,
            ..a
        },
        _ => Cpu { last_mem_read_address: Some(address), ..a },
    }
}

/// The instruction cache after the line of `address` is invalidated.
pub open spec fn icache_invalidated(a: ICache, b: ICache, address: u32) -> bool {
    &&& b.lines@ == a.lines@.update(crate::cpu::line_index(address),
        crate::cpu::CacheLine { valid: false, ..a.lines@[crate::cpu::line_index(address)] })
    &&& b.requests == a.requests
    &&& b.cache_miss == a.cache_miss
}

/// The instruction cache after the cached word of `address` is replaced by `opcode`.
pub open spec fn icache_opcode_written(a: ICache, b: ICache, address: u32, opcode: u32) -> bool {
    let i = crate::cpu::line_index(address);
    &&& b.lines@.len() == 256
    &&& b.lines@[i].line@ == a.lines@[i].line@.update(crate::cpu::word_offset(address), opcode)
    &&& b.lines@[i].valid == a.lines@[i].valid
    &&& b.lines@[i].tag == a.lines@[i].tag
    &&& forall|j: int| 0 <= j < 256 && j != i ==> b.lines@[j] == a.lines@[j]
    &&& b.requests == a.requests
    &&& b.cache_miss == a.cache_miss
}

/// `b` is `a` after a direct data write of `value` at `address` that the memory answered with `wr`.
pub open spec fn after_write(a: Cpu, b: Cpu, address: u32, value: u32, wr: WriteMemoryAccess) -> bool {
    let base = Cpu { last_mem_write_address: Some(address), last_mem_rw_value: value, ..a };
    match wr {
        WriteMemoryAccess::Write(c) => b == Cpu { op_cycles: base.op_cycles.saturating_add(c), ..base },
        WriteMemoryAccess::WriteErrorReadOnly(c) => b == Cpu { op_cycles: base.op_cycles.saturating_add(c), ..base },
        WriteMemoryAccess::InvalidateICacheTag => b == Cpu { i_cache: b.i_cache, ..base } && icache_invalidated(a.i_cache, b.i_cache, address),
        WriteMemoryAccess::InvalidateICacheOpcode => b == Cpu { i_cache: b.i_cache, ..base } && icache_opcode_written(a.i_cache, b.i_cache, address, value),
        _ => b == base,
    }
}

/// A data read of `size` bits at `address`: a matching data breakpoint stops it; otherwise the
/// memory answers and the CPU records the access.
pub open spec fn read_part<M: Memory>(a: Cpu, b: Cpu, ma: M, mb: M, cop0: Cop0, address: u32, size: usize, r: Result<u32, CpuException>) -> bool {
    if rw_breakpoint(cop0, address, true) {
        r == Err::<u32, CpuException>(CpuException::BreakPoint(HW_BREAKPOINT_VALUE)) && b == a && mb == ma
    } else {
        exists|rr: ReadMemoryAccess| #[trigger] ma.reads(mb, address, size, false, rr)
            && r == load_result(rr, address) && b == after_read(a, address, rr)
    }
}

/// A data write of `size` bits at `address`: a matching data breakpoint stops it; a cached
/// address queues the write; otherwise the memory answers.
pub open spec fn write_part<M: Memory>(a: Cpu, b: Cpu, ma: M, mb: M, cop0: Cop0, address: u32, size: usize, value: u32, use_write_cache: bool, r: Result<(), CpuException>) -> bool {
    if rw_breakpoint(cop0, address, false) {
        r == Err::<(), CpuException>(CpuException::BreakPoint(HW_BREAKPOINT_VALUE)) && b == a && mb == ma
    } else if use_write_cache {
        &&& r == Ok::<(), CpuException>(())
        &&& mb == ma
        &&& b.write_queue.wf()
        &&& b.write_queue.view() == (if a.write_queue.view().len() < 4 {
            a.write_queue.view().push((address, value, (size / 8) as usize))
        } else {
            a.write_queue.view()
        })
        &&& b == Cpu { write_queue: b.write_queue, last_mem_write_address: Some(address), last_mem_rw_value: value, ..a }
    } else {
        exists|wr: WriteMemoryAccess| #[trigger] ma.writes(mb, address, size, value, wr)
            && r == store_result(wr, address) && after_write(a, b, address, value, wr)
    }
}

/// Size in bits, aligned address and register value of a load, given the word the memory answered.
pub open spec fn load_size(op: Opcode) -> usize {
    match op {
        Opcode::LB | Opcode::LBU => 8,
        Opcode::LH | Opcode::LHU => 16,
        _ => 32,
    }
}

pub open spec fn load_address(op: Opcode, addr: u32) -> u32 {
    match op {
        Opcode::LWL | Opcode::LWR => addr & !3u32,
        _ => addr,
    }
}

pub open spec fn load_misaligned(op: Opcode, addr: u32) -> bool {
    match op {
        Opcode::LH | Opcode::LHU => addr & 1u32 == 1u32,
        Opcode::LW => addr & 3u32 != 0u32,
        _ => false,
    }
}

pub open spec fn load_value(op: Opcode, a: Cpu, d: u32, addr: u32, rt: int) -> u32 {
    match op {
        Opcode::LB => sext8(d),
        Opcode::LH => sext16(d),
        Opcode::LWL => lwl_value(current_value(a, rt), d, addr),
        Opcode::LWR => lwr_value(current_value(a, rt), d, addr),
        _ => d,
    }
}

/// What a load instruction does.
pub open spec fn load_step<M: Memory>(op: Opcode, a: Cpu, b: Cpu, ma: M, mb: M, cop0: Cop0, i: u32, r: Result<(), CpuException>) -> bool {
    let addr = mem_address(a.regs@, i);
    if load_misaligned(op, addr) {
        r == Err::<(), CpuException>(CpuException::AddressErrorLoad(addr)) && b == a && mb == ma
    } else {
        exists|a2: Cpu, rv: Result<u32, CpuException>|
            #[trigger] read_part(a, a2, ma, mb, cop0, load_address(op, addr), load_size(op), rv)
            && match rv {
                Ok(d) => r == Ok::<(), CpuException>(()) && issued_load(a2, b, rt_idx(i), load_value(op, a, d, addr, rt_idx(i)))
                    && same_machine(a2, b),
                Err(e) => r == Err::<(), CpuException>(e) && b == a2,
            }
    }
}

pub open spec fn is_load(op: Opcode) -> bool {
    op == Opcode::LB || op == Opcode::LBU || op == Opcode::LH || op == Opcode::LHU || op == Opcode::LW
        || op == Opcode::LWL || op == Opcode::LWR
}

pub open spec fn is_store(op: Opcode) -> bool {
    op == Opcode::SB || op == Opcode::SH || op == Opcode::SW || op == Opcode::SWL || op == Opcode::SWR
}

/// What a store instruction does.
pub open spec fn store_step<M: Memory>(op: Opcode, a: Cpu, b: Cpu, ma: M, mb: M, cop0: Cop0, i: u32, use_write_cache: bool, r: Result<(), CpuException>) -> bool {
    let addr = mem_address(a.regs@, i);
    let v = a.regs@[rt_idx(i)];
    match op {
        Opcode::SB => write_part(a, b, ma, mb, cop0, addr, 8, v & 0xFFu32, use_write_cache, r),
        Opcode::SH => if addr & 1u32 == 1u32 {
            r == Err::<(), CpuException>(CpuException::AddressErrorStore(addr)) && b == a && mb == ma
        } else {
            write_part(a, b, ma, mb, cop0, addr, 16, v & 0xFFFFu32, use_write_cache, r)
        },
        Opcode::SW => if addr & 3u32 != 0u32 {
            r == Err::<(), CpuException>(CpuException::AddressErrorStore(addr)) && b == a && mb == ma
        } else {
            write_part(a, b, ma, mb, cop0, addr, 32, v, use_write_cache, r)
        },
        _ => exists|a2: Cpu, mid: M, rv: Result<u32, CpuException>|
            #[trigger] read_part(a, a2, ma, mid, cop0, addr & !3u32, 32, rv)
            && match rv {
                Ok(d) => write_part(a2, b, mid, mb, cop0, addr & !3u32, 32,
                    if op == Opcode::SWL { swl_value(d, v, addr) } else { swr_value(d, v, addr) }, use_write_cache, r),
                Err(e) => r == Err::<(), CpuException>(e) && b == a2 && mb == mid,
            },
    }
}

/// The line of a cached address lies below 0xA0000000.
proof fn lemma_cached_line_room(address: u32)
    requires
        seg_of(address) == MemorySegment::KUSEG || seg_of(address) == MemorySegment::KUSEG0,
    ensures
        (address & !0xFu32) + 12 <= u32::MAX,
{
    assert((address >> 29u32) < 4 || (address >> 29u32) == 4 ==> (address & !0xFu32) <= 0x9FFF_FFFF) by (bit_vector);
}

/// A cached address lies below 0xA0000000, so a word at it does not run past the address space.
proof fn lemma_cached_room(address: u32)
    requires
        seg_of(address) == MemorySegment::KUSEG || seg_of(address) == MemorySegment::KUSEG0,
    ensures
        address as int + 4 <= u32::MAX,
        (address & !3u32) as int + 4 <= u32::MAX,
{
    assert((address >> 29u32) < 4 || (address >> 29u32) == 4 ==> address <= 0x9FFF_FFFF && (address & !3u32) <= 0x9FFF_FFFF) by (bit_vector);
}

impl Cpu {
    fn read_data_memory<M: Memory, const N: usize>(&mut self, memory: &mut M, cop0: &Cop0, address: u32) -> (r: Result<u32, CpuException>)
        requires
            N == 8 || N == 16 || N == 32,
            accepts_all(*old(memory)),
        ensures
            read_part(*old(self), *final(self), *old(memory), *final(memory), *cop0, address, N, r),
            forall|a: u32, s: usize| final(memory).accepts(a, s) == old(memory).accepts(a, s),
    {
        if cop0.is_at_rw_breakpoint(address, true) {
            return Err(CpuException::BreakPoint(HW_BREAKPOINT_VALUE));
        }
        self.last_mem_read_address = Some(address);
        assert(memory.accepts(address, N));
        let rr = memory.read::<N>(address, false);
        let r = match rr {
            ReadMemoryAccess::Read(data, penalty_cycles) => {
                self.op_cycles = self.op_cycles.saturating_add(penalty_cycles);
                self.last_mem_rw_value = data;
                Ok(data)
            },
            ReadMemoryAccess::BusError => Err(CpuException::BusErrorData(address)),
            ReadMemoryAccess::MemoryError => Err(CpuException::AddressErrorLoad(address)),
            ReadMemoryAccess::Wait => Err(CpuException::ReadWriteWait),
        };
        assert(old(memory).reads(*memory, address, N, false, rr));
        r
    }

    fn write_data_memory<M: Memory, const N: usize>(&mut self, memory: &mut M, cop0: &Cop0, address: u32, value: u32,
        use_write_cache: bool) -> (r: Result<(), CpuException>)
        requires
            N == 8 || N == 16 || N == 32,
            accepts_all(*old(memory)),
            old(self).wf(),
            use_write_cache ==> address as int + 4 <= u32::MAX,
        ensures
            write_part(*old(self), *final(self), *old(memory), *final(memory), *cop0, address, N, value, use_write_cache, r),
            final(self).wf(),
            forall|a: u32, s: usize| final(memory).accepts(a, s) == old(memory).accepts(a, s),
    {
        if cop0.is_at_rw_breakpoint(address, false) {
            return Err(CpuException::BreakPoint(HW_BREAKPOINT_VALUE));
        }
        self.last_mem_write_address = Some(address);
        self.last_mem_rw_value = value;
        if use_write_cache {
            let byte_size = N / 8;
            self.write_queue.enqueue(address, value, byte_size);
            Ok(())
        } else {
            assert(memory.accepts(address, N));
            let wr = memory.write::<N>(address, value);
            let r = match wr {
                WriteMemoryAccess::Write(penalty_cycles) => {
                    self.op_cycles = self.op_cycles.saturating_add(penalty_cycles);
                    Ok(())
                },
                WriteMemoryAccess::BusError => Err(CpuException::BusErrorData(address)),
                WriteMemoryAccess::WriteErrorReadOnly(penalty_cycles) => {
                    self.op_cycles = self.op_cycles.saturating_add(penalty_cycles);
                    Err(CpuException::BusErrorData(address))
                },
                WriteMemoryAccess::MemoryError => Err(CpuException::AddressErrorStore(address)),
                WriteMemoryAccess::InvalidateICacheTag => {
                    self.i_cache.invalidate_tag(address);
                    Ok(())
                },
                WriteMemoryAccess::InvalidateICacheOpcode => {
                    self.i_cache.write_opcode(address, value);
                    Ok(())
                },
                WriteMemoryAccess::Wait => Err(CpuException::ReadWriteWait),
            };
            assert(old(memory).writes(*memory, address, N, value, wr));
            r
        }
    }

    /// LB, LBU, LH, LHU, LW, LWL and LWR.
    fn op_load<M: Memory>(&mut self, op: Opcode, memory: &mut M, cop0: &Cop0, instr: &Instruction) -> (r: Result<(), CpuException>)
        requires
            is_load(op),
            accepts_all(*old(memory)),
            old(self).wf(),
        ensures
            load_step(op, *old(self), *final(self), *old(memory), *final(memory), *cop0, instr.0, r),
            final(self).wf(),
            forall|a: u32, s: usize| final(memory).accepts(a, s) == old(memory).accepts(a, s),
    {
        let ghost a0 = *self;
        let ghost m0 = *memory;
        let base = self.regs[instr.rs()];
        let addr = base.wrapping_add(instr.signed_immediate16());
        let rt = instr.rt();
        match op {
            Opcode::LH | Opcode::LHU => {
                if (addr & 1) == 1 {
                    return Err(CpuException::AddressErrorLoad(addr));
                }
            },
            Opcode::LW => {
                if (addr & 3) != 0 {
                    return Err(CpuException::AddressErrorLoad(addr));
                }
            },
            _ => {},
        }
        let (pending_reg, pending_value) = self.delayed_load;
        let cur_v = if pending_reg == rt { pending_value } else { self.regs[rt] };
        let rv = match op {
            Opcode::LB | Opcode::LBU => self.read_data_memory::<M, 8>(memory, cop0, addr),
            Opcode::LH | Opcode::LHU => self.read_data_memory::<M, 16>(memory, cop0, addr),
            Opcode::LW => self.read_data_memory::<M, 32>(memory, cop0, addr),
            _ => self.read_data_memory::<M, 32>(memory, cop0, addr & !3u32),
        };
        let ghost a2 = *self;
        let r = match rv {
            Ok(d) => {
                let v = match op {
                    Opcode::LB => ((d as u8) as i8) as i32 as u32,
                    Opcode::LH => ((d as u16) as i16) as i32 as u32,
                    Opcode::LWL => {
                        let k = addr & 3;
                        if k == 0 { (cur_v & 0x00ff_ffff) | (d << 24u32) }
                        else if k == 1 { (cur_v & 0x0000_ffff) | (d << 16u32) }
                        else if k == 2 { (cur_v & 0x0000_00ff) | (d << 8u32) }
                        else { d }
                    },
                    Opcode::LWR => {
                        let k = addr & 3;
                        if k == 0 { d }
                        else if k == 1 { (cur_v & 0xff00_0000) | (d >> 8u32) }
                        else if k == 2 { (cur_v & 0xffff_0000) | (d >> 16u32) }
                        else { (cur_v & 0xffff_ff00) | (d >> 24u32) }
                    },
                    _ => d,
                };
                self.write_delayed_reg(rt, v);
                Ok(())
            },
            Err(e) => Err(e),
        };
        proof {
            assert(read_part(a0, a2, m0, *memory, *cop0, load_address(op, addr), load_size(op), rv));
        }
        r
    }

    /// SB, SH, SW, SWL and SWR (a full write queue is checked by the caller).
    fn op_store<M: Memory>(&mut self, op: Opcode, memory: &mut M, cop0: &Cop0, instr: &Instruction, use_write_cache: bool) -> (r: Result<(), CpuException>)
        requires
            is_store(op),
            accepts_all(*old(memory)),
            old(self).wf(),
            use_write_cache ==> seg_of(mem_address(old(self).regs@, instr.0)) == MemorySegment::KUSEG
                || seg_of(mem_address(old(self).regs@, instr.0)) == MemorySegment::KUSEG0,
        ensures
            store_step(op, *old(self), *final(self), *old(memory), *final(memory), *cop0, instr.0, use_write_cache, r),
            final(self).wf(),
            forall|a: u32, s: usize| final(memory).accepts(a, s) == old(memory).accepts(a, s),
    {
        let ghost a0 = *self;
        let ghost m0 = *memory;
        let base = self.regs[instr.rs()];
        let addr = base.wrapping_add(instr.signed_immediate16());
        let v = self.regs[instr.rt()];
        proof {
            if use_write_cache {
                lemma_cached_room(addr);
            }
        }
        match op {
            Opcode::SB => self.write_data_memory::<M, 8>(memory, cop0, addr, v & 0xFF, use_write_cache),
            Opcode::SH => {
                if (addr & 1) == 1 {
                    return Err(CpuException::AddressErrorStore(addr));
                }
                self.write_data_memory::<M, 16>(memory, cop0, addr, v & 0xFFFF, use_write_cache)
            },
            Opcode::SW => {
                if (addr & 3) != 0 {
                    return Err(CpuException::AddressErrorStore(addr));
                }
                self.write_data_memory::<M, 32>(memory, cop0, addr, v, use_write_cache)
            },
            _ => {
                let aligned = addr & !3u32;
                let rv = self.read_data_memory::<M, 32>(memory, cop0, aligned);
                let ghost a2 = *self;
                let ghost mid = *memory;
                proof {
                    assert(read_part(a0, a2, m0, mid, *cop0, addr & !3u32, 32, rv));
                }
                match rv {
                    Ok(cur_mem) => {
                        let k = addr & 3;
                        let merged = if op == Opcode::SWL {
                            if k == 0 { (cur_mem & 0xffff_ff00) | (v >> 24u32) }
                            else if k == 1 { (cur_mem & 0xffff_0000) | (v >> 16u32) }
                            else if k == 2 { (cur_mem & 0xff00_0000) | (v >> 8u32) }
                            else { v }
                        } else {
                            if k == 0 { v }
                            else if k == 1 { (cur_mem & 0x0000_00ff) | (v << 8u32) }
                            else if k == 2 { (cur_mem & 0x0000_ffff) | (v << 16u32) }
                            else { (cur_mem & 0x00ff_ffff) | (v << 24u32) }
                        };
                        self.write_data_memory::<M, 32>(memory, cop0, aligned, merged, use_write_cache)
                    },
                    Err(e) => Err(e),
                }
            },
        }
    }
}

/// Coprocessor `n` may be used: COP0 in kernel mode or with CU0 set, the others with their CU bit.
pub open spec fn cop_usable(c0: Cop0, n: int) -> bool {
    if n == 0 {
        (c0.regs@[12] & 2u32) == 0 || (c0.regs@[12] & (1u32 << 28u32)) != 0
    } else {
        cop_enabled(c0, n)
    }
}

/// The CU bit of coprocessor `n` is set.
pub open spec fn cop_enabled(c0: Cop0, n: int) -> bool {
    (c0.regs@[12] & (1u32 << (28 + n) as u32)) != 0
}

/// Coprocessor number of a coprocessor instruction.
pub open spec fn cop_number(i: u32) -> int {
    ((i >> 26u32) & 0xFu32) as int
}

/// COP0 after software writes `value` to register `index`.
pub open spec fn cop0_written(a: Cop0, b: Cop0, index: int, value: u32) -> bool {
    &&& b.regs@ == write_regs(a.regs@, index, value)
    &&& b.pending_int_on_next_opcode == (a.pending_int_on_next_opcode
        || (index == 12 && (a.regs@[12] & 1u32) == 0 && (value & 1u32) == 1u32))
}

/// COP0 after a COP0 command (only RFE changes it).
pub open spec fn cop0_commanded(a: Cop0, b: Cop0, cmd: u32) -> bool {
    &&& (cmd & 0x3Fu32) == 0x10u32 ==> b.regs@ == a.regs@.update(12, sr_pop(a.regs@[12]))
    &&& (cmd & 0x3Fu32) != 0x10u32 ==> b.regs@ == a.regs@
    &&& b.pending_int_on_next_opcode == a.pending_int_on_next_opcode
}

/// An unusable coprocessor or a reserved form: the exception, nothing changed.
pub open spec fn refused(a: Cpu, b: Cpu, c0a: Cop0, c0b: Cop0, r: Result<(), CpuException>, e: CpuException) -> bool {
    r == Err::<(), CpuException>(e) && b == a && c0b == c0a
}

pub open spec fn is_cop_op(op: Opcode) -> bool {
    op == Opcode::MFCn || op == Opcode::CFCn || op == Opcode::MTCn || op == Opcode::CTCn || op == Opcode::COPn
        || op == Opcode::RFE || op == Opcode::TLBR || op == Opcode::TLBWI || op == Opcode::TLBWR || op == Opcode::TLBP
        || op == Opcode::BCnF || op == Opcode::BCnT
}

/// What a coprocessor move or command does.
pub open spec fn cop_step(op: Opcode, a: Cpu, b: Cpu, c0a: Cop0, c0b: Cop0, i: u32, r: Result<(), CpuException>) -> bool {
    let n = cop_number(i);
    let rd = rd_idx(i);
    let rt = rt_idx(i);
    let ok = r == Ok::<(), CpuException>(());
    if op == Opcode::MFCn || op == Opcode::CFCn {
        if n == 0 {
            if !cop_usable(c0a, 0) {
                refused(a, b, c0a, c0b, r, CpuException::CoprocessorUnusable(0))
            } else if op == Opcode::CFCn {
                ok && issued_load(a, b, rt, 0) && same_machine(a, b) && c0b == c0a
            } else if rd < 3 {
                refused(a, b, c0a, c0b, r, CpuException::ReservedInstruction(i))
            } else {
                ok && issued_load(a, b, rt, c0a.regs@[rd]) && same_machine(a, b) && c0b == c0a
            }
        } else if n == 2 {
            if !cop_enabled(c0a, 2) {
                refused(a, b, c0a, c0b, r, CpuException::CoprocessorUnusable(2))
            } else if op == Opcode::CFCn {
                ok && issued_load(a, b, rt, read_control_spec(a.cop2, rd)) && same_machine(a, b) && c0b == c0a
            } else {
                ok && issued_load(a, b, rt, read_data_spec(a.cop2, rd)) && c0b == c0a
                    && same_machine(Cpu { op_cycles: a.op_cycles.saturating_add(a.cop2_remaining_cycles), cop2_remaining_cycles: 0, ..a }, b)
            }
        } else if !cop_enabled(c0a, n) {
            refused(a, b, c0a, c0b, r, CpuException::CoprocessorUnusable(n as usize))
        } else {
            ok && b == a && c0b == c0a
        }
    } else if op == Opcode::MTCn || op == Opcode::CTCn {
        if n == 0 {
            if !cop_usable(c0a, 0) {
                refused(a, b, c0a, c0b, r, CpuException::CoprocessorUnusable(0))
            } else if op == Opcode::CTCn {
                ok && b == a && c0b.regs@ == c0a.regs@ && c0b.pending_int_on_next_opcode == c0a.pending_int_on_next_opcode
            } else {
                ok && b == a && cop0_written(c0a, c0b, rd, a.regs@[rt])
            }
        } else if n == 2 {
            if !cop_enabled(c0a, 2) {
                refused(a, b, c0a, c0b, r, CpuException::CoprocessorUnusable(2))
            } else {
                ok && c0b == c0a && b == Cpu {
                    cop2: if op == Opcode::CTCn { write_control_spec(a.cop2, rd, a.regs@[rt]) } else { write_data_spec(a.cop2, rd, a.regs@[rt]) },
                    op_cycles: a.op_cycles.saturating_add(GTE_REG_WRITE_CYCLES),
                    ..a
                }
            }
        } else {
            refused(a, b, c0a, c0b, r, CpuException::CoprocessorUnusable(n as usize))
        }
    } else if op == Opcode::BCnF || op == Opcode::BCnT {
        refused(a, b, c0a, c0b, r, CpuException::ReservedInstruction(i))
    } else {
        if n == 0 {
            if !cop_usable(c0a, 0) {
                refused(a, b, c0a, c0b, r, CpuException::CoprocessorUnusable(0))
            } else {
                ok && b == a && cop0_commanded(c0a, c0b, i)
            }
        } else if n == 2 {
            if !cop_enabled(c0a, 2) {
                refused(a, b, c0a, c0b, r, CpuException::CoprocessorUnusable(2))
            } else {
                ok && c0b == c0a && b == Cpu {
                    cop2: fix_flags(run_spec(setup_spec(a.cop2, i), i & 0x3Fu32)),
                    cop2_remaining_cycles: command_penalty_spec(i & 0x3Fu32),
                    op_cycles: a.op_cycles.saturating_add(a.cop2_remaining_cycles),
                    ..a
                }
            }
        } else {
            refused(a, b, c0a, c0b, r, CpuException::CoprocessorUnusable(n as usize))
        }
    }
}

/// Coprocessor number of LWCn / SWCn.
pub open spec fn lswc_number(op: Opcode) -> int {
    match op {
        Opcode::LWC0 | Opcode::SWC0 => 0,
        Opcode::LWC1 | Opcode::SWC1 => 1,
        Opcode::LWC2 | Opcode::SWC2 => 2,
        _ => 3,
    }
}

pub open spec fn is_lwc(op: Opcode) -> bool {
    op == Opcode::LWC0 || op == Opcode::LWC1 || op == Opcode::LWC2 || op == Opcode::LWC3
}

pub open spec fn is_swc(op: Opcode) -> bool {
    op == Opcode::SWC0 || op == Opcode::SWC1 || op == Opcode::SWC2 || op == Opcode::SWC3
}

/// What LWCn does: the word is read, then only the GTE takes it.
pub open spec fn lwc_step<M: Memory>(op: Opcode, a: Cpu, b: Cpu, ma: M, mb: M, c0: Cop0, i: u32, r: Result<(), CpuException>) -> bool {
    let addr = mem_address(a.regs@, i);
    let n = lswc_number(op);
    if addr & 3u32 != 0u32 {
        r == Err::<(), CpuException>(CpuException::AddressErrorLoad(addr)) && b == a && mb == ma
    } else {
        exists|a2: Cpu, rv: Result<u32, CpuException>|
            #[trigger] read_part(a, a2, ma, mb, c0, addr, 32, rv)
            && match rv {
                Err(e) => r == Err::<(), CpuException>(e) && b == a2,
                Ok(d) => if !cop_enabled(c0, n) {
                    r == Err::<(), CpuException>(CpuException::CoprocessorUnusable(n as usize)) && b == a2
                } else if n != 2 {
                    r == Ok::<(), CpuException>(()) && b == a2
                } else {
                    r == Ok::<(), CpuException>(()) && b == Cpu {
                        cop2: write_data_spec(a2.cop2, rt_idx(i), d),
                        op_cycles: a2.op_cycles.saturating_add(GTE_REG_WRITE_CYCLES),
                        ..a2
                    }
                },
            }
    }
}

/// What SWCn does: only a GTE data register can be stored.
pub open spec fn swc_step<M: Memory>(op: Opcode, a: Cpu, b: Cpu, ma: M, mb: M, c0: Cop0, i: u32, use_write_cache: bool, r: Result<(), CpuException>) -> bool {
    let addr = mem_address(a.regs@, i);
    let n = lswc_number(op);
    if addr & 3u32 != 0u32 {
        r == Err::<(), CpuException>(CpuException::AddressErrorStore(addr)) && b == a && mb == ma
    } else if !cop_enabled(c0, n) {
        r == Err::<(), CpuException>(CpuException::CoprocessorUnusable(n as usize)) && b == a && mb == ma
    } else if n != 2 {
        r == Ok::<(), CpuException>(()) && b == a && mb == ma
    } else {
        write_part(a, b, ma, mb, c0, addr, 32, read_data_spec(a.cop2, rt_idx(i)), use_write_cache, r)
    }
}

proof fn lemma_cop_number(i: u32)
    requires
        0x10 <= (i >> 26u32) <= 0x13,
    ensures
        0 <= cop_number(i) <= 3,
{
    assert(0x10 <= (i >> 26u32) <= 0x13 ==> ((i >> 26u32) & 0xFu32) <= 3) by (bit_vector);
}

impl Cpu {
    /// MFCn, CFCn, MTCn, CTCn, BCnF, BCnT and the coprocessor commands.
    fn op_cop(&mut self, op: Opcode, cop0: &mut Cop0, instr: &Instruction) -> (r: Result<(), CpuException>)
        requires
            is_cop_op(op),
            0x10 <= (instr.0 >> 26u32) <= 0x13,
            old(self).wf(),
        ensures
            cop_step(op, *old(self), *final(self), *old(cop0), *final(cop0), instr.0, r),
            final(self).wf(),
    {
        proof { lemma_cop_number(instr.0); }
        let n = instr.op() & 0xF;
        let rd = instr.rd();
        let rt = instr.rt();
        if op == Opcode::BCnF || op == Opcode::BCnT {
            return Err(CpuException::ReservedInstruction(instr.0));
        }
        if op == Opcode::MFCn || op == Opcode::CFCn {
            if n == 0 {
                if !cop0.is_accessible::<0>() {
                    return Err(CpuException::CoprocessorUnusable(0));
                }
                if op == Opcode::CFCn {
                    let CopResult(read, _) = cop0.read_control_register(rd);
                    self.write_delayed_reg(rt, read);
                } else {
                    if rd < 3 {
                        return Err(CpuException::ReservedInstruction(instr.0));
                    }
                    let CopResult(read, _) = cop0.read_data_register(rd);
                    self.write_delayed_reg(rt, read);
                }
                Ok(())
            } else if n == 2 {
                if !cop0.is_accessible::<2>() {
                    return Err(CpuException::CoprocessorUnusable(2));
                }
                if op == Opcode::CFCn {
                    let CopResult(read, _) = self.cop2.read_control_register(rd);
                    self.write_delayed_reg(rt, read);
                } else {
                    let CopResult(read, _) = self.cop2.read_data_register(rd);
                    self.write_delayed_reg(rt, read);
                    self.op_cycles = self.op_cycles.saturating_add(self.cop2_remaining_cycles);
                    self.cop2_remaining_cycles = 0;
                }
                Ok(())
            } else {
                if !cop0.is_cop_enabled(n as usize) {
                    return Err(CpuException::CoprocessorUnusable(n as usize));
                }
                Ok(())
            }
        } else if op == Opcode::MTCn || op == Opcode::CTCn {
            let value = self.regs[rt];
            if n == 0 {
                if !cop0.is_accessible::<0>() {
                    return Err(CpuException::CoprocessorUnusable(0));
                }
                if op == Opcode::CTCn {
                    let _ = cop0.write_control_register(rd, value);
                } else {
                    let _ = cop0.write_data_register(rd, value);
                }
                Ok(())
            } else if n == 2 {
                if !cop0.is_accessible::<2>() {
                    return Err(CpuException::CoprocessorUnusable(2));
                }
                let CopResult(_, penalty) = if op == Opcode::CTCn {
                    self.cop2.write_control_register(rd, value)
                } else {
                    self.cop2.write_data_register(rd, value)
                };
                self.op_cycles = self.op_cycles.saturating_add(penalty);
                Ok(())
            } else {
                Err(CpuException::CoprocessorUnusable(n as usize))
            }
        } else {
            if n == 0 {
                if !cop0.is_accessible::<0>() {
                    return Err(CpuException::CoprocessorUnusable(0));
                }
                let _ = cop0.execute_command(instr.0);
                Ok(())
            } else if n == 2 {
                if !cop0.is_accessible::<2>() {
                    return Err(CpuException::CoprocessorUnusable(2));
                }
                let gte_rem_cycles = self.cop2_remaining_cycles;
                let CopResult(_, penalty) = self.cop2.execute_command(instr.0);
                self.cop2_remaining_cycles = penalty;
                self.op_cycles = self.op_cycles.saturating_add(gte_rem_cycles);
                Ok(())
            } else {
                Err(CpuException::CoprocessorUnusable(n as usize))
            }
        }
    }

    /// LWC0..LWC3.
    fn op_lwc<M: Memory>(&mut self, op: Opcode, memory: &mut M, cop0: &Cop0, instr: &Instruction) -> (r: Result<(), CpuException>)
        requires
            is_lwc(op),
            accepts_all(*old(memory)),
            old(self).wf(),
        ensures
            lwc_step(op, *old(self), *final(self), *old(memory), *final(memory), *cop0, instr.0, r),
            final(self).wf(),
            forall|a: u32, s: usize| final(memory).accepts(a, s) == old(memory).accepts(a, s),
    {
        let ghost a0 = *self;
        let ghost m0 = *memory;
        let n: usize = match op {
            Opcode::LWC0 => 0,
            Opcode::LWC1 => 1,
            Opcode::LWC2 => 2,
            _ => 3,
        };
        let base = self.regs[instr.rs()];
        let target = base.wrapping_add(instr.signed_immediate16());
        if (target & 3) != 0 {
            return Err(CpuException::AddressErrorLoad(target));
        }
        let rv = self.read_data_memory::<M, 32>(memory, cop0, target);
        let ghost a2 = *self;
        proof { assert(read_part(a0, a2, m0, *memory, *cop0, target, 32, rv)); }
        let read = match rv {
            Ok(d) => d,
            Err(e) => return Err(e),
        };
        if !cop0.is_cop_enabled(n) {
            return Err(CpuException::CoprocessorUnusable(n));
        }
        if n != 2 {
            return Ok(());
        }
        let CopResult(_, penalty) = self.cop2.write_data_register(instr.rt(), read);
        self.op_cycles = self.op_cycles.saturating_add(penalty);
        Ok(())
    }

    /// SWC0..SWC3.
    fn op_swc<M: Memory>(&mut self, op: Opcode, memory: &mut M, cop0: &Cop0, instr: &Instruction, use_write_cache: bool) -> (r: Result<(), CpuException>)
        requires
            is_swc(op),
            accepts_all(*old(memory)),
            old(self).wf(),
            use_write_cache ==> mem_address(old(self).regs@, instr.0) as int + 4 <= u32::MAX,
        ensures
            swc_step(op, *old(self), *final(self), *old(memory), *final(memory), *cop0, instr.0, use_write_cache, r),
            final(self).wf(),
            forall|a: u32, s: usize| final(memory).accepts(a, s) == old(memory).accepts(a, s),
    {
        let n: usize = match op {
            Opcode::SWC0 => 0,
            Opcode::SWC1 => 1,
            Opcode::SWC2 => 2,
            _ => 3,
        };
        let base = self.regs[instr.rs()];
        let target = base.wrapping_add(instr.signed_immediate16());
        if (target & 3) != 0 {
            return Err(CpuException::AddressErrorStore(target));
        }
        if !cop0.is_cop_enabled(n) {
            return Err(CpuException::CoprocessorUnusable(n));
        }
        if n != 2 {
            return Ok(());
        }
        let CopResult(data, _) = self.cop2.read_data_register(instr.rt());
        self.write_data_memory::<M, 32>(memory, cop0, target, data, use_write_cache)
    }
}

/// What executing an instruction of a given operation does to the CPU, the memory and COP0.
pub open spec fn op_semantics<M: Memory>(op: Opcode, a: Cpu, b: Cpu, ma: M, mb: M, c0a: Cop0, c0b: Cop0, i: u32,
    use_write_cache: bool, r: Result<(), CpuException>) -> bool {
    if simple_step(op, a, b, i, r) is Some {
        simple_step(op, a, b, i, r) == Some(true) && mb == ma && c0b == c0a
    } else if is_load(op) {
        load_step(op, a, b, ma, mb, c0a, i, r) && c0b == c0a
    } else if is_store(op) {
        store_step(op, a, b, ma, mb, c0a, i, use_write_cache, r) && c0b == c0a
    } else if is_lwc(op) {
        lwc_step(op, a, b, ma, mb, c0a, i, r) && c0b == c0a
    } else if is_swc(op) {
        swc_step(op, a, b, ma, mb, c0a, i, false, r) && c0b == c0a
    } else {
        cop_step(op, a, b, c0a, c0b, i, r) && mb == ma
    }
}

/// An instruction asked to wait has not changed the registers.
#[verifier::spinoff_prover]
#[verifier::rlimit(60)]
proof fn lemma_wait_keeps_regs<M: Memory>(op: Opcode, a: Cpu, b: Cpu, ma: M, mb: M, c0a: Cop0, c0b: Cop0, i: u32, use_write_cache: bool)
    requires
        op_semantics(op, a, b, ma, mb, c0a, c0b, i, use_write_cache, Err(CpuException::ReadWriteWait)),
    ensures
        b.regs == a.regs,
{
    let r = Err::<(), CpuException>(CpuException::ReadWriteWait);
    if simple_step(op, a, b, i, r) is Some {
    } else if is_load(op) {
        let addr = mem_address(a.regs@, i);
        if !load_misaligned(op, addr) {
            let (a2, rv) = choose|a2: Cpu, rv: Result<u32, CpuException>|
                #[trigger] read_part(a, a2, ma, mb, c0a, load_address(op, addr), load_size(op), rv)
                && match rv {
                    Ok(d) => r == Ok::<(), CpuException>(()) && issued_load(a2, b, rt_idx(i), load_value(op, a, d, addr, rt_idx(i)))
                        && same_machine(a2, b),
                    Err(e) => r == Err::<(), CpuException>(e) && b == a2,
                };
            if !rw_breakpoint(c0a, load_address(op, addr), true) {
                let rr = choose|rr: ReadMemoryAccess| #[trigger] ma.reads(mb, load_address(op, addr), load_size(op), false, rr)
                    && rv == load_result(rr, load_address(op, addr)) && a2 == after_read(a, load_address(op, addr), rr);
            }
        }
    } else if is_store(op) {
        lemma_store_wait_keeps_regs(op, a, b, ma, mb, c0a, i, use_write_cache);
    } else if is_lwc(op) {
        let addr = mem_address(a.regs@, i);
        if addr & 3u32 == 0u32 {
            let (a2, rv) = choose|a2: Cpu, rv: Result<u32, CpuException>|
                #[trigger] read_part(a, a2, ma, mb, c0a, addr, 32, rv)
                && match rv {
                    Err(e) => r == Err::<(), CpuException>(e) && b == a2,
                    Ok(d) => if !cop_enabled(c0a, lswc_number(op)) {
                        r == Err::<(), CpuException>(CpuException::CoprocessorUnusable(lswc_number(op) as usize)) && b == a2
                    } else if lswc_number(op) != 2 {
                        r == Ok::<(), CpuException>(()) && b == a2
                    } else {
                        r == Ok::<(), CpuException>(()) && b == Cpu {
                            cop2: write_data_spec(a2.cop2, rt_idx(i), d),
                            op_cycles: a2.op_cycles.saturating_add(GTE_REG_WRITE_CYCLES),
                            ..a2
                        }
                    },
                };
            if !rw_breakpoint(c0a, addr, true) {
                let rr = choose|rr: ReadMemoryAccess| #[trigger] ma.reads(mb, addr, 32, false, rr)
                    && rv == load_result(rr, addr) && a2 == after_read(a, addr, rr);
            }
        }
    } else if is_swc(op) {
        let addr = mem_address(a.regs@, i);
        if addr & 3u32 == 0u32 && cop_enabled(c0a, lswc_number(op)) && lswc_number(op) == 2 {
            lemma_write_part_keeps_regs(a, b, ma, mb, c0a, addr, 32, read_data_spec(a.cop2, rt_idx(i)), false, r);
        }
    }
}

proof fn lemma_write_part_keeps_regs<M: Memory>(a: Cpu, b: Cpu, ma: M, mb: M, c0: Cop0, address: u32, size: usize, value: u32,
    use_write_cache: bool, r: Result<(), CpuException>)
    requires
        write_part(a, b, ma, mb, c0, address, size, value, use_write_cache, r),
    ensures
        b.regs == a.regs,
{
    if !rw_breakpoint(c0, address, false) && !use_write_cache {
        let wr = choose|wr: WriteMemoryAccess| #[trigger] ma.writes(mb, address, size, value, wr)
            && r == store_result(wr, address) && after_write(a, b, address, value, wr);
    }
}

#[verifier::spinoff_prover]
#[verifier::rlimit(40)]
proof fn lemma_store_wait_keeps_regs<M: Memory>(op: Opcode, a: Cpu, b: Cpu, ma: M, mb: M, c0: Cop0, i: u32, use_write_cache: bool)
    requires
        is_store(op),
        store_step(op, a, b, ma, mb, c0, i, use_write_cache, Err(CpuException::ReadWriteWait)),
    ensures
        b.regs == a.regs,
{
    let r = Err::<(), CpuException>(CpuException::ReadWriteWait);
    let addr = mem_address(a.regs@, i);
    let v = a.regs@[rt_idx(i)];
    if op == Opcode::SB {
        lemma_write_part_keeps_regs(a, b, ma, mb, c0, addr, 8, v & 0xFFu32, use_write_cache, r);
    } else if op == Opcode::SH {
        if addr & 1u32 != 1u32 {
            lemma_write_part_keeps_regs(a, b, ma, mb, c0, addr, 16, v & 0xFFFFu32, use_write_cache, r);
        }
    } else if op == Opcode::SW {
        if addr & 3u32 == 0u32 {
            lemma_write_part_keeps_regs(a, b, ma, mb, c0, addr, 32, v, use_write_cache, r);
        }
    } else {
        let (a2, mid, rv) = choose|a2: Cpu, mid: M, rv: Result<u32, CpuException>|
            #[trigger] read_part(a, a2, ma, mid, c0, addr & !3u32, 32, rv)
            && match rv {
                Ok(d) => write_part(a2, b, mid, mb, c0, addr & !3u32, 32,
                    if op == Opcode::SWL { swl_value(d, v, addr) } else { swr_value(d, v, addr) }, use_write_cache, r),
                Err(e) => r == Err::<(), CpuException>(e) && b == a2 && mb == mid,
            };
        if !rw_breakpoint(c0, addr & !3u32, true) {
            let rr = choose|rr: ReadMemoryAccess| #[trigger] ma.reads(mid, addr & !3u32, 32, false, rr)
                && rv == load_result(rr, addr & !3u32) && a2 == after_read(a, addr & !3u32, rr);
        }
        match rv {
            Ok(d) => {
                lemma_write_part_keeps_regs(a2, b, mid, mb, c0, addr & !3u32, 32,
                    if op == Opcode::SWL { swl_value(d, v, addr) } else { swr_value(d, v, addr) }, use_write_cache, r);
            },
            Err(e) => {},
        }
    }
}

proof fn lemma_decode_cop(i: u32)
    requires
        is_cop_op(decode(i)),
    ensures
        0x10 <= (i >> 26u32) <= 0x13,
{
}

impl Cpu {
    /// Executes one decoded instruction (the operation table of the interpreter).
    fn execute_op<M: Memory>(&mut self, memory: &mut M, cop0: &mut Cop0, opcode: Opcode, instr: &Instruction,
        use_write_cache: bool) -> (r: Result<(), CpuException>)
        requires
            opcode == decode(instr.0),
            opcode != Opcode::UNKNOWN,
            old(self).wf(),
            accepts_all(*old(memory)),
            use_write_cache ==> is_store(opcode) && (seg_of(mem_address(old(self).regs@, instr.0)) == MemorySegment::KUSEG
                || seg_of(mem_address(old(self).regs@, instr.0)) == MemorySegment::KUSEG0),
        ensures
            op_semantics(opcode, *old(self), *final(self), *old(memory), *final(memory), *old(cop0), *final(cop0), instr.0,
                use_write_cache, r),
            final(self).wf(),
            forall|a: u32, s: usize| final(memory).accepts(a, s) == old(memory).accepts(a, s),
            final(self).op_cycles >= old(self).op_cycles,
    {
        match opcode {
            Opcode::NOP => Ok(()),
            Opcode::AND | Opcode::OR | Opcode::XOR | Opcode::NOR | Opcode::ANDI | Opcode::ORI | Opcode::XORI
            | Opcode::LUI | Opcode::SLL | Opcode::SRL | Opcode::SRA | Opcode::SLLV | Opcode::SRLV | Opcode::SRAV
            | Opcode::SLT | Opcode::SLTU | Opcode::SLTI | Opcode::SLTIU | Opcode::ADD | Opcode::ADDU | Opcode::SUB
            | Opcode::SUBU | Opcode::ADDI | Opcode::ADDIU => self.op_alu(opcode, instr),
            Opcode::BEQ | Opcode::BNE | Opcode::BLTZ | Opcode::BGEZ | Opcode::BLEZ | Opcode::BGTZ | Opcode::BLTZAL
            | Opcode::BGEZAL => self.op_branch(opcode, instr),
            Opcode::J | Opcode::JAL | Opcode::JR | Opcode::JALR => self.op_jump(opcode, instr),
            Opcode::MFHI | Opcode::MFLO | Opcode::MTHI | Opcode::MTLO | Opcode::MULT | Opcode::MULTU | Opcode::DIV
            | Opcode::DIVU => self.op_hilo(opcode, instr),
            Opcode::SYSCALL => Err(CpuException::SysCall(instr.imm20())),
            Opcode::BREAK => Err(CpuException::BreakPoint(instr.imm20())),
            Opcode::LB | Opcode::LBU | Opcode::LH | Opcode::LHU | Opcode::LW | Opcode::LWL | Opcode::LWR =>
                self.op_load(opcode, memory, cop0, instr),
            Opcode::SB | Opcode::SH | Opcode::SW | Opcode::SWL | Opcode::SWR =>
                self.op_store(opcode, memory, cop0, instr, use_write_cache),
            Opcode::LWC0 | Opcode::LWC1 | Opcode::LWC2 | Opcode::LWC3 => self.op_lwc(opcode, memory, cop0, instr),
            Opcode::SWC0 | Opcode::SWC1 | Opcode::SWC2 | Opcode::SWC3 => self.op_swc(opcode, memory, cop0, instr, false),
            _ => {
                proof { lemma_decode_cop(instr.0); }
                self.op_cop(opcode, cop0, instr)
            },
        }
    }
}

/// Bits of a queued write of `n` bytes.
pub open spec fn entry_bits(n: usize) -> usize {
    (n * 8) as usize
}

/// Memory states `ms` trace the writes of the first `ms.len() - 1` queued entries, in order, each
/// done as a direct data write that was not asked to wait.
pub open spec fn flushed_run<M: Memory>(ms: Seq<M>, cop0: Cop0, q: Seq<(u32, u32, usize)>) -> bool {
    &&& ms.len() >= 1
    &&& ms.len() - 1 <= q.len()
    &&& forall|t: int| 0 <= t < ms.len() - 1 ==> #[trigger] flush_step(ms, cop0, q, t)
}

/// Step `t` of a flush: `ms[t + 1]` is `ms[t]` after the direct write of entry `t`.
pub open spec fn flush_step<M: Memory>(ms: Seq<M>, cop0: Cop0, q: Seq<(u32, u32, usize)>, t: int) -> bool {
    exists|a: Cpu, b: Cpu, r: Result<(), CpuException>|
        #[trigger] write_part(a, b, ms[t], ms[t + 1], cop0, q[t].0, entry_bits(q[t].2), q[t].1, false, r)
        && r != Err::<(), CpuException>(CpuException::ReadWriteWait)
}

/// `mb` is `ma` after a write of queued entry `k` that the memory asked to retry later.
pub open spec fn waited_write<M: Memory>(ma: M, mb: M, cop0: Cop0, q: Seq<(u32, u32, usize)>, k: int) -> bool {
    0 <= k < q.len() && exists|a: Cpu, b: Cpu| #[trigger] write_part(a, b, ma, mb, cop0, q[k].0, entry_bits(q[k].2), q[k].1, false,
        Err::<(), CpuException>(CpuException::ReadWriteWait))
}

/// The architectural state (registers, pipeline, branch state, GTE, console capture) is equal.
pub open spec fn keeps_arch(a: Cpu, b: Cpu) -> bool {
    &&& b.pc == a.pc
    &&& b.regs == a.regs
    &&& b.hi == a.hi
    &&& b.lo == a.lo
    &&& b.delayed_load == a.delayed_load
    &&& b.delayed_load_next == a.delayed_load_next
    &&& b.branch_address == a.branch_address
    &&& b.branch_taken == a.branch_taken
    &&& b.in_branch_delay_slot == a.in_branch_delay_slot
    &&& b.cop2 == a.cop2
    &&& b.bios_tty_capture_enabled == a.bios_tty_capture_enabled
    &&& b.bios_tty_buffer == a.bios_tty_buffer
    &&& b.bios_tty_lines == a.bios_tty_lines
    &&& b.last_opcode == a.last_opcode
    &&& b.last_mem_read_address == a.last_mem_read_address
}

impl Cpu {
    /// Advances the multiply/divide and GTE timers by the cycles of the last instruction and
    /// drains the write queue, one entry per 4 elapsed cycles (during DMA only writes to the
    /// scratchpad proceed).
    fn update_pending_operations<M: Memory>(&mut self, memory: &mut M, cop0: &Cop0, dma_in_progress: bool)
        requires
            old(self).wf(),
            accepts_all(*old(memory)),
        ensures
            final(self).wf(),
            forall|a: u32, s: usize| final(memory).accepts(a, s) == old(memory).accepts(a, s),
            keeps_arch(*old(self), *final(self)),
            final(self).mul_div_pending_cycles == old(self).mul_div_pending_cycles.saturating_sub(old(self).op_cycles),
            final(self).cop2_remaining_cycles == old(self).cop2_remaining_cycles.saturating_sub(old(self).op_cycles),
            exists|ms: Seq<M>| #![trigger flushed_run(ms, *cop0, old(self).write_queue.view())]
                flushed_run(ms, *cop0, old(self).write_queue.view())
                && ms[0] == *old(memory)
                && (ms.last() == *final(memory)
                    || waited_write(ms.last(), *final(memory), *cop0, old(self).write_queue.view(), ms.len() - 1))
                && final(self).write_queue.view() == old(self).write_queue.view().skip(ms.len() - 1),
            (old(self).write_queue.view().len() == 0 || (dma_in_progress
                && section_of(old(self).write_queue.view()[0].0) != MemorySection::ScratchPad))
                ==> *final(memory) == *old(memory) && final(self).write_queue == old(self).write_queue,
            pending_done(*old(self), *final(self), *old(memory), *final(memory), *cop0, dma_in_progress),
    {
        if self.mul_div_pending_cycles > 0 {
            self.mul_div_pending_cycles = self.mul_div_pending_cycles.saturating_sub(self.op_cycles);
        }
        if self.cop2_remaining_cycles > 0 {
            self.cop2_remaining_cycles = self.cop2_remaining_cycles.saturating_sub(self.op_cycles);
        }
        let ghost a0 = *old(self);
        let ghost m0 = *memory;
        let ghost q0 = self.write_queue.view();
        let ghost mut ms: Seq<M> = seq![*memory];
        proof {
            assert(q0.skip(0) =~= q0);
            assert(flushed_run(ms, *cop0, q0));
        }
        if self.write_queue.is_empty() {
            return;
        }
        if dma_in_progress {
            match self.write_queue.peek_address() {
                Some(address) => {
                    match get_memory_section(address) {
                        MemorySection::ScratchPad => {},
                        _ => return,
                    }
                },
                None => {},
            }
        }
        self.write_queue_elapsed = self.write_queue_elapsed.saturating_add(self.op_cycles);
        let mut waiting = false;
        while !waiting && self.write_queue_elapsed > QUEUE_WRITE_MEM_CYCLES
            invariant
                self.wf(),
                accepts_all(m0),
                forall|a: u32, s: usize| memory.accepts(a, s) == m0.accepts(a, s),
                keeps_arch(a0, *self),
                self.mul_div_pending_cycles == a0.mul_div_pending_cycles.saturating_sub(a0.op_cycles),
                self.cop2_remaining_cycles == a0.cop2_remaining_cycles.saturating_sub(a0.op_cycles),
                q0 == a0.write_queue.view(),
                flushed_run(ms, *cop0, q0),
                ms[0] == m0,
                !waiting ==> ms.last() == *memory,
                waiting ==> waited_write(ms.last(), *memory, *cop0, q0, ms.len() - 1),
                self.write_queue.view() == q0.skip(ms.len() - 1),
            decreases self.write_queue_elapsed,
        {
            self.write_queue_elapsed = self.write_queue_elapsed - QUEUE_WRITE_MEM_CYCLES;
            match self.write_queue.peek() {
                Some((address, value, byte_size)) => {
                    let ghost before = *memory;
                    let ghost k = ms.len() - 1;
                    assert(self.write_queue.view()[0] == q0[k]);
                    assert(accepts_all(*memory)) by {
                        assert forall|a: u32, s: usize| (s == 8 || s == 16 || s == 32) implies #[trigger] memory.accepts(a, s) by {
                            assert(m0.accepts(a, s));
                        };
                    };
                    let ghost c_before = *self;
                    let res = if byte_size == 1 {
                        self.write_data_memory::<M, 8>(memory, cop0, address, value, false)
                    } else if byte_size == 2 {
                        self.write_data_memory::<M, 16>(memory, cop0, address, value, false)
                    } else {
                        self.write_data_memory::<M, 32>(memory, cop0, address, value, false)
                    };
                    let ghost c_after = *self;
                    match res {
                        Err(CpuException::ReadWriteWait) => {
                            waiting = true;
                            proof {
                                assert(write_part(c_before, c_after, before, *memory, *cop0, q0[k].0, entry_bits(q0[k].2), q0[k].1, false, res));
                            }
                        },
                        _ => {
                            proof {
                                assert(write_part(c_before, c_after, before, *memory, *cop0, q0[k].0, entry_bits(q0[k].2), q0[k].1, false, res));
                                assert(res != Err::<(), CpuException>(CpuException::ReadWriteWait));
                                let ms_old = ms;
                                assert(k < q0.len());
                                ms = ms.push(*memory);
                                assert forall|t: int| 0 <= t < ms.len() - 1 implies #[trigger] flush_step(ms, *cop0, q0, t) by {
                                    if t < k {
                                        assert(ms[t] == ms_old[t] && ms[t + 1] == ms_old[t + 1]);
                                        assert(flush_step(ms_old, *cop0, q0, t));
                                    } else {
                                        assert(ms[t] == before && ms[t + 1] == *memory);
                                        assert(write_part(c_before, c_after, ms[t], ms[t + 1], *cop0, q0[t].0, entry_bits(q0[t].2), q0[t].1, false, res));
                                    }
                                };
                                assert(q0.skip(k).drop_first() =~= q0.skip(k + 1));
                                assert(ms.len() >= 1);
                                assert(ms.len() - 1 <= q0.len());
                                assert(flushed_run(ms, *cop0, q0));
                            }
                            self.write_queue.dequeue();
                        },
                    }
                },
                None => {},
            }
        }
    }
}

/// `b` is `a` after an exception is taken: the pending load lands, the delay slot ends, COP0
/// records the exception and PC goes to the handler.
pub open spec fn exception_taken(a: Cpu, b: Cpu, c0a: Cop0, c0b: Cop0, e: CpuException, is_branch_delay_slot: bool,
    target: u32, opcode: u32) -> bool {
    &&& b.regs@ == a.regs@.update(a.delayed_load.0 as int, a.delayed_load.1).update(0, 0u32)
    &&& b.delayed_load == a.delayed_load_next
    &&& b.delayed_load_next == (0usize, 0u32)
    &&& b.hi == a.hi
    &&& b.lo == a.lo
    &&& c0b.regs@ == exception_regs(c0a.regs@, a.pc, e, is_branch_delay_slot, a.branch_taken, target, opcode)
    &&& c0b.pending_int_on_next_opcode == c0a.pending_int_on_next_opcode
    &&& b.pc == handler_address(c0b.regs@[12], e)
    &&& same_machine(Cpu { pc: b.pc, in_branch_delay_slot: false, ..a }, b)
}

/// `b` is `a` after the pending load lands (register 0 stays zero).
pub open spec fn load_landed(a: Cpu, b: Cpu) -> bool {
    &&& b.regs@ == a.regs@.update(a.delayed_load.0 as int, a.delayed_load.1).update(0, 0u32)
    &&& b.delayed_load == a.delayed_load_next
    &&& b.delayed_load_next == (0usize, 0u32)
    &&& b.hi == a.hi
    &&& b.lo == a.lo
    &&& same_machine(a, b)
}

/// How an instruction whose operation left the CPU in `mid` ends: on success the pending load
/// lands and PC moves to `next_pc`; a memory access asked to wait leaves the instruction to be
/// retried; any other exception is taken.
pub open spec fn instruction_finished(mid: Cpu, b: Cpu, c0m: Cop0, c0b: Cop0, r: Result<(), CpuException>,
    was_in_delay: bool, next_pc: u32) -> bool {
    match r {
        Ok(_) => load_landed(Cpu { pc: next_pc, ..mid }, b) && c0b == c0m,
        Err(e) => if e == CpuException::ReadWriteWait {
            b == Cpu { in_branch_delay_slot: was_in_delay, ..mid } && c0b == c0m
        } else {
            exception_taken(mid, b, c0m, c0b, e, was_in_delay, mid.branch_address, mid.last_opcode)
        },
    }
}

/// The CPU is at a BIOS console output entry: A0h with function 3Ch or B0h with function 3Dh
/// (the function number is in register 9).
pub open spec fn bios_tty_call(a: Cpu) -> bool {
    let pc = a.pc & 0x1FFF_FFFFu32;
    (pc == 0xA0u32 && a.regs@[9] == 0x3Cu32) || (pc == 0xB0u32 && a.regs@[9] == 0x3Du32)
}

/// The console line after a console call: a line feed (register 4 holds 10) empties it, another
/// Unicode scalar value is appended, anything else leaves it as it was.
pub open spec fn tty_buffer_after(a: Cpu) -> Seq<char> {
    let n = a.regs@[4];
    if !bios_tty_call(a) {
        a.bios_tty_buffer@
    } else if n == 10 {
        Seq::<char>::empty()
    } else if n < 0xD800 || (0xE000 <= n && n <= 0x10FFFF) {
        a.bios_tty_buffer@.push(n as char)
    } else {
        a.bios_tty_buffer@
    }
}

/// What fetching the instruction at PC does. In a cached segment the instruction cache is read
/// (a miss refills the line from memory); on a miss while DMA runs nothing is fetched, otherwise
/// the word comes back and the refill cycles are charged. In an uncached segment nothing happens
/// while DMA runs; otherwise memory answers: a word (its penalty is charged), a wait (`Some(0)`),
/// or a fault, upon which the bus error exception is taken and the pending load lands.
pub open spec fn fetch_outcome<M: Memory>(a: Cpu, b: Cpu, ma: M, mb: M, c0a: Cop0, c0b: Cop0, dma: bool,
    r: Option<u32>) -> bool {
    let pc = a.pc;
    if seg_of(pc) == MemorySegment::KUSEG || seg_of(pc) == MemorySegment::KUSEG0 {
        let i = line_index(pc);
        let hit = a.i_cache.lines@[i].valid && a.i_cache.lines@[i].tag == line_tag(pc);
        let word = b.i_cache.lines@[i].line@[word_offset(pc)];
        let cycles: usize = if hit { 0usize } else { ICACHE_LINE_CYCLES };
        &&& icache_read_outcome(a.i_cache, pc, b.i_cache, ICacheResult(word, cycles, hit))
        &&& (hit ==> mb == ma)
        &&& (!hit ==> exists|ms: Seq<M>| #![trigger line_fill(ms, pc, b.i_cache.lines@[i].line@)]
                line_fill(ms, pc, b.i_cache.lines@[i].line@) && ms[0] == ma && ms[4] == mb)
        &&& c0b == c0a
        &&& if dma && !hit {
                r is None && b == (Cpu { i_cache: b.i_cache, ..a })
            } else {
                r == Some(word) && b == (Cpu { i_cache: b.i_cache, op_cycles: (a.op_cycles + cycles) as usize, ..a })
            }
    } else if dma {
        r is None && b == a && mb == ma && c0b == c0a
    } else {
        exists|rr: ReadMemoryAccess| #[trigger] ma.reads(mb, pc, 32, true, rr) && match rr {
            ReadMemoryAccess::Read(op, pen) => r == Some(op) && c0b == c0a
                && b == (Cpu { op_cycles: (if a.op_cycles + pen > usize::MAX { usize::MAX } else { (a.op_cycles + pen) as usize }), ..a }),
            ReadMemoryAccess::Wait => r == Some(0u32) && b == a && c0b == c0a,
            _ => r is None && exists|mid: Cpu| #[trigger] exception_taken(a, mid, c0a, c0b, CpuException::BusErrorFetch(pc),
                a.in_branch_delay_slot, a.branch_address, a.last_opcode) && load_landed(mid, b),
        }
    }
}

/// Whether the write queue holds an entry covering `address`.
pub open spec fn queue_covers(q: Seq<(u32, u32, usize)>, address: u32) -> bool {
    exists|k: int| 0 <= k < q.len() && entry_covers(#[trigger] q[k], address)
}

/// What the stall check decides for instruction word `i` with opcode `op`: the first component is
/// `None` when the instruction must wait, otherwise whether a store goes through the write queue;
/// the second says whether the pending load lands while it waits.
pub open spec fn stall_decision(a: Cpu, op: Opcode, i: u32, dma: bool) -> (Option<bool>, bool) {
    let target = mem_address(a.regs@, i);
    let cached = seg_of(target) == MemorySegment::KUSEG || seg_of(target) == MemorySegment::KUSEG0;
    if (op == Opcode::MFHI || op == Opcode::MFLO || op == Opcode::MTHI || op == Opcode::MTLO) && a.mul_div_pending_cycles > 0 {
        (None, true)
    } else if is_store(op) {
        if !cached && dma && section_of(target) != MemorySection::ScratchPad {
            (None, false)
        } else if cached && a.write_queue.view().len() == 4 {
            (None, true)
        } else {
            (Some(cached), false)
        }
    } else if is_load(op) {
        if cached && queue_covers(a.write_queue.view(), target) {
            (None, true)
        } else if dma && (section_of(target) == MemorySection::IOPorts || section_of(target) == MemorySection::MainRAM) {
            (None, false)
        } else if !dma && a.write_queue.view().len() != 0 {
            (None, true)
        } else {
            (Some(false), false)
        }
    } else {
        (Some(false), false)
    }
}

/// What the work left from the last instruction does before the next one: the busy counters
/// of the multiplier and the GTE run down by its cycles, and the write queue drains into
/// memory as a run of direct writes (`flushed_run`) of its first entries, the last one possibly
/// asked to wait; nothing drains when the queue is empty or its first write would meet the DMA.
/// The architectural state stays.
pub open spec fn pending_done<M: Memory>(a: Cpu, b: Cpu, ma: M, mb: M, cop0: Cop0, dma: bool) -> bool {
    &&& keeps_arch(a, b)
    &&& b.mul_div_pending_cycles == a.mul_div_pending_cycles.saturating_sub(a.op_cycles)
    &&& b.cop2_remaining_cycles == a.cop2_remaining_cycles.saturating_sub(a.op_cycles)
    &&& exists|ms: Seq<M>| #![trigger flushed_run(ms, cop0, a.write_queue.view())]
            flushed_run(ms, cop0, a.write_queue.view())
            && ms[0] == ma
            && (ms.last() == mb || waited_write(ms.last(), mb, cop0, a.write_queue.view(), ms.len() - 1))
            && b.write_queue.view() == a.write_queue.view().skip(ms.len() - 1)
    &&& (a.write_queue.view().len() == 0 || (dma && section_of(a.write_queue.view()[0].0) != MemorySection::ScratchPad))
            ==> mb == ma && b.write_queue == a.write_queue
}

/// An interrupt is to be taken: interrupts enabled (SR bit 0), a pending line unmasked, and no
/// delay requested by the last SR write.
pub open spec fn interrupt_due(c: Cop0) -> bool {
    !c.pending_int_on_next_opcode && (c.regs@[12] & 1u32) == 1u32
        && (((c.regs@[12] >> 8u32) as u8) & ((c.regs@[13] >> 8u32) as u8)) != 0u8
}

/// One instruction from `a` (after the pending work, one cycle counted): a misaligned PC takes
/// the address error exception and an interrupt due takes the interrupt exception (memory
/// untouched, the pending load landing); otherwise the word at PC is fetched
/// (`fetch_outcome`) and, when one comes back, run (`word_executed`).
pub open spec fn instruction_step<M: Memory>(a: Cpu, b: Cpu, ma: M, mb: M, c0a: Cop0, c0b: Cop0, dma: bool) -> bool {
    if a.pc & 3u32 != 0u32 {
        mb == ma && exists|mid: Cpu| #[trigger] exception_taken(a, mid, c0a, c0b, CpuException::AddressErrorLoad(a.pc),
            a.in_branch_delay_slot, a.branch_address, a.last_opcode) && load_landed(mid, b)
    } else if interrupt_due(c0a) {
        mb == ma && exists|mid: Cpu| #[trigger] exception_taken(a, mid, interrupt_checked(c0a), c0b, CpuException::Interrupt,
            a.in_branch_delay_slot, a.branch_address, a.last_opcode) && load_landed(mid, b)
    } else {
        exists|a1: Cpu, m1: M, c01: Cop0, w: Option<u32>|
            #![trigger fetch_outcome(a, a1, ma, m1, interrupt_checked(c0a), c01, dma, w)]
            fetch_outcome(a, a1, ma, m1, interrupt_checked(c0a), c01, dma, w)
            && match w {
                None => b == a1 && mb == m1 && c0b == c01,
                Some(word) => word_executed(a1, b, m1, mb, c01, c0b, word, dma),
            }
    }
}

/// The CPU at the start of an instruction: one cycle counted, no memory access recorded yet.
pub open spec fn cycle_start(a: Cpu) -> Cpu {
    Cpu { op_cycles: 1, last_mem_read_address: None, last_mem_write_address: None, ..a }
}

/// COP0 after the interrupt check, which consumes the delay request of the last SR write.
pub open spec fn interrupt_checked(c: Cop0) -> Cop0 {
    Cop0 { pending_int_on_next_opcode: false, ..c }
}

/// The console capture step: with capture on, the console line and the completed lines become
/// what `capture_bios_tty` leaves; otherwise nothing changes.
pub open spec fn tty_captured(a: Cpu, b: Cpu) -> bool {
    if a.bios_tty_capture_enabled {
        &&& b == (Cpu { bios_tty_buffer: b.bios_tty_buffer, bios_tty_lines: b.bios_tty_lines, ..a })
        &&& b.bios_tty_buffer@ == tty_buffer_after(a)
        &&& b.bios_tty_lines@ == (if bios_tty_call(a) && a.regs@[4] == 10 {
                a.bios_tty_lines@.push(a.bios_tty_buffer) } else { a.bios_tty_lines@ })
    } else {
        b == a
    }
}

/// What running the fetched instruction word `w` does. The word is recorded as the last opcode;
/// an unknown opcode takes the reserved instruction exception. An instruction that must wait
/// (`stall_decision`) does nothing more (the pending load may land). Otherwise the console
/// capture step runs; a matching execute breakpoint takes the breakpoint exception; else the
/// delay slot ends, the operation runs as `op_semantics` says, and the instruction ends as
/// `instruction_finished` says, PC moving to the branch target in a taken delay slot, otherwise
/// four bytes on.
pub open spec fn word_executed<M: Memory>(a: Cpu, b: Cpu, ma: M, mb: M, c0a: Cop0, c0b: Cop0, w: u32, dma: bool) -> bool {
    let a1 = Cpu { last_opcode: w, ..a };
    let op = decode(w);
    if op == Opcode::UNKNOWN {
        mb == ma && exists|mid: Cpu| #[trigger] exception_taken(a1, mid, c0a, c0b, CpuException::ReservedInstruction(w),
            a1.in_branch_delay_slot, a1.branch_address, w) && load_landed(mid, b)
    } else if stall_decision(a1, op, w, dma).0 is None {
        mb == ma && c0b == c0a && if stall_decision(a1, op, w, dma).1 { load_landed(a1, b) } else { b == a1 }
    } else {
        let uwc = stall_decision(a1, op, w, dma).0.unwrap();
        exists|a2: Cpu| #[trigger] tty_captured(a1, a2) && if pc_breakpoint(c0a, a2.pc) {
            mb == ma && exists|mid: Cpu| #[trigger] exception_taken(a2, mid, c0a, c0b,
                CpuException::BreakPoint(HW_BREAKPOINT_VALUE), a2.in_branch_delay_slot, a2.branch_address, w)
                && load_landed(mid, b)
        } else {
            let was = a2.in_branch_delay_slot;
            let next_pc = if was && a2.branch_taken { a2.branch_address } else { a2.pc.wrapping_add(4) };
            exists|mid: Cpu, c0_mid: Cop0, res: Result<(), CpuException>|
                #[trigger] op_semantics(op, Cpu { in_branch_delay_slot: false, ..a2 }, mid, ma, mb, c0a, c0_mid, w, uwc, res)
                && instruction_finished(mid, b, c0_mid, c0b, res, was, next_pc)
        }
    }
}

impl Cpu {
    fn handle_exception(&mut self, cop0: &mut Cop0, cpu_exception: CpuException, is_branch_delay_slot: bool,
        branch_target_address: u32, opcode: u32)
        requires
            old(self).wf(),
            !(cpu_exception is ReadWriteWait),
        ensures
            final(self).wf(),
            exception_taken(*old(self), *final(self), *old(cop0), *final(cop0), cpu_exception, is_branch_delay_slot,
                branch_target_address, opcode),
    {
        self.apply_delayed_load();
        self.in_branch_delay_slot = false;
        let pc = self.pc;
        let taken = self.branch_taken;
        self.pc = cop0.do_exception(pc, cpu_exception, is_branch_delay_slot, taken, branch_target_address, opcode);
    }

    /// Records a character the BIOS prints through its console functions (A0h:3Ch, B0h:3Dh);
    /// a line feed completes the line.
    fn capture_bios_tty(&mut self)
        requires
            old(self).wf(),
        ensures
            final(self).wf(),
            keeps_arch(*old(self), Cpu { bios_tty_buffer: old(self).bios_tty_buffer, bios_tty_lines: old(self).bios_tty_lines, ..*final(self) }),
            *final(self) == (Cpu { bios_tty_buffer: final(self).bios_tty_buffer, bios_tty_lines: final(self).bios_tty_lines, ..*old(self) }),
            final(self).bios_tty_buffer@ == tty_buffer_after(*old(self)),
            final(self).bios_tty_lines@ == (if bios_tty_call(*old(self)) && old(self).regs@[4] == 10 {
                old(self).bios_tty_lines@.push(old(self).bios_tty_buffer) } else { old(self).bios_tty_lines@ }),
    {
        let pc = self.pc & 0x1FFF_FFFF;
        if (pc == 0xA0 && self.regs[9] == 0x3C) || (pc == 0xB0 && self.regs[9] == 0x3D) {
            if self.regs[4] == 10 {
                let mut line = String::new();
                std::mem::swap(&mut line, &mut self.bios_tty_buffer);
                self.bios_tty_lines.push(line);
            } else {
                match char_from_u32(self.regs[4]) {
                    Some(ch) => {
                        proof { lemma_char_of_code(ch, self.regs[4]); }
                        push_char(&mut self.bios_tty_buffer, ch);
                    },
                    None => {},
                }
            }
        }
    }

    /// Fetches the instruction at PC, through the instruction cache for cached segments. `None`
    /// when the fetch stalls for DMA or faults (the bus error exception is then taken).
    fn fetch_instruction<M: Memory>(&mut self, memory: &mut M, cop0: &mut Cop0, dma_in_progress: bool) -> (r: Option<u32>)
        requires
            old(self).wf(),
            accepts_all(*old(memory)),
            old(self).op_cycles == 1,
        ensures
            final(self).wf(),
            forall|a: u32, s: usize| final(memory).accepts(a, s) == old(memory).accepts(a, s),
            old(self).regs@[0] == 0 ==> final(self).regs@[0] == 0,
            r is Some ==> keeps_arch(*old(self), *final(self)) && *final(cop0) == *old(cop0),
            fetch_outcome(*old(self), *final(self), *old(memory), *final(memory), *old(cop0), *final(cop0), dma_in_progress, r),
    {
        let pc = self.pc;
        let pc_segment = get_memory_seg(pc);
        if pc_segment.is_cached() {
            proof {
                lemma_cached_line_room(pc);
                assert forall|k: u32| k < 4 implies #[trigger] memory.accepts(((pc & !0xFu32) + 4 * k) as u32, 32) by {};
            }
            let ICacheResult(op, cycles, hit) = self.i_cache.read(pc, memory);
            if dma_in_progress && !hit {
                return None;
            }
            self.op_cycles = self.op_cycles + cycles;
            Some(op)
        } else {
            if dma_in_progress {
                return None;
            }
            match memory.read::<32>(pc, true) {
                ReadMemoryAccess::Read(op, penalty_cycles) => {
                    self.op_cycles = self.op_cycles.saturating_add(penalty_cycles);
                    Some(op)
                },
                ReadMemoryAccess::BusError | ReadMemoryAccess::MemoryError => {
                    let in_delay = self.in_branch_delay_slot;
                    let target = self.branch_address;
                    let last = self.last_opcode;
                    self.handle_exception(cop0, CpuException::BusErrorFetch(pc), in_delay, target, last);
                    let ghost mid = *self;
                    self.apply_delayed_load();
                    assert(load_landed(mid, *self));
                    None
                },
                ReadMemoryAccess::Wait => Some(0),
            }
        }
    }

    /// Whether a decoded instruction must wait before it runs: HI/LO still busy, a cached store
    /// with the write queue full, a load of an address with a pending write, any load while writes
    /// are pending to uncached memory, or memory the DMA is using. `None` to wait (the pending
    /// load may land); otherwise whether a store goes through the write queue.
    fn check_stalls(&mut self, opcode: Opcode, i: &Instruction, dma_in_progress: bool) -> (r: Option<bool>)
        requires
            old(self).wf(),
            opcode == decode(i.0),
        ensures
            final(self).wf(),
            old(self).regs@[0] == 0 ==> final(self).regs@[0] == 0,
            r is Some ==> *final(self) == *old(self),
            r == Some(true) ==> is_store(opcode) && (seg_of(mem_address(old(self).regs@, i.0)) == MemorySegment::KUSEG
                || seg_of(mem_address(old(self).regs@, i.0)) == MemorySegment::KUSEG0),
            r is Some && is_store(opcode) && (seg_of(mem_address(old(self).regs@, i.0)) == MemorySegment::KUSEG
                || seg_of(mem_address(old(self).regs@, i.0)) == MemorySegment::KUSEG0) ==> r == Some(true)
                && old(self).write_queue.view().len() < 4,
            r is Some && is_load(opcode) ==> !dma_in_progress ==> old(self).write_queue.view().len() == 0,
            r is Some && (opcode == Opcode::MFHI || opcode == Opcode::MFLO || opcode == Opcode::MTHI || opcode == Opcode::MTLO)
                ==> old(self).mul_div_pending_cycles == 0,
            r == stall_decision(*old(self), opcode, i.0, dma_in_progress).0,
            if stall_decision(*old(self), opcode, i.0, dma_in_progress).1 {
                load_landed(*old(self), *final(self))
            } else {
                *final(self) == *old(self)
            },
    {
        if opcode.is_accessing_hi_low() && self.mul_div_pending_cycles > 0 {
            self.apply_delayed_load();
            return None;
        }
        let mut use_write_cache = false;
        if opcode.is_write_memory() {
            let target = self.regs[i.rs()].wrapping_add(i.signed_immediate16());
            use_write_cache = get_memory_seg(target).is_cached();
            if !use_write_cache && dma_in_progress {
                match get_memory_section(target) {
                    MemorySection::ScratchPad => {},
                    _ => return None,
                }
            }
            if use_write_cache && self.write_queue.is_full() {
                self.apply_delayed_load();
                return None;
            }
        } else if opcode.is_read_memory() {
            let target = self.regs[i.rs()].wrapping_add(i.signed_immediate16());
            if get_memory_seg(target).is_cached() {
                if self.write_queue.exists_address(target) {
                    self.apply_delayed_load();
                    return None;
                }
            }
            if dma_in_progress {
                match get_memory_section(target) {
                    MemorySection::IOPorts | MemorySection::MainRAM => {
                        return None;
                    },
                    _ => {},
                }
            } else if !self.write_queue.is_empty() {
                self.apply_delayed_load();
                return None;
            }
        }
        Some(use_write_cache)
    }

    /// Runs one instruction: drains the write queue, takes a pending interrupt or an alignment
    /// fault, fetches through the instruction cache (or directly from uncached memory), stalls
    /// when the instruction must wait (HI/LO busy, full write queue, pending write to the address
    /// read, DMA), then executes it. Returns the cycles it took.
    pub fn execute_next_instruction<M: Memory>(&mut self, memory: &mut M, cop0: &mut Cop0, dma_in_progress: bool) -> (r: usize)
        requires
            old(self).wf(),
            accepts_all(*old(memory)),
        ensures
            final(self).wf(),
            r == final(self).op_cycles,
            r >= 1,
            forall|a: u32, s: usize| final(memory).accepts(a, s) == old(memory).accepts(a, s),
            old(self).regs@[0] == 0 ==> final(self).regs@[0] == 0,
            old(self).pc & 3u32 != 0u32 ==> final(self).pc == handler_address(final(cop0).regs@[12],
                CpuException::AddressErrorLoad(old(self).pc))
                && final(cop0).regs@ == exception_regs(old(cop0).regs@, old(self).pc, CpuException::AddressErrorLoad(old(self).pc),
                    old(self).in_branch_delay_slot, old(self).branch_taken, old(self).branch_address, old(self).last_opcode),
            old(self).pc & 3u32 == 0u32 && !old(cop0).pending_int_on_next_opcode && (old(cop0).regs@[12] & 1u32) == 1u32
                && (((old(cop0).regs@[12] >> 8u32) as u8) & ((old(cop0).regs@[13] >> 8u32) as u8)) != 0u8
                ==> final(self).pc == handler_address(final(cop0).regs@[12], CpuException::Interrupt)
                && final(cop0).regs@ == exception_regs(old(cop0).regs@, old(self).pc, CpuException::Interrupt,
                    old(self).in_branch_delay_slot, old(self).branch_taken, old(self).branch_address, old(self).last_opcode)
                && r == 1,
            old(self).pc & 3u32 != 0u32 ==> r == 1,
            exists|au: Cpu, mu: M| #![trigger pending_done(*old(self), au, *old(memory), mu, *old(cop0), dma_in_progress)]
                pending_done(*old(self), au, *old(memory), mu, *old(cop0), dma_in_progress)
                && instruction_step(cycle_start(au), *final(self), mu, *final(memory), *old(cop0), *final(cop0), dma_in_progress),
    {
        self.update_pending_operations(memory, cop0, dma_in_progress);
        let ghost au = *self;
        let ghost mu = *memory;
        assert(pending_done(*old(self), au, *old(memory), mu, *old(cop0), dma_in_progress));
        assert(accepts_all(*memory)) by {
            assert forall|a: u32, s: usize| (s == 8 || s == 16 || s == 32) implies #[trigger] memory.accepts(a, s) by {
                assert(old(memory).accepts(a, s));
            };
        };
        self.op_cycles = 1;
        self.last_mem_read_address = None;
        self.last_mem_write_address = None;
        if (self.pc & 3) != 0 {
            let pc = self.pc;
            let in_delay = self.in_branch_delay_slot;
            let target = self.branch_address;
            let last = self.last_opcode;
            let ghost a0 = *self;
            assert(a0 == cycle_start(au));
            self.handle_exception(cop0, CpuException::AddressErrorLoad(pc), in_delay, target, last);
            let ghost mid = *self;
            self.apply_delayed_load();
            assert(exception_taken(a0, mid, *old(cop0), *cop0, CpuException::AddressErrorLoad(a0.pc),
                a0.in_branch_delay_slot, a0.branch_address, a0.last_opcode) && load_landed(mid, *self));
            return self.op_cycles;
        }
        if cop0.check_interrupt_pending() {
            let in_delay = self.in_branch_delay_slot;
            let target = self.branch_address;
            let last = self.last_opcode;
            let ghost a0 = *self;
            assert(a0 == cycle_start(au));
            let ghost c0i = *cop0;
            assert(c0i == interrupt_checked(*old(cop0)));
            self.handle_exception(cop0, CpuException::Interrupt, in_delay, target, last);
            let ghost mid = *self;
            self.apply_delayed_load();
            assert(exception_taken(a0, mid, c0i, *cop0, CpuException::Interrupt,
                a0.in_branch_delay_slot, a0.branch_address, a0.last_opcode) && load_landed(mid, *self));
            return self.op_cycles;
        }
        let ghost a0 = *self;
        let ghost m0 = *memory;
        let ghost c00 = *cop0;
        assert(a0 == (cycle_start(au)));
        assert(c00 == (interrupt_checked(*old(cop0))));
        let fetched = match self.fetch_instruction(memory, cop0, dma_in_progress) {
            Some(op) => op,
            None => {
                assert(fetch_outcome(a0, *self, m0, *memory, c00, *cop0, dma_in_progress, None));
                assert(m0 == mu);
                return self.op_cycles;
            },
        };
        let ghost a1 = *self;
        let ghost m1 = *memory;
        let ghost c01 = *cop0;
        assert(fetch_outcome(a0, a1, m0, m1, c00, c01, dma_in_progress, Some(fetched)));
        assert(m0 == mu);
        self.execute_fetched(memory, cop0, fetched, dma_in_progress)
    }

    /// Runs a fetched instruction word (see `word_executed`); returns the cycles taken so far.
    pub fn execute_fetched<M: Memory>(&mut self, memory: &mut M, cop0: &mut Cop0, fetched: u32, dma_in_progress: bool) -> (r: usize)
        requires
            old(self).wf(),
            accepts_all(*old(memory)),
        ensures
            final(self).wf(),
            r == final(self).op_cycles,
            forall|a: u32, s: usize| final(memory).accepts(a, s) == old(memory).accepts(a, s),
            old(self).regs@[0] == 0 ==> final(self).regs@[0] == 0,
            word_executed(*old(self), *final(self), *old(memory), *final(memory), *old(cop0), *final(cop0), fetched, dma_in_progress),
            r >= old(self).op_cycles,
    {
        self.last_opcode = fetched;
        let ghost a1 = *self;
        let i = Instruction(fetched);
        let opcode = Opcode::from_instruction(&i);
        if opcode == Opcode::UNKNOWN {
            let in_delay = self.in_branch_delay_slot;
            let target = self.branch_address;
            self.handle_exception(cop0, CpuException::ReservedInstruction(fetched), in_delay, target, fetched);
            let ghost mid = *self;
            self.apply_delayed_load();
            assert(load_landed(mid, *self));
            return self.op_cycles;
        }
        let use_write_cache = match self.check_stalls(opcode, &i, dma_in_progress) {
            Some(c) => c,
            None => return self.op_cycles,
        };
        if self.bios_tty_capture_enabled {
            self.capture_bios_tty();
        }
        let ghost a2 = *self;
        assert(tty_captured(a1, a2));
        let pc = self.pc;
        if cop0.is_at_pc_breakpoint(pc) {
            let in_delay = self.in_branch_delay_slot;
            let target = self.branch_address;
            self.handle_exception(cop0, CpuException::BreakPoint(HW_BREAKPOINT_VALUE), in_delay, target, fetched);
            let ghost mid = *self;
            self.apply_delayed_load();
            assert(load_landed(mid, *self));
            return self.op_cycles;
        }
        let was_in_branch_delay_slot = self.in_branch_delay_slot;
        self.in_branch_delay_slot = false;
        let next_pc = if was_in_branch_delay_slot && self.branch_taken { self.branch_address } else { pc.wrapping_add(4) };
        self.run_instruction(memory, cop0, opcode, &i, use_write_cache, was_in_branch_delay_slot, next_pc);
        self.op_cycles
    }

    /// Executes a decoded instruction and ends it (see `instruction_finished`).
    fn run_instruction<M: Memory>(&mut self, memory: &mut M, cop0: &mut Cop0, opcode: Opcode, i: &Instruction,
        use_write_cache: bool, was_in_branch_delay_slot: bool, next_pc: u32)
        requires
            opcode == decode(i.0),
            opcode != Opcode::UNKNOWN,
            old(self).wf(),
            accepts_all(*old(memory)),
            use_write_cache ==> is_store(opcode) && (seg_of(mem_address(old(self).regs@, i.0)) == MemorySegment::KUSEG
                || seg_of(mem_address(old(self).regs@, i.0)) == MemorySegment::KUSEG0),
        ensures
            final(self).wf(),
            forall|a: u32, s: usize| final(memory).accepts(a, s) == old(memory).accepts(a, s),
            old(self).regs@[0] == 0 ==> final(self).regs@[0] == 0,
            exists|mid: Cpu, mem_mid: M, c0_mid: Cop0, res: Result<(), CpuException>|
                #[trigger] op_semantics(opcode, *old(self), mid, *old(memory), mem_mid, *old(cop0), c0_mid, i.0, use_write_cache, res)
                && mem_mid == *final(memory)
                && instruction_finished(mid, *final(self), c0_mid, *final(cop0), res, was_in_branch_delay_slot, next_pc),
            final(self).op_cycles >= old(self).op_cycles,
    {
        let ghost a0 = *self;
        let ghost m0 = *memory;
        let ghost c00 = *cop0;
        let result = self.execute_op(memory, cop0, opcode, i, use_write_cache);
        let ghost mid = *self;
        let ghost c0_mid = *cop0;
        proof {
            assert(op_semantics(opcode, a0, mid, m0, *memory, c00, c0_mid, i.0, use_write_cache, result));
        }
        match result {
            Ok(()) => {
                self.pc = next_pc;
                self.apply_delayed_load();
            },
            Err(ex) => {
                if ex == CpuException::ReadWriteWait {
                    self.in_branch_delay_slot = was_in_branch_delay_slot;
                    proof { lemma_wait_keeps_regs(opcode, a0, mid, m0, *memory, c00, c0_mid, i.0, use_write_cache); }
                } else {
                    let target = self.branch_address;
                    let last = self.last_opcode;
                    self.handle_exception(cop0, ex, was_in_branch_delay_slot, target, last);
                }
            },
        }
    }
}


/// A conditional branch never fails and leaves the CPU in its delay slot, with the target at
/// the delay slot address plus four times the signed offset, taken by its register values:
/// BEQ when rs equals rt, BNE when they differ; as 32-bit signed numbers, BLTZ and BLTZAL when
/// rs is negative (top bit set), BGEZ and BGEZAL when it is not, BLEZ when rs is zero or
/// negative, BGTZ when it is positive.
pub proof fn lemma_branch_taken(op: Opcode, a: Cpu, b: Cpu, i: u32, r: Result<(), CpuException>)
    requires
        op == Opcode::BEQ || op == Opcode::BNE || op == Opcode::BLTZ || op == Opcode::BGEZ || op == Opcode::BLEZ
            || op == Opcode::BGTZ || op == Opcode::BLTZAL || op == Opcode::BGEZAL,
        simple_step(op, a, b, i, r) == Some(true),
    ensures
        r is Ok,
        b.in_branch_delay_slot,
        b.branch_address == branch_target(a.pc, i),
        ({
            let rs = a.regs@[rs_idx(i)];
            let rt = a.regs@[rt_idx(i)];
            b.branch_taken == match op {
                Opcode::BEQ => rs == rt,
                Opcode::BNE => rs != rt,
                Opcode::BLTZ | Opcode::BLTZAL => rs >= 0x8000_0000u32,
                Opcode::BGEZ | Opcode::BGEZAL => rs < 0x8000_0000u32,
                Opcode::BLEZ => rs == 0 || rs >= 0x8000_0000u32,
                _ => 0 < rs && rs < 0x8000_0000u32,
            }
        }),
        (op == Opcode::BLTZAL || op == Opcode::BGEZAL) ==> b.regs@[31] == a.pc.wrapping_add(8),
{
    let rs = a.regs@[rs_idx(i)];
    crate::memory::bus::lemma_bus_bits(0, 0, 0, 0, 0, 0, 0, 0, rs, 0, 0, 0, 0, 0, 0);
}

/// An absolute jump goes to the top four bits of the PC followed by the 26-bit index times
/// four.
pub proof fn lemma_jump_target(pc: u32, i: u32)
    ensures
        jump_target(pc, i) as int == (pc as int / 0x1000_0000) * 0x1000_0000 + (i as int % 0x400_0000) * 4,
{
    crate::memory::bus::lemma_bus_bits(0, 0, 0, 0, 0, 0, 0, 0, 0, pc, i, 0, 0, 0, 0);
}


/// A word read as a 32-bit two's complement number.
pub open spec fn signed_value(v: u32) -> int {
    if v < 0x8000_0000 { v as int } else { v as int - 0x1_0000_0000 }
}

/// The 16-bit immediate of an instruction word, sign-extended.
pub open spec fn imm_value(i: u32) -> int {
    let h = i as int % 0x10000;
    if h < 0x8000 { h } else { h - 0x10000 }
}

proof fn lemma_word_values(u: u32, i: u32)
    ensures
        (u as i32) as int == signed_value(u),
        simm(i) as int == imm_value(i) % 0x1_0000_0000,
        signed_value(simm(i)) == imm_value(i),
        uimm(i) as int == i as int % 0x10000,
        (uimm(i) << 16u32) as int == (i as int % 0x10000) * 0x10000,
        (simm(i) << 2u32) as int == (simm(i) as int * 4) % 0x1_0000_0000,
{
    crate::memory::bus::lemma_bus_bits(0, 0, 0, 0, 0, 0, 0, 0, u, 0, 0, i, 0, simm(i), 0);
    crate::memory::bus::lemma_bus_bits(0, 0, 0, 0, 0, 0, 0, 0, simm(i), 0, 0, 0, 0, 0, 0);
    if u >= 0x8000_0000u32 {
        assert((u as i32) as int == u as int - 0x1_0000_0000);
    }
    let s = simm(i);
    assert((s as int % 0x4000_0000) * 4 == (s as int * 4) % 0x1_0000_0000) by (nonlinear_arith)
        requires 0 <= s;
}

/// The arithmetic and comparison operations on their operands as numbers: ADDU, SUBU and
/// ADDIU add or subtract modulo 2^32 (the immediate sign-extended); ADD, SUB and ADDI trap
/// exactly when the signed result leaves the 32-bit range and otherwise give it; SLT and SLTI
/// compare as signed numbers, SLTU and SLTIU as unsigned ones (the immediate sign-extended
/// first); LUI puts the immediate in the upper half; ANDI, ORI and XORI take it zero-extended.
pub proof fn lemma_alu_arithmetic(op: Opcode, rs: u32, rt: u32, i: u32)
    ensures
        ({
            let v = alu_value(op, rs, rt, i);
            let m = 0x1_0000_0000int;
            let (srs, srt, imm) = (signed_value(rs), signed_value(rt), imm_value(i));
            &&& op == Opcode::ADDU ==> v as int == (rs as int + rt as int) % m
            &&& op == Opcode::SUBU ==> v as int == (rs as int - rt as int) % m
            &&& op == Opcode::ADDIU ==> v as int == (rs as int + imm) % m
            &&& op == Opcode::ADD ==> (alu_overflows(op, rs, rt, i) <==> !(-0x8000_0000 <= srs + srt < 0x8000_0000))
                && (!alu_overflows(op, rs, rt, i) ==> signed_value(v) == srs + srt)
            &&& op == Opcode::SUB ==> (alu_overflows(op, rs, rt, i) <==> !(-0x8000_0000 <= srs - srt < 0x8000_0000))
                && (!alu_overflows(op, rs, rt, i) ==> signed_value(v) == srs - srt)
            &&& op == Opcode::ADDI ==> (alu_overflows(op, rs, rt, i) <==> !(-0x8000_0000 <= srs + imm < 0x8000_0000))
                && (!alu_overflows(op, rs, rt, i) ==> signed_value(v) == srs + imm)
            &&& op == Opcode::SLT ==> v == (if srs < srt { 1u32 } else { 0u32 })
            &&& op == Opcode::SLTU ==> v == (if rs < rt { 1u32 } else { 0u32 })
            &&& op == Opcode::SLTI ==> v == (if srs < imm { 1u32 } else { 0u32 })
            &&& op == Opcode::SLTIU ==> v == (if (rs as int) < imm % m { 1u32 } else { 0u32 })
            &&& op == Opcode::LUI ==> v as int == (i as int % 0x10000) * 0x10000
            &&& op == Opcode::ANDI ==> v == rs & ((i as int % 0x10000) as u32)
            &&& op == Opcode::ORI ==> v == rs | ((i as int % 0x10000) as u32)
            &&& op == Opcode::XORI ==> v == rs ^ ((i as int % 0x10000) as u32)
        }),
{
    lemma_word_values(rs, i);
    lemma_word_values(rt, i);
    lemma_word_values(simm(i), i);
    let v = alu_value(op, rs, rt, i);
    if op == Opcode::ADD || op == Opcode::SUB || op == Opcode::ADDI {
        let n: int = if op == Opcode::ADD { signed_value(rs) + signed_value(rt) }
            else if op == Opcode::SUB { signed_value(rs) - signed_value(rt) }
            else { signed_value(rs) + imm_value(i) };
        if -0x8000_0000 <= n < 0x8000_0000 {
            let a = n as i32;
            assert(a as int == n);
            assert(v == a as u32);
            crate::memory::bus::lemma_bus_bits(0, 0, 0, 0, 0, 0, 0, 0, v, 0, 0, 0, a, 0, 0);
            assert((v as i32) == a);
        }
    }
}

/// A relative branch goes to the delay slot address plus four times the sign-extended offset,
/// modulo 2^32.
pub proof fn lemma_branch_target(pc: u32, i: u32)
    ensures
        branch_target(pc, i) as int == (pc as int + 4 + 4 * imm_value(i)) % 0x1_0000_0000,
{
    lemma_word_values(0, i);
    let m = 0x1_0000_0000int;
    let s = simm(i) as int;
    assert(s == imm_value(i) % m);
    assert(((s * 4) % m) == (4 * imm_value(i)) % m) by (nonlinear_arith)
        requires s == imm_value(i) % m, m == 0x1_0000_0000int;
    assert((((pc as int + 4) % m) + (s * 4) % m) % m == (pc as int + 4 + 4 * imm_value(i)) % m) by (nonlinear_arith)
        requires (s * 4) % m == (4 * imm_value(i)) % m, m == 0x1_0000_0000int;
}

/// An unsigned division by a non-zero divisor gives the quotient in LO and the remainder in HI:
/// LO * rt + HI == rs with HI below rt.
pub proof fn lemma_divu(rs: u32, rt: u32)
    requires
        rt != 0,
    ensures
        ({
            let (hi, lo) = div_result(false, rs, rt);
            &&& lo as int * rt as int + hi as int == rs as int
            &&& hi < rt
        }),
{
    let (hi, lo) = div_result(false, rs, rt);
    assert(lo as int * rt as int + hi as int == rs as int) by (nonlinear_arith)
        requires rt != 0, hi == rs % rt, lo == rs / rt;
}


/// An unsigned multiplication leaves the full 64-bit product in HI (upper word) and LO.
pub proof fn lemma_multu(rs: u32, rt: u32)
    ensures
        ({
            let (hi, lo) = mult_result(false, rs, rt);
            hi as int * 0x1_0000_0000 + lo as int == rs as int * rt as int
        }),
{
    let p = rs as int * rt as int;
    assert(0 <= p <= 0xFFFF_FFFF * 0xFFFF_FFFF) by (nonlinear_arith)
        requires p == rs as int * rt as int, rs <= 0xFFFF_FFFF, rt <= 0xFFFF_FFFF;
    crate::memory::bus::lemma_bus_bits(0, 0, 0, 0, 0, 0, 0, 0, 0, 0, 0, 0, 0, 0, p as u64);
}

/// A load or store reaches the base register plus the sign-extended offset, modulo 2^32.
pub proof fn lemma_mem_address(regs: Seq<u32>, i: u32)
    ensures
        mem_address(regs, i) as int == (regs[rs_idx(i)] as int + imm_value(i)) % 0x1_0000_0000,
{
    lemma_word_values(0, i);
}


/// LB and LH sign-extend the byte or halfword loaded to 32 bits; LBU, LHU and LW keep the value
/// loaded as it is.
pub proof fn lemma_load_extension(a: Cpu, d: u32, addr: u32, rt: int)
    ensures
        ({
            let b = d as int % 0x100;
            let h = d as int % 0x10000;
            &&& load_value(Opcode::LB, a, d, addr, rt) as int == (if b < 0x80 { b } else { b + 0xFFFF_FF00 })
            &&& load_value(Opcode::LH, a, d, addr, rt) as int == (if h < 0x8000 { h } else { h + 0xFFFF_0000 })
            &&& load_value(Opcode::LBU, a, d, addr, rt) == d
            &&& load_value(Opcode::LHU, a, d, addr, rt) == d
            &&& load_value(Opcode::LW, a, d, addr, rt) == d
        }),
{
    crate::memory::bus::lemma_bus_bits(0, 0, 0, 0, 0, 0, 0, 0, 0, 0, 0, d, 0, 0, 0);
}

} // verus!
