use vstd::prelude::*;
use crate::memory::{Memory, ReadMemoryAccess};

pub mod cop0;
pub mod disassembler;
pub mod instruction;
pub mod cop2;
pub mod processor;

pub use processor::Cpu;

verus! {

/// Address the CPU starts from after a reset.
pub const RESET_ADDRESS: u32 = 0xBFC00000;
/// Cycles taken to refill an instruction cache line.
pub const ICACHE_LINE_CYCLES: usize = 8;

/// The exceptions of the R3000A, with the data each one records.
#[derive(Debug, Clone, Copy, PartialEq, Eq, Structural)]
pub enum CpuException {
    Interrupt,
    AddressErrorLoad(u32),
    AddressErrorStore(u32),
    BusErrorFetch(u32),
    BusErrorData(u32),
    SysCall(u32),
    BreakPoint(u32),
    ReservedInstruction(u32),
    CoprocessorUnusable(usize),
    ArithmeticOverflow,
    Reset,
    /// Internal only: the access must be retried.
    ReadWriteWait,
}

/// The CAUSE exception code of an exception.
pub open spec fn exception_code(e: CpuException) -> usize {
    match e {
        CpuException::Interrupt => 0,
        CpuException::AddressErrorLoad(_) => 4,
        CpuException::AddressErrorStore(_) => 5,
        CpuException::BusErrorFetch(_) => 6,
        CpuException::BusErrorData(_) => 7,
        CpuException::SysCall(_) => 8,
        CpuException::BreakPoint(_) => 9,
        CpuException::ReservedInstruction(_) => 10,
        CpuException::CoprocessorUnusable(_) => 11,
        CpuException::ArithmeticOverflow => 12,
        CpuException::Reset => 32,
        CpuException::ReadWriteWait => 0,
    }
}

impl CpuException {
    /// The CAUSE exception code (the internal wait has none).
    pub fn id(&self) -> (r: usize)
        requires
            !(*self is ReadWriteWait),
        ensures
            r == exception_code(*self),
    {
        match self {
            CpuException::Interrupt => 0,
            CpuException::AddressErrorLoad(_) => 4,
            CpuException::AddressErrorStore(_) => 5,
            CpuException::BusErrorFetch(_) => 6,
            CpuException::BusErrorData(_) => 7,
            CpuException::SysCall(_) => 8,
            CpuException::BreakPoint(_) => 9,
            CpuException::ReservedInstruction(_) => 10,
            CpuException::CoprocessorUnusable(_) => 11,
            CpuException::ArithmeticOverflow => 12,
            CpuException::Reset => 32,
            CpuException::ReadWriteWait => 0,
        }
    }
}

/// Result of a coprocessor access: the value read (0 for writes and commands) and the cycle penalty.
#[derive(Clone, Copy, Debug, PartialEq, Eq, Structural)]
pub struct CopResult(pub u32, pub usize);

/// A coprocessor attached to the CPU, with 32 data and 32 control registers.
pub trait Coprocessor {
    fn get_name(&self) -> &'static str;

    fn read_data_register(&self, reg_index: usize) -> CopResult
        requires
            reg_index < 32,
    ;

    fn write_data_register(&mut self, reg_index: usize, value: u32) -> CopResult
        requires
            reg_index < 32,
    ;

    fn read_control_register(&self, reg_index: usize) -> CopResult
        requires
            reg_index < 32,
    ;

    fn write_control_register(&mut self, reg_index: usize, value: u32) -> CopResult
        requires
            reg_index < 32,
    ;

    fn execute_command(&mut self, cmd: u32) -> CopResult;
}

impl Coprocessor for cop2::Cop2 {
    fn get_name(&self) -> &'static str {
        "cop2"
    }

    fn read_data_register(&self, reg_index: usize) -> (r: CopResult)
        ensures
            r == CopResult(cop2::read_data_spec(*self, reg_index as int), 0),
    {
        CopResult(self.read_data(reg_index), 0)
    }

    fn write_data_register(&mut self, reg_index: usize, value: u32) -> (r: CopResult)
        ensures
            *final(self) == cop2::write_data_spec(*old(self), reg_index as int, value),
            r == CopResult(0, cop2::GTE_REG_WRITE_CYCLES),
    {
        self.write_data(reg_index, value);
        CopResult(0, cop2::GTE_REG_WRITE_CYCLES)
    }

    fn read_control_register(&self, reg_index: usize) -> (r: CopResult)
        ensures
            r == CopResult(cop2::read_control_spec(*self, reg_index as int), 0),
    {
        CopResult(self.read_control(reg_index), 0)
    }

    fn write_control_register(&mut self, reg_index: usize, value: u32) -> (r: CopResult)
        ensures
            *final(self) == cop2::write_control_spec(*old(self), reg_index as int, value),
            r == CopResult(0, cop2::GTE_REG_WRITE_CYCLES),
    {
        self.write_control(reg_index, value);
        CopResult(0, cop2::GTE_REG_WRITE_CYCLES)
    }

    fn execute_command(&mut self, cmd: u32) -> (r: CopResult)
        ensures
            *final(self) == cop2::fix_flags(cop2::run_spec(cop2::setup_spec(*old(self), cmd), cmd & 0x3Fu32)),
            r == CopResult(0, cop2::command_penalty_spec(cmd & 0x3Fu32)),
    {
        self.execute(cmd)
    }
}

// ---------------------------------------------------------------------------
// Instruction cache
// ---------------------------------------------------------------------------

/// One 16-byte line of the instruction cache.
#[derive(Copy, Clone, Debug)]
pub struct CacheLine {
    pub valid: bool,
    /// Address bits 31..12 of the cached line.
    pub tag: u32,
    pub line: [u32; 4],
}

impl CacheLine {
    pub fn new() -> (r: CacheLine)
        ensures
            !r.valid,
            r.tag == 0,
            r.line@ == seq![0u32, 0u32, 0u32, 0u32],
    {
        let r = CacheLine { valid: false, tag: 0, line: [0u32, 0u32, 0u32, 0u32] };
        proof { assert(r.line@ =~= seq![0u32, 0u32, 0u32, 0u32]); }
        r
    }

    pub fn reset(&mut self)
        ensures
            *final(self) == (CacheLine { valid: false, ..*old(self) }),
    {
        self.valid = false;
    }
}

/// The value read, the cycle penalty, and whether it was a cache hit.
#[derive(Copy, Clone, Debug)]
pub struct ICacheResult(pub u32, pub usize, pub bool);

/// Line index (address bits 11..4).
pub open spec fn line_index(address: u32) -> int {
    ((address >> 4u32) & 0xFFu32) as int
}

/// Word offset within the line (address bits 3..2).
pub open spec fn word_offset(address: u32) -> int {
    ((address & 0x0Fu32) >> 2u32) as int
}

/// Line tag (address bits 31..12).
pub open spec fn line_tag(address: u32) -> u32 {
    address >> 12u32
}

proof fn lemma_cache_fields(address: u32)
    ensures
        0 <= line_index(address) < 256,
        0 <= word_offset(address) < 4,
{
    assert(((address >> 4u32) & 0xFFu32) < 256u32) by (bit_vector);
    assert(((address & 0x0Fu32) >> 2u32) < 4u32) by (bit_vector);
}

/// The 4 KB direct-mapped instruction cache (256 lines of 4 words).
pub struct ICache {
    pub lines: Vec<CacheLine>,
    pub cache_miss: usize,
    pub requests: usize,
}

/// The word a fetch answered: the value read, or zero when the read failed.
pub open spec fn fetched_word(r: ReadMemoryAccess) -> u32 {
    match r {
        ReadMemoryAccess::Read(v, _) => v,
        _ => 0,
    }
}

/// Word `k` of a refilled line is what the fetch of its address answered, taking `ms[k]` to `ms[k + 1]`.
pub open spec fn fill_step<M: Memory>(ms: Seq<M>, base: u32, words: Seq<u32>, k: int) -> bool {
    exists|rr: ReadMemoryAccess| #[trigger] ms[k].reads(ms[k + 1], (base + 4 * k) as u32, 32, true, rr) && words[k] == fetched_word(rr)
}

/// The four words of the line of `address` were fetched in order through the memory states `ms`.
pub open spec fn line_fill<M: Memory>(ms: Seq<M>, address: u32, words: Seq<u32>) -> bool {
    &&& ms.len() == 5
    &&& forall|k: int| 0 <= k < 4 ==> #[trigger] fill_step(ms, address & !0xFu32, words, k)
}

/// What a read of `address` does to the cache and returns.
pub open spec fn icache_read_outcome(old: ICache, address: u32, new: ICache, r: ICacheResult) -> bool {
    let i = line_index(address);
    let hit = old.lines@[i].valid && old.lines@[i].tag == line_tag(address);
    &&& new.lines@.len() == old.lines@.len()
    &&& r.2 == hit
    &&& r.1 == (if hit { 0 } else { ICACHE_LINE_CYCLES })
    &&& r.0 == new.lines@[i].line@[word_offset(address)]
    &&& new.lines@[i].valid
    &&& new.lines@[i].tag == line_tag(address)
    &&& hit ==> new.lines@ == old.lines@
    &&& forall|j: int| 0 <= j < new.lines@.len() && j != i ==> new.lines@[j] == old.lines@[j]
    &&& new.requests == old.requests.saturating_add(1)
    &&& new.cache_miss == (if hit { old.cache_miss } else { old.cache_miss.saturating_add(1) })
}

impl ICache {
    pub open spec fn wf(&self) -> bool {
        self.lines@.len() == 256
    }

    /// An empty cache: every line invalid.
    pub fn new() -> (r: ICache)
        ensures
            r.wf(),
            forall|j: int| 0 <= j < 256 ==> !(#[trigger] r.lines@[j]).valid,
            r.cache_miss == 0,
            r.requests == 0,
    {
        let mut lines: Vec<CacheLine> = Vec::new();
        let mut i: usize = 0;
        while i < 256
            invariant
                i <= 256,
                lines@.len() == i,
                forall|j: int| 0 <= j < i ==> !(#[trigger] lines@[j]).valid,
            decreases 256 - i,
        {
            lines.push(CacheLine::new());
            i += 1;
        }
        ICache { lines, cache_miss: 0, requests: 0 }
    }

    /// Reads the instruction word at `address`, refilling its line from `memory` on a miss.
    pub fn read<M: Memory>(&mut self, address: u32, memory: &mut M) -> (r: ICacheResult)
        requires
            old(self).wf(),
            forall|k: u32| k < 4 ==> #[trigger] old(memory).accepts(((address & !0xFu32) + 4 * k) as u32, 32),
            (address & !0xFu32) + 12 <= u32::MAX,
        ensures
            final(self).wf(),
            icache_read_outcome(*old(self), address, *final(self), r),
            forall|a: u32, s: usize| final(memory).accepts(a, s) == old(memory).accepts(a, s),
            r.2 ==> *final(memory) == *old(memory),
            !r.2 ==> exists|ms: Seq<M>| #![trigger line_fill(ms, address, final(self).lines@[line_index(address)].line@)]
                line_fill(ms, address, final(self).lines@[line_index(address)].line@)
                && ms[0] == *old(memory) && ms[4] == *final(memory),
    {
        proof { lemma_cache_fields(address); }
        self.requests = self.requests.saturating_add(1);
        let index = ((address >> 4u32) & 0xFFu32) as usize;
        let tag = address >> 12u32;
        let offset = ((address & 0x0Fu32) >> 2u32) as usize;
        let mut line = self.lines[index];
        let mut penalty: usize = 0;
        let mut cache_hit = true;
        if !line.valid || line.tag != tag {
            cache_hit = false;
            self.cache_miss = self.cache_miss.saturating_add(1);
            line.valid = true;
            line.tag = tag;
            penalty = ICACHE_LINE_CYCLES;
            let base = address & !0xFu32;
            let mut i: u32 = 0;
            let ghost mut ms: Seq<M> = seq![*memory];
            let ghost m0 = *memory;
            while i < 4
                invariant
                    i <= 4,
                    line.valid,
                    line.tag == tag,
                    base == address & !0xFu32,
                    base + 12 <= u32::MAX,
                    forall|k: u32| k < 4 ==> #[trigger] m0.accepts((base + 4 * k) as u32, 32),
                    forall|a: u32, s: usize| memory.accepts(a, s) == m0.accepts(a, s),
                    ms.len() == i + 1,
                    ms[0] == m0,
                    ms[i as int] == *memory,
                    forall|k: int| 0 <= k < i ==> #[trigger] fill_step(ms, base, line.line@, k),
                decreases 4 - i,
            {
                assert(m0.accepts((base + 4 * i) as u32, 32));
                assert(memory.accepts((base + 4 * i) as u32, 32));
                let ghost before = *memory;
                let ghost old_words = line.line@;
                let rr = memory.read::<32>(base + 4 * i, true);
                let data = match rr {
                    ReadMemoryAccess::Read(data, _) => data,
                    _ => 0,
                };
                line.line.set(i as usize, data);
                proof {
                    let old_ms = ms;
                    ms = ms.push(*memory);
                    assert(before.reads(*memory, (base + 4 * i) as u32, 32, true, rr));
                    assert forall|k: int| 0 <= k < i + 1 implies #[trigger] fill_step(ms, base, line.line@, k) by {
                        if k < i {
                            assert(ms[k] == old_ms[k] && ms[k + 1] == old_ms[k + 1]);
                            assert(fill_step(old_ms, base, old_words, k));
                            let rr0 = choose|rr0: ReadMemoryAccess| #[trigger] old_ms[k].reads(old_ms[k + 1], (base + 4 * k) as u32, 32, true, rr0)
                                && old_words[k] == fetched_word(rr0);
                            assert(line.line@[k] == old_words[k]);
                            assert(ms[k].reads(ms[k + 1], (base + 4 * k) as u32, 32, true, rr0));
                        } else {
                            assert(ms[k] == before && ms[k + 1] == *memory);
                            assert(before.reads(*memory, (base + 4 * k) as u32, 32, true, rr));
                        }
                    };
                }
                i += 1;
            }
            proof {
                assert(line_fill(ms, address, line.line@));
            }
            self.lines.set(index, line);
        }
        ICacheResult(line.line[offset], penalty, cache_hit)
    }

    /// Marks the line of `address` invalid.
    pub fn invalidate_tag(&mut self, address: u32)
        requires
            old(self).wf(),
        ensures
            final(self).wf(),
            final(self).lines@ == old(self).lines@.update(line_index(address),
                CacheLine { valid: false, ..old(self).lines@[line_index(address)] }),
            final(self).requests == old(self).requests,
            final(self).cache_miss == old(self).cache_miss,
    {
        proof { lemma_cache_fields(address); }
        let index = ((address >> 4u32) & 0xFFu32) as usize;
        let mut line = self.lines[index];
        line.valid = false;
        self.lines.set(index, line);
    }

    /// Stores `opcode` in the cached word of `address` (tag and validity untouched).
    pub fn write_opcode(&mut self, address: u32, opcode: u32)
        requires
            old(self).wf(),
        ensures
            final(self).wf(),
            final(self).lines@.len() == 256,
            final(self).lines@[line_index(address)].line@ == old(self).lines@[line_index(address)].line@.update(word_offset(address), opcode),
            final(self).lines@[line_index(address)].valid == old(self).lines@[line_index(address)].valid,
            final(self).lines@[line_index(address)].tag == old(self).lines@[line_index(address)].tag,
            forall|j: int| 0 <= j < 256 && j != line_index(address) ==> final(self).lines@[j] == old(self).lines@[j],
            final(self).requests == old(self).requests,
            final(self).cache_miss == old(self).cache_miss,
    {
        proof { lemma_cache_fields(address); }
        let index = ((address >> 4u32) & 0xFFu32) as usize;
        let offset = ((address & 0x0Fu32) >> 2u32) as usize;
        let mut line = self.lines[index];
        line.line.set(offset, opcode);
        self.lines.set(index, line);
    }

    /// Invalidates every line and clears the statistics.
    pub fn reset(&mut self)
        requires
            old(self).wf(),
        ensures
            final(self).wf(),
            final(self).requests == 0,
            final(self).cache_miss == 0,
            forall|j: int| 0 <= j < 256 ==> !(#[trigger] final(self).lines@[j]).valid,
    {
        self.requests = 0;
        self.cache_miss = 0;
        let mut i: usize = 0;
        while i < 256
            invariant
                i <= 256,
                self.lines@.len() == 256,
                self.requests == 0,
                self.cache_miss == 0,
                forall|j: int| 0 <= j < i ==> !(#[trigger] self.lines@[j]).valid,
            decreases 256 - i,
        {
            let mut line = self.lines[i];
            line.reset();
            self.lines.set(i, line);
            i += 1;
        }
    }
}

/// Reading the same address twice in a row: the second read hits, costs nothing,
/// returns the same word and leaves the lines as they were.
pub proof fn lemma_icache_second_read_hits(s0: ICache, s1: ICache, s2: ICache, address: u32, r1: ICacheResult, r2: ICacheResult)
    requires
        s0.wf(),
        icache_read_outcome(s0, address, s1, r1),
        icache_read_outcome(s1, address, s2, r2),
    ensures
        r2.2,
        r2.1 == 0,
        r2.0 == r1.0,
        s2.lines@ == s1.lines@,
{
}


// ---------------------------------------------------------------------------
// Write queue
// ---------------------------------------------------------------------------

/// The 4-entry queue of pending writes (address, value, size in bytes).
pub struct WriteQueue {
    pub queue: [(u32, u32, usize); 4],
    pub head: usize,
    pub tail: usize,
    pub len: usize,
}

/// True when the pending write `e` covers `address`.
pub open spec fn entry_covers(e: (u32, u32, usize), address: u32) -> bool {
    e.0 <= address && (address as int) < e.0 as int + e.2 as int
}

proof fn lemma_next_slot(x: usize)
    requires
        x < 4,
    ensures
        ((x + 1) as usize) & 3usize == (x + 1) % 4,
        ((x + 2) as usize) & 3usize == (x + 2) % 4,
        ((x + 3) as usize) & 3usize == (x + 3) % 4,
{
    assert(((x + 1) as usize) & 3usize == (x + 1) % 4) by (bit_vector) requires x < 4usize;
    assert(((x + 2) as usize) & 3usize == (x + 2) % 4) by (bit_vector) requires x < 4usize;
    assert(((x + 3) as usize) & 3usize == (x + 3) % 4) by (bit_vector) requires x < 4usize;
}

impl WriteQueue {
    pub open spec fn wf(&self) -> bool {
        &&& self.head < 4
        &&& self.tail < 4
        &&& self.len <= 4
        &&& self.tail == (self.head + self.len) % 4
        &&& forall|i: int| 0 <= i < 4 ==> (#[trigger] self.queue@[i]).0 as int + self.queue@[i].2 as int <= u32::MAX
    }

    /// The pending writes, oldest first.
    pub open spec fn view(&self) -> Seq<(u32, u32, usize)> {
        Seq::new(self.len as nat, |i: int| self.queue@[(self.head + i) % 4])
    }

    pub fn new() -> (r: WriteQueue)
        ensures
            r.wf(),
            r.view() == Seq::<(u32, u32, usize)>::empty(),
    {
        let r = WriteQueue { queue: [(0, 0, 0), (0, 0, 0), (0, 0, 0), (0, 0, 0)], head: 0, tail: 0, len: 0 };
        proof { assert(r.view() =~= Seq::<(u32, u32, usize)>::empty()); }
        r
    }

    pub fn is_empty(&self) -> (r: bool)
        requires
            self.wf(),
        ensures
            r == (self.view().len() == 0),
    {
        self.len == 0
    }

    pub fn is_full(&self) -> (r: bool)
        requires
            self.wf(),
        ensures
            r == (self.view().len() == 4),
    {
        self.len == 4
    }

    /// Appends a pending write; a full queue is left unchanged.
    pub fn enqueue(&mut self, address: u32, value: u32, byte_size: usize)
        requires
            old(self).wf(),
            address as int + byte_size as int <= u32::MAX,
        ensures
            final(self).wf(),
            old(self).view().len() < 4 ==> final(self).view() == old(self).view().push((address, value, byte_size)),
            old(self).view().len() == 4 ==> final(self).view() == old(self).view(),
    {
        if self.len < 4 {
            proof { lemma_next_slot(self.tail); }
            self.queue.set(self.tail, (address, value, byte_size));
            self.tail = (self.tail + 1) & 3;
            self.len += 1;
            proof {
                assert(self.view() =~= old(self).view().push((address, value, byte_size)));
            }
        }
    }

    /// The address of the oldest pending write.
    pub fn peek_address(&self) -> (r: Option<u32>)
        requires
            self.wf(),
        ensures
            self.view().len() == 0 ==> r is None,
            self.view().len() > 0 ==> r == Some(self.view()[0].0),
    {
        if self.len == 0 {
            return None;
        }
        Some(self.queue[self.head].0)
    }

    /// The oldest pending write.
    pub fn peek(&self) -> (r: Option<(u32, u32, usize)>)
        requires
            self.wf(),
        ensures
            self.view().len() == 0 ==> r is None,
            self.view().len() > 0 ==> r == Some(self.view()[0]),
    {
        if self.len == 0 {
            return None;
        }
        Some(self.queue[self.head])
    }

    /// Removes and returns the oldest pending write.
    pub fn dequeue(&mut self) -> (r: Option<(u32, u32, usize)>)
        requires
            old(self).wf(),
        ensures
            final(self).wf(),
            old(self).view().len() == 0 ==> r is None && final(self).view() == old(self).view(),
            old(self).view().len() > 0 ==> r == Some(old(self).view()[0]) && final(self).view() == old(self).view().drop_first(),
    {
        if self.len == 0 {
            return None;
        }
        proof { lemma_next_slot(self.head); }
        let item = self.queue[self.head];
        self.head = (self.head + 1) & 3;
        self.len -= 1;
        proof {
            assert(self.view() =~= old(self).view().drop_first());
        }
        Some(item)
    }

    fn check_entry(&self, idx: usize, address_to_find: u32) -> (r: bool)
        requires
            self.wf(),
            idx < 4,
        ensures
            r == entry_covers(self.queue@[idx as int], address_to_find),
    {
        let (address, _, byte_size) = self.queue[idx];
        address_to_find >= address && address_to_find < address + byte_size as u32
    }

    /// True when some pending write covers `address_to_find`.
    pub fn exists_address(&self, address_to_find: u32) -> (r: bool)
        requires
            self.wf(),
        ensures
            r == exists|i: int| 0 <= i < self.view().len() && entry_covers(#[trigger] self.view()[i], address_to_find),
    {
        if self.len == 0 {
            return false;
        }
        proof { lemma_next_slot(self.head); }
        let ghost v = self.view();
        match self.len {
            1 => {
                let r = self.check_entry(self.head, address_to_find);
                proof {
                    assert(v[0] == self.queue@[self.head as int]);
                }
                r
            },
            2 => {
                let r = self.check_entry(self.head, address_to_find) || self.check_entry((self.head + 1) & 3, address_to_find);
                proof {
                    assert(v[0] == self.queue@[self.head as int]);
                    assert(v[1] == self.queue@[((self.head + 1) % 4) as int]);
                }
                r
            },
            3 => {
                let r = self.check_entry(self.head, address_to_find) || self.check_entry((self.head + 1) & 3, address_to_find)
                    || self.check_entry((self.head + 2) & 3, address_to_find);
                proof {
                    assert(v[0] == self.queue@[self.head as int]);
                    assert(v[1] == self.queue@[((self.head + 1) % 4) as int]);
                    assert(v[2] == self.queue@[((self.head + 2) % 4) as int]);
                }
                r
            },
            _ => {
                let r = self.check_entry(0, address_to_find) || self.check_entry(1, address_to_find)
                    || self.check_entry(2, address_to_find) || self.check_entry(3, address_to_find);
                proof {
                    assert(v[0] == self.queue@[self.head as int]);
                    assert(v[1] == self.queue@[((self.head + 1) % 4) as int]);
                    assert(v[2] == self.queue@[((self.head + 2) % 4) as int]);
                    assert(v[3] == self.queue@[((self.head + 3) % 4) as int]);
                    if r {
                        let k: int = if entry_covers(self.queue@[0], address_to_find) { 0 }
                            else if entry_covers(self.queue@[1], address_to_find) { 1 }
                            else if entry_covers(self.queue@[2], address_to_find) { 2 } else { 3 };
                        let i: int = (k - self.head + 4) % 4;
                        assert(v[i] == self.queue@[k]);
                    }
                }
                r
            },
        }
    }

    /// Empties the queue.
    pub fn reset(&mut self)
        requires
            old(self).wf(),
        ensures
            final(self).wf(),
            final(self).view() == Seq::<(u32, u32, usize)>::empty(),
    {
        self.head = 0;
        self.tail = 0;
        self.len = 0;
        proof { assert(self.view() =~= Seq::<(u32, u32, usize)>::empty()); }
    }
}

/// The queue is first-in first-out: a write enqueued on an empty queue is the next one dequeued.
pub proof fn lemma_write_queue_fifo(q: Seq<(u32, u32, usize)>, e: (u32, u32, usize))
    requires
        q.len() < 4,
    ensures
        q.len() == 0 ==> q.push(e)[0] == e,
        q.len() > 0 ==> q.push(e)[0] == q[0] && q.push(e).drop_first() == q.drop_first().push(e),
{
    if q.len() > 0 {
        assert(q.push(e).drop_first() =~= q.drop_first().push(e));
    }
}

} // verus!
