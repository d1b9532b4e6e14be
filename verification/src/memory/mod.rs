use vstd::prelude::*;
pub mod io;
pub mod bus;

verus! {

/// Size of the BIOS ROM in bytes.
pub const BIOS_LEN: usize = 524288;
/// CPU cycles of a main RAM read.
pub const MEM_READ_MAIN_CYCLES: usize = 5;
/// CPU cycles of a BIOS ROM read.
pub const MEM_READ_BIOS_CYCLES: usize = 24;

/// The physical regions of the address space.
#[derive(PartialEq, Eq, Debug, Clone, Copy, Structural)]
pub enum MemorySection {
    MainRAM,
    ExpansionRegion1,
    ScratchPad,
    IOPorts,
    ExpansionRegion2,
    ExpansionRegion3,
    BIOSRom,
    CacheControl,
    Unmapped,
}

/// The virtual segments of the address space (by the three top address bits).
#[derive(PartialEq, Eq, Debug, Clone, Copy, Structural)]
pub enum MemorySegment {
    KUSEG,
    KUSEG0,
    KUSEG1,
    KUSEG2,
}

impl MemorySegment {
    /// Only KUSEG is accessible from user mode.
    pub fn is_kernel(&self) -> (r: bool)
        ensures
            r == (*self != MemorySegment::KUSEG),
    {
        match self {
            MemorySegment::KUSEG => false,
            _ => true,
        }
    }

    pub fn is_user(&self) -> (r: bool)
        ensures
            r == (*self == MemorySegment::KUSEG),
    {
        match self {
            MemorySegment::KUSEG => true,
            _ => false,
        }
    }

    /// KUSEG and KSEG0 go through the caches.
    pub fn is_cached(&self) -> (r: bool)
        ensures
            r == (*self == MemorySegment::KUSEG || *self == MemorySegment::KUSEG0),
    {
        match self {
            MemorySegment::KUSEG | MemorySegment::KUSEG0 => true,
            _ => false,
        }
    }
}

/// Segment, section, physical address (top three bits cleared) and offset within the section.
#[derive(Debug, Clone, Copy)]
pub struct MemoryMap(pub MemorySegment, pub MemorySection, pub u32, pub u32);

/// The segment of an address: KUSEG 00000000h-7FFFFFFFh, KSEG0 80000000h-9FFFFFFFh,
/// KSEG1 A0000000h-BFFFFFFFh, KSEG2 from C0000000h.
pub open spec fn seg_of(address: u32) -> MemorySegment {
    let msb = address >> 29u32;
    if msb < 4 {
        MemorySegment::KUSEG
    } else if msb == 4 {
        MemorySegment::KUSEG0
    } else if msb == 5 {
        MemorySegment::KUSEG1
    } else {
        MemorySegment::KUSEG2
    }
}

/// Start of each section in the physical (top-bits-cleared) address space.
pub open spec fn section_base(s: MemorySection) -> u32 {
    match s {
        MemorySection::MainRAM => 0,
        MemorySection::ExpansionRegion1 => 0x1F00_0000,
        MemorySection::ScratchPad => 0x1F80_0000,
        MemorySection::IOPorts => 0x1F80_1000,
        MemorySection::ExpansionRegion2 => 0x1F80_2000,
        MemorySection::ExpansionRegion3 => 0x1FA0_0000,
        MemorySection::BIOSRom => 0x1FC0_0000,
        MemorySection::CacheControl => 0,
        MemorySection::Unmapped => 0x2000_0000,
    }
}

/// The section of a physical address (top three bits already cleared).
pub open spec fn section_of_physical(a: u32) -> MemorySection {
    if a < 0x1F00_0000 {
        MemorySection::MainRAM
    } else if a < 0x1F80_0000 {
        MemorySection::ExpansionRegion1
    } else if a < 0x1F80_1000 {
        MemorySection::ScratchPad
    } else if a < 0x1F80_2000 {
        MemorySection::IOPorts
    } else if a < 0x1FA0_0000 {
        MemorySection::ExpansionRegion2
    } else if a < 0x1FC0_0000 {
        MemorySection::ExpansionRegion3
    } else if a < 0x2000_0000 {
        MemorySection::BIOSRom
    } else {
        MemorySection::Unmapped
    }
}

/// The section of an address: its low 29 bits decide.
pub open spec fn section_of(address: u32) -> MemorySection {
    section_of_physical(address & 0x1FFF_FFFFu32)
}

/// Where an address lands: in KSEG2 only FFFE0130h is mapped (cache control); KUSEG above
/// its first 512MB (20000000h-7FFFFFFFh) is unmapped; elsewhere the section of the low 29 bits
/// and the offset within it.
pub open spec fn map_of(address: u32) -> MemoryMap {
    let seg = seg_of(address);
    if seg == MemorySegment::KUSEG && address >= 0x2000_0000 {
        MemoryMap(MemorySegment::KUSEG, MemorySection::Unmapped, address, address)
    } else if seg == MemorySegment::KUSEG2 {
        if address == 0xFFFE0130u32 {
            MemoryMap(MemorySegment::KUSEG2, MemorySection::CacheControl, address, address)
        } else {
            MemoryMap(MemorySegment::KUSEG2, MemorySection::Unmapped, address, address)
        }
    } else {
        let a = address & 0x1FFF_FFFFu32;
        let s = section_of_physical(a);
        MemoryMap(seg, s, a, (a - section_base(s)) as u32)
    }
}

/// The segment of an address.
pub fn get_memory_seg(address: u32) -> (r: MemorySegment)
    ensures
        r == seg_of(address),
{
    let msb = address >> 29u32;
    match msb {
        0..=3 => MemorySegment::KUSEG,
        4 => MemorySegment::KUSEG0,
        5 => MemorySegment::KUSEG1,
        _ => MemorySegment::KUSEG2,
    }
}

/// The section of an address.
pub fn get_memory_section(address: u32) -> (r: MemorySection)
    ensures
        r == section_of(address),
{
    let a = address & 0x1FFF_FFFFu32;
    if a < 0x1F00_0000 {
        MemorySection::MainRAM
    } else if a < 0x1F80_0000 {
        MemorySection::ExpansionRegion1
    } else if a < 0x1F80_1000 {
        MemorySection::ScratchPad
    } else if a < 0x1F80_2000 {
        MemorySection::IOPorts
    } else if a < 0x1FA0_0000 {
        MemorySection::ExpansionRegion2
    } else if a < 0x1FC0_0000 {
        MemorySection::ExpansionRegion3
    } else if a < 0x2000_0000 {
        MemorySection::BIOSRom
    } else {
        MemorySection::Unmapped
    }
}

/// Segment, section, physical address and offset of an address.
pub fn get_memory_map(address: u32) -> (r: MemoryMap)
    ensures
        r == map_of(address),
{
    let region = get_memory_seg(address);
    proof { bus::lemma_bus_bits(address, 0, 0, 0, 0, 0, 0, 0, 0, 0, 0, 0, 0, 0, 0); }
    if address >= 0x2000_0000 && address < 0x8000_0000 {
        return MemoryMap(MemorySegment::KUSEG, MemorySection::Unmapped, address, address);
    }
    if let MemorySegment::KUSEG2 = region {
        return if address == 0xFFFE0130u32 {
            MemoryMap(MemorySegment::KUSEG2, MemorySection::CacheControl, address, address)
        } else {
            MemoryMap(MemorySegment::KUSEG2, MemorySection::Unmapped, address, address)
        };
    }
    let a = address & 0x1FFF_FFFFu32;
    proof {
        assert(a <= 0x1FFF_FFFFu32) by (bit_vector)
            requires a == address & 0x1FFF_FFFFu32;
    }
    let (section, offset) = if a < 0x1F00_0000 {
        (MemorySection::MainRAM, a)
    } else if a < 0x1F80_0000 {
        (MemorySection::ExpansionRegion1, a - 0x1F00_0000)
    } else if a < 0x1F80_1000 {
        (MemorySection::ScratchPad, a - 0x1F80_0000)
    } else if a < 0x1F80_2000 {
        (MemorySection::IOPorts, a - 0x1F80_1000)
    } else if a < 0x1FA0_0000 {
        (MemorySection::ExpansionRegion2, a - 0x1F80_2000)
    } else if a < 0x1FC0_0000 {
        (MemorySection::ExpansionRegion3, a - 0x1FA0_0000)
    } else {
        (MemorySection::BIOSRom, a - 0x1FC0_0000)
    };
    MemoryMap(region, section, a, offset)
}

/// Outcome of a memory read.
#[derive(Debug, Clone, Copy, PartialEq, Eq, Structural)]
pub enum ReadMemoryAccess {
    /// The value read and the cycles it took.
    Read(u32, usize),
    BusError,
    MemoryError,
    Wait,
}

/// Outcome of a memory write.
#[derive(Debug, Clone, Copy, PartialEq, Eq, Structural)]
pub enum WriteMemoryAccess {
    /// Written, in the given cycles.
    Write(usize),
    /// Refused because the memory is read-only, in the given cycles.
    WriteErrorReadOnly(usize),
    BusError,
    MemoryError,
    InvalidateICacheTag,
    InvalidateICacheOpcode,
    Wait,
}

/// The little-endian value of `n` bytes of `mem` from `addr`.
pub open spec fn le_value(mem: Seq<u8>, addr: int, n: nat) -> nat
    decreases n,
{
    if n == 0 {
        0
    } else {
        le_value(mem, addr, (n - 1) as nat) + mem[addr + n - 1] as nat * pow256((n - 1) as nat)
    }
}

pub open spec fn pow256(n: nat) -> nat
    decreases n,
{
    if n == 0 { 1 } else { 256 * pow256((n - 1) as nat) }
}

/// A byte-addressed memory, read and written in 8, 16 or 32-bit little-endian units.
pub trait Memory: Sized {
    /// True when an access of `size` bits at `address` is served (and cannot fail).
    spec fn accepts(&self, address: u32, size: usize) -> bool;

    /// A read of `size` bits at `address` in this state may answer `r` and leave the memory as `new`.
    spec fn reads(&self, new: Self, address: u32, size: usize, is_fetching: bool, r: ReadMemoryAccess) -> bool;

    /// A write of the low `size` bits of `value` at `address` in this state may answer `r` and
    /// leave the memory as `new`.
    spec fn writes(&self, new: Self, address: u32, size: usize, value: u32, r: WriteMemoryAccess) -> bool;

    /// What a side-effect free look at `size` bits at `address` gives.
    spec fn peeks(&self, address: u32, size: usize, r: Option<u32>) -> bool;

    fn read<const SIZE: usize>(&mut self, address: u32, is_fetching: bool) -> (r: ReadMemoryAccess)
        requires
            SIZE == 8 || SIZE == 16 || SIZE == 32,
            old(self).accepts(address, SIZE),
        ensures
            old(self).reads(*final(self), address, SIZE, is_fetching, r),
            r matches ReadMemoryAccess::Read(v, _) ==> (SIZE == 8 ==> v < 0x100) && (SIZE == 16 ==> v < 0x10000),
            forall|a: u32, s: usize| final(self).accepts(a, s) == old(self).accepts(a, s),
    ;

    fn write<const SIZE: usize>(&mut self, address: u32, value: u32) -> (r: WriteMemoryAccess)
        requires
            SIZE == 8 || SIZE == 16 || SIZE == 32,
            old(self).accepts(address, SIZE),
        ensures
            old(self).writes(*final(self), address, SIZE, value, r),
            forall|a: u32, s: usize| final(self).accepts(a, s) == old(self).accepts(a, s),
    ;

    fn peek<const SIZE: usize>(&self, address: u32) -> (r: Option<u32>)
        requires
            SIZE == 8 || SIZE == 16 || SIZE == 32,
            self.accepts(address, SIZE),
        ensures
            self.peeks(address, SIZE, r),
    ;
}

/// `mem` with the `n` little-endian bytes of `value` stored from `addr`.
pub open spec fn le_store(mem: Seq<u8>, addr: int, value: u32, n: nat) -> Seq<u8>
    decreases n,
{
    if n == 0 {
        mem
    } else {
        le_store(mem, addr, value, (n - 1) as nat).update(addr + n - 1, byte_of(value, n - 1))
    }
}

/// Byte `i` (0..3) of `value`, least significant first.
pub open spec fn byte_of(value: u32, i: int) -> u8 {
    if i == 0 {
        value as u8
    } else if i == 1 {
        (value >> 8u32) as u8
    } else if i == 2 {
        (value >> 16u32) as u8
    } else {
        (value >> 24u32) as u8
    }
}

pub(crate) proof fn lemma_le_value_small(mem: Seq<u8>, a: int)
    ensures
        le_value(mem, a, 1) == mem[a] as nat,
        le_value(mem, a, 2) == mem[a] as nat + mem[a + 1] as nat * 256,
        le_value(mem, a, 4) == mem[a] as nat + mem[a + 1] as nat * 256 + mem[a + 2] as nat * 65536 + mem[a + 3] as nat * 16777216,
{
    reveal_with_fuel(pow256, 5);
    assert(pow256(0) == 1);
    assert(pow256(1) == 256);
    assert(pow256(2) == 65536);
    assert(pow256(3) == 16777216);
    assert(le_value(mem, a, 0) == 0);
    assert(le_value(mem, a, 1) == le_value(mem, a, 0) + mem[a + 1 - 1] as nat * pow256(0));
    assert(le_value(mem, a, 1) == mem[a] as nat);
    assert(le_value(mem, a, 2) == le_value(mem, a, 1) + mem[a + 1] as nat * 256);
    assert(le_value(mem, a, 3) == le_value(mem, a, 2) + mem[a + 2] as nat * 65536);
    assert(le_value(mem, a, 4) == le_value(mem, a, 3) + mem[a + 3] as nat * 16777216);
}

/// A byte or halfword unit is below 2^8 or 2^16.
pub(crate) proof fn lemma_le_value_bounds(mem: Seq<u8>, a: int)
    ensures
        le_value(mem, a, 1) < 0x100,
        le_value(mem, a, 2) < 0x10000,
{
    lemma_le_value_small(mem, a);
    let b0 = mem[a];
    let b1 = mem[a + 1];
    assert(b0 as nat + b1 as nat * 256 < 0x10000) by (nonlinear_arith)
        requires b0 < 256, b1 < 256;
}

/// Reads a little-endian unit of `SIZE` bits from `memory` at `address`.
pub fn mem_read<const SIZE: usize>(address: u32, memory: &Vec<u8>) -> (r: u32)
    requires
        SIZE == 8 || SIZE == 16 || SIZE == 32,
        address as int + SIZE as int / 8 <= memory.len(),
    ensures
        r as nat == le_value(memory@, address as int, (SIZE / 8) as nat),
{
    proof {
        reveal_with_fuel(le_value, 5);
        reveal_with_fuel(pow256, 4);
        assert(pow256(0) == 1);
        assert(pow256(1) == 256);
        assert(pow256(2) == 65536);
        assert(pow256(3) == 16777216);
        lemma_le_value_small(memory@, address as int);
    }
    let a = address as usize;
    if SIZE == 8 {
        memory[a] as u32
    } else if SIZE == 16 {
        memory[a] as u32 + (memory[a + 1] as u32) * 256
    } else {
        memory[a] as u32 + (memory[a + 1] as u32) * 256 + (memory[a + 2] as u32) * 65536 + (memory[a + 3] as u32) * 16777216
    }
}

/// Writes the little-endian unit of `SIZE` bits of `value` into `memory` at `address`.
pub fn mem_write<const SIZE: usize>(address: u32, value: u32, memory: &mut Vec<u8>)
    requires
        SIZE == 8 || SIZE == 16 || SIZE == 32,
        address as int + SIZE as int / 8 <= old(memory).len(),
    ensures
        final(memory)@ == le_store(old(memory)@, address as int, value, (SIZE / 8) as nat),
        final(memory)@.len() == old(memory)@.len(),
{
    proof {
        reveal_with_fuel(le_store, 5);
    }
    let a = address as usize;
    memory.set(a, value as u8);
    if SIZE >= 16 {
        memory.set(a + 1, (value >> 8u32) as u8);
    }
    if SIZE == 32 {
        memory.set(a + 2, (value >> 16u32) as u8);
        memory.set(a + 3, (value >> 24u32) as u8);
    }
    proof {
        assert(final(memory)@ =~= le_store(old(memory)@, address as int, value, (SIZE / 8) as nat));
    }
}

/// A memory unit reads back, in the same size, what was written (truncated to that size).
pub proof fn lemma_read_after_write(mem: Seq<u8>, addr: int, value: u32, n: nat)
    requires
        n == 1 || n == 2 || n == 4,
        0 <= addr,
        addr + n <= mem.len(),
    ensures
        le_value(le_store(mem, addr, value, n), addr, n) == value as nat % pow256(n),
{
    reveal_with_fuel(le_value, 5);
    reveal_with_fuel(le_store, 5);
    reveal_with_fuel(pow256, 5);
    assert(pow256(1) == 256);
    assert(pow256(2) == 65536);
    assert(pow256(3) == 16777216);
    assert(pow256(4) == 4294967296);
    let b0 = value as u8;
    let b1 = (value >> 8u32) as u8;
    let b2 = (value >> 16u32) as u8;
    let b3 = (value >> 24u32) as u8;
    assert(b0 as nat == value as nat % 256) by (bit_vector)
        requires b0 == value as u8;
    assert(b0 as nat + b1 as nat * 256 == value as nat % 65536) by (bit_vector)
        requires b0 == value as u8, b1 == (value >> 8u32) as u8;
    assert(b0 as nat + b1 as nat * 256 + b2 as nat * 65536 + b3 as nat * 16777216 == value as nat % 4294967296) by (bit_vector)
        requires b0 == value as u8, b1 == (value >> 8u32) as u8, b2 == (value >> 16u32) as u8, b3 == (value >> 24u32) as u8;
    let s = le_store(mem, addr, value, n);
    lemma_le_value_small(s, addr);
    if n == 1 {
        assert(s[addr] == b0);
    } else if n == 2 {
        assert(s[addr] == b0);
        assert(s[addr + 1] == b1);
    } else {
        assert(s[addr] == b0);
        assert(s[addr + 1] == b1);
        assert(s[addr + 2] == b2);
        assert(s[addr + 3] == b3);
    }
}

/// A writable or read-only memory held in a byte vector, with its MD5 fingerprint.
pub struct ArrayMemory {
    pub memory: Vec<u8>,
    /// Upper-case hexadecimal MD5 digest of the contents.
    pub md5: String,
    pub read_only: bool,
    pub read_penalty: usize,
    pub write_penalty: usize,
}

/// The MD5 digest of a byte sequence.
pub uninterp spec fn md5_digest(data: Seq<u8>) -> Seq<u8>;

/// Computes the MD5 digest of `data` (`md5::compute`).
#[verifier::external_body]
fn md5_compute(data: &[u8]) -> (r: [u8; 16])
    ensures
        r@ == md5_digest(data@),
{
    md5::compute(data).0
}

/// Upper-case hexadecimal of a digest, two digits per byte (as `{:X}` formats an MD5 digest).
pub open spec fn hex_bytes(d: Seq<u8>) -> Seq<char>
    decreases d.len(),
{
    if d.len() == 0 {
        Seq::empty()
    } else {
        hex_bytes(d.drop_last()) + crate::text::hex_padded(d.last() as nat, 2)
    }
}

/// The upper-case hexadecimal MD5 fingerprint of `data`.
pub open spec fn md5_hex(data: Seq<u8>) -> Seq<char> {
    hex_bytes(md5_digest(data))
}

/// Upper-case hexadecimal MD5 fingerprint of `data`.
pub fn md5_hex_string(data: &[u8]) -> (r: String)
    ensures
        r@ == md5_hex(data@),
{
    let d = md5_compute(data);
    let mut r = String::new();
    let mut i: usize = 0;
    while i < 16
        invariant
            i <= 16,
            d@.len() == 16,
            d@ == md5_digest(data@),
            r@ == hex_bytes(d@.take(i as int)),
        decreases 16 - i,
    {
        let h = crate::text::hex_upper(d[i] as u32, 2);
        crate::text::append_str(&mut r, h.as_str());
        proof {
            assert(d@.take((i + 1) as int).drop_last() =~= d@.take(i as int));
        }
        i += 1;
    }
    proof { assert(d@.take(16) =~= d@); }
    r
}

impl ArrayMemory {
    /// A memory holding a copy of `bytes`.
    pub fn new(bytes: &[u8], read_only: bool, read_penalty: usize, write_penalty: usize) -> (r: ArrayMemory)
        ensures
            r.memory@ == bytes@,
            r.md5@ == md5_hex(bytes@),
            r.read_only == read_only,
            r.read_penalty == read_penalty,
            r.write_penalty == write_penalty,
    {
        let md5 = md5_hex_string(bytes);
        ArrayMemory { memory: vstd::slice::slice_to_vec(bytes), md5, read_only, read_penalty, write_penalty }
    }

    /// Recomputes the MD5 fingerprint of the contents.
    pub fn update_m5(&mut self)
        ensures
            final(self).md5@ == md5_hex(old(self).memory@),
            final(self).memory == old(self).memory,
            final(self).read_only == old(self).read_only,
            final(self).read_penalty == old(self).read_penalty,
            final(self).write_penalty == old(self).write_penalty,
    {
        self.md5 = md5_hex_string(self.memory.as_slice());
    }
}

impl Memory for ArrayMemory {
    open spec fn accepts(&self, address: u32, size: usize) -> bool {
        address as int + size as int / 8 <= self.memory.len()
    }

    /// Reading leaves the memory unchanged and answers the little-endian unit at the address.
    open spec fn reads(&self, new: Self, address: u32, size: usize, is_fetching: bool, r: ReadMemoryAccess) -> bool {
        &&& new == *self
        &&& r matches ReadMemoryAccess::Read(v, c)
        &&& v as nat == le_value(self.memory@, address as int, (size / 8) as nat)
        &&& c == self.read_penalty
    }

    /// Writing stores the unit unless the memory is read-only; nothing else changes.
    open spec fn writes(&self, new: Self, address: u32, size: usize, value: u32, r: WriteMemoryAccess) -> bool {
        &&& !self.read_only ==> new.memory@ == le_store(self.memory@, address as int, value, (size / 8) as nat)
            && r == WriteMemoryAccess::Write(self.read_penalty)
        &&& self.read_only ==> new.memory@ == self.memory@
            && r == WriteMemoryAccess::WriteErrorReadOnly(self.write_penalty)
        &&& new.md5 == self.md5
        &&& new.read_only == self.read_only
        &&& new.read_penalty == self.read_penalty
        &&& new.write_penalty == self.write_penalty
    }

    open spec fn peeks(&self, address: u32, size: usize, r: Option<u32>) -> bool {
        r matches Some(v) && v as nat == le_value(self.memory@, address as int, (size / 8) as nat)
    }

    fn read<const SIZE: usize>(&mut self, address: u32, is_fetching: bool) -> (r: ReadMemoryAccess) {
        proof { lemma_le_value_small(self.memory@, address as int); }
        ReadMemoryAccess::Read(mem_read::<SIZE>(address, &self.memory), self.read_penalty)
    }

    fn write<const SIZE: usize>(&mut self, address: u32, value: u32) -> (r: WriteMemoryAccess) {
        if !self.read_only {
            mem_write::<SIZE>(address, value, &mut self.memory);
            WriteMemoryAccess::Write(self.read_penalty)
        } else {
            WriteMemoryAccess::WriteErrorReadOnly(self.write_penalty)
        }
    }

    fn peek<const SIZE: usize>(&self, address: u32) -> (r: Option<u32>) {
        Some(mem_read::<SIZE>(address, &self.memory))
    }
}

} // verus!
