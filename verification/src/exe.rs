use vstd::prelude::*;
use crate::cpu::processor::Cpu;
use crate::memory::le_value;

verus! {

/// The fields of a PS-X EXE header that loading uses.
#[derive(Debug, Clone, Copy, PartialEq, Eq, Structural)]
pub struct ExeHeader {
    pub initial_pc: u32,
    pub initial_r28: u32,
    /// Load address within the 2 MB of main RAM.
    pub ram_address: u32,
    pub size_2kb: u32,
    pub initial_sp: u32,
}

/// The little-endian word of `d` at `i`.
pub open spec fn word_at(d: Seq<u8>, i: int) -> u32 {
    le_value(d, i, 4) as u32
}

/// The header of an EXE image: PC at 10h, GP (r28) at 14h, load address at 18h (masked to
/// 2 MB), size at 1Ch, stack pointer at 30h.
pub open spec fn exe_header(d: Seq<u8>) -> ExeHeader {
    ExeHeader {
        initial_pc: word_at(d, 0x10),
        initial_r28: word_at(d, 0x14),
        ram_address: word_at(d, 0x18) & 0x1F_FFFF,
        size_2kb: word_at(d, 0x1C),
        initial_sp: word_at(d, 0x30),
    }
}

/// How many bytes of the image are copied to RAM: the size field taken as 2 KB units when that
/// fits the file (as bytes otherwise), cut to what follows the 2 KB header.
pub open spec fn exe_copy_size(h: ExeHeader, len: int) -> int {
    let s = if h.size_2kb * 2048 > len { h.size_2kb as int } else { h.size_2kb * 2048 };
    if s + 2048 > len { len - 2048 } else { s }
}

fn word_of(d: &Vec<u8>, i: usize) -> (r: u32)
    requires
        i + 4 <= d@.len(),
        d@.len() <= u32::MAX,
    ensures
        r == word_at(d@, i as int),
{
    let r = crate::memory::mem_read::<32>(i as u32, d);
    assert(le_value(d@, i as int, 4) == r as nat);
    r
}

impl ExeHeader {
    /// Reads the header of an EXE image.
    pub fn parse(exe: &Vec<u8>) -> (r: ExeHeader)
        requires
            exe@.len() >= 0x34,
            exe@.len() <= u32::MAX,
        ensures
            r == exe_header(exe@),
    {
        ExeHeader {
            initial_pc: word_of(exe, 0x10),
            initial_r28: word_of(exe, 0x14),
            ram_address: word_of(exe, 0x18) & 0x1F_FFFF,
            size_2kb: word_of(exe, 0x1C),
            initial_sp: word_of(exe, 0x30),
        }
    }
}

/// Loads an EXE image: its code and data go to RAM at the header's address, r28 takes the
/// header's GP, r29 and r30 its stack pointer (when not zero), and the PC its entry point.
pub fn load_exe(main_ram: &mut Vec<u8>, exe: &Vec<u8>, cpu: &mut Cpu)
    requires
        2048 <= exe@.len() <= u32::MAX,
        exe_header(exe@).size_2kb * 2048 <= u32::MAX,
        exe_header(exe@).ram_address + exe_copy_size(exe_header(exe@), exe@.len() as int) <= old(main_ram)@.len(),
    ensures
        ({
            let h = exe_header(exe@);
            let n = exe_copy_size(h, exe@.len() as int);
            &&& final(main_ram)@ == old(main_ram)@.subrange(0, h.ram_address as int) + exe@.subrange(2048, 2048 + n)
                + old(main_ram)@.subrange(h.ram_address + n, old(main_ram)@.len() as int)
            &&& final(cpu).pc == h.initial_pc
            &&& final(cpu).regs@ == (if h.initial_sp != 0 {
                    old(cpu).regs@.update(28, h.initial_r28).update(0, 0u32).update(29, h.initial_sp).update(0, 0u32)
                        .update(30, h.initial_sp).update(0, 0u32)
                } else {
                    old(cpu).regs@.update(28, h.initial_r28).update(0, 0u32)
                })
        }),
{
    let h = ExeHeader::parse(exe);
    let len = exe.len() as u32;
    let mut size = if h.size_2kb * 2048 > len { h.size_2kb } else { h.size_2kb * 2048 };
    if size as u64 + 2048 > len as u64 {
        size = len - 2048;
    }
    let base = h.ram_address as usize;
    let n = size as usize;
    let ghost before = main_ram@;
    let total = main_ram.len();
    let elen = exe.len();
    let mut i: usize = 0;
    while i < n
        invariant
            total == main_ram@.len(),
            elen == exe@.len(),
            i <= n,
            n == exe_copy_size(h, exe@.len() as int),
            h == exe_header(exe@),
            base == h.ram_address,
            2048 + n <= exe@.len(),
            base + n <= before.len(),
            main_ram@.len() == before.len(),
            forall|k: int| 0 <= k < main_ram@.len() ==> #[trigger] main_ram@[k] == (if base <= k < base + i {
                exe@[2048 + k - base]
            } else {
                before[k]
            }),
        decreases n - i,
    {
        main_ram.set(base + i, exe[2048 + i]);
        i = i + 1;
    }
    proof {
        assert(main_ram@ =~= before.subrange(0, base as int) + exe@.subrange(2048, 2048 + n)
            + before.subrange(base + n, before.len() as int));
    }
    cpu.set_register(28, h.initial_r28);
    if h.initial_sp != 0 {
        cpu.set_register(29, h.initial_sp);
        cpu.set_register(30, h.initial_sp);
    }
    cpu.set_pc(h.initial_pc);
}

/// Copies a binary into RAM at an address (masked to 2 MB).
pub fn load_pre_exe(main_ram: &mut Vec<u8>, bin: &Vec<u8>, address: u32)
    requires
        (address & 0x1F_FFFF) + bin@.len() <= old(main_ram)@.len(),
    ensures
        ({
            let a = (address & 0x1F_FFFF) as int;
            final(main_ram)@ == old(main_ram)@.subrange(0, a) + bin@ + old(main_ram)@.subrange(a + bin@.len(), old(main_ram)@.len() as int)
        }),
{
    let base = (address & 0x1F_FFFF) as usize;
    let ghost before = main_ram@;
    let total = main_ram.len();
    let mut i: usize = 0;
    while i < bin.len()
        invariant
            total == main_ram@.len(),
            i <= bin@.len(),
            base == address & 0x1F_FFFF,
            base + bin@.len() <= before.len(),
            main_ram@.len() == before.len(),
            forall|k: int| 0 <= k < main_ram@.len() ==> #[trigger] main_ram@[k] == (if base <= k < base + i {
                bin@[k - base]
            } else {
                before[k]
            }),
        decreases bin@.len() - i,
    {
        main_ram.set(base + i, bin[i]);
        i = i + 1;
    }
    proof {
        assert(main_ram@ =~= before.subrange(0, base as int) + bin@ + before.subrange(base + bin@.len(), before.len() as int));
    }
}

} // verus!
