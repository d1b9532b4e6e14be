use vstd::prelude::*;

verus! {

/// The register of the I/O area (1F801000h-1F801FFFh) that an address reaches.
#[derive(Debug, Clone, Copy, PartialEq, Eq, Structural)]
pub enum IoTarget {
    /// Memory control: the expansion bases, the delay/size registers, COM_DELAY and RAM_SIZE,
    /// kept as plain words.
    MemoryControl,
    /// Timer `.0` (0-2): counter (`.1` == 0), mode (1) or target (2).
    Timer(u8, u8),
    /// I_STAT.
    InterruptStatus,
    /// I_MASK.
    InterruptMask,
    /// The SPU registers (1F801C00h-1F801E80h).
    Spu,
    /// DMA channel `.0`: MADR.
    DmaMadr(u8),
    /// DMA channel `.0`: BCR.
    DmaBcr(u8),
    /// DMA channel `.0`: CHCR.
    DmaChcr(u8),
    /// DPCR.
    DmaControl,
    /// DICR.
    DmaInterrupt,
    /// The two registers after DICR (1F8010F8h, 1F8010FCh).
    DmaUnknown(u8),
    /// GP0 writes, GPUREAD reads (1F801810h).
    GpuData,
    /// GP1 writes, GPUSTAT reads (1F801814h).
    GpuStatus,
    /// SIO0 data, status, mode, control and baud registers.
    Sio0Data,
    Sio0Status,
    Sio0Mode,
    Sio0Control,
    Sio0Baud,
    /// Nothing answers here.
    Unmapped,
}

/// The register that I/O address `a` reaches.
pub open spec fn io_target_of(a: u32) -> IoTarget {
    if a == 0x1F80_1000 || a == 0x1F80_1004 || a == 0x1F80_1008 || a == 0x1F80_100C || a == 0x1F80_1010
        || a == 0x1F80_1014 || a == 0x1F80_1018 || a == 0x1F80_101C || a == 0x1F80_1020 || a == 0x1F80_1060 {
        IoTarget::MemoryControl
    } else if 0x1F80_1100 <= a < 0x1F80_1130 && (a - 0x1F80_1100) % 16 < 12 && (a - 0x1F80_1100) % 4 == 0 {
        IoTarget::Timer(((a - 0x1F80_1100) / 16) as u8, (((a - 0x1F80_1100) % 16) / 4) as u8)
    } else if a == 0x1F80_1070 {
        IoTarget::InterruptStatus
    } else if a == 0x1F80_1074 {
        IoTarget::InterruptMask
    } else if 0x1F80_1C00 <= a <= 0x1F80_1E80 {
        IoTarget::Spu
    } else if 0x1F80_1080 <= a < 0x1F80_10F0 && (a - 0x1F80_1080) % 16 < 12 && (a - 0x1F80_1080) % 4 == 0 {
        let ch = ((a - 0x1F80_1080) / 16) as u8;
        let reg = ((a - 0x1F80_1080) % 16) / 4;
        if reg == 0 { IoTarget::DmaMadr(ch) } else if reg == 1 { IoTarget::DmaBcr(ch) } else { IoTarget::DmaChcr(ch) }
    } else if a == 0x1F80_10F0 {
        IoTarget::DmaControl
    } else if a == 0x1F80_10F4 {
        IoTarget::DmaInterrupt
    } else if a == 0x1F80_10F8 {
        IoTarget::DmaUnknown(0)
    } else if a == 0x1F80_10FC {
        IoTarget::DmaUnknown(1)
    } else if a == 0x1F80_1810 {
        IoTarget::GpuData
    } else if a == 0x1F80_1814 {
        IoTarget::GpuStatus
    } else if a == 0x1F80_1040 {
        IoTarget::Sio0Data
    } else if a == 0x1F80_1044 {
        IoTarget::Sio0Status
    } else if a == 0x1F80_1048 {
        IoTarget::Sio0Mode
    } else if a == 0x1F80_104A {
        IoTarget::Sio0Control
    } else if a == 0x1F80_104E {
        IoTarget::Sio0Baud
    } else {
        IoTarget::Unmapped
    }
}

/// The register that I/O address `address` reaches.
pub fn io_target(address: u32) -> (r: IoTarget)
    ensures
        r == io_target_of(address),
{
    let a = address;
    if a == 0x1F80_1000 || a == 0x1F80_1004 || a == 0x1F80_1008 || a == 0x1F80_100C || a == 0x1F80_1010
        || a == 0x1F80_1014 || a == 0x1F80_1018 || a == 0x1F80_101C || a == 0x1F80_1020 || a == 0x1F80_1060 {
        IoTarget::MemoryControl
    } else if 0x1F80_1100 <= a && a < 0x1F80_1130 && (a - 0x1F80_1100) % 16 < 12 && (a - 0x1F80_1100) % 4 == 0 {
        IoTarget::Timer(((a - 0x1F80_1100) / 16) as u8, (((a - 0x1F80_1100) % 16) / 4) as u8)
    } else if a == 0x1F80_1070 {
        IoTarget::InterruptStatus
    } else if a == 0x1F80_1074 {
        IoTarget::InterruptMask
    } else if 0x1F80_1C00 <= a && a <= 0x1F80_1E80 {
        IoTarget::Spu
    } else if 0x1F80_1080 <= a && a < 0x1F80_10F0 && (a - 0x1F80_1080) % 16 < 12 && (a - 0x1F80_1080) % 4 == 0 {
        let ch = ((a - 0x1F80_1080) / 16) as u8;
        let reg = ((a - 0x1F80_1080) % 16) / 4;
        if reg == 0 { IoTarget::DmaMadr(ch) } else if reg == 1 { IoTarget::DmaBcr(ch) } else { IoTarget::DmaChcr(ch) }
    } else if a == 0x1F80_10F0 {
        IoTarget::DmaControl
    } else if a == 0x1F80_10F4 {
        IoTarget::DmaInterrupt
    } else if a == 0x1F80_10F8 {
        IoTarget::DmaUnknown(0)
    } else if a == 0x1F80_10FC {
        IoTarget::DmaUnknown(1)
    } else if a == 0x1F80_1810 {
        IoTarget::GpuData
    } else if a == 0x1F80_1814 {
        IoTarget::GpuStatus
    } else if a == 0x1F80_1040 {
        IoTarget::Sio0Data
    } else if a == 0x1F80_1044 {
        IoTarget::Sio0Status
    } else if a == 0x1F80_1048 {
        IoTarget::Sio0Mode
    } else if a == 0x1F80_104A {
        IoTarget::Sio0Control
    } else if a == 0x1F80_104E {
        IoTarget::Sio0Baud
    } else {
        IoTarget::Unmapped
    }
}

} // verus!
