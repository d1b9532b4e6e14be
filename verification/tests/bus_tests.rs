use r_ps1::clock::ClockConfig;
use r_ps1::memory::{ArrayMemory, Memory, ReadMemoryAccess, WriteMemoryAccess, get_memory_map, MemorySection, MemorySegment};
use r_ps1::memory::bus::{Bus, gp0_accepts_check};
use r_ps1::interrupt::{InterruptController, InterruptState, InterruptType, IrqHandler};
use r_ps1::gpu::GPU;
use r_ps1::cheats::Cheats;
use r_ps1::cpu::Cpu;
use r_ps1::cpu::cop0::Cop0;

fn new_bus() -> Bus {
    let mut bios = vec![0u8; 512 * 1024];
    bios[0] = 0x11;
    bios[1] = 0x22;
    bios[2] = 0x33;
    bios[3] = 0x44;
    Bus::new(ClockConfig::ntsc(), ArrayMemory::new(&bios, true, 0, 0))
}

#[test]
fn bus_ram_is_mirrored_over_8mb() {
    let mut bus = new_bus();
    assert_eq!(bus.write::<32>(0x8000_0010, 0xCAFE_BABE), WriteMemoryAccess::Write(5));
    assert_eq!(bus.read::<32>(0x0020_0010, false), ReadMemoryAccess::Read(0xCAFE_BABE, 5));
    assert_eq!(bus.read::<16>(0xA060_0012, false), ReadMemoryAccess::Read(0xCAFE, 5));
    assert_eq!(bus.read::<8>(0x0000_0010, false), ReadMemoryAccess::Read(0xBE, 5));
    assert_eq!(bus.peek::<32>(0x0040_0010), Some(0xCAFE_BABE));
    // past the first 8MB of the RAM section nothing answers
    assert_eq!(bus.read::<32>(0x0080_0000, false), ReadMemoryAccess::BusError);
}

#[test]
fn bus_scratchpad_is_not_executable() {
    let mut bus = new_bus();
    assert_eq!(bus.write::<16>(0x1F80_0004, 0x1234), WriteMemoryAccess::Write(1));
    assert_eq!(bus.read::<16>(0x1F80_0004, false), ReadMemoryAccess::Read(0x1234, 1));
    assert_eq!(bus.read::<32>(0x1F80_0004, true), ReadMemoryAccess::BusError);
}

#[test]
fn bus_bios_penalties_and_read_only() {
    let mut bus = new_bus();
    assert_eq!(bus.read::<8>(0xBFC0_0000, false), ReadMemoryAccess::Read(0x11, 8));
    assert_eq!(bus.read::<16>(0xBFC0_0000, false), ReadMemoryAccess::Read(0x2211, 12));
    assert_eq!(bus.read::<32>(0xBFC0_0000, false), ReadMemoryAccess::Read(0x4433_2211, 24));
    assert_eq!(bus.write::<32>(0xBFC0_0000, 0), WriteMemoryAccess::WriteErrorReadOnly(8));
    assert_eq!(bus.read::<32>(0xBFC0_0000, false), ReadMemoryAccess::Read(0x4433_2211, 24));
}

#[test]
fn bus_expansion_regions() {
    let mut bus = new_bus();
    assert_eq!(bus.read::<8>(0x1F00_0000, false), ReadMemoryAccess::Read(0xFF, 7));
    assert_eq!(bus.read::<32>(0x1FA0_0000, false), ReadMemoryAccess::Read(0xFFFF_FFFF, 25));
    assert_eq!(bus.write::<32>(0x1F80_2000, 1), WriteMemoryAccess::Write(56));
    assert_eq!(bus.write::<16>(0x1FA0_0000, 1), WriteMemoryAccess::Write(6));
    assert_eq!(bus.write::<8>(0x1F00_0000, 1), WriteMemoryAccess::Write(7));
}

#[test]
fn bus_user_mode_and_unmapped() {
    let mut bus = new_bus();
    // KUSEG beyond its first 512MB is unmapped
    let m = get_memory_map(0x2000_0000);
    assert_eq!(m.0, MemorySegment::KUSEG);
    assert_eq!(m.1, MemorySection::Unmapped);
    assert_eq!(bus.read::<32>(0x2000_0000, false), ReadMemoryAccess::BusError);
    // an I/O address no register answers
    assert_eq!(bus.read::<32>(0x1F80_1800, false), ReadMemoryAccess::BusError);
    assert_eq!(bus.write::<32>(0x1F80_1800, 0), WriteMemoryAccess::BusError);
    // user mode (SR.KUc) reaches KUSEG only
    bus.cop0.regs[12] |= 2;
    assert_eq!(bus.read::<32>(0x8000_0000, false), ReadMemoryAccess::MemoryError);
    assert_eq!(bus.write::<32>(0xA000_0000, 0), WriteMemoryAccess::MemoryError);
    assert_eq!(bus.read::<32>(0x0000_0000, false), ReadMemoryAccess::Read(0, 5));
    assert_eq!(bus.write::<32>(0x0000_0000, 7), WriteMemoryAccess::Write(5));
}

#[test]
fn bus_cache_isolation() {
    let mut bus = new_bus();
    bus.cop0.regs[12] |= 1 << 16;
    assert_eq!(bus.write::<32>(0x0000_0100, 5), WriteMemoryAccess::InvalidateICacheOpcode);
    bus.cache_control_reg = 4;
    assert_eq!(bus.write::<32>(0x0000_0100, 5), WriteMemoryAccess::InvalidateICacheTag);
    bus.cop0.regs[12] &= !(1 << 16);
    assert_eq!(bus.read::<32>(0x0000_0100, false), ReadMemoryAccess::Read(0, 5));
    assert_eq!(bus.write::<32>(0xFFFE_0130, 0x1E988), WriteMemoryAccess::Write(5));
    assert_eq!(bus.read::<32>(0xFFFE_0130, false), ReadMemoryAccess::Read(0x1E988, 5));
}

#[test]
fn bus_interrupt_registers_drive_cop0_line() {
    let mut bus = new_bus();
    assert_eq!(bus.write::<32>(0x1F80_1074, 0x0001), WriteMemoryAccess::Write(5));
    bus.raise_hw_interrupts(0x0005);
    assert_eq!(bus.read::<32>(0x1F80_1070, false), ReadMemoryAccess::Read(0x0005, 5));
    assert_ne!(bus.cop0.regs[13] & (1 << 10), 0);
    // acknowledge VBlank: I_STAT &= value
    assert_eq!(bus.write::<32>(0x1F80_1070, 0xFFFE), WriteMemoryAccess::Write(5));
    assert_eq!(bus.read::<16>(0x1F80_1070, false), ReadMemoryAccess::Read(0x0004, 5));
    assert_eq!(bus.cop0.regs[13] & (1 << 10), 0);
    assert_eq!(bus.read::<32>(0x1F80_1074, false), ReadMemoryAccess::Read(0x0001, 5));
}

#[test]
fn bus_dma_registers() {
    let mut bus = new_bus();
    assert_eq!(bus.write::<32>(0x1F80_10A0, 0x0012_3456), WriteMemoryAccess::Write(5));
    assert_eq!(bus.read::<32>(0x1F80_10A0, false), ReadMemoryAccess::Read(0x0012_3456, 5));
    assert_eq!(bus.dma.channels[2].madr, 0x0012_3454);
    assert_eq!(bus.read::<32>(0x1F80_10F0, false), ReadMemoryAccess::Read(0x0765_4321, 5));
    assert_eq!(bus.write::<32>(0x1F80_10F8, 9), WriteMemoryAccess::Write(5));
    assert_eq!(bus.read::<32>(0x1F80_10F8, false), ReadMemoryAccess::Read(9, 5));
    // the reserved sync mode 3 is refused on channels 0-5
    assert_eq!(bus.write::<32>(0x1F80_1088, 0x0000_0600), WriteMemoryAccess::BusError);
    assert_eq!(bus.write::<32>(0x1F80_1088, 0x0000_0201), WriteMemoryAccess::Write(5));
    assert_eq!(bus.read::<32>(0x1F80_1088, false), ReadMemoryAccess::Read(0x0000_0201, 5));
}

#[test]
fn bus_gpu_ports() {
    let mut bus = new_bus();
    let st = bus.gpu.gpu_stat_read();
    assert_eq!(bus.read::<32>(0x1F80_1814, false), ReadMemoryAccess::Read(st, 5));
    // GP0(E1h): texture page X base 5
    assert_eq!(bus.write::<32>(0x1F80_1810, 0xE100_0005), WriteMemoryAccess::Write(5));
    assert_eq!(bus.gpu.gpu_stat_read() & 0xF, 5);
    // GP1(03h): display enable
    assert_eq!(bus.write::<32>(0x1F80_1814, 0x0300_0000), WriteMemoryAccess::Write(5));
    assert!(!bus.gpu.display_config.display_disabled);
    assert_eq!(bus.peek::<32>(0x1F80_1810), Some(bus.gpu.gpu_read_register));
}

#[test]
fn bus_gp0_port_refuses_what_it_cannot_check() {
    let g = GPU::new();
    assert!(gp0_accepts_check(&g, 0xE100_0000));
    assert!(gp0_accepts_check(&g, 0x2000_0000));
}

#[test]
fn bus_sio0_registers() {
    let mut bus = new_bus();
    assert_eq!(bus.write::<16>(0x1F80_1048, 0xFFFF), WriteMemoryAccess::Write(5));
    assert_eq!(bus.read::<16>(0x1F80_1048, false), ReadMemoryAccess::Read(0x013F, 5));
    assert_eq!(bus.write::<16>(0x1F80_104E, 0x0088), WriteMemoryAccess::Write(5));
    assert_eq!(bus.read::<16>(0x1F80_104E, false), ReadMemoryAccess::Read(0x0088, 5));
    // empty RX FIFO reads zero
    assert_eq!(bus.read::<8>(0x1F80_1040, false), ReadMemoryAccess::Read(0, 5));
    // TX ready and TX idle
    assert_eq!(bus.read::<32>(0x1F80_1044, false), ReadMemoryAccess::Read(0x05, 5));
}

#[test]
fn bus_spu_area_is_plain_memory() {
    let mut bus = new_bus();
    assert_eq!(bus.write::<16>(0x1F80_1D80, 0x3FFF), WriteMemoryAccess::Write(0));
    assert_eq!(bus.read::<16>(0x1F80_1D80, false), ReadMemoryAccess::Read(0x3FFF, 0));
    assert_eq!(bus.peek::<16>(0x1F80_1D80), Some(0));
    assert_eq!(bus.read::<32>(0x1F80_1E7E, false), ReadMemoryAccess::BusError);
}

#[test]
fn bus_memory_control_and_counters_keep_their_words() {
    let mut bus = new_bus();
    assert_eq!(bus.write::<32>(0x1F80_1060, 0x0000_0B88), WriteMemoryAccess::Write(5));
    assert_eq!(bus.read::<32>(0x1F80_1060, false), ReadMemoryAccess::Read(0x0000_0B88, 5));
    assert_eq!(bus.read::<8>(0x1F80_1060, false), ReadMemoryAccess::Read(0x88, 5));
    assert_eq!(bus.write::<32>(0x1F80_1118, 0x1234), WriteMemoryAccess::Write(5));
    assert_eq!(bus.read::<32>(0x1F80_1118, false), ReadMemoryAccess::Read(0x1234, 5));
}

#[test]
fn irq_requests_collect_and_forward_once() {
    let mut h = IrqHandler::new();
    h.set_irq(InterruptType::VBlank);
    h.set_irq(InterruptType::GPU);
    h.set_irq(InterruptType::GPU);
    h.set_irq(InterruptType::TIMER2);
    assert_eq!(h.irqs, 0b100_0011);
    let mut st = InterruptState::new();
    h.forward_to_controller(&mut st);
    assert_eq!(st.pending, 0b100_0011);
    st.pending = 0;
    h.forward_to_controller(&mut st);
    assert_eq!(st.pending, 0);
    let mut h2 = IrqHandler::new();
    h2.forward_to_controller(&mut st);
    assert_eq!(st.pending, 0);
}

#[test]
fn bus_gp0_draws_a_triangle_and_a_quick_fill() {
    let mut bus = new_bus();
    for w in [0x2000_00FFu32, 0x0000_0000, 0x0000_0010, 0x0010_0000] {
        assert_eq!(bus.write::<32>(0x1F80_1810, w), WriteMemoryAccess::Write(5));
    }
    assert_eq!(bus.polygons.len(), 1);
    assert_eq!(bus.polygons[0].polygon.vertex.len(), 3);
    for w in [0x0200_00FFu32, 0x0000_0000, 0x0010_0010] {
        assert_eq!(bus.write::<32>(0x1F80_1810, w), WriteMemoryAccess::Write(5));
    }
    assert_eq!(bus.gpu.get_pixel_15(bus.gpu.get_vram_offset_15(15, 15)), 0x001F);
    assert_eq!(bus.clock.events.len(), 1);
    // while the fill runs, words wait in the pending FIFO
    assert_eq!(bus.write::<32>(0x1F80_1810, 0xE100_0000), WriteMemoryAccess::Write(5));
    assert_eq!(bus.gpu.gp0_fifo.len(), 1);
}

#[test]
fn bus_gp0_irq_reaches_i_stat() {
    let mut bus = new_bus();
    assert_eq!(bus.write::<32>(0x1F80_1074, 0x0002), WriteMemoryAccess::Write(5));
    assert_eq!(bus.write::<32>(0x1F80_1810, 0x1F00_0000), WriteMemoryAccess::Write(5));
    assert_eq!(bus.read::<32>(0x1F80_1070, false), ReadMemoryAccess::Read(0x0002, 5));
    assert_ne!(bus.cop0.regs[13] & (1 << 10), 0);
}

#[test]
fn bus_gp0_rectangles() {
    let mut bus = new_bus();
    // untextured 4x4 rectangle in blue at (0, 0)
    assert_eq!(bus.write::<32>(0x1F80_1810, 0xE400_0000 | (1023 << 0) | (511 << 10)), WriteMemoryAccess::Write(5));
    assert_eq!(bus.write::<32>(0x1F80_1810, 0x60FF_0000), WriteMemoryAccess::Write(5));
    assert_eq!(bus.write::<32>(0x1F80_1810, 0x0000_0000), WriteMemoryAccess::Write(5));
    assert_eq!(bus.write::<32>(0x1F80_1810, 0x0004_0004), WriteMemoryAccess::Write(5));
    assert_eq!(bus.gpu.get_pixel_15(bus.gpu.get_vram_offset_15(3, 3)), 0x7C00);
    assert_eq!(bus.gpu.get_pixel_15(bus.gpu.get_vram_offset_15(4, 4)), 0x0000);
    // a textured rectangle with its palette inside VRAM is drawn (all texels zero: nothing drawn)
    assert_eq!(bus.write::<32>(0x1F80_1810, 0x6400_0000), WriteMemoryAccess::Write(5));
    assert_eq!(bus.write::<32>(0x1F80_1810, 0x0000_0010), WriteMemoryAccess::Write(5));
    assert_eq!(bus.write::<32>(0x1F80_1810, 0x0000_0000), WriteMemoryAccess::Write(5));
    assert_eq!(bus.write::<32>(0x1F80_1810, 0x0004_0004), WriteMemoryAccess::Write(5));
    assert_eq!(bus.gpu.get_pixel_15(bus.gpu.get_vram_offset_15(16, 0)), 0x0000);
    // one whose palette (at the last line's right edge) runs past VRAM is not taken
    assert_eq!(bus.write::<32>(0x1F80_1810, 0x6400_0000), WriteMemoryAccess::Write(5));
    assert_eq!(bus.write::<32>(0x1F80_1810, 0x0000_0010), WriteMemoryAccess::Write(5));
    assert_eq!(bus.write::<32>(0x1F80_1810, 0x7FFF_0000), WriteMemoryAccess::Write(5));
    assert_eq!(bus.write::<32>(0x1F80_1810, 0x0004_0004), WriteMemoryAccess::BusError);
}

#[test]
fn cheat_decrement_stops_at_zero_on_the_bus() {
    let mut bus = new_bus();
    assert_eq!(bus.write::<16>(0x8001_0000, 3), WriteMemoryAccess::Write(5));
    assert_eq!(bus.write::<8>(0x8001_0010, 0x10), WriteMemoryAccess::Write(5));
    let c = Cheats::try_parse(&vec!["11010000 0005".to_string(), "21010010 0004".to_string()]).unwrap();
    c.apply(&mut bus);
    assert_eq!(bus.read::<16>(0x8001_0000, false), ReadMemoryAccess::Read(0, 5));
    assert_eq!(bus.read::<8>(0x8001_0010, false), ReadMemoryAccess::Read(0x0C, 5));
}

#[test]
fn cpu_runs_a_program_from_the_bus() {
    let mut bus = new_bus();
    // addiu $1, $0, 5 ; sw $1, 0x100($0) ; nop ; nop
    for (i, w) in [0x2401_0005u32, 0xAC01_0100, 0, 0].iter().enumerate() {
        assert_eq!(bus.write::<32>(0xA000_0000 + 4 * i as u32, *w), WriteMemoryAccess::Write(5));
    }
    let mut cpu = Cpu::new();
    // run uncached (KSEG1)
    cpu.set_pc(0xA000_0000);
    let mut cop0 = Cop0::new();
    // the store leaves the write queue once enough cycles have gone by; the words after the
    // program are zero (NOP)
    for _ in 0..16 {
        assert!(cpu.execute_next_instruction(&mut bus, &mut cop0, false) >= 1);
    }
    assert_eq!(bus.read::<32>(0x0000_0100, false), ReadMemoryAccess::Read(5, 5));
    assert_eq!(cpu.pc, 0xA000_0040);
}
