use r_ps1::clock::{Clock, ClockConfig, EventType};
use r_ps1::cpu::cop0::Cop0;
use r_ps1::cpu::cop2::Cop2;
use r_ps1::memory::{get_memory_seg, MemorySegment};
use r_ps1::memory::io::{io_target, IoTarget};
use r_ps1::controllers::{Controller, ControllerType, MouseInfo};
use r_ps1::gpu::GPU;
use r_ps1::gpu::raster::LineEnd;
use r_ps1::interrupt::{InterruptState, InterruptController, InterruptType, IrqHandler};
use r_ps1::cdrom::cue::join_path;
use r_ps1::debugger::command_is_ok;

#[test]
fn pc_breakpoint_needs_debug_and_pc_enable() {
    let mut c = Cop0::new();
    c.regs[7] = 0x0080_0000;
    c.regs[3] = 0x8001_0000;
    c.regs[11] = 0xFFFF_FFFF;
    assert!(!c.is_at_pc_breakpoint(0x8001_0000));
    c.regs[7] = 0x0180_0000;
    assert!(c.is_at_pc_breakpoint(0x8001_0000));
    assert!(!c.is_at_pc_breakpoint(0x8001_0004));
}

#[test]
fn data_breakpoint_needs_debug_and_data_enable() {
    let mut c = Cop0::new();
    c.regs[7] = 0x0500_0000;
    c.regs[5] = 0x8001_0000;
    c.regs[9] = 0xFFFF_FFFF;
    assert!(!c.is_at_rw_breakpoint(0x8001_0000, true));
    c.regs[7] = 0x0680_0000;
    assert!(c.is_at_rw_breakpoint(0x8001_0000, true));
    assert!(!c.is_at_rw_breakpoint(0x8001_0000, false));
}

#[test]
fn gte_command_cycles() {
    assert_eq!(Cop2::command_penalty(0x01), 15);
    assert_eq!(Cop2::command_penalty(0x06), 8);
    assert_eq!(Cop2::command_penalty(0x12), 8);
    assert_eq!(Cop2::command_penalty(0x13), 19);
    assert_eq!(Cop2::command_penalty(0x16), 44);
    assert_eq!(Cop2::command_penalty(0x30), 23);
    assert_eq!(Cop2::command_penalty(0x3F), 39);
    assert_eq!(Cop2::command_penalty(0x00), 0);
}

#[test]
fn memory_segments() {
    assert_eq!(get_memory_seg(0x0000_0000), MemorySegment::KUSEG);
    assert_eq!(get_memory_seg(0x2000_0000), MemorySegment::KUSEG);
    assert_eq!(get_memory_seg(0x7FFF_FFFF), MemorySegment::KUSEG);
    assert_eq!(get_memory_seg(0x8000_0000), MemorySegment::KUSEG0);
    assert_eq!(get_memory_seg(0xA000_0000), MemorySegment::KUSEG1);
    assert_eq!(get_memory_seg(0xC000_0000), MemorySegment::KUSEG2);
    assert!(get_memory_seg(0x6000_0000).is_user());
}

fn card_controller() -> Controller {
    let mut c = Controller::new(0, true, ControllerType::Digital);
    c.get_memory_card_mut().set_present(true);
    c.get_memory_card_mut().memory = vec![0u8; 131072];
    c
}

#[test]
fn memory_card_write_to_bad_sector() {
    let mut c = card_controller();
    let mut bytes = vec![0x81u8, 0x57, 0x00, 0x00, 0x04, 0x00];
    bytes.extend(std::iter::repeat(0xAAu8).take(128));
    bytes.extend([0x04u8, 0x00, 0x00, 0x00]);
    let mut last = 0;
    for b in bytes {
        last = c.read_byte_after_command(b);
    }
    assert_eq!(last, 0xFF);
    assert!(c.get_memory_card_mut().memory.iter().all(|b| *b == 0));
}

#[test]
fn memory_card_sector_is_its_frame() {
    let mut c = card_controller();
    let card = c.get_memory_card_mut();
    card.memory[0x200 * 128 + 5] = 0x77;
    card.set_sector_number(0x200);
    let mut got = Vec::new();
    for _ in 0..6 {
        got.push(card.read_sector_data().0);
    }
    assert_eq!(got[5], 0x77);
    assert_eq!(got[0], 0);
}

#[test]
fn gpu_status_after_reset() {
    let mut g = GPU::new();
    g.gp1_cmd(0x0000_0000);
    assert_eq!(g.gpu_stat_read(), 0x1480_2000);
}

#[test]
fn gpu_dma_request_in_gpuread_direction() {
    let mut g = GPU::new();
    g.gp1_cmd(0x0400_0003);
    let s = g.gpu_stat_read();
    assert_eq!((s >> 29) & 3, 3);
    assert_eq!((s >> 25) & 1, (s >> 27) & 1);
    assert_eq!((s >> 25) & 1, 0);
}

#[test]
fn gpu_drawing_offset_register() {
    let mut g = GPU::new();
    g.gp0_set_drawing_offset(0xE500_4010);
    g.gp1_cmd(0x1000_0005);
    assert_eq!(g.gpu_read_peek(), 0x0000_4010);
    g.gp1_cmd(0x1000_0000);
    assert_eq!(g.gpu_read_peek(), 0x0000_4010);
}

#[test]
fn raster_line_end_enters_vertical_blank() {
    let mut g = GPU::new();
    g.raster.raster_line = g.display_config.vertical_end as usize - 1;
    let r = g.on_raster_line_end(3);
    assert_eq!(r, LineEnd { delay: g.display_config.horizontal_start as u64 - 3, vblank_ended: false, vblank_started: true });
    assert!(g.raster.v_blank);
    g.raster.raster_line = g.raster.total_lines - 1;
    let r = g.on_raster_line_end(0);
    assert!(!r.vblank_started);
    assert_eq!(g.raster.raster_line, 0);
    let d = g.on_hblank_start(5);
    assert_eq!(d, (g.raster.total_cycles - g.display_config.horizontal_end as usize - 5) as u64);
    assert!(g.raster.h_blank);
    let d = g.on_hblank_end(0);
    assert_eq!(d, (g.display_config.horizontal_end - g.display_config.horizontal_start) as u64);
    assert!(!g.raster.h_blank);
}

#[test]
fn interrupt_registers() {
    let mut i = InterruptState::new();
    i.write_mask(0x0005);
    i.raise(0x0002);
    assert!(!i.line_active());
    i.raise_interrupt(InterruptType::CDROM);
    assert_eq!(i.read_stat(), 0x0006);
    assert!(i.line_active());
    i.write_stat(!0x0004u16);
    assert_eq!(i.read_stat(), 0x0002);
    assert!(!i.line_active());
    let mut h = IrqHandler::new();
    h.set_irq(InterruptType::VBlank);
    h.forward_to_controller(&mut i);
    assert_eq!(i.read_stat(), 0x0003);
    assert!(i.line_active());
    assert_eq!(h.irqs, 0);
}

#[test]
fn io_addresses() {
    assert_eq!(io_target(0x1F80_1070), IoTarget::InterruptStatus);
    assert_eq!(io_target(0x1F80_1074), IoTarget::InterruptMask);
    assert_eq!(io_target(0x1F80_1124), IoTarget::Timer(2, 1));
    assert_eq!(io_target(0x1F80_10A8), IoTarget::DmaChcr(2));
    assert_eq!(io_target(0x1F80_10E0), IoTarget::DmaMadr(6));
    assert_eq!(io_target(0x1F80_1814), IoTarget::GpuStatus);
    assert_eq!(io_target(0x1F80_104A), IoTarget::Sio0Control);
    assert_eq!(io_target(0x1F80_1D00), IoTarget::Spu);
    assert_eq!(io_target(0x1F80_1060), IoTarget::MemoryControl);
    assert_eq!(io_target(0x1F80_1800), IoTarget::Unmapped);
}

#[test]
fn cue_file_paths_join_the_sheet_folder() {
    assert_eq!(join_path("discs/game", "track 1.bin"), "discs/game/track 1.bin");
    assert_eq!(join_path("discs/", "a.bin"), "discs/a.bin");
    assert_eq!(join_path("", "a.bin"), "a.bin");
    assert_eq!(join_path("discs", "/abs/a.bin"), "/abs/a.bin");
}

#[test]
fn debugger_command_arguments() {
    let w = |v: &[&str]| v.iter().map(|s| s.to_string()).collect::<Vec<String>>();
    assert!(command_is_ok(&w(&["rw", "80010000", "16"])));
    assert!(!command_is_ok(&w(&["rw", "zz", "16"])));
    assert!(!command_is_ok(&w(&["rb", "1000", "x"])));
    assert!(command_is_ok(&w(&["break", "x", "add", "80010000"])));
    assert!(!command_is_ok(&w(&["b", "x", "add", "8001g000"])));
    assert!(command_is_ok(&w(&["regs"])));
}

#[test]
fn gp0_words_run_a_quick_fill_and_queue_while_busy() {
    let mut g = GPU::new();
    let mut clock = Clock::new(ClockConfig::ntsc());
    let mut irq = IrqHandler::new();
    let r = g.gp0_cmd(0x0200_00FF, &mut clock, &mut irq);
    assert!(!r.0 && r.1.is_none());
    g.gp0_cmd(0x0000_0000, &mut clock, &mut irq);
    assert!(g.ready_bits.ready_to_receive_cmd_word);
    g.gp0_cmd(0x0010_0010, &mut clock, &mut irq);
    assert_eq!(g.get_pixel_15(g.get_vram_offset_15(0, 0)), 0x001F);
    assert_eq!(g.get_pixel_15(g.get_vram_offset_15(15, 15)), 0x001F);
    assert_eq!(g.get_pixel_15(g.get_vram_offset_15(16, 0)), 0x0000);
    assert!(!g.ready_bits.ready_to_receive_cmd_word);
    assert_eq!(clock.events.len(), 1);
    assert_eq!(clock.events[0].event_type, EventType::GPUCommandCompleted);
    let r = g.gp0_cmd(0xE100_0000, &mut clock, &mut irq);
    assert!(!r.0);
    assert_eq!(g.gp0_fifo.len(), 1);
}

#[test]
fn gp0_settings_words_apply_at_once() {
    let mut g = GPU::new();
    let mut clock = Clock::new(ClockConfig::ntsc());
    let mut irq = IrqHandler::new();
    g.gp0_cmd(0xE500_4010, &mut clock, &mut irq);
    g.gp1_cmd(0x1000_0005);
    assert_eq!(g.gpu_read_peek(), 0x0000_4010);
    g.gp0_cmd(0x1F00_0000, &mut clock, &mut irq);
    assert!(g.irq);
    assert!(irq.changed);
    assert_eq!(clock.events.len(), 0);
}

#[test]
fn gp0_words_draw_a_rectangle() {
    let mut g = GPU::new();
    let mut clock = Clock::new(ClockConfig::ntsc());
    let mut irq = IrqHandler::new();
    g.gp0_cmd(0xE300_0000, &mut clock, &mut irq);
    g.gp0_cmd(0xE407_FFFF, &mut clock, &mut irq);
    g.gp0_cmd(0x6000_FF00, &mut clock, &mut irq);
    g.gp0_cmd(0x0000_0000, &mut clock, &mut irq);
    assert_eq!(g.get_pixel_15(g.get_vram_offset_15(0, 0)), 0x0000);
    g.gp0_cmd(0x0002_0002, &mut clock, &mut irq);
    assert_eq!(g.get_pixel_15(g.get_vram_offset_15(0, 0)), 0x03E0);
    assert_eq!(g.get_pixel_15(g.get_vram_offset_15(1, 1)), 0x03E0);
    assert_eq!(g.get_pixel_15(g.get_vram_offset_15(2, 0)), 0x0000);
    assert!(g.ready_bits.ready_to_receive_cmd_word);
}

#[test]
fn irgb_write_reads_back_through_orgb_and_ir() {
    let mut c = Cop2::new();
    c.write_data(28, 0x1234_5678);
    assert_eq!(c.read_data(28), 0x5678);
    assert_eq!(c.read_data(29), 0x5678);
    assert_eq!(c.read_data(9), 0x0C00);
    assert_eq!(c.read_data(10), 0x0980);
    assert_eq!(c.read_data(11), 0x0A80);
}

#[test]
fn memory_card_read_of_sector_one() {
    let mut c = Controller::new(0, true, ControllerType::Digital);
    c.get_memory_card_mut().set_present(true);
    let mut bytes = vec![0x81u8, 0x52, 0x00, 0x00, 0x00, 0x01, 0x00, 0x00, 0x00, 0x00];
    bytes.extend(std::iter::repeat(0u8).take(128));
    bytes.extend([0x00u8, 0x00]);
    let got: Vec<u8> = bytes.iter().map(|b| c.read_byte_after_command(*b)).collect();
    let mut expected = vec![0xFFu8, 0x08, 0x5A, 0x5D, 0x00, 0x00, 0x5C, 0x5D, 0x00, 0x01];
    expected.extend(std::iter::repeat(0u8).take(128));
    expected.extend([0x01u8, 0x47]);
    assert_eq!(got, expected);
    assert!(!c.ack());
}

#[test]
fn mouse_poll_reports_buttons_and_consumes_motion() {
    let mut c = Controller::new(0, true, ControllerType::Mouse);
    c.on_mouse_event(MouseInfo::LeftButton(true));
    c.on_mouse_event(MouseInfo::DXYMotion(-3, 5));
    let poll = [0x01u8, 0x42, 0, 0, 0, 0, 0];
    let first: Vec<u8> = poll.iter().map(|b| c.read_byte_after_command(*b)).collect();
    assert_eq!(first, vec![0xFF, 0x12, 0x5A, 0xFF, 0xF4, 0xFD, 0x05]);
    let second: Vec<u8> = poll.iter().map(|b| c.read_byte_after_command(*b)).collect();
    assert_eq!(second, vec![0xFF, 0x12, 0x5A, 0xFF, 0xF4, 0x00, 0x00]);
}
