use r_ps1::gpu::{GPU, Gp0Op, Gp0State};

#[test]
fn gp0_command_decoding() {
    assert_eq!(GPU::cmd_to_operation(0x2000_0000), Some((true, Gp0Op::PolygonRendering)));
    assert_eq!(GPU::cmd_to_operation(0x6000_0000), Some((true, Gp0Op::RectangleRendering)));
    assert_eq!(GPU::cmd_to_operation(0xA000_0000), Some((true, Gp0Op::CpuToVramCopy)));
    assert_eq!(GPU::cmd_to_operation(0x0200_0000), Some((true, Gp0Op::QuickVramFill)));
    assert_eq!(GPU::cmd_to_operation(0xE100_0000), Some((false, Gp0Op::DrawModeSettings)));
    assert_eq!(GPU::cmd_to_operation(0xE000_0000), Some((false, Gp0Op::Nop)));
    assert_eq!(GPU::cmd_to_operation(0x1F00_0000), Some((false, Gp0Op::SetIrq)));
    assert_eq!(GPU::cmd_to_operation(0x0300_0000), None);
    assert_eq!(GPU::cmd_to_operation(0xF000_0000), None);
}

#[test]
fn cpu_to_vram_then_vram_to_cpu() {
    let mut g = GPU::new();
    g.cmd_fifo.push(0xA000_0000);
    g.gp0state = Gp0State::WaitingCommandParameters(Gp0Op::CpuToVramCopy, None);
    assert_eq!(g.operation_cpu_to_vram_copy(0xA000_0000), 0);
    assert_eq!(g.gp0state, Gp0State::WaitingCommandParameters(Gp0Op::CpuToVramCopy, Some(2)));
    g.cmd_fifo.push(0x0000_0010);
    g.cmd_fifo.push(0x0001_0002);
    g.operation_cpu_to_vram_copy(0x0001_0002);
    match g.gp0state {
        Gp0State::VRamCopy(Gp0Op::CpuToVramCopy, c) => {
            assert_eq!((c.coord_x, c.coord_y, c.width, c.height), (16, 0, 2, 1));
        },
        other => panic!("unexpected {:?}", other),
    }
    g.operation_cpu_to_vram_copy(0x7FFF_001F);
    assert_eq!(g.get_pixel_15(g.get_vram_offset_15(16, 0)), 0x001F);
    assert_eq!(g.get_pixel_15(g.get_vram_offset_15(17, 0)), 0x7FFF);
    g.gp0state = Gp0State::WaitingCommand;
    g.cmd_fifo.push(0xC000_0000);
    g.gp0state = Gp0State::WaitingCommandParameters(Gp0Op::VramToCpuCopy, None);
    g.operation_vram_to_cpu_copy();
    g.cmd_fifo.push(0x0000_0010);
    g.cmd_fifo.push(0x0001_0002);
    g.operation_vram_to_cpu_copy();
    assert!(g.ready_bits.ready_to_send_vram_to_cpu);
    assert_eq!(g.gpu_read_read(), 0x7FFF_001F);
    assert_eq!(g.gp0state, Gp0State::WaitingCommand);
    assert!(!g.ready_bits.ready_to_send_vram_to_cpu);
    assert_eq!(g.gpu_read_peek(), 0x7FFF_001F);
}

#[test]
fn quick_fill_rounds_width_to_16() {
    let mut g = GPU::new();
    g.cmd_fifo.push(0x0200_00FF);
    g.cmd_fifo.push(0x0000_0010);
    g.cmd_fifo.push(0x0001_0001);
    g.gp0state = Gp0State::WaitingCommandParameters(Gp0Op::QuickVramFill, Some(2));
    assert_eq!(g.operation_quick_vram_fill(), 16);
    assert_eq!(g.gp0state, Gp0State::WaitingCommand);
    assert_eq!(g.get_pixel_15(g.get_vram_offset_15(16, 0)), 0x001F);
    assert_eq!(g.get_pixel_15(g.get_vram_offset_15(31, 0)), 0x001F);
    assert_eq!(g.get_pixel_15(g.get_vram_offset_15(32, 0)), 0);
    assert_eq!(g.get_pixel_15(g.get_vram_offset_15(16, 1)), 0);
}

#[test]
fn vram_to_vram_copy_and_mask() {
    let mut g = GPU::new();
    g.draw_pixel_offset(g.get_vram_offset_15(0, 0), 0x1234, false, false, None);
    g.draw_pixel_offset(g.get_vram_offset_15(1, 0), 0x8001, false, false, None);
    g.cmd_fifo.push(0x8000_0000);
    g.cmd_fifo.push(0x0000_0000);
    g.cmd_fifo.push(0x0005_0000);
    g.cmd_fifo.push(0x0001_0002);
    g.gp0state = Gp0State::WaitingCommandParameters(Gp0Op::VramVramCopy, Some(3));
    assert_eq!(g.operation_vram_vram_copy(), 31);
    assert_eq!(g.get_pixel_15(g.get_vram_offset_15(0, 5)), 0x1234);
    assert_eq!(g.get_pixel_15(g.get_vram_offset_15(1, 5)), 0x8001);
    g.preserve_masked_pixels = true;
    g.draw_pixel_offset(g.get_vram_offset_15(1, 5), 0x0002, true, false, None);
    assert_eq!(g.get_pixel_15(g.get_vram_offset_15(1, 5)), 0x8001);
    g.force_set_mask_bit = true;
    g.draw_pixel_offset(g.get_vram_offset_15(0, 5), 0x0002, true, false, None);
    assert_eq!(g.get_pixel_15(g.get_vram_offset_15(0, 5)), 0x8002);
}
