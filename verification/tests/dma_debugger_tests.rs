use r_ps1::dma::{DMAController, SyncMode, DMAResult, DMAChannel, DummyDMAChannel, DmaDevice, RecordingDevices};
use r_ps1::clock::{Clock, ClockConfig};
use r_ps1::interrupt::IrqHandler;
use r_ps1::memory::{ArrayMemory, mem_read};
use r_ps1::debugger::{Debugger, DebuggerAction, DebuggerCommand, RunMode, CpuRegisters, Cop0Registers, DebuggerResponse,
    memory_dump_lines, BreakPoints};

fn words(v: &[&str]) -> Vec<String> {
    v.iter().map(|s| s.to_string()).collect()
}

#[test]
fn dma_priority_table_follows_dpcr() {
    let mut dma = DMAController::new();
    dma.write_dpcr(0x0765_4321);
    assert_eq!(dma.read_dpcr(), 0x0765_4321);
    assert!(!dma.dma_enabled);
    assert_eq!(dma.priorities, vec![(6, 7), (5, 6), (4, 5), (3, 4), (2, 3), (1, 2), (0, 1), (7, 0)]);
    dma.write_dpcr(0x0800_0000);
    assert!(dma.dma_enabled);
    assert!(dma.channels[6].enabled);
    assert!(!dma.channels[2].enabled);
    assert_eq!(dma.priorities, vec![(7, 0), (6, 0), (5, 0), (4, 0), (3, 0), (2, 0), (1, 0), (0, 0)]);
}

#[test]
fn dma_interrupt_register() {
    let mut dma = DMAController::new();
    dma.write_dicr(0x8000);
    assert_eq!(dma.read_dicr(), 0x8000_8000);
    dma.write_dicr(0xFF80_0000);
    assert_eq!(dma.read_dicr(), 0x0080_0000);
    dma.write_reg_f8(5);
    dma.write_reg_fc(6);
    assert_eq!((dma.read_reg_f8(), dma.read_reg_fc()), (5, 6));
}

#[test]
fn dma_channel_registers() {
    let mut dma = DMAController::new();
    dma.write_madr(2, 0xFF12_3457);
    assert_eq!(dma.read_madr(2), 0xFF12_3457);
    assert_eq!(dma.channels[2].madr, 0x12_3454);
    dma.write_chcr(2, 0x0000_0201);
    assert_eq!(dma.channels[2].sync_mode, SyncMode::Slice);
    dma.write_bcr(2, 0x0003_0010);
    assert_eq!(dma.read_bcr(2), 0x0003_0010);
    assert_eq!(dma.channels[2].remaining_words, 0x10);
    assert_eq!(dma.channels[2].remaining_blocks, 3);
    dma.write_chcr(6, 0xFFFF_FFFF);
    assert_eq!(dma.read_chcr(6), 0x5100_0002);
    assert_eq!(dma.channels[6].sync_mode, SyncMode::Manual);
}

#[test]
fn dma_ordering_table_clear() {
    let mut dma = DMAController::new();
    let mut mem = ArrayMemory::new(&vec![0u8; 0x100_0004], false, 0, 0);
    let mut devices = RecordingDevices { written: Vec::new(), base: 0x1000 };
    let mut clock = Clock::new(ClockConfig::ntsc());
    let mut irq = IrqHandler::new();
    dma.write_madr(6, 0x100);
    dma.write_bcr(6, 4);
    dma.write_chcr(6, 0x1100_0002);
    dma.write_dpcr(0x0800_0000);
    let in_progress = dma.do_dma_for_cpu_cycles(3, &mut mem, &mut devices, &mut clock, &mut irq);
    assert!(in_progress);
    let done = dma.do_dma_for_cpu_cycles(1, &mut mem, &mut devices, &mut clock, &mut irq);
    assert!(!done);
    assert_eq!(mem_read::<32>(0x100, &mem.memory), 0xFC);
    assert_eq!(mem_read::<32>(0xFC, &mem.memory), 0xF8);
    assert_eq!(mem_read::<32>(0xF8, &mem.memory), 0xF4);
    assert_eq!(mem_read::<32>(0xF4, &mem.memory), 0xFF_FFFF);
    assert_eq!(dma.read_chcr(6) & 0x0100_0000, 0);
    assert_eq!(dma.dma_in_progress_on_channel, None);
}

#[test]
fn dma_slice_device_to_ram() {
    let mut ch = DMAChannel::new(3);
    let mut mem = ArrayMemory::new(&vec![0u8; 0x100_0004], false, 0, 0);
    let mut devices = RecordingDevices { written: Vec::new(), base: 0x1000 };
    let mut clock = Clock::new(ClockConfig::ntsc());
    let mut irq = IrqHandler::new();
    ch.write_madr(0x200);
    ch.write_chcr(0x0100_0200);
    ch.write_bcr(0x0002_0001);
    assert_eq!(ch.do_dma(&mut mem, &mut devices, &mut clock, &mut irq), DMAResult::BlockFinished);
    assert!(ch.waiting_next_block);
    assert_eq!(ch.do_dma(&mut mem, &mut devices, &mut clock, &mut irq), DMAResult::Finished);
    assert_eq!(mem_read::<32>(0x200, &mem.memory), 0x1003);
    assert_eq!(mem_read::<32>(0x204, &mem.memory), 0x1003);
    assert_eq!(ch.read_chcr() & 0x0100_0000, 0);
}

#[test]
fn dma_linked_list_sends_node_words() {
    let mut bytes = vec![0u8; 0x100_0004];
    // node at 0x100: 2 words, next node 0xFFFFFF (end)
    bytes[0x100..0x104].copy_from_slice(&0x02FF_FFFFu32.to_le_bytes());
    bytes[0x104..0x108].copy_from_slice(&0xAAAA_0001u32.to_le_bytes());
    bytes[0x108..0x10C].copy_from_slice(&0xBBBB_0002u32.to_le_bytes());
    let mut mem = ArrayMemory::new(&bytes, false, 0, 0);
    let mut ch = DMAChannel::new(2);
    let mut devices = RecordingDevices { written: Vec::new(), base: 0x1000 };
    let mut clock = Clock::new(ClockConfig::ntsc());
    let mut irq = IrqHandler::new();
    ch.write_madr(0x100);
    ch.write_chcr(0x0100_0401);
    assert_eq!(ch.do_dma(&mut mem, &mut devices, &mut clock, &mut irq), DMAResult::InProgress);
    assert_eq!(ch.do_dma(&mut mem, &mut devices, &mut clock, &mut irq), DMAResult::InProgress);
    assert_eq!(ch.do_dma(&mut mem, &mut devices, &mut clock, &mut irq), DMAResult::Finished);
    assert_eq!(devices.written, vec![(2, 0xAAAA_0001), (2, 0xBBBB_0002)]);
    assert_eq!(ch.read_madr(), 0xFF_FFFF);
}

#[test]
fn dummy_dma_channel() {
    let mut d = DummyDMAChannel {};
    assert!(d.is_dma_ready());
    assert!(d.dma_request());
    assert_eq!(d.dma_read(), 0);
}

#[test]
fn debugger_rounds_lengths_to_lines() {
    let d = Debugger::new();
    assert_eq!(d.adjust_mem_len(0), 0);
    assert_eq!(d.adjust_mem_len(16), 16);
    assert_eq!(d.adjust_mem_len(17), 32);
}

#[test]
fn debugger_breakpoints_and_go() {
    let mut d = Debugger::new();
    match d.command(&words(&["go"])) {
        DebuggerAction::Send(DebuggerCommand::RunModeChanged(RunMode::FreeMode), Some(m)) =>
            assert_eq!(m, "No breakpoints set, switching to Free Mode"),
        other => panic!("unexpected {:?}", other),
    }
    match d.command(&words(&["b", "a", "x", "80010000"])) {
        DebuggerAction::Info(m) => assert_eq!(m, "Add execute breakpoint at 80010000"),
        other => panic!("unexpected {:?}", other),
    }
    d.command(&words(&["break", "add", "x", "80010000"]));
    assert_eq!(d.break_points.execute, std::collections::HashSet::from([0x8001_0000u32]));
    match d.command(&words(&["go"])) {
        DebuggerAction::Send(DebuggerCommand::RunModeChanged(RunMode::BreakMode(bp)), Some(m)) => {
            assert_eq!(bp.execute, std::collections::HashSet::from([0x8001_0000u32]));
            assert_eq!(m, "Breakpoints set, switching to Break Mode");
        },
        other => panic!("unexpected {:?}", other),
    }
    assert!(!d.step_by_step_mode);
    match d.command(&words(&["b", "remove", "x", "80010000"])) {
        DebuggerAction::Info(m) => assert_eq!(m, "Remove execute breakpoint at 80010000"),
        other => panic!("unexpected {:?}", other),
    }
    assert!(d.break_points.is_empty());
    d.command(&words(&["b", "a", "o", "0000000C"]));
    assert_eq!(d.break_points.opcode, Some(0xC));
}

#[test]
fn debugger_errors() {
    let mut d = Debugger::new();
    match d.command(&words(&["foo"])) {
        DebuggerAction::Error(m) => assert_eq!(m, "Unrecognized command foo"),
        other => panic!("unexpected {:?}", other),
    }
    match d.command(&words(&["log"])) {
        DebuggerAction::Error(m) => assert_eq!(m, "Wrong number of arguments for 'log' command: expected <level>"),
        other => panic!("unexpected {:?}", other),
    }
    match d.command(&words(&["b", "x", "x", "10"])) {
        DebuggerAction::Error(m) => assert_eq!(m, "Unrecognized breakpoint action: x"),
        other => panic!("unexpected {:?}", other),
    }
    match d.command(&words(&["b", "a", "q", "10"])) {
        DebuggerAction::Error(m) => assert_eq!(m, "Unrecognized breakpoint type: q"),
        other => panic!("unexpected {:?}", other),
    }
    assert!(matches!(d.command(&words(&["b"])), DebuggerAction::ListBreakPoints));
}

#[test]
fn debugger_memory_and_step_commands() {
    let mut d = Debugger::new();
    match d.command(&words(&["rw", "1f801000", "17"])) {
        DebuggerAction::SendAndShow(DebuggerCommand::ReadMemory(a, n, bits), c) => {
            assert_eq!((a, n, bits), (0x1F80_1000, 32, 32));
            assert_eq!(c, "rw");
        },
        other => panic!("unexpected {:?}", other),
    }
    assert!(matches!(d.command(&words(&[])), DebuggerAction::SendAndShow(DebuggerCommand::Step, _)));
    assert!(matches!(d.command(&words(&["regs"])), DebuggerAction::SendAndShow(DebuggerCommand::ReqCpuRegs, _)));
    match d.command(&words(&["log", "debug"])) {
        DebuggerAction::Send(DebuggerCommand::Log(l), None) => assert_eq!(l, "debug"),
        other => panic!("unexpected {:?}", other),
    }
}

#[test]
fn debugger_byte_dump_lines() {
    let mem: Vec<u32> = (0x41..0x41 + 18).collect();
    let lines = memory_dump_lines("rb", 0x1000, &mem);
    assert_eq!(lines.len(), 2);
    assert_eq!(lines[0], "00001000 41 42 43 44 45 46 47 48 49 4A 4B 4C 4D 4E 4F 50  ABCDEFGHIJKLMNOP");
    assert_eq!(lines[1], "00001010 51 52  QR");
    let lines = memory_dump_lines("rh", 0x10, &vec![0x1234_5678, 0x0A]);
    assert_eq!(lines, vec!["00000010 5678 000A  ".to_string()]);
}

#[test]
fn debugger_register_dumps() {
    let regs = CpuRegisters { pc: 0xBFC0_0000, regs: [0; 32], lo: 1, hi: 2, dma_in_progress: false };
    let dump = regs.dump();
    assert!(dump.starts_with("PC=BFC00000 LO=00000001 HI=00000002 DMA=false\n"));
    assert_eq!(dump.matches('\n').count(), 5);
    let cop0 = Cop0Registers { regs: [0; 32] };
    assert_eq!(cop0.dump().matches('\n').count(), 4);
    let mut d = Debugger::new();
    let (lines, wait) = d.handle_response(&DebuggerResponse::BreakAt(0x8000_0080), "r");
    assert!(wait);
    assert!(d.step_by_step_mode);
    assert_eq!(lines, vec!["Break at 80000080".to_string()]);
    let (lines, wait) = d.handle_response(&DebuggerResponse::Cop0Regs(Cop0Registers { regs: [0; 32] }), "cop0");
    assert!(!wait);
    assert!(lines[0].starts_with("Cop0 Registers:\n"));
}

#[test]
fn breakpoints_start_empty() {
    let b = BreakPoints::new();
    assert!(b.is_empty());
}
