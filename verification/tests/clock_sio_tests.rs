use r_ps1::clock::{Clock, ClockConfig, EventType};
use r_ps1::sio::{SIO0, TX_RX_DATA_CYCLES};
use r_ps1::controllers::ControllerButton;
use r_ps1::interrupt::IrqHandler;

#[test]
fn clock_hands_out_due_events_earliest_first() {
    let mut clock = Clock::new(ClockConfig::ntsc());
    clock.schedule(EventType::Timer0, 100);
    clock.schedule(EventType::SIO0, 50);
    clock.schedule(EventType::HBlankStart, 50);
    clock.schedule(EventType::Timer1, 500);
    assert!(!clock.has_ready_event());
    assert_eq!(clock.next_event_time(), Some(50));
    clock.advance_time(100);
    assert!(clock.has_ready_event());
    let events = clock.next_events();
    let kinds: Vec<EventType> = events.iter().map(|e| e.event_type).collect();
    assert_eq!(kinds, vec![EventType::SIO0, EventType::HBlankStart, EventType::Timer0]);
    let late: Vec<usize> = events.iter().map(|e| e.over_cycles).collect();
    assert_eq!(late, vec![50, 50, 0]);
    assert_eq!(clock.next_event_time(), Some(500));
    assert!(!clock.has_ready_event());
}

#[test]
fn clock_cancel_keeps_other_events() {
    let mut clock = Clock::new(ClockConfig::pal());
    clock.schedule(EventType::SIO0, 10);
    clock.schedule(EventType::Timer2, 20);
    clock.schedule(EventType::SIO0, 30);
    clock.cancel(EventType::SIO0);
    assert_eq!(clock.events.len(), 1);
    assert_eq!(clock.next_event_time(), Some(20));
    clock.advance_time(25);
    let e = clock.next_event().unwrap();
    assert_eq!(e.event_type, EventType::Timer2);
    assert_eq!(e.over_cycles, 5);
    assert!(clock.next_event().is_none());
}

#[test]
fn clock_gpu_cycle_conversion() {
    let c = ClockConfig::ntsc();
    assert_eq!(c.gpu_to_cpu_cycles(53_693_175), 33_868_800);
    assert_eq!(c.cpu_to_gpu_cycles(33_868_800), 53_693_175);
    assert_eq!(c.gpu_to_cpu_cycles(3413), 2152);
    let mut clock = Clock::new(c);
    assert_eq!(clock.schedule_gpu(EventType::HBlankEnd, 3413), 2152);
    assert_eq!(clock.schedule_gpu_dot_clock(EventType::GPUCommandCompleted, 3413, 2), 4304);
    clock.schedule_absolute(EventType::DoThrottle, 7);
    assert_eq!(clock.next_event_time(), Some(7));
}

#[test]
fn sio_pad_exchange_reads_buttons() {
    let mut sio = SIO0::new(true, false);
    let mut clock = Clock::new(ClockConfig::ntsc());
    let mut irq = IrqHandler::new();
    sio.get_controller_mut(0).on_controller_event(ControllerButton::Cross, true);
    sio.write_ctrl(0x1003);
    assert_eq!(sio.selected_device, Some(0));
    let mut answers = Vec::new();
    for byte in [0x01u8, 0x42, 0x00, 0x00, 0x00] {
        sio.write_tx_data(byte, &mut clock);
        assert_eq!(clock.next_event_time(), Some(clock.current_time() + TX_RX_DATA_CYCLES as u64));
        clock.advance_time(TX_RX_DATA_CYCLES as u64);
        let e = clock.next_event().unwrap();
        assert_eq!(e.event_type, EventType::SIO0);
        sio.on_tx_transmitted(&mut clock, &mut irq);
        answers.push(sio.read_rx_data());
    }
    assert_eq!(answers, vec![0xFF, 0x41, 0x5A, 0xFF, 0xBF]);
    assert!(irq.irqs != 0);
    assert_eq!(sio.read_rx_data(), 0x00);
    let status = sio.read_status(&clock);
    assert_eq!(status & 0x07, 0x05);
}

#[test]
fn sio_without_selection_ignores_data() {
    let mut sio = SIO0::new(true, true);
    let mut clock = Clock::new(ClockConfig::ntsc());
    sio.write_tx_data(0x01, &mut clock);
    assert_eq!(clock.events.len(), 0);
    sio.write_ctrl(0x0001);
    assert_eq!(sio.selected_device, None);
    sio.write_ctrl(0x2003);
    assert_eq!(sio.selected_device, Some(1));
    sio.write_ctrl(0x0040);
    assert_eq!(sio.selected_device, None);
    assert_eq!(sio.read_ctrl(), 0);
}

#[test]
fn sio_mode_and_baud_registers() {
    let mut sio = SIO0::new(false, false);
    sio.write_mode(0x000D);
    sio.write_baud(0x0088);
    assert_eq!(sio.read_mode(), 0x000D);
    assert_eq!(sio.read_baud(), 0x0088);
    assert!(sio.is_consistent());
    sio.write_mode(0xFFFF);
    assert_eq!(sio.read_mode(), 0x013F);
    sio.write_ctrl(0xC012);
    assert_eq!(sio.read_ctrl(), 0x0002);
}

#[test]
fn clock_cancel_where_drops_matching_types() {
    let mut clock = Clock::new(ClockConfig::ntsc());
    clock.schedule(EventType::Timer0, 10);
    clock.schedule(EventType::SIO0, 20);
    clock.schedule(EventType::Timer1, 30);
    clock.cancel_where(|t: &EventType| *t == EventType::Timer0 || *t == EventType::Timer1);
    assert_eq!(clock.events.len(), 1);
    assert_eq!(clock.next_event_time(), Some(20));
}
