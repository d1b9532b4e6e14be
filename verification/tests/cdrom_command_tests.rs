use r_ps1::cdrom::controller::{CDRom, CommandState};
use r_ps1::cdrom::cue::parse_cue_lines;
use r_ps1::cdrom::disc::DiscTime;
use r_ps1::cdrom::image::Disc;
use r_ps1::cdrom::commands::{delay_cycles_44100, time_at_or_after, STD_SECOND_RESPONSE_IRQ_DELAY_44100, INIT_SECOND_RESPONSE_IRQ_DELAY_44100};
use r_ps1::interrupt::IrqHandler;

fn send(cd: &mut CDRom, cmd: u8, params: &[u8]) {
    cd.write_0(0);
    for p in params {
        cd.write_2(*p);
    }
    cd.write_1(cmd);
}

fn ticks(cd: &mut CDRom, irq: &mut IrqHandler, n: usize) {
    for _ in 0..n {
        cd.check_command_state(irq);
    }
}

fn results(cd: &mut CDRom) -> Vec<u8> {
    let mut v = Vec::new();
    while cd.result_fifo.len() > 0 {
        v.push(cd.read_1());
    }
    v
}

fn ack(cd: &mut CDRom) {
    cd.write_0(1);
    cd.write_3(0x07);
    cd.write_0(0);
}

fn audio_disc() -> Disc {
    let lines: Vec<String> = [
        "FILE \"1.bin\" BINARY", "TRACK 01 AUDIO", "INDEX 01 00:00:00",
        "FILE \"2.bin\" BINARY", "TRACK 02 AUDIO", "INDEX 01 00:00:00",
    ].iter().map(|s| s.to_string()).collect();
    Disc::from_cue("b.cue".to_string(), &parse_cue_lines(&lines), &vec![2352 * 75, 2352 * 150]).unwrap()
}

fn data_disc() -> Disc {
    let lines: Vec<String> = ["FILE \"a.bin\" BINARY", "TRACK 01 MODE2/2352", "INDEX 01 00:00:00"]
        .iter().map(|s| s.to_string()).collect();
    Disc::from_cue("a.cue".to_string(), &parse_cue_lines(&lines), &vec![2352 * 300]).unwrap()
}

#[test]
fn nop_answers_int3_with_stat() {
    let mut cd = CDRom::new();
    let mut irq = IrqHandler::new();
    send(&mut cd, 0x01, &[]);
    ticks(&mut cd, &mut irq, 1);
    assert!(matches!(cd.command_state, CommandState::Response { irq: 3, delay_cycles: 1, .. }));
    ticks(&mut cd, &mut irq, 1);
    assert_eq!(cd.hintsts_reg & 7, 3);
    assert!(matches!(cd.command_state, CommandState::Idle));
    assert_eq!(results(&mut cd), vec![0x00]);
}

#[test]
fn test_command_reports_version() {
    let mut cd = CDRom::new();
    let mut irq = IrqHandler::new();
    send(&mut cd, 0x19, &[0x20]);
    ticks(&mut cd, &mut irq, 2);
    assert_eq!(results(&mut cd), vec![0x95, 0x07, 0x24, 0xC1]);
}

#[test]
fn test_command_sub_functions() {
    let mut cd = CDRom::new();
    let mut irq = IrqHandler::new();
    send(&mut cd, 0x19, &[0x04]);
    ticks(&mut cd, &mut irq, 2);
    assert_eq!(results(&mut cd), vec![0x02]);
    ack(&mut cd);
    send(&mut cd, 0x19, &[0x05]);
    ticks(&mut cd, &mut irq, 2);
    assert_eq!(results(&mut cd), vec![0x02, 0x00, 0x00]);
    ack(&mut cd);
    send(&mut cd, 0x19, &[0x77]);
    ticks(&mut cd, &mut irq, 2);
    assert_eq!(cd.hintsts_reg & 7, 5);
    assert_eq!(results(&mut cd), vec![0x03, 0x10]);
}

#[test]
fn wrong_parameter_count_is_refused() {
    let mut cd = CDRom::new();
    let mut irq = IrqHandler::new();
    send(&mut cd, 0x01, &[0x00]);
    ticks(&mut cd, &mut irq, 2);
    assert_eq!(cd.hintsts_reg & 7, 5);
    assert_eq!(results(&mut cd), vec![0x01, 0x20]);
    assert_eq!(cd.parameter_fifo.len(), 1);
}

#[test]
fn setloc_valid_and_invalid() {
    let mut cd = CDRom::new();
    let mut irq = IrqHandler::new();
    send(&mut cd, 0x02, &[0x00, 0x02, 0x10]);
    ticks(&mut cd, &mut irq, 2);
    assert_eq!(cd.pending_setloc, Some(DiscTime::new(0, 2, 10)));
    assert_eq!(results(&mut cd), vec![0x00]);
    ack(&mut cd);
    send(&mut cd, 0x02, &[0x00, 0x60, 0x00]);
    ticks(&mut cd, &mut irq, 2);
    assert_eq!(results(&mut cd), vec![0x01, 0x40]);
    assert_eq!(cd.pending_setloc, Some(DiscTime::new(0, 2, 10)));
}

#[test]
fn command_waits_for_acknowledge() {
    let mut cd = CDRom::new();
    let mut irq = IrqHandler::new();
    send(&mut cd, 0x01, &[]);
    ticks(&mut cd, &mut irq, 2);
    send(&mut cd, 0x01, &[]);
    assert!(matches!(cd.command_state, CommandState::WaitingIrqAck(0x01)));
    ticks(&mut cd, &mut irq, 3);
    assert!(matches!(cd.command_state, CommandState::WaitingIrqAck(0x01)));
    ack(&mut cd);
    ticks(&mut cd, &mut irq, 1);
    assert!(matches!(cd.command_state, CommandState::ToProcess(0x01)));
}

#[test]
fn get_id_without_disc_fails_after_delay() {
    let mut cd = CDRom::new();
    let mut irq = IrqHandler::new();
    send(&mut cd, 0x1A, &[]);
    ticks(&mut cd, &mut irq, 2);
    assert_eq!(results(&mut cd), vec![0x00]);
    assert!(matches!(cd.command_state, CommandState::Delay { delay_cycles: 24, .. }));
    ticks(&mut cd, &mut irq, STD_SECOND_RESPONSE_IRQ_DELAY_44100);
    assert!(matches!(cd.command_state, CommandState::Response2 { .. }));
    ticks(&mut cd, &mut irq, 2);
    assert_eq!(cd.hintsts_reg & 7, 5);
    assert_eq!(results(&mut cd), vec![0x01, 0x40]);
}

#[test]
fn get_id_of_data_disc() {
    let mut cd = CDRom::new();
    let mut irq = IrqHandler::new();
    let mut disc = data_disc();
    disc.set_region(Some(r_ps1::cdrom::Region::Europe));
    cd.insert_disk(disc);
    send(&mut cd, 0x1A, &[]);
    ticks(&mut cd, &mut irq, 2 + 24 + 2);
    assert_eq!(cd.hintsts_reg & 7, 2);
    assert_eq!(results(&mut cd), vec![0x00, 0x00, 0x00, 0x20, 0x00, b'S', b'C', b'E', b'E']);
}

#[test]
fn get_id_of_audio_disc() {
    let mut cd = CDRom::new();
    let mut irq = IrqHandler::new();
    cd.insert_disk(audio_disc());
    send(&mut cd, 0x1A, &[]);
    ticks(&mut cd, &mut irq, 2 + 24 + 2);
    assert_eq!(results(&mut cd), vec![0x00, 0x01, 0x80]);
}

#[test]
fn motor_on_twice() {
    let mut cd = CDRom::new();
    let mut irq = IrqHandler::new();
    send(&mut cd, 0x07, &[]);
    ticks(&mut cd, &mut irq, 2);
    assert!(cd.motor_on);
    assert_eq!(results(&mut cd), vec![0x02]);
    ticks(&mut cd, &mut irq, 24 + 2);
    assert_eq!(results(&mut cd), vec![0x02]);
    ack(&mut cd);
    send(&mut cd, 0x07, &[]);
    ticks(&mut cd, &mut irq, 2);
    assert_eq!(results(&mut cd), vec![0x03, 0x20]);
}

#[test]
fn setmode_ignore_bit_keeps_sector_size() {
    let mut cd = CDRom::new();
    let mut irq = IrqHandler::new();
    send(&mut cd, 0x0E, &[0x20]);
    ticks(&mut cd, &mut irq, 2);
    assert_eq!(cd.mode, 0x20);
    ack(&mut cd);
    send(&mut cd, 0x0E, &[0x18]);
    ticks(&mut cd, &mut irq, 2);
    assert_eq!(cd.mode, 0x38);
    assert!(cd.adpcm_filter_enabled);
}

#[test]
fn set_filter_and_mute() {
    let mut cd = CDRom::new();
    let mut irq = IrqHandler::new();
    send(&mut cd, 0x0D, &[0x01, 0x02]);
    ticks(&mut cd, &mut irq, 2);
    assert_eq!((cd.adpcm_file, cd.adpcm_channel), (1, 2));
    ack(&mut cd);
    send(&mut cd, 0x0B, &[]);
    ticks(&mut cd, &mut irq, 2);
    assert!(cd.audio_mute);
    ack(&mut cd);
    send(&mut cd, 0x0C, &[]);
    ticks(&mut cd, &mut irq, 2);
    assert!(!cd.audio_mute);
}

#[test]
fn seek_moves_head_after_seek_time() {
    let mut cd = CDRom::new();
    let mut irq = IrqHandler::new();
    cd.insert_disk(audio_disc());
    send(&mut cd, 0x02, &[0x00, 0x02, 0x00]);
    ticks(&mut cd, &mut irq, 2);
    ack(&mut cd);
    results(&mut cd);
    send(&mut cd, 0x15, &[]);
    ticks(&mut cd, &mut irq, 1);
    assert!(matches!(cd.command_state, CommandState::Response { .. }));
    ticks(&mut cd, &mut irq, 1);
    assert_eq!(results(&mut cd), vec![0x42]);
    assert!(matches!(cd.command_state, CommandState::Delay { delay_cycles: 24, .. }));
    ticks(&mut cd, &mut irq, 24 + 2);
    assert_eq!(cd.disc.as_ref().unwrap().get_head_position(), DiscTime::new(0, 2, 0));
    assert_eq!(cd.pending_setloc, None);
    assert_eq!(results(&mut cd), vec![0x02]);
}

#[test]
fn get_tn_and_td() {
    let mut cd = CDRom::new();
    let mut irq = IrqHandler::new();
    cd.insert_disk(audio_disc());
    send(&mut cd, 0x13, &[]);
    ticks(&mut cd, &mut irq, 2);
    assert_eq!(results(&mut cd), vec![0x00, 0x01, 0x02]);
    ack(&mut cd);
    send(&mut cd, 0x14, &[0x02]);
    ticks(&mut cd, &mut irq, 2);
    assert_eq!(results(&mut cd), vec![0x00, 0x00, 0x01]);
    ack(&mut cd);
    send(&mut cd, 0x14, &[0x05]);
    ticks(&mut cd, &mut irq, 2);
    assert_eq!(results(&mut cd), vec![0x01, 0x10]);
}

#[test]
fn get_locp_reports_position_in_track() {
    let mut cd = CDRom::new();
    let mut irq = IrqHandler::new();
    let mut disc = audio_disc();
    disc.seek_sector(DiscTime::new(0, 1, 10));
    cd.insert_disk(disc);
    send(&mut cd, 0x11, &[]);
    ticks(&mut cd, &mut irq, 2);
    assert_eq!(results(&mut cd), vec![0x02, 0x01, 0x00, 0x01, 0x10, 0x00, 0x00, 0x10]);
}

#[test]
fn get_locl_reads_last_sector_header() {
    let mut cd = CDRom::new();
    let mut irq = IrqHandler::new();
    cd.last_sector = (0u8..32).collect();
    send(&mut cd, 0x10, &[]);
    ticks(&mut cd, &mut irq, 2);
    assert_eq!(results(&mut cd), (12u8..20).collect::<Vec<u8>>());
}

#[test]
fn init_resets_mode_after_delay() {
    let mut cd = CDRom::new();
    let mut irq = IrqHandler::new();
    cd.mode = 0x80;
    cd.data_buffer.extend([1u8, 2]);
    send(&mut cd, 0x0A, &[]);
    ticks(&mut cd, &mut irq, 2);
    assert!(matches!(cd.command_state, CommandState::Delay { delay_cycles: 1171, .. }));
    ticks(&mut cd, &mut irq, INIT_SECOND_RESPONSE_IRQ_DELAY_44100 + 2);
    assert_eq!(cd.mode, 0x20);
    assert_eq!(cd.data_buffer.len(), 0);
    assert!(cd.motor_on);
}

#[test]
fn read_without_disc_and_with_disc() {
    let mut cd = CDRom::new();
    let mut irq = IrqHandler::new();
    send(&mut cd, 0x06, &[]);
    ticks(&mut cd, &mut irq, 2);
    assert_eq!(results(&mut cd), vec![0x01, 0x80]);
    ack(&mut cd);
    cd.insert_disk(data_disc());
    send(&mut cd, 0x06, &[]);
    ticks(&mut cd, &mut irq, 3);
    assert_eq!(cd.drive_state, r_ps1::cdrom::DriveState::Reading { next_sector_cycles: 587 });
    assert!(matches!(cd.command_state, CommandState::Idle));
}

#[test]
fn pause_waits_five_sector_times() {
    let mut cd = CDRom::new();
    let mut irq = IrqHandler::new();
    cd.mode = 0x80;
    send(&mut cd, 0x09, &[]);
    ticks(&mut cd, &mut irq, 2);
    assert!(matches!(cd.command_state, CommandState::Delay { delay_cycles: 1465, .. }));
}

#[test]
fn seek_time_and_sector_time() {
    let cd = CDRom::new();
    assert_eq!(cd.get_approx_seek_cycles_44100(&DiscTime::new(0, 0, 0), &DiscTime::new(1, 4, 0)), 588);
    assert_eq!(cd.get_approx_seek_cycles_44100(&DiscTime::new(0, 0, 5), &DiscTime::new(0, 0, 0)), 24);
    assert_eq!(cd.read_sector_ticks(), 587);
    assert_eq!(delay_cycles_44100(0x4A73), 24);
    assert!(time_at_or_after(&DiscTime::new(0, 2, 0), &DiscTime::new(0, 1, 74)));
    assert!(!time_at_or_after(&DiscTime::new(0, 1, 74), &DiscTime::new(0, 2, 0)));
}

#[test]
fn play_from_pending_position() {
    let mut cd = CDRom::new();
    let mut irq = IrqHandler::new();
    cd.insert_disk(audio_disc());
    cd.pending_setloc = Some(DiscTime::new(0, 1, 0));
    send(&mut cd, 0x03, &[]);
    ticks(&mut cd, &mut irq, 2);
    assert_eq!(results(&mut cd), vec![0x82]);
    assert_eq!(cd.disc.as_ref().unwrap().get_head_position(), DiscTime::new(0, 1, 0));
    ack(&mut cd);
    send(&mut cd, 0x03, &[0x02]);
    ticks(&mut cd, &mut irq, 2);
    assert_eq!(cd.disc.as_ref().unwrap().get_head_position(), DiscTime::new(0, 1, 0));
    assert_eq!(cd.pending_setloc, None);
}

#[test]
fn stop_returns_to_first_track() {
    let mut cd = CDRom::new();
    let mut irq = IrqHandler::new();
    let mut disc = audio_disc();
    disc.seek_sector(DiscTime::new(0, 2, 0));
    cd.insert_disk(disc);
    send(&mut cd, 0x08, &[]);
    ticks(&mut cd, &mut irq, 2 + 24 + 2);
    assert_eq!(cd.disc.as_ref().unwrap().get_head_position(), DiscTime::new(0, 0, 0));
    assert!(cd.motor_on);
}
