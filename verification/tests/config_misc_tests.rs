use r_ps1::config::{parse_keycode, keycode_to_string, KeyCode, KeyMapping, ControllerKeyMapping, LogConfig, AudioConfig,
    RegionPolicyConfig, CheatsConfig};
use r_ps1::controllers::ControllerButton;
use r_ps1::bios::{find_bios, ps1_bios_set};
use r_ps1::cdrom::Region;
use r_ps1::snapshot::SnapshotManager;
use r_ps1::audio::{AudioDevice, AudioSample, CpalAudioDevice};
use r_ps1::memory::{md5_hex_string, ArrayMemory};
use r_ps1::text::{hex_upper, dec_string, trim, chars_of, string_of};
use r_ps1::cheats::{Cheats, Cheat};
use r_ps1::gpu::{Color, CommandFifo};
use r_ps1::interrupt::{IrqHandler, InterruptType};

#[test]
fn key_names_and_aliases() {
    assert_eq!(parse_keycode("KeyA"), Some(KeyCode::KeyA));
    assert_eq!(parse_keycode("A"), Some(KeyCode::KeyA));
    assert_eq!(parse_keycode("Esc"), Some(KeyCode::Escape));
    assert_eq!(parse_keycode("Ctrl"), Some(KeyCode::ControlLeft));
    assert_eq!(parse_keycode("7"), Some(KeyCode::Digit7));
    assert_eq!(parse_keycode("Return"), Some(KeyCode::Enter));
    assert_eq!(parse_keycode("a"), None);
    assert_eq!(parse_keycode("keya"), None);
    assert_eq!(parse_keycode("F13"), None);
    assert_eq!(keycode_to_string(KeyCode::F12), "F12");
    assert_eq!(keycode_to_string(KeyCode::ArrowLeft), "ArrowLeft");
    for k in [KeyCode::KeyZ, KeyCode::Digit0, KeyCode::Space, KeyCode::AltRight, KeyCode::F5] {
        assert_eq!(parse_keycode(&keycode_to_string(k)), Some(k));
    }
}

#[test]
fn default_key_maps() {
    let m1 = ControllerKeyMapping::default_controller_1();
    assert_eq!(m1.map_key(KeyCode::KeyX), Some(ControllerButton::Cross));
    assert_eq!(m1.map_key(KeyCode::Enter), Some(ControllerButton::Start));
    assert_eq!(m1.map_key(KeyCode::ShiftRight), Some(ControllerButton::Select));
    assert_eq!(m1.map_key(KeyCode::ArrowUp), Some(ControllerButton::Up));
    assert_eq!(m1.map_key(KeyCode::F1), None);
    let m2 = ControllerKeyMapping::default_controller_2();
    assert_eq!(m2.map_key(KeyCode::KeyK), Some(ControllerButton::Cross));
    // KeyH is both triangle and pad down: the later entry wins
    assert_eq!(m2.map_key(KeyCode::KeyH), Some(ControllerButton::Down));
    assert_eq!(m2.map_key(KeyCode::Digit0), Some(ControllerButton::Start));
}

#[test]
fn key_map_skips_unknown_names() {
    let mut k = KeyMapping::default_controller1();
    k.cross = "Nope".to_string();
    k.l3 = Some("F1".to_string());
    let m = ControllerKeyMapping::from_config(k);
    assert_eq!(m.map_key(KeyCode::KeyX), None);
    assert_eq!(m.map_key(KeyCode::F1), Some(ControllerButton::L3));
    assert_eq!(m.key_map.len(), 14);
}

#[test]
fn config_defaults() {
    let l = LogConfig::default();
    assert_eq!(l.log_severity, "info");
    assert!(l.log_file.is_none());
    assert_eq!(AudioConfig::default().buffer_capacity_in_millis, 10);
    assert_eq!(RegionPolicyConfig::default(), RegionPolicyConfig::Auto);
    assert!(CheatsConfig::default().cheats_codes.is_empty());
}

#[test]
fn bios_lookup_by_md5() {
    let b = find_bios("239665b1a3dade1b5a52c06338011044").unwrap();
    assert_eq!(b.redump_name, "ps-10j");
    assert_eq!(b.region, Region::Japan);
    assert_eq!(b.date, "1994-09-22");
    let b = find_bios("b10f5e0e3d9eb60e5159690680b1e774").unwrap();
    assert_eq!(b.redump_name, "psone-44e");
    assert_eq!(b.region, Region::Europe);
    assert!(find_bios("00000000000000000000000000000000").is_none());
    assert_eq!(ps1_bios_set().len(), 25);
}

#[test]
fn md5_of_memory_contents() {
    assert_eq!(md5_hex_string(b""), "D41D8CD98F00B204E9800998ECF8427E");
    assert_eq!(md5_hex_string(b"abc"), "900150983CD24FB0D6963F7D28E17F72");
    let m = ArrayMemory::new(b"abc", true, 1, 2);
    assert_eq!(m.md5, "900150983CD24FB0D6963F7D28E17F72");
}

#[test]
fn snapshot_slots() {
    let mut s = SnapshotManager::new("/tmp/snap".to_string());
    assert_eq!(s.get_slot(), 0);
    s.set_slot(5);
    assert_eq!(s.get_slot(), 0);
    s.set_slot(12);
    assert_eq!(s.get_slot(), 12);
    assert_eq!(s.slot_file_name(), "slot_12");
}

#[test]
fn audio_sample_pair() {
    let a = AudioSample::new_lr((1, -2));
    assert_eq!((a.left, a.right), (1, -2));
}

#[test]
fn text_formatting() {
    assert_eq!(hex_upper(0xAB, 4), "00AB");
    assert_eq!(hex_upper(0x12345, 2), "12345");
    assert_eq!(dec_string(1234), "1234");
    assert_eq!(dec_string(0), "0");
    assert_eq!(trim("  x y \t\n"), "x y");
    assert_eq!(string_of(&chars_of("héllo")), "héllo");
}

#[test]
fn cheat_codes_parse() {
    let c = Cheats::try_parse(&vec!["80010000 1234".to_string(), "300A0000 00ff".to_string(), "bad".to_string()]).unwrap();
    assert_eq!(c.cheats.len(), 2);
    match &c.cheats[0] {
        Cheat::WriteMemory { address, value, is_byte } => assert_eq!((*address, *value, *is_byte), (0x010000, 0x1234, false)),
        other => panic!("unexpected {:?}", other),
    }
    match &c.cheats[1] {
        Cheat::WriteMemory { address, value, is_byte } => assert_eq!((*address, *value, *is_byte), (0x0A0000, 0xFF, true)),
        other => panic!("unexpected {:?}", other),
    }
}

#[test]
fn gpu_colour_round_trip_and_fifo_order() {
    assert_eq!(Color::from_u16(0x7FFF).to_u16(), 0x7FFF);
    assert_eq!(Color::from_u16(0x8421).to_u16(), 0x8421);
    let mut f = CommandFifo::new();
    assert!(f.push(1));
    assert!(f.push(2));
    assert_eq!(f.len(), 2);
    assert_eq!(f.pop(), Some(1));
    assert_eq!(f.pop(), Some(2));
    assert!(f.is_empty());
}

#[test]
fn irq_handler_sets_lines() {
    let mut h = IrqHandler::new();
    h.set_irq(InterruptType::VBlank);
    assert_eq!(h.irqs, 1);
    assert!(h.changed);
    h.set_irq(InterruptType::CDROM);
    assert_eq!(h.irqs, 0b101);
}

#[test]
fn audio_device_buffers_then_queues() {
    let mut dev = CpalAudioDevice::new(1);
    assert_eq!(dev.buffer_size(), 88);
    for i in 0..87i16 {
        dev.play_sample(AudioSample::new_lr((i, -i)));
    }
    assert_eq!(dev.buffered().len(), 87);
    assert_eq!(dev.queued().len(), 0);
    assert_eq!(dev.next_output_frame(), (0, 0));
    dev.play_sample(AudioSample::new_lr((87, -87)));
    assert_eq!(dev.buffered().len(), 0);
    assert_eq!(dev.queued().len(), 88);
    assert_eq!(dev.next_output_frame(), (0, 0));
    assert_eq!(dev.next_output_frame(), (1, -1));
    assert_eq!(dev.queued().len(), 86);
}

#[test]
fn key_names_read_back() {
    for k in [KeyCode::KeyA, KeyCode::Digit0, KeyCode::ArrowUp, KeyCode::F12] {
        assert_eq!(parse_keycode(&keycode_to_string(k)), Some(k));
    }
}
