use r_ps1::cdrom::Region;
use r_ps1::cdrom::disc::{DiscTime, BCD, TrackType};
use r_ps1::cdrom::cue::{parse_cue_lines, split_cue_line, parse_msf, parse_file_type, parse_track_type, CueFileType, TrackType as CueTrackType};
use r_ps1::cdrom::image::{Disc, region_of_boot_file, sector_offset_in_track};
use r_ps1::cdrom::util::{get_cd_region_from_cnf, root_directory, find_system_cnf, sectors_for, system_cnf_text};

fn lines(v: &[&str]) -> Vec<String> {
    v.iter().map(|s| s.to_string()).collect()
}

#[test]
fn disc_time_lba_round_trip() {
    let t = DiscTime::new(1, 2, 3);
    assert_eq!(t.to_lba(), (60 + 2) * 75 + 3);
    let back = DiscTime::from_lba(t.to_lba());
    assert_eq!((back.m(), back.s(), back.f()), (1, 2, 3));
}

#[test]
fn disc_time_to_string_two_digits() {
    assert_eq!(DiscTime::new(1, 2, 3).to_string(), "DiscTime(01:02:03)");
    assert_eq!(DiscTime::new(72, 59, 74).to_string(), "DiscTime(72:59:74)");
}

#[test]
fn disc_time_add_and_saturating_sub() {
    let a = DiscTime::new(0, 2, 0).add(&DiscTime::new(0, 0, 74));
    assert_eq!((a.m(), a.s(), a.f()), (0, 2, 74));
    let b = a.add(&DiscTime::new(0, 0, 1));
    assert_eq!((b.m(), b.s(), b.f()), (0, 3, 0));
    let c = DiscTime::new(0, 0, 1).sub(&DiscTime::new(0, 2, 0));
    assert_eq!(c.to_lba(), 0);
}

#[test]
fn disc_time_checked_limits() {
    assert!(DiscTime::new_checked(79, 59, 74).is_some());
    assert!(DiscTime::new_checked(99, 59, 74).is_some());
    assert!(DiscTime::new_checked(100, 0, 0).is_none());
    assert!(DiscTime::new_checked(0, 60, 0).is_none());
    assert!(DiscTime::new_checked(0, 0, 75).is_none());
}

#[test]
fn file_length_in_cd_time() {
    let t = DiscTime::from_file_length(2352 * 75 * 61);
    assert_eq!((t.m(), t.s(), t.f()), (1, 1, 0));
}

#[test]
fn bcd_round_trip() {
    assert_eq!(BCD::encode(42), 0x42);
    assert_eq!(BCD::decode(0x42), 42);
    assert_eq!(BCD::decode(BCD::encode(99)), 99);
    assert!(BCD::is_valid(0x59));
    assert!(BCD::is_valid(0x4A));
    assert!(!BCD::is_valid(0x9A));
}

#[test]
fn cue_line_words_and_quotes() {
    let w = split_cue_line("FILE \"my game.bin\" BINARY");
    assert_eq!(w, vec!["FILE".to_string(), "my game.bin".to_string(), "BINARY".to_string()]);
    let w = split_cue_line("  INDEX   01  00:02:00 ");
    assert_eq!(w, vec!["INDEX".to_string(), "01".to_string(), "00:02:00".to_string()]);
}

#[test]
fn cue_msf_fields() {
    let m = parse_msf(&"12:34:56".to_string());
    assert_eq!((m.minute, m.second, m.frame), (12, 34, 56));
    let m = parse_msf(&"12:34".to_string());
    assert_eq!((m.minute, m.second, m.frame), (12, 34, 0));
    let m = parse_msf(&"aa:01:02".to_string());
    assert_eq!((m.minute, m.second, m.frame), (0, 1, 2));
    let m = parse_msf(&"300:1:2".to_string());
    assert_eq!((m.minute, m.second, m.frame), (0, 1, 2));
}

#[test]
fn cue_types() {
    assert!(matches!(parse_file_type(&"BINARY".to_string()), CueFileType::Binary));
    assert!(matches!(parse_file_type(&"WAVE".to_string()), CueFileType::Wave));
    assert!(matches!(parse_file_type(&"MP3".to_string()), CueFileType::Mp3));
    match parse_file_type(&"AIFF".to_string()) {
        CueFileType::Unknown(s) => assert_eq!(s, "AIFF"),
        _ => panic!("expected an unknown type"),
    }
    assert!(matches!(parse_track_type(&"MODE2/2352".to_string()), CueTrackType::Mode2_2352));
    assert!(matches!(parse_track_type(&"AUDIO".to_string()), CueTrackType::Audio));
}

#[test]
fn cue_sheet_files_tracks_indices() {
    let sheet = parse_cue_lines(&lines(&[
        "FILE \"game (track 1).bin\" BINARY",
        "  TRACK 01 MODE2/2352",
        "    INDEX 01 00:00:00",
        "REM a comment",
        "FILE \"game (track 2).bin\" BINARY",
        "  TRACK 02 AUDIO",
        "    INDEX 00 00:00:00",
        "    INDEX 01 00:02:00",
        "",
    ]));
    assert_eq!(sheet.files.len(), 2);
    assert_eq!(sheet.files[0].path, "game (track 1).bin");
    assert_eq!(sheet.files[0].tracks.len(), 1);
    assert_eq!(sheet.files[0].tracks[0].number, 1);
    assert!(matches!(sheet.files[1].tracks[0].track_type, CueTrackType::Audio));
    assert_eq!(sheet.files[1].tracks[0].indices.len(), 2);
    let t = sheet.files[1].tracks[0].indices[1].time;
    assert_eq!((t.minute, t.second, t.frame), (0, 2, 0));
}

#[test]
fn cue_track_without_file_is_dropped() {
    let sheet = parse_cue_lines(&lines(&["TRACK 01 AUDIO", "INDEX 01 00:00:00", "FILE a.bin BINARY"]));
    assert_eq!(sheet.files.len(), 1);
    assert_eq!(sheet.files[0].tracks.len(), 0);
}

#[test]
fn disc_layout_of_a_data_track() {
    let sheet = parse_cue_lines(&lines(&["FILE \"a.bin\" BINARY", "TRACK 01 MODE2/2352", "INDEX 01 00:00:00"]));
    let disc = Disc::from_cue("a.cue".to_string(), &sheet, &vec![2352 * 75 * 10]).unwrap();
    let tracks = disc.get_tracks();
    assert_eq!(tracks.len(), 1);
    assert_eq!(tracks[0].track_type, TrackType::Data(2, 2352));
    assert_eq!(tracks[0].start_time().to_lba(), 150);
    assert_eq!(tracks[0].end_time().to_lba(), 150 + 750);
    assert!(!disc.is_audio_cd());
    assert!(disc.has_data_first_track());
    assert_eq!(disc.get_track_by_number(1).unwrap().track_number(), 1);
    assert_eq!(disc.get_track_by_number(0).unwrap().track_number(), 1);
    assert!(disc.get_track_by_number(2).is_none());
    assert_eq!(disc.find_track(DiscTime::new(0, 2, 0)), Some(0));
    assert_eq!(disc.find_track(DiscTime::new(0, 1, 74)), None);
    assert_eq!(disc.get_cue_file_name(), "a.cue");
    assert_eq!(disc.get_region(), None);
}

#[test]
fn disc_audio_tracks_follow_each_other() {
    let sheet = parse_cue_lines(&lines(&[
        "FILE \"1.bin\" BINARY", "TRACK 01 AUDIO", "INDEX 01 00:00:00",
        "FILE \"2.bin\" BINARY", "TRACK 02 AUDIO", "INDEX 01 00:00:00",
    ]));
    let disc = Disc::from_cue("b.cue".to_string(), &sheet, &vec![2352 * 75, 2352 * 150]).unwrap();
    let t = disc.get_tracks();
    assert!(disc.is_audio_cd());
    assert_eq!(t[0].start_time().to_lba(), 0);
    assert_eq!(t[0].end_time().to_lba(), 75);
    assert_eq!(t[1].start_time().to_lba(), 75);
    assert_eq!(t[1].end_time().to_lba(), 225);
    assert_eq!(t[1].get_file_id(), 1);
}

#[test]
fn disc_refuses_unsupported_track_type() {
    let sheet = parse_cue_lines(&lines(&["FILE \"a.bin\" BINARY", "TRACK 01 MODE1/2048", "INDEX 01 00:00:00"]));
    let r = Disc::from_cue("a.cue".to_string(), &sheet, &vec![2352]);
    assert_eq!(r.err().unwrap(), "Unsupported track type Unknown(\"MODE1/2048\")");
}

#[test]
fn disc_head_moves_one_frame() {
    let sheet = parse_cue_lines(&lines(&["FILE \"a.bin\" BINARY", "TRACK 01 AUDIO"]));
    let mut disc = Disc::from_cue("a.cue".to_string(), &sheet, &vec![2352 * 75]).unwrap();
    disc.seek_sector(DiscTime::new(0, 1, 74));
    disc.set_next_sector_head_position();
    assert_eq!(disc.get_head_position().to_lba(), 150);
}

#[test]
fn sector_offset_within_track() {
    let sheet = parse_cue_lines(&lines(&["FILE \"a.bin\" BINARY", "TRACK 01 AUDIO"]));
    let disc = Disc::from_cue("a.cue".to_string(), &sheet, &vec![2352 * 75]).unwrap();
    let t = &disc.get_tracks()[0];
    assert_eq!(sector_offset_in_track(t, DiscTime::new(0, 0, 10)), Some(10 * 2352));
    assert_eq!(sector_offset_in_track(t, DiscTime::new(0, 2, 0)), None);
}

#[test]
fn region_from_system_cnf() {
    assert_eq!(get_cd_region_from_cnf("BOOT = cdrom:\\SLUS_012.34;1\r\nTCB = 4\r\n"), Some(Region::USA));
    assert_eq!(get_cd_region_from_cnf("BOOT=cdrom:\\sces_123.45;1"), Some(Region::Europe));
    assert_eq!(get_cd_region_from_cnf("BOOT = cdrom:\\SLPS_000.01;1"), Some(Region::Japan));
    assert_eq!(get_cd_region_from_cnf("BOOT = cdrom:\\PSX.EXE;1"), None);
    assert_eq!(get_cd_region_from_cnf("no boot line"), None);
}

#[test]
fn region_of_short_boot_name() {
    assert_eq!(region_of_boot_file(&"SLP".to_string()), None);
    assert_eq!(region_of_boot_file(&"SCUS".to_string()), Some(Region::USA));
}

#[test]
fn region_letters_and_lines() {
    assert_eq!(Region::Europe.to_scee_letter(), 'E');
    assert_eq!(Region::Japan.to_scee_letter(), 'I');
    assert_eq!(Region::USA.get_crt_total_lines(), 263);
    assert_eq!(Region::Europe.get_crt_total_lines(), 312);
}

#[test]
fn iso_root_directory_and_system_cnf() {
    let mut pvd = vec![0u8; 2048];
    pvd[158..162].copy_from_slice(&22u32.to_le_bytes());
    pvd[166..170].copy_from_slice(&2048u32.to_le_bytes());
    assert_eq!(root_directory(&pvd), (22, 2048));
    assert_eq!(sectors_for(2048), 1);
    assert_eq!(sectors_for(2049), 2);
    assert_eq!(sectors_for(0), 0);
    let mut dir = vec![0u8; 2048];
    dir[0] = 34;
    dir[32] = 1;
    let r = 34;
    dir[r] = 46;
    dir[r + 2..r + 6].copy_from_slice(&0x18u32.to_le_bytes());
    dir[r + 10..r + 14].copy_from_slice(&0x44u32.to_le_bytes());
    dir[r + 32] = 12;
    dir[r + 33..r + 45].copy_from_slice(b"SYSTEM.CNF;1");
    assert_eq!(find_system_cnf(&dir, 80), Some((0x18, 0x44)));
    assert_eq!(find_system_cnf(&dir, 34), None);
    let text = system_cnf_text(&b"BOOT = cdrom:\\SLES_000.01;1\r\nTCB=4\0\0\0".to_vec(), 29);
    assert_eq!(text, "BOOT = cdrom:\\SLES_000.01;1\r\n");
    assert_eq!(get_cd_region_from_cnf(&text), Some(Region::Europe));
}

#[test]
fn cdrom_host_interface_registers() {
    use_cdrom_registers();
}

fn use_cdrom_registers() {
    let mut cd = r_ps1::cdrom::controller::CDRom::new();
    assert_eq!(cd.read_0(), 0x18);
    cd.write_2(0x11);
    cd.write_2(0x22);
    assert_eq!(cd.read_0(), 0x10);
    cd.write_0(1);
    cd.write_2(0x1F);
    assert_eq!(cd.read_3(), 0xE0);
    cd.write_0(0);
    assert_eq!(cd.read_3(), 0xFF);
    cd.write_1(0x01);
    assert_eq!(cd.read_0() & 0x80, 0x80);
    let mut irq = r_ps1::interrupt::IrqHandler::new();
    cd.apply_irq_and_result(3, &vec![0x02, 0x00], &mut irq);
    assert_eq!(irq.irqs, 1 << 2);
    assert_eq!(cd.peek_1(), 0x02);
    assert_eq!(cd.read_1(), 0x02);
    assert_eq!(cd.read_1(), 0x00);
    assert_eq!(cd.read_1(), 0x00);
    cd.write_0(1);
    assert_eq!(cd.read_3(), 0xE3);
    cd.write_3(0x47);
    assert_eq!(cd.read_3(), 0xE0);
    assert_eq!(cd.parameter_fifo.len(), 0);
    assert_eq!(cd.get_stat(false, false, true), 0x01);
    cd.data_buffer.extend([1u8, 2, 3]);
    assert!(cd.is_dma_ready());
    assert_eq!(cd.read_2::<16>(), 0x0201);
    assert_eq!(cd.dma_read(), 3);
    cd.write_0(2);
    cd.write_2(0x80);
    cd.write_0(3);
    cd.write_3(0x20);
    assert_eq!(cd.spu_volume_matrix(), [[0x80, 0], [0, 0]]);
}
