use vstd::prelude::*;
use crate::cdrom::{Command, DriveState, Region, command_of, command_parameters};
use crate::cdrom::controller::{CDRom, CommandState, stat_value, irq_delivered};
use crate::interrupt::IrqHandler;
use crate::cdrom::disc::{BCD, DiscTime, Track, TrackType, bcd_decode, bcd_encode, time_sub};
use crate::cdrom::image::Disc;

verus! {

pub const INT1: u8 = 0x01;
pub const INT2: u8 = 0x02;
pub const INT3: u8 = 0x03;
pub const INT5: u8 = 0x05;

/// CPU cycles per tick of the 44.1 kHz clock.
pub const CPU_CYCLES_PER_44100_TICK: usize = 33_868_800 / 44_100;
pub const FIRST_RESPONSE_IRQ_DELAY_44100: usize = 1;
pub const STD_SECOND_RESPONSE_IRQ_DELAY_44100: usize = 0x4A73 / CPU_CYCLES_PER_44100_TICK;
pub const INIT_SECOND_RESPONSE_IRQ_DELAY_44100: usize = 900_000 / CPU_CYCLES_PER_44100_TICK;
pub const GET_ID_SECOND_RESPONSE_IRQ_DELAY_44100: usize = STD_SECOND_RESPONSE_IRQ_DELAY_44100;
pub const READ_TOC_SECOND_RESPONSE_IRQ_DELAY_44100: usize = STD_SECOND_RESPONSE_IRQ_DELAY_44100;
/// Shortest seek, in ticks of the 44.1 kHz clock.
pub const MIN_SEEK_TIME_44100: usize = 24;
/// Ticks per sector at normal speed: 1000/75 ms at 44.1 ticks per ms, rounded down.
pub const READ_SECTOR_TICKS_NORMAL: usize = 587;
/// Ticks per sector at double speed: 1000/150 ms at 44.1 ticks per ms, rounded down.
pub const READ_SECTOR_TICKS_DOUBLE: usize = 293;

/// Ticks of the 44.1 kHz clock in `cycles` CPU cycles.
pub fn delay_cycles_44100(cycles: usize) -> (r: usize)
    ensures
        r == cycles / CPU_CYCLES_PER_44100_TICK,
{
    cycles / CPU_CYCLES_PER_44100_TICK
}

/// `s` is a response to `cmd`: interrupt `irq` after `delay` ticks with `data`, then `next`.
pub open spec fn is_response(s: CommandState, cmd: Command, irq: u8, delay: usize, data: Seq<u8>, next: CommandState) -> bool {
    match s {
        CommandState::Response { cmd: c, irq: i, delay_cycles: d, response, next_state } =>
            c == cmd && i == irq && d == delay && response@ == data && *next_state == next,
        _ => false,
    }
}

/// The status byte with no error flag.
pub open spec fn stat_ok(c: CDRom) -> u8 {
    stat_value(c, false, false, false)
}

/// The usual answer: the status byte with `irq` after the first-response delay.
pub open spec fn stat_response(s: CommandState, c: CDRom, cmd: Command, irq: u8) -> bool {
    is_response(s, cmd, irq, FIRST_RESPONSE_IRQ_DELAY_44100, seq![stat_ok(c)], CommandState::Idle)
}

/// INT5 with the status byte (error flag set) and an error code.
pub open spec fn error_response(s: CommandState, c: CDRom, cmd: Command, error: u8) -> bool {
    is_response(s, cmd, INT5, FIRST_RESPONSE_IRQ_DELAY_44100, seq![stat_value(c, false, false, true), error], CommandState::Idle)
}

/// The wrong-number-of-parameters error (code 20h).
pub open spec fn bad_parameter_response(s: CommandState, c: CDRom, cmd: Command) -> bool {
    error_response(s, c, cmd, 0x20)
}

/// A wait of `delay` ticks, then the second stage of `cmd`.
pub open spec fn second_stage(cmd: Command, delay: usize) -> CommandState {
    CommandState::Delay { cmd, delay_cycles: delay, next_state: Box::new(CommandState::Response2 { cmd }) }
}

/// INT3 with the status byte, then `next`.
pub open spec fn first_response(s: CommandState, c: CDRom, cmd: Command, next: CommandState) -> bool {
    is_response(s, cmd, INT3, FIRST_RESPONSE_IRQ_DELAY_44100, seq![stat_ok(c)], next)
}

/// Ticks per sector at the speed of `mode` (bit 7: double speed).
pub open spec fn read_sector_ticks(mode: u8) -> usize {
    if (mode & 0x80) != 0 { READ_SECTOR_TICKS_DOUBLE } else { READ_SECTOR_TICKS_NORMAL }
}

/// Ticks to seek between two times: 44.1 ticks per ms over 1000 ms per 4800 sectors, so
/// 49/400 of a tick per sector, rounded down, and never below `MIN_SEEK_TIME_44100`.
pub open spec fn seek_ticks(from: DiscTime, to: DiscTime) -> usize {
    let d = if from.lba() >= to.lba() { from.lba() - to.lba() } else { to.lba() - from.lba() };
    let t = d * 49 / 400;
    if t < MIN_SEEK_TIME_44100 { MIN_SEEK_TIME_44100 } else { t as usize }
}

/// Every delay still to count down is at least one tick.
pub open spec fn delays_ok(s: CommandState) -> bool
    decreases s,
{
    match s {
        CommandState::Response { delay_cycles, next_state, .. } => delay_cycles >= 1 && delays_ok(*next_state),
        CommandState::Delay { delay_cycles, next_state, .. } => delay_cycles >= 1 && delays_ok(*next_state),
        _ => true,
    }
}

/// A loaded disc has at least one track.
pub open spec fn disc_tracks_ok(c: CDRom) -> bool {
    c.disc is Some ==> c.disc.unwrap().tracks@.len() > 0
}

/// Track `k` is the first one numbered `n`.
pub open spec fn first_with_number(tracks: Seq<Track>, k: int, n: int) -> bool {
    &&& 0 <= k < tracks.len()
    &&& tracks[k].number == n
    &&& forall|m: int| 0 <= m < k ==> #[trigger] tracks[m].number != n
}

/// Track `k` is the first one whose `[start, end)` holds `pos`.
pub open spec fn first_holding(tracks: Seq<Track>, k: int, pos: DiscTime) -> bool {
    &&& 0 <= k < tracks.len()
    &&& tracks[k].start_time.lba() <= pos.lba() < tracks[k].end_time.lba()
    &&& forall|m: int| 0 <= m < k ==> !(#[trigger] tracks[m].start_time.lba() <= pos.lba() < tracks[m].end_time.lba())
}

/// `a` is not before `b`: times are ordered by block address.
pub open spec fn time_ge(a: DiscTime, b: DiscTime) -> bool {
    a.lba() >= b.lba()
}

/// A byte in BCD.
pub open spec fn enc(v: u8) -> u8 {
    bcd_encode(v) as u8
}

/// GetlocP's bytes for a position in a track: track number, index (1 from the track's start
/// time on, 0 before), absolute minute, second, frame, then the same relative to the track's
/// start; all in BCD.
pub open spec fn locp_bytes(t: Track, pos: DiscTime) -> Seq<u8> {
    let rel = time_sub(pos, t.start_time);
    seq![enc(t.number), enc(if time_ge(pos, t.start_time) { 1u8 } else { 0u8 }), enc(pos.minutes), enc(pos.seconds),
        enc(pos.frames), enc(rel.minutes), enc(rel.seconds), enc(rel.frames)]
}

/// The letter of a region in the licence string.
pub open spec fn scee_letter(r: Region) -> char {
    match r {
        Region::Japan => 'I',
        Region::USA => 'A',
        Region::Europe => 'E',
    }
}

/// GetID's answer for a data disc: flags, disc type (20h for a mode 2 first track), ATIP,
/// then "SCE" and the region letter (USA when unknown).
pub open spec fn get_id_bytes(d: Disc) -> Seq<u8> {
    let mode: u8 = if d.tracks@[0].track_type matches TrackType::Data(2, _) { 0x20 } else { 0x00 };
    let region = match d.region { Some(r) => r, None => Region::USA };
    seq![0x00u8, mode, 0x00u8, 0x53u8, 0x43u8, 0x45u8, scee_letter(region) as u8]
}

/// The parameter count suits the command.
pub open spec fn parameters_ok(c: CDRom, cmd: Command) -> bool {
    command_parameters(cmd).0 <= c.parameter_fifo@.len() <= command_parameters(cmd).1
}

/// Nop: clears the shell-once-opened flag (the shell is never open); INT3(stat).
pub open spec fn nop_done(o: CDRom, f: CDRom, r: CommandState) -> bool {
    f == (CDRom { shell_once_opened: false, ..o }) && stat_response(r, f, Command::Nop, INT3)
}

/// Setloc amm,ass,asect (BCD): a valid position (minute below 80, second below 60, frame
/// below 75) becomes the pending one, INT3(stat); otherwise INT5(stat, 40h).
pub open spec fn setloc_done(o: CDRom, f: CDRom, r: CommandState) -> bool {
    let p = o.parameter_fifo@;
    let m = bcd_decode(p[0]) as u8;
    let s = bcd_decode(p[1]) as u8;
    let fr = bcd_decode(p[2]) as u8;
    &&& f.parameter_fifo@ == p.skip(3)
    &&& if m < 100 && s < 60 && fr < 75 {
        &&& f == (CDRom { parameter_fifo: f.parameter_fifo, pending_setloc: Some(DiscTime { minutes: m, seconds: s, frames: fr }), ..o })
        &&& stat_response(r, f, Command::Setloc, INT3)
    } else {
        &&& f == (CDRom { parameter_fifo: f.parameter_fifo, ..o })
        &&& error_response(r, f, Command::Setloc, 0x40)
    }
}

/// Play (,track): motor on; without a disc INT5(stat, 80h). With one: playing (from the
/// start of a playback already going on, else from sample 0), then to the pending position
/// for track 0 (or no track) or to the start of the first track of that number; INT3(stat).
pub open spec fn play_done(o: CDRom, f: CDRom, r: CommandState) -> bool {
    let m = CDRom { motor_on: true, ..o };
    let p = o.parameter_fifo@;
    let track = if p.len() > 0 { bcd_decode(p[0]) } else { 0 };
    let ds = if o.drive_state is Playing { o.drive_state } else {
        DriveState::Playing { sample_index: 0, report_counter: 1, report_absolute: true }
    };
    if o.disc is None {
        f == m && error_response(r, m, Command::Play, 0x80)
    } else {
        &&& f.parameter_fifo@ == (if p.len() > 0 { p.drop_first() } else { p })
        &&& if track == 0 {
            match o.pending_setloc {
                Some(loc) => f == (CDRom { motor_on: true, drive_state: ds, parameter_fifo: f.parameter_fifo, pending_setloc: None,
                    disc: Some(Disc { head_position: loc, ..o.disc.unwrap() }), ..o }),
                None => f == (CDRom { motor_on: true, drive_state: ds, parameter_fifo: f.parameter_fifo, ..o }),
            }
        } else {
            exists|k: int| first_with_number(o.disc.unwrap().tracks@, k, track) && f == (CDRom { motor_on: true, drive_state: ds,
                parameter_fifo: f.parameter_fifo,
                disc: Some(Disc { head_position: #[trigger] o.disc.unwrap().tracks@[k].start_time, ..o.disc.unwrap() }), ..o })
        }
        &&& stat_response(r, f, Command::Play, INT3)
    }
}

/// SeekL / SeekP: first the drive seeks with the motor on, INT3(stat), and the second stage
/// follows after the seek time (one tick without a disc or a pending position); then the
/// head moves to the pending position, which is used up, the drive idles, INT2(stat).
pub open spec fn seek_done(o: CDRom, f: CDRom, r: CommandState, second: bool) -> bool {
    let moved = o.disc is Some && o.pending_setloc is Some;
    if second {
        &&& if moved {
            f == (CDRom { drive_state: DriveState::Idle, pending_setloc: None,
                disc: Some(Disc { head_position: o.pending_setloc.unwrap(), ..o.disc.unwrap() }), ..o })
        } else {
            f == (CDRom { drive_state: DriveState::Idle, ..o })
        }
        &&& stat_response(r, f, Command::SeekL, INT2)
    } else {
        &&& f == (CDRom { drive_state: DriveState::Seeking, motor_on: true, ..o })
        &&& first_response(r, f, Command::SeekL, second_stage(Command::SeekL,
            if moved { seek_ticks(o.disc.unwrap().head_position, o.pending_setloc.unwrap()) } else { FIRST_RESPONSE_IRQ_DELAY_44100 }))
    }
}

/// Test sub_function: 04h motor on, INT3(stat); 05h INT3(stat, 0, 0); 20h INT3 with the
/// controller version 95h 07h 24h C1h; any other INT5(stat, 10h).
pub open spec fn test_done(o: CDRom, f: CDRom, r: CommandState) -> bool {
    let p = o.parameter_fifo@;
    let sub = p[0];
    &&& f.parameter_fifo@ == p.drop_first()
    &&& if sub == 0x04 {
        f == (CDRom { motor_on: true, parameter_fifo: f.parameter_fifo, ..o }) && stat_response(r, f, Command::Test, INT3)
    } else {
        &&& f == (CDRom { parameter_fifo: f.parameter_fifo, ..o })
        &&& if sub == 0x05 {
            is_response(r, Command::Test, INT3, FIRST_RESPONSE_IRQ_DELAY_44100, seq![stat_ok(f), 0x00u8, 0x00u8], CommandState::Idle)
        } else if sub == 0x20 {
            is_response(r, Command::Test, INT3, FIRST_RESPONSE_IRQ_DELAY_44100, seq![0x95u8, 0x07u8, 0x24u8, 0xC1u8], CommandState::Idle)
        } else {
            error_response(r, f, Command::Test, 0x10)
        }
    }
}

/// GetID: INT3(stat), then after the standard delay: no disc INT5(stat, 40h), an audio disc
/// INT5(stat, 80h), a data disc INT2(stat, `get_id_bytes`).
pub open spec fn get_id_done(o: CDRom, f: CDRom, r: CommandState, second: bool) -> bool {
    &&& f == o
    &&& if second {
        match o.disc {
            Some(d) => if d.tracks@[0].track_type == TrackType::Audio {
                error_response(r, o, Command::GetID, 0x80)
            } else {
                is_response(r, Command::GetID, INT2, FIRST_RESPONSE_IRQ_DELAY_44100, seq![stat_ok(o)] + get_id_bytes(d), CommandState::Idle)
            },
            None => error_response(r, o, Command::GetID, 0x40),
        }
    } else {
        first_response(r, o, Command::GetID, second_stage(Command::GetID, GET_ID_SECOND_RESPONSE_IRQ_DELAY_44100))
    }
}

/// ReadTOC: INT3(stat), then after the standard delay INT2(stat).
pub open spec fn read_toc_done(o: CDRom, f: CDRom, r: CommandState, second: bool) -> bool {
    &&& f == o
    &&& if second {
        stat_response(r, o, Command::ReadTOC, INT2)
    } else {
        first_response(r, o, Command::ReadTOC, second_stage(Command::ReadTOC, READ_TOC_SECOND_RESPONSE_IRQ_DELAY_44100))
    }
}

/// Setmode mode: the new mode (bit 4 keeps the previous sector size bit 5), bit 3 switches
/// the XA filter; INT3(stat).
pub open spec fn setmode_done(o: CDRom, f: CDRom, r: CommandState) -> bool {
    let v = o.parameter_fifo@[0];
    let mode = if (v & 0x10) != 0 { (v & !0x20u8) | (o.mode & 0x20) } else { v };
    &&& f.parameter_fifo@ == o.parameter_fifo@.drop_first()
    &&& f == (CDRom { mode, adpcm_filter_enabled: (v & 0x08) != 0, parameter_fifo: f.parameter_fifo, ..o })
    &&& stat_response(r, f, Command::SetMode, INT3)
}

/// ReadN / ReadS: with a disc the motor spins up, INT3(stat), and the second stage starts
/// reading, the first sector due after one sector time; without a disc INT5(stat, 80h).
pub open spec fn read_done(o: CDRom, f: CDRom, r: CommandState, second: bool) -> bool {
    if second {
        f == (CDRom { drive_state: DriveState::Reading { next_sector_cycles: read_sector_ticks(o.mode) }, ..o })
            && r is Idle
    } else if o.disc is Some {
        f == (CDRom { motor_on: true, ..o }) && first_response(r, f, Command::Read, CommandState::Response2 { cmd: Command::Read })
    } else {
        f == o && error_response(r, o, Command::Read, 0x80)
    }
}

/// Pause: INT3(stat) and the drive idles; INT2(stat) after five sector times.
pub open spec fn pause_done(o: CDRom, f: CDRom, r: CommandState, second: bool) -> bool {
    if second {
        f == o && stat_response(r, o, Command::Pause, INT2)
    } else {
        f == (CDRom { drive_state: DriveState::Idle, ..o })
            && first_response(r, o, Command::Pause, second_stage(Command::Pause, (5 * read_sector_ticks(o.mode)) as usize))
    }
}

/// Init: INT3(stat); after the init delay: no pending position, mode 20h, data FIFO
/// emptied, motor on, drive idle, INT2(stat).
pub open spec fn init_done(o: CDRom, f: CDRom, r: CommandState, second: bool) -> bool {
    if second {
        &&& f.data_buffer@ == Seq::<u8>::empty()
        &&& f == (CDRom { pending_setloc: None, mode: 0x20, data_buffer: f.data_buffer, motor_on: true, drive_state: DriveState::Idle, ..o })
        &&& stat_response(r, f, Command::Init, INT2)
    } else {
        f == o && first_response(r, o, Command::Init, CommandState::Delay { cmd: Command::Pause,
            delay_cycles: INIT_SECOND_RESPONSE_IRQ_DELAY_44100, next_state: Box::new(CommandState::Response2 { cmd: Command::Init }) })
    }
}

/// Demute / Mute: sets the mute flag; INT3(stat) (Mute answers as MotorOn).
pub open spec fn mute_done(o: CDRom, f: CDRom, r: CommandState, mute: bool) -> bool {
    f == (CDRom { audio_mute: mute, ..o }) && stat_response(r, f, if mute { Command::MotorOn } else { Command::Demute }, INT3)
}

/// Setfilter file,channel; INT3(stat).
pub open spec fn set_filter_done(o: CDRom, f: CDRom, r: CommandState) -> bool {
    let p = o.parameter_fifo@;
    &&& f.parameter_fifo@ == p.skip(2)
    &&& f == (CDRom { adpcm_file: p[0], adpcm_channel: p[1], parameter_fifo: f.parameter_fifo, ..o })
    &&& stat_response(r, f, Command::SetFilter, INT3)
}

/// Stop: the drive idles, INT3(stat); after the standard delay the motor is (still) on, the
/// head goes to the start of the first track, INT2(stat).
pub open spec fn stop_done(o: CDRom, f: CDRom, r: CommandState, second: bool) -> bool {
    if second {
        &&& f == (CDRom { motor_on: true, disc: match o.disc {
                Some(d) => Some(Disc { head_position: d.tracks@[0].start_time, ..d }),
                None => None,
            }, ..o })
        &&& stat_response(r, f, Command::Stop, INT2)
    } else {
        f == (CDRom { drive_state: DriveState::Idle, ..o })
            && first_response(r, f, Command::Stop, second_stage(Command::Stop, STD_SECOND_RESPONSE_IRQ_DELAY_44100))
    }
}

/// GetlocL: INT3 with bytes 12 to 19 of the last sector read.
pub open spec fn get_locl_done(o: CDRom, f: CDRom, r: CommandState) -> bool {
    f == o && is_response(r, Command::GetLocL, INT3, FIRST_RESPONSE_IRQ_DELAY_44100, o.last_sector@.subrange(12, 20), CommandState::Idle)
}

/// GetlocP: INT3 with `locp_bytes` of the track under the head, eight zeros when there is no
/// disc or no track there.
pub open spec fn get_locp_done(o: CDRom, f: CDRom, r: CommandState) -> bool {
    &&& f == o
    &&& match o.disc {
        Some(d) => (exists|k: int| first_holding(d.tracks@, k, d.head_position) && is_response(r, Command::GetLocP, INT3,
                FIRST_RESPONSE_IRQ_DELAY_44100, locp_bytes(#[trigger] d.tracks@[k], d.head_position), CommandState::Idle))
            || ((forall|k: int| 0 <= k < d.tracks@.len() ==> !(#[trigger] d.tracks@[k].start_time.lba() <= d.head_position.lba()
                < d.tracks@[k].end_time.lba()))
                && is_response(r, Command::GetLocP, INT3, FIRST_RESPONSE_IRQ_DELAY_44100, Seq::new(8, |i: int| 0u8), CommandState::Idle)),
        None => is_response(r, Command::GetLocP, INT3, FIRST_RESPONSE_IRQ_DELAY_44100, Seq::new(8, |i: int| 0u8), CommandState::Idle),
    }
}

/// GetTN: INT3(stat, first track number, last track number) in BCD; without a disc
/// INT5(stat, 80h).
pub open spec fn get_tn_done(o: CDRom, f: CDRom, r: CommandState) -> bool {
    &&& f == o
    &&& match o.disc {
        Some(d) => is_response(r, Command::GetTN, INT3, FIRST_RESPONSE_IRQ_DELAY_44100,
            seq![stat_ok(o), enc(d.tracks@[0].number), enc(d.tracks@.last().number)], CommandState::Idle),
        None => error_response(r, o, Command::GetTN, 0x80),
    }
}

/// GetTD track (BCD; 0: the last track): INT3(stat, minute, second) of the track's start in
/// BCD; INT5(stat, 10h) without a disc or such a track.
pub open spec fn get_td_done(o: CDRom, f: CDRom, r: CommandState) -> bool {
    let p = o.parameter_fifo@;
    let n = bcd_decode(p[0]);
    match o.disc {
        None => f == o && error_response(r, o, Command::GetTD, 0x10),
        Some(d) => {
            &&& f.parameter_fifo@ == p.drop_first()
            &&& f == (CDRom { parameter_fifo: f.parameter_fifo, ..o })
            &&& if n == 0 {
                is_response(r, Command::GetTD, INT3, FIRST_RESPONSE_IRQ_DELAY_44100,
                    seq![stat_ok(o), enc(d.tracks@.last().start_time.minutes), enc(d.tracks@.last().start_time.seconds)], CommandState::Idle)
            } else {
                (exists|k: int| first_with_number(d.tracks@, k, n) && is_response(r, Command::GetTD, INT3, FIRST_RESPONSE_IRQ_DELAY_44100,
                    seq![stat_ok(o), enc((#[trigger] d.tracks@[k]).start_time.minutes), enc(d.tracks@[k].start_time.seconds)], CommandState::Idle))
                || ((forall|k: int| 0 <= k < d.tracks@.len() ==> #[trigger] d.tracks@[k].number != n)
                    && error_response(r, o, Command::GetTD, 0x10))
            }
        },
    }
}

/// MotorOn: with the motor off it spins up, INT3(stat), then INT2(stat) after the standard
/// delay; with it on INT5(stat, 20h).
pub open spec fn motor_on_done(o: CDRom, f: CDRom, r: CommandState, second: bool) -> bool {
    if second {
        f == o && stat_response(r, o, Command::MotorOn, INT2)
    } else if o.motor_on {
        f == o && bad_parameter_response(r, o, Command::MotorOn)
    } else {
        f == (CDRom { motor_on: true, ..o })
            && first_response(r, f, Command::MotorOn, second_stage(Command::MotorOn, STD_SECOND_RESPONSE_IRQ_DELAY_44100))
    }
}

/// What running a command (its first stage, or its second when `second`) does.
#[verifier::opaque]
pub open spec fn executed(o: CDRom, f: CDRom, r: CommandState, cmd: Command, second: bool) -> bool {
    match cmd {
        Command::Nop => nop_done(o, f, r),
        Command::Setloc => setloc_done(o, f, r),
        Command::SeekL | Command::SeekP => seek_done(o, f, r, second),
        Command::Test => test_done(o, f, r),
        Command::GetID => get_id_done(o, f, r, second),
        Command::ReadTOC => read_toc_done(o, f, r, second),
        Command::SetMode => setmode_done(o, f, r),
        Command::Read => read_done(o, f, r, second),
        Command::Pause => pause_done(o, f, r, second),
        Command::Init => init_done(o, f, r, second),
        Command::Demute => mute_done(o, f, r, false),
        Command::SetFilter => set_filter_done(o, f, r),
        Command::Stop => stop_done(o, f, r, second),
        Command::GetLocL => get_locl_done(o, f, r),
        Command::GetLocP => get_locp_done(o, f, r),
        Command::GetTN => get_tn_done(o, f, r),
        Command::GetTD => get_td_done(o, f, r),
        Command::Play => play_done(o, f, r),
        Command::MotorOn => motor_on_done(o, f, r, second),
        Command::Mute => mute_done(o, f, r, true),
    }
}

/// What a command needs to run without failing: at least as many parameters as it takes, and
/// no more for a first stage; a Play track that exists; a last sector of at least 20 bytes
/// for GetlocL; tracks on a loaded disc.
pub open spec fn command_ready(c: CDRom, cmd: Command, second: bool) -> bool {
    &&& disc_tracks_ok(c)
    &&& command_parameters(cmd).0 <= c.parameter_fifo@.len()
    &&& !second ==> c.parameter_fifo@.len() <= command_parameters(cmd).1
    &&& cmd == Command::Play && c.disc is Some && c.parameter_fifo@.len() >= 1 && bcd_decode(c.parameter_fifo@[0]) != 0
        ==> exists|k: int| first_with_number(c.disc.unwrap().tracks@, k, bcd_decode(c.parameter_fifo@[0]))
    &&& cmd == Command::GetLocL ==> c.last_sector@.len() >= 20
}

/// `a` is not before `b` (see `time_ge`).
pub fn time_at_or_after(a: &DiscTime, b: &DiscTime) -> (r: bool)
    ensures
        r == time_ge(*a, *b),
{
    a.to_lba() >= b.to_lba()
}

/// Appends `n` zero bytes.
fn push_zeros(v: &mut Vec<u8>, n: usize)
    requires
        old(v)@.len() == 0,
    ensures
        final(v)@ == Seq::new(n as nat, |i: int| 0u8),
{
    let mut i: usize = 0;
    while i < n
        invariant
            i <= n,
            v@ == Seq::new(i as nat, |j: int| 0u8),
        decreases n - i,
    {
        v.push(0);
        i = i + 1;
        assert(v@ =~= Seq::new(i as nat, |j: int| 0u8));
    }
}

/// What the command machinery needs: delays of at least one tick, tracks on a loaded disc, a
/// known command to start, and what that command (or the second stage due) needs.
pub open spec fn command_state_ready(c: CDRom) -> bool {
    &&& delays_ok(c.command_state)
    &&& disc_tracks_ok(c)
    &&& match c.command_state {
        CommandState::ToProcess(x) => command_of(x) is Some
            && (parameters_ok(c, command_of(x).unwrap()) ==> command_ready(c, command_of(x).unwrap(), false)),
        CommandState::Response2 { cmd } => command_ready(c, cmd, true),
        _ => true,
    }
}

/// One tick of the command machinery, from `o` to `f` (`oi`, `fi`: the interrupt controller):
/// a command waiting for acknowledge is released once no interrupt is pending; a command to
/// start, or a second stage due, runs (the state becoming what it answers); a response is
/// delivered (interrupt number, line, result bytes) when its delay runs out, and a delay
/// counts down to its next state; otherwise nothing changes.
pub open spec fn command_stepped(o: CDRom, f: CDRom, oi: IrqHandler, fi: IrqHandler) -> bool {
    let base_o = CDRom { command_state: CommandState::Idle, ..o };
    let base_f = CDRom { command_state: CommandState::Idle, ..f };
    match o.command_state {
        CommandState::Idle => f == o && fi == oi,
        CommandState::WaitingIrqAck(x) => fi == oi && f == (CDRom { command_state: if (o.hintsts_reg & 7) != 0 {
            CommandState::WaitingIrqAck(x) } else { CommandState::ToProcess(x) }, ..o }),
        CommandState::ToProcess(x) => fi == oi && if parameters_ok(o, command_of(x).unwrap()) {
            executed(base_o, base_f, f.command_state, command_of(x).unwrap(), false)
        } else {
            base_f == base_o && bad_parameter_response(f.command_state, o, command_of(x).unwrap())
        },
        CommandState::Response { cmd, irq, delay_cycles, response, next_state } => if delay_cycles == 1 {
            &&& base_f == (CDRom { hintsts_reg: (o.hintsts_reg & !7u8) | irq, result_fifo: f.result_fifo, ..base_o })
            &&& f.result_fifo@ == o.result_fifo@ + response@
            &&& f.command_state == *next_state
            &&& irq_delivered(oi, fi, (o.hintmsk_reg & ((o.hintsts_reg & !7u8) | irq)) != 0)
        } else {
            fi == oi && f == (CDRom { command_state: CommandState::Response { cmd, irq, delay_cycles: (delay_cycles - 1) as usize,
                response, next_state }, ..o })
        },
        CommandState::Delay { cmd, delay_cycles, next_state } => fi == oi && if delay_cycles == 1 {
            f == (CDRom { command_state: *next_state, ..o })
        } else {
            f == (CDRom { command_state: CommandState::Delay { cmd, delay_cycles: (delay_cycles - 1) as usize, next_state }, ..o })
        },
        CommandState::Response2 { cmd } => fi == oi && executed(base_o, base_f, f.command_state, cmd, true),
    }
}

/// A command leaves delays of at least one tick, the disc's tracks and the controller's
/// well-formedness as they were.
proof fn lemma_executed_keeps(o: CDRom, f: CDRom, r: CommandState, cmd: Command, second: bool)
    requires
        executed(o, f, r, cmd, second),
        command_ready(o, cmd, second),
        o.wf(),
    ensures
        delays_ok(r),
        disc_tracks_ok(f),
        f.wf(),
        f.command_state == o.command_state,
{
    reveal(executed);
    reveal_with_fuel(delays_ok, 3);
}

impl CDRom {
    /// Whether the shell is open (it never is here).
    pub fn is_shell_opened(&self) -> (r: bool)
        ensures
            !r,
    {
        false
    }

    /// Whether a disc is in the drive.
    pub fn is_disk_inserted(&self) -> (r: bool)
        ensures
            r == self.disc is Some,
    {
        self.disc.is_some()
    }

    /// Spins the motor up (the argument only says what was asked for).
    pub fn activate_motor(&mut self, enabled: bool)
        ensures
            *final(self) == (CDRom { motor_on: true, ..*old(self) }),
    {
        self.motor_on = true;
    }

    /// Sets the drive state.
    pub fn change_drive_state(&mut self, new_state: DriveState)
        ensures
            *final(self) == (CDRom { drive_state: new_state, ..*old(self) }),
    {
        self.drive_state = new_state;
    }

    /// Moves the head of the loaded disc, if any.
    fn seek_disc(&mut self, loc: DiscTime)
        ensures
            *final(self) == (CDRom { disc: match old(self).disc {
                Some(d) => Some(Disc { head_position: loc, ..d }),
                None => None,
            }, ..*old(self) }),
    {
        match &mut self.disc {
            Some(d) => d.seek_sector(loc),
            None => {},
        }
    }

    /// Ticks per sector at the current speed.
    pub fn read_sector_ticks(&self) -> (r: usize)
        ensures
            r == read_sector_ticks(self.mode),
    {
        if (self.mode & 0x80) != 0 { READ_SECTOR_TICKS_DOUBLE } else { READ_SECTOR_TICKS_NORMAL }
    }

    /// Approximate seek time between two positions (see `seek_ticks`).
    pub fn get_approx_seek_cycles_44100(&self, from: &DiscTime, target: &DiscTime) -> (r: usize)
        ensures
            r == seek_ticks(*from, *target),
    {
        let a = from.to_lba() as u64;
        let b = target.to_lba() as u64;
        let d: u64 = if a >= b { a - b } else { b - a };
        let t: u64 = d * 49 / 400;
        if t < MIN_SEEK_TIME_44100 as u64 { MIN_SEEK_TIME_44100 } else { t as usize }
    }

    // Nop - 01h
    fn command_nop(&mut self) -> (r: CommandState)
        ensures
            nop_done(*old(self), *final(self), r),
    {
        if !self.is_shell_opened() {
            self.shell_once_opened = false;
        }
        self.make_stat_response(INT3, Command::Nop)
    }

    // Setloc - 02h,amm,ass,asect
    fn command_setloc(&mut self) -> (r: CommandState)
        requires
            old(self).parameter_fifo@.len() >= 3,
        ensures
            setloc_done(*old(self), *final(self), r),
    {
        let min = BCD::decode(self.parameter_fifo.pop_front().unwrap());
        let sec = BCD::decode(self.parameter_fifo.pop_front().unwrap());
        let frame = BCD::decode(self.parameter_fifo.pop_front().unwrap());
        proof {
            assert(self.parameter_fifo@ =~= old(self).parameter_fifo@.skip(3));
        }
        match DiscTime::new_checked(min, sec, frame) {
            Some(loc) => {
                self.pending_setloc = Some(loc);
                self.make_stat_response(INT3, Command::Setloc)
            },
            None => self.make_error_response(Command::Setloc, 0x40, (false, false, true)),
        }
    }

    // Play - 03h (,track)
    fn command_play(&mut self) -> (r: CommandState)
        requires
            command_ready(*old(self), Command::Play, true),
        ensures
            play_done(*old(self), *final(self), r),
    {
        self.activate_motor(true);
        if self.disc.is_some() {
            let playing = match self.drive_state {
                DriveState::Playing { .. } => true,
                _ => false,
            };
            if !playing {
                self.drive_state = DriveState::Playing { sample_index: 0, report_counter: 1, report_absolute: true };
            }
            let p = match self.parameter_fifo.pop_front() {
                Some(v) => v,
                None => 0,
            };
            let track = BCD::decode(p);
            if track == 0 {
                match self.pending_setloc {
                    Some(loc) => {
                        self.pending_setloc = None;
                        self.seek_disc(loc);
                    },
                    None => {},
                }
            } else {
                let start = match &self.disc {
                    Some(d) => {
                        let t = d.get_track_by_number(track);
                        proof {
                            let k = choose|k: int| first_with_number(d.tracks@, k, track as int);
                            assert(d.tracks@[k].number == track);
                        }
                        *t.unwrap().start_time()
                    },
                    None => DiscTime::new(0, 0, 0),
                };
                self.seek_disc(start);
            }
            self.make_stat_response(INT3, Command::Play)
        } else {
            self.make_error_response(Command::Play, 0x80, (false, false, true))
        }
    }

    // SeekL - 15h, SeekP - 16h
    fn command_seek(&mut self, second_response: bool) -> (r: CommandState)
        ensures
            seek_done(*old(self), *final(self), r, second_response),
    {
        if second_response {
            if self.disc.is_some() {
                match self.pending_setloc {
                    Some(loc) => {
                        self.pending_setloc = None;
                        self.seek_disc(loc);
                    },
                    None => {},
                }
            }
            self.change_drive_state(DriveState::Idle);
            self.make_stat_response(INT2, Command::SeekL)
        } else {
            self.change_drive_state(DriveState::Seeking);
            self.activate_motor(true);
            let seek_cycles = match (&self.disc, &self.pending_setloc) {
                (Some(disc), Some(loc)) => self.get_approx_seek_cycles_44100(&disc.get_head_position(), loc),
                _ => FIRST_RESPONSE_IRQ_DELAY_44100,
            };
            let data: Vec<u8> = Vec::new();
            self.make_response(Command::SeekL, INT3, FIRST_RESPONSE_IRQ_DELAY_44100, data, Some((false, false, false)),
                CommandState::Delay { cmd: Command::SeekL, delay_cycles: seek_cycles,
                    next_state: Box::new(CommandState::Response2 { cmd: Command::SeekL }) })
        }
    }

    // Test - 19h,sub_function
    fn command_test(&mut self) -> (r: CommandState)
        requires
            old(self).parameter_fifo@.len() >= 1,
        ensures
            test_done(*old(self), *final(self), r),
    {
        let sub_function = self.parameter_fifo.pop_front().unwrap();
        if sub_function == 0x04 {
            self.activate_motor(true);
            self.make_stat_response(INT3, Command::Test)
        } else if sub_function == 0x05 {
            let mut data: Vec<u8> = Vec::new();
            data.push(0x00);
            data.push(0x00);
            assert(data@ =~= seq![0x00u8, 0x00u8]);
            let r = self.make_response(Command::Test, INT3, FIRST_RESPONSE_IRQ_DELAY_44100, data, Some((false, false, false)), CommandState::Idle);
            proof {
                assert(seq![stat_ok(*self)] + seq![0x00u8, 0x00u8] =~= seq![stat_ok(*self), 0x00u8, 0x00u8]);
            }
            r
        } else if sub_function == 0x20 {
            let mut data: Vec<u8> = Vec::new();
            data.push(0x95);
            data.push(0x07);
            data.push(0x24);
            data.push(0xC1);
            assert(data@ =~= seq![0x95u8, 0x07u8, 0x24u8, 0xC1u8]);
            let r = self.make_response(Command::Test, INT3, FIRST_RESPONSE_IRQ_DELAY_44100, data, None, CommandState::Idle);
            proof {
                assert(Seq::<u8>::empty() + seq![0x95u8, 0x07u8, 0x24u8, 0xC1u8] =~= seq![0x95u8, 0x07u8, 0x24u8, 0xC1u8]);
            }
            r
        } else {
            self.make_error_response(Command::Test, 0x10, (false, false, true))
        }
    }

    // GetID - 1Ah
    fn command_get_id(&self, second_response: bool) -> (r: CommandState)
        requires
            disc_tracks_ok(*self),
        ensures
            get_id_done(*self, *self, r, second_response),
    {
        if second_response {
            match &self.disc {
                Some(disc) => {
                    if disc.is_audio_cd() {
                        self.make_error_response(Command::GetID, 0x80, (false, false, true))
                    } else {
                        let mode: u8 = match disc.get_tracks()[0].track_type() {
                            TrackType::Data(2, _) => 0x20,
                            _ => 0x00,
                        };
                        let region = match disc.get_region() {
                            Some(r) => r,
                            None => Region::USA,
                        };
                        let letter = region.to_scee_letter() as u8;
                        let mut data: Vec<u8> = Vec::new();
                        data.push(0x00);
                        data.push(mode);
                        data.push(0x00);
                        data.push(0x53);
                        data.push(0x43);
                        data.push(0x45);
                        data.push(letter);
                        proof {
                            assert(data@ =~= get_id_bytes(*disc));
                        }
                        self.make_response(Command::GetID, INT2, FIRST_RESPONSE_IRQ_DELAY_44100, data, Some((false, false, false)), CommandState::Idle)
                    }
                },
                None => self.make_error_response(Command::GetID, 0x40, (false, false, true)),
            }
        } else {
            let data: Vec<u8> = Vec::new();
            let r = self.make_response(Command::GetID, INT3, FIRST_RESPONSE_IRQ_DELAY_44100, data, Some((false, false, false)),
                CommandState::Delay { cmd: Command::GetID, delay_cycles: GET_ID_SECOND_RESPONSE_IRQ_DELAY_44100,
                    next_state: Box::new(CommandState::Response2 { cmd: Command::GetID }) });
            proof {
                assert(seq![stat_ok(*self)] + Seq::<u8>::empty() =~= seq![stat_ok(*self)]);
            }
            r
        }
    }

    // ReadTOC - 1Eh
    fn command_read_toc(&self, second_response: bool) -> (r: CommandState)
        ensures
            read_toc_done(*self, *self, r, second_response),
    {
        if second_response {
            self.make_stat_response(INT2, Command::ReadTOC)
        } else {
            let data: Vec<u8> = Vec::new();
            let r = self.make_response(Command::ReadTOC, INT3, FIRST_RESPONSE_IRQ_DELAY_44100, data, Some((false, false, false)),
                CommandState::Delay { cmd: Command::ReadTOC, delay_cycles: READ_TOC_SECOND_RESPONSE_IRQ_DELAY_44100,
                    next_state: Box::new(CommandState::Response2 { cmd: Command::ReadTOC }) });
            proof {
                assert(seq![stat_ok(*self)] + Seq::<u8>::empty() =~= seq![stat_ok(*self)]);
            }
            r
        }
    }

    // Setmode - 0Eh,mode
    fn command_setmode(&mut self) -> (r: CommandState)
        requires
            old(self).parameter_fifo@.len() >= 1,
        ensures
            setmode_done(*old(self), *final(self), r),
    {
        let prev_mode = self.mode;
        self.mode = self.parameter_fifo.pop_front().unwrap();
        self.adpcm_filter_enabled = (self.mode & 0x08) != 0;
        let ignore_bit = (self.mode & 0x10) != 0;
        if ignore_bit {
            self.mode = (self.mode & !0x20u8) | (prev_mode & 0x20);
        }
        self.make_stat_response(INT3, Command::SetMode)
    }

    // ReadN - 06h, ReadS - 1Bh
    fn command_read(&mut self, second_response: bool) -> (r: CommandState)
        ensures
            read_done(*old(self), *final(self), r, second_response),
    {
        if second_response {
            let next_sector_cycles = self.read_sector_ticks();
            self.change_drive_state(DriveState::Reading { next_sector_cycles });
            CommandState::Idle
        } else if self.is_disk_inserted() {
            self.activate_motor(true);
            let data: Vec<u8> = Vec::new();
            let r = self.make_response(Command::Read, INT3, FIRST_RESPONSE_IRQ_DELAY_44100, data, Some((false, false, false)),
                CommandState::Response2 { cmd: Command::Read });
            proof {
                assert(seq![stat_ok(*self)] + Seq::<u8>::empty() =~= seq![stat_ok(*self)]);
            }
            r
        } else {
            self.make_error_response(Command::Read, 0x80, (false, false, true))
        }
    }

    // Pause - 09h
    fn command_pause(&mut self, second_response: bool) -> (r: CommandState)
        ensures
            pause_done(*old(self), *final(self), r, second_response),
    {
        if second_response {
            self.make_stat_response(INT2, Command::Pause)
        } else {
            let data: Vec<u8> = Vec::new();
            let delay = 5 * self.read_sector_ticks();
            let response = self.make_response(Command::Pause, INT3, FIRST_RESPONSE_IRQ_DELAY_44100, data, Some((false, false, false)),
                CommandState::Delay { cmd: Command::Pause, delay_cycles: delay,
                    next_state: Box::new(CommandState::Response2 { cmd: Command::Pause }) });
            proof {
                assert(seq![stat_ok(*self)] + Seq::<u8>::empty() =~= seq![stat_ok(*self)]);
            }
            self.change_drive_state(DriveState::Idle);
            response
        }
    }

    // Init - 0Ah
    fn command_init(&mut self, second_response: bool) -> (r: CommandState)
        ensures
            init_done(*old(self), *final(self), r, second_response),
    {
        if second_response {
            self.pending_setloc = None;
            self.mode = 0x20;
            self.data_buffer.clear();
            self.activate_motor(true);
            self.change_drive_state(DriveState::Idle);
            self.make_stat_response(INT2, Command::Init)
        } else {
            let data: Vec<u8> = Vec::new();
            let r = self.make_response(Command::Init, INT3, FIRST_RESPONSE_IRQ_DELAY_44100, data, Some((false, false, false)),
                CommandState::Delay { cmd: Command::Pause, delay_cycles: INIT_SECOND_RESPONSE_IRQ_DELAY_44100,
                    next_state: Box::new(CommandState::Response2 { cmd: Command::Init }) });
            proof {
                assert(seq![stat_ok(*self)] + Seq::<u8>::empty() =~= seq![stat_ok(*self)]);
            }
            r
        }
    }

    // Demute - 0Ch
    fn command_demute(&mut self) -> (r: CommandState)
        ensures
            mute_done(*old(self), *final(self), r, false),
    {
        self.audio_mute = false;
        self.make_stat_response(INT3, Command::Demute)
    }

    // Mute - 0Bh
    fn command_mute(&mut self) -> (r: CommandState)
        ensures
            mute_done(*old(self), *final(self), r, true),
    {
        self.audio_mute = true;
        self.make_stat_response(INT3, Command::MotorOn)
    }

    // Setfilter - 0Dh,file,channel
    fn command_set_filter(&mut self) -> (r: CommandState)
        requires
            old(self).parameter_fifo@.len() >= 2,
        ensures
            set_filter_done(*old(self), *final(self), r),
    {
        self.adpcm_file = self.parameter_fifo.pop_front().unwrap();
        self.adpcm_channel = self.parameter_fifo.pop_front().unwrap();
        proof {
            assert(self.parameter_fifo@ =~= old(self).parameter_fifo@.skip(2));
        }
        self.make_stat_response(INT3, Command::SetFilter)
    }

    // Stop - 08h
    fn command_stop(&mut self, second_response: bool) -> (r: CommandState)
        requires
            disc_tracks_ok(*old(self)),
        ensures
            stop_done(*old(self), *final(self), r, second_response),
    {
        if second_response {
            self.activate_motor(false);
            let start = match &self.disc {
                Some(disc) => Some(*disc.get_tracks()[0].start_time()),
                None => None,
            };
            match start {
                Some(t) => self.seek_disc(t),
                None => {},
            }
            self.make_stat_response(INT2, Command::Stop)
        } else {
            self.drive_state = DriveState::Idle;
            let data: Vec<u8> = Vec::new();
            let r = self.make_response(Command::Stop, INT3, FIRST_RESPONSE_IRQ_DELAY_44100, data, Some((false, false, false)),
                CommandState::Delay { cmd: Command::Stop, delay_cycles: STD_SECOND_RESPONSE_IRQ_DELAY_44100,
                    next_state: Box::new(CommandState::Response2 { cmd: Command::Stop }) });
            proof {
                assert(seq![stat_ok(*self)] + Seq::<u8>::empty() =~= seq![stat_ok(*self)]);
            }
            r
        }
    }

    // GetlocL - 10h
    fn command_get_locl(&self) -> (r: CommandState)
        requires
            self.last_sector@.len() >= 20,
        ensures
            get_locl_done(*self, *self, r),
    {
        let mut locl: Vec<u8> = Vec::new();
        let mut i: usize = 12;
        while i < 20
            invariant
                12 <= i <= 20,
                self.last_sector@.len() >= 20,
                locl@ == self.last_sector@.subrange(12, i as int),
            decreases 20 - i,
        {
            locl.push(self.last_sector[i]);
            proof {
                assert(self.last_sector@.subrange(12, i as int + 1) =~= self.last_sector@.subrange(12, i as int).push(self.last_sector@[i as int]));
            }
            i = i + 1;
        }
        let r = self.make_response(Command::GetLocL, INT3, FIRST_RESPONSE_IRQ_DELAY_44100, locl, None, CommandState::Idle);
        proof {
            assert(Seq::<u8>::empty() + self.last_sector@.subrange(12, 20) =~= self.last_sector@.subrange(12, 20));
        }
        r
    }

    // GetTN - 13h
    fn command_get_tn(&self) -> (r: CommandState)
        requires
            disc_tracks_ok(*self),
        ensures
            get_tn_done(*self, *self, r),
    {
        match &self.disc {
            Some(disc) => {
                let tracks = disc.get_tracks();
                let first_track_n = tracks[0].track_number();
                let last_track_n = tracks[tracks.len() - 1].track_number();
                let mut data: Vec<u8> = Vec::new();
                data.push(BCD::encode(first_track_n));
                data.push(BCD::encode(last_track_n));
                assert(data@ =~= seq![enc(first_track_n), enc(last_track_n)]);
                let r = self.make_response(Command::GetTN, INT3, FIRST_RESPONSE_IRQ_DELAY_44100, data, Some((false, false, false)), CommandState::Idle);
                proof {
                    assert(seq![stat_ok(*self)] + seq![enc(first_track_n), enc(last_track_n)]
                        =~= seq![stat_ok(*self), enc(first_track_n), enc(last_track_n)]);
                }
                r
            },
            None => self.make_error_response(Command::GetTN, 0x80, (false, false, true)),
        }
    }

    // GetTD - 14h,track
    fn command_get_td(&mut self) -> (r: CommandState)
        requires
            old(self).parameter_fifo@.len() >= 1,
            disc_tracks_ok(*old(self)),
        ensures
            get_td_done(*old(self), *final(self), r),
    {
        if self.disc.is_some() {
            let track_n = BCD::decode(self.parameter_fifo.pop_front().unwrap());
            let start = match &self.disc {
                Some(disc) => match disc.get_track_by_number(track_n) {
                    Some(track) => {
                        proof {
                            if track_n != 0 {
                                let k = choose|k: int| 0 <= k < disc.tracks@.len() && disc.tracks@[k] == *track
                                    && track.number == track_n
                                    && forall|m: int| 0 <= m < k ==> #[trigger] disc.tracks@[m].number != track_n;
                                assert(first_with_number(disc.tracks@, k, track_n as int));
                                assert(disc.tracks@[k].start_time == track.start_time);
                            }
                        }
                        Some(*track.start_time())
                    },
                    None => None,
                },
                None => None,
            };
            match start {
                Some(start_time) => {
                    let mut data: Vec<u8> = Vec::new();
                    data.push(BCD::encode(start_time.m()));
                    data.push(BCD::encode(start_time.s()));
                    assert(data@ =~= seq![enc(start_time.minutes), enc(start_time.seconds)]);
                    let r = self.make_response(Command::GetTD, INT3, FIRST_RESPONSE_IRQ_DELAY_44100, data, Some((false, false, false)), CommandState::Idle);
                    proof {
                        assert(seq![stat_ok(*self)] + seq![enc(start_time.minutes), enc(start_time.seconds)]
                            =~= seq![stat_ok(*self), enc(start_time.minutes), enc(start_time.seconds)]);
                    }
                    return r;
                },
                None => {},
            }
        }
        self.make_error_response(Command::GetTD, 0x10, (false, false, true))
    }

    // MotorOn - 07h
    fn command_motor_on(&mut self, second_response: bool) -> (r: CommandState)
        ensures
            motor_on_done(*old(self), *final(self), r, second_response),
    {
        if second_response {
            self.make_stat_response(INT2, Command::MotorOn)
        } else if self.motor_on {
            self.make_bad_parameter_response(Command::MotorOn)
        } else {
            self.motor_on = true;
            let data: Vec<u8> = Vec::new();
            let r = self.make_response(Command::MotorOn, INT3, FIRST_RESPONSE_IRQ_DELAY_44100, data, Some((false, false, false)),
                CommandState::Delay { cmd: Command::MotorOn, delay_cycles: STD_SECOND_RESPONSE_IRQ_DELAY_44100,
                    next_state: Box::new(CommandState::Response2 { cmd: Command::MotorOn }) });
            proof {
                assert(seq![stat_ok(*self)] + Seq::<u8>::empty() =~= seq![stat_ok(*self)]);
            }
            r
        }
    }

    // GetlocP - 11h
    fn command_get_locp(&self) -> (r: CommandState)
        ensures
            get_locp_done(*self, *self, r),
    {
        let mut locp: Vec<u8> = Vec::new();
        match &self.disc {
            Some(disc) => {
                let absolute_time = disc.get_head_position();
                match disc.find_track(absolute_time) {
                    Some(k) => {
                        let track = &disc.get_tracks()[k];
                        let start = *track.start_time();
                        let index: u8 = if time_at_or_after(&absolute_time, &start) { 1 } else { 0 };
                        let rel = absolute_time.sub(&start);
                        locp.push(BCD::encode(track.track_number()));
                        locp.push(BCD::encode(index));
                        locp.push(BCD::encode(absolute_time.m()));
                        locp.push(BCD::encode(absolute_time.s()));
                        locp.push(BCD::encode(absolute_time.f()));
                        locp.push(BCD::encode(rel.m()));
                        locp.push(BCD::encode(rel.s()));
                        locp.push(BCD::encode(rel.f()));
                        proof {
                            assert(locp@ =~= locp_bytes(disc.tracks@[k as int], disc.head_position));
                            assert(first_holding(disc.tracks@, k as int, disc.head_position));
                        }
                    },
                    None => {
                        push_zeros(&mut locp, 8);
                    },
                }
            },
            None => {
                push_zeros(&mut locp, 8);
            },
        }
        let r = self.make_response(Command::GetLocP, INT3, FIRST_RESPONSE_IRQ_DELAY_44100, locp, None, CommandState::Idle);
        proof {
            assert(Seq::<u8>::empty() + locp@ =~= locp@);
        }
        r
    }

    /// Runs a command's first stage, or its second when `second_response`.
    fn execute_command(&mut self, cmd: Command, second_response: bool) -> (r: CommandState)
        requires
            command_ready(*old(self), cmd, second_response),
        ensures
            executed(*old(self), *final(self), r, cmd, second_response),
    {
        reveal(executed);
        match cmd {
            Command::Nop => self.command_nop(),
            Command::Setloc => self.command_setloc(),
            Command::SeekL | Command::SeekP => self.command_seek(second_response),
            Command::Test => self.command_test(),
            Command::GetID => self.command_get_id(second_response),
            Command::ReadTOC => self.command_read_toc(second_response),
            Command::SetMode => self.command_setmode(),
            Command::Read => self.command_read(second_response),
            Command::Pause => self.command_pause(second_response),
            Command::Init => self.command_init(second_response),
            Command::Demute => self.command_demute(),
            Command::SetFilter => self.command_set_filter(),
            Command::Stop => self.command_stop(second_response),
            Command::GetLocL => self.command_get_locl(),
            Command::GetLocP => self.command_get_locp(),
            Command::GetTN => self.command_get_tn(),
            Command::GetTD => self.command_get_td(),
            Command::Play => self.command_play(),
            Command::MotorOn => self.command_motor_on(second_response),
            Command::Mute => self.command_mute(),
        }
    }

    /// Starts the command written last: INT5(stat, 20h) for a wrong number of parameters,
    /// else its first stage.
    fn process_command(&mut self, cmd: u8) -> (r: CommandState)
        requires
            command_of(cmd) is Some,
            parameters_ok(*old(self), command_of(cmd).unwrap()) ==> command_ready(*old(self), command_of(cmd).unwrap(), false),
        ensures
            !parameters_ok(*old(self), command_of(cmd).unwrap()) ==> *final(self) == *old(self)
                && bad_parameter_response(r, *old(self), command_of(cmd).unwrap()),
            parameters_ok(*old(self), command_of(cmd).unwrap()) ==> executed(*old(self), *final(self), r, command_of(cmd).unwrap(), false),
    {
        let command = Command::from_u8(cmd).unwrap();
        let (lo, hi) = command.parameters_number();
        let n = self.parameter_fifo.len();
        if !(lo <= n && n <= hi) {
            self.make_bad_parameter_response(command)
        } else {
            self.execute_command(command, false)
        }
    }

    /// The second stage of a command.
    fn process_2nd_response(&mut self, cmd: Command) -> (r: CommandState)
        requires
            command_ready(*old(self), cmd, true),
        ensures
            executed(*old(self), *final(self), r, cmd, true),
    {
        self.execute_command(cmd, true)
    }

    /// One tick of the command machinery (see `command_stepped`).
    #[verifier::rlimit(40)]
    pub fn check_command_state(&mut self, irq_handler: &mut IrqHandler)
        requires
            old(self).wf(),
            command_state_ready(*old(self)),
        ensures
            final(self).wf(),
            delays_ok(final(self).command_state),
            disc_tracks_ok(*final(self)),
            command_stepped(*old(self), *final(self), *old(irq_handler), *final(irq_handler)),
    {
        let mut state = CommandState::Idle;
        std::mem::swap(&mut state, &mut self.command_state);
        let ghost base = *self;
        let new_state = match state {
            CommandState::Idle => CommandState::Idle,
            CommandState::WaitingIrqAck(cmd) => {
                if self.is_irq_pending() {
                    CommandState::WaitingIrqAck(cmd)
                } else {
                    CommandState::ToProcess(cmd)
                }
            },
            CommandState::ToProcess(cmd) => {
                let r = self.process_command(cmd);
                proof {
                    if parameters_ok(base, command_of(cmd).unwrap()) {
                        lemma_executed_keeps(base, *self, r, command_of(cmd).unwrap(), false);
                    } else {
                        reveal_with_fuel(delays_ok, 2);
                    }
                }
                r
            },
            CommandState::Response { cmd, irq, delay_cycles, response, next_state } => {
                if delay_cycles == 1 {
                    self.apply_irq_and_result(irq, &response, irq_handler);
                    *next_state
                } else {
                    CommandState::Response { cmd, irq, delay_cycles: delay_cycles - 1, response, next_state }
                }
            },
            CommandState::Delay { cmd, delay_cycles, next_state } => {
                if delay_cycles == 1 {
                    *next_state
                } else {
                    CommandState::Delay { cmd, delay_cycles: delay_cycles - 1, next_state }
                }
            },
            CommandState::Response2 { cmd } => {
                let r = self.process_2nd_response(cmd);
                proof {
                    lemma_executed_keeps(base, *self, r, cmd, true);
                }
                r
            },
        };
        self.command_state = new_state;
    }

    /// A response to `cmd`: the status byte with the given error flags when asked for, then
    /// `data`.
    pub fn make_response(&self, cmd: Command, irq: u8, delay_cycles: usize, data: Vec<u8>,
        errors: Option<(bool, bool, bool)>, next_state: CommandState) -> (r: CommandState)
        ensures
            is_response(r, cmd, irq, delay_cycles, match errors {
                Some((a, b, c)) => seq![stat_value(*self, a, b, c)],
                None => Seq::<u8>::empty(),
            } + data@, next_state),
    {
        let mut response: Vec<u8> = Vec::new();
        let mut data = data;
        match errors {
            Some((id_error, seek_error, error)) => {
                let state = self.get_stat(id_error, seek_error, error);
                response.push(state);
            },
            None => {},
        }
        let ghost head = response@;
        response.append(&mut data);
        proof {
            assert(head == match errors {
                Some((a, b, c)) => seq![stat_value(*self, a, b, c)],
                None => Seq::<u8>::empty(),
            });
        }
        CommandState::Response { cmd, irq, delay_cycles, response, next_state: Box::new(next_state) }
    }

    pub fn make_stat_response(&self, irq: u8, cmd: Command) -> (r: CommandState)
        ensures
            stat_response(r, *self, cmd, irq),
    {
        let mut data: Vec<u8> = Vec::new();
        data.push(self.get_stat(false, false, false));
        let r = self.make_response(cmd, irq, FIRST_RESPONSE_IRQ_DELAY_44100, data, None, CommandState::Idle);
        proof {
            assert(Seq::<u8>::empty() + seq![stat_ok(*self)] =~= seq![stat_ok(*self)]);
        }
        r
    }

    pub fn make_error_response(&self, cmd: Command, error: u8, stat_flags: (bool, bool, bool)) -> (r: CommandState)
        ensures
            is_response(r, cmd, INT5, FIRST_RESPONSE_IRQ_DELAY_44100,
                seq![stat_value(*self, stat_flags.0, stat_flags.1, stat_flags.2), error], CommandState::Idle),
    {
        let mut data: Vec<u8> = Vec::new();
        data.push(error);
        let r = self.make_response(cmd, INT5, FIRST_RESPONSE_IRQ_DELAY_44100, data, Some(stat_flags), CommandState::Idle);
        proof {
            assert(seq![stat_value(*self, stat_flags.0, stat_flags.1, stat_flags.2)] + seq![error]
                =~= seq![stat_value(*self, stat_flags.0, stat_flags.1, stat_flags.2), error]);
        }
        r
    }

    pub fn make_bad_parameter_response(&self, cmd: Command) -> (r: CommandState)
        ensures
            bad_parameter_response(r, *self, cmd),
    {
        self.make_error_response(cmd, 0x20, (false, false, true))
    }
}

} // verus!
