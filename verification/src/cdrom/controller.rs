use vstd::prelude::*;
use std::collections::VecDeque;
use crate::cdrom::{DriveState, drive_state_bits, CDOperation, Command, command_of};
use crate::cdrom::disc::{AudioLeftRight, DiscTime, TrackSectorDataSize};
use crate::cdrom::image::Disc;
use crate::interrupt::{InterruptType, IrqHandler, irq_mask};

verus! {

/// Bytes the parameter FIFO holds.
pub const PARAMETER_FIFO_LEN: usize = 16;

/// The drive's speed (Setmode bit 7).
#[derive(Debug, Clone, Copy, PartialEq, Eq, Structural)]
pub enum Speed {
    Normal,
    DoubleSpeed,
}

/// Where the controller is with the command written last.
#[derive(Debug)]
pub enum CommandState {
    Idle,
    /// Received while an interrupt was still to be acknowledged.
    WaitingIrqAck(u8),
    ToProcess(u8),
    /// A response to deliver with `irq` after `delay_cycles` ticks, then `next_state`.
    Response { cmd: Command, irq: u8, delay_cycles: usize, response: Vec<u8>, next_state: Box<CommandState> },
    /// Waiting `delay_cycles` ticks before `next_state`.
    Delay { cmd: Command, delay_cycles: usize, next_state: Box<CommandState> },
    /// The second stage of a command.
    Response2 { cmd: Command },
}

/// The CD-ROM controller's host interface: register bank, interrupt flags and mask, FIFOs,
/// the audio volume matrix and the drive status.
pub struct CDRom {
    pub drive_state: DriveState,
    pub disc: Option<Disc>,
    pub bank_address: usize,
    pub hintmsk_reg: u8,
    pub hintsts_reg: u8,
    pub hchpctl: u8,
    pub parameter_fifo: VecDeque<u8>,
    pub result_fifo: VecDeque<u8>,
    pub data_buffer: VecDeque<u8>,
    pub cd_to_spu_volume: [[u8; 2]; 2],
    pub pending_cd_to_spu_volume: [[u8; 2]; 2],
    pub audio_mute: bool,
    pub audio_sample: AudioLeftRight,
    pub command_state: CommandState,
    pub shell_once_opened: bool,
    pub motor_on: bool,
    pub pending_setloc: Option<DiscTime>,
    pub mode: u8,
    pub adpcm_muted: bool,
    /// The sector read last.
    pub last_sector: Vec<u8>,
    /// XA-ADPCM filter (Setfilter file and channel, Setmode bit 3).
    pub adpcm_file: u8,
    pub adpcm_channel: u8,
    pub adpcm_filter_enabled: bool,
}

/// HSTS: the bank (bits 0-1), parameter FIFO empty (3) and not full (4), result ready (5),
/// data request (6), busy with a command (7).
pub open spec fn hsts_value(c: CDRom) -> u8 {
    (c.bank_address as u8)
        | (if c.parameter_fifo@.len() == 0 { 0x08u8 } else { 0u8 })
        | (if c.parameter_fifo@.len() < PARAMETER_FIFO_LEN { 0x10u8 } else { 0u8 })
        | (if c.result_fifo@.len() != 0 { 0x20u8 } else { 0u8 })
        | (if c.data_buffer@.len() != 0 { 0x40u8 } else { 0u8 })
        | (if c.command_state !is Idle { 0x80u8 } else { 0u8 })
}

/// The status byte: drive activity, shell once opened (4), ID error (3), seek error (2),
/// motor on (1), error (0).
pub open spec fn stat_value(c: CDRom, id_error: bool, seek_error: bool, error: bool) -> u8 {
    drive_state_bits(c.drive_state)
        | (if c.shell_once_opened { 0x10u8 } else { 0u8 })
        | (if id_error { 0x08u8 } else { 0u8 })
        | (if seek_error { 0x04u8 } else { 0u8 })
        | (if c.motor_on { 0x02u8 } else { 0u8 })
        | (if error { 0x01u8 } else { 0u8 })
}

/// The data FIFO after taking `n` bytes (missing ones read as zero): the value and the rest.
pub open spec fn take_le(buf: Seq<u8>, n: nat) -> (nat, Seq<u8>)
    decreases n,
{
    if n == 0 {
        (0, buf)
    } else {
        let (b, rest) = if buf.len() > 0 { (buf[0] as nat, buf.drop_first()) } else { (0nat, buf) };
        let (hi, rest2) = take_le(rest, (n - 1) as nat);
        (b + 256 * hi, rest2)
    }
}

/// The interrupt controller after the CD-ROM line is raised when `raised` holds (a change is
/// noted only when the line was not the only one set), or left alone.
pub open spec fn irq_delivered(before: IrqHandler, after: IrqHandler, raised: bool) -> bool {
    &&& raised && (before.irqs ^ irq_mask(InterruptType::CDROM)) != 0 ==> after.irqs == before.irqs | irq_mask(InterruptType::CDROM) && after.changed
    &&& raised && (before.irqs ^ irq_mask(InterruptType::CDROM)) == 0 ==> after == before
    &&& !raised ==> after == before
}

/// The volume matrix `new` is `old` with entry (i, j) set to `v`.
pub open spec fn vol_updated(old: [[u8; 2]; 2], new: [[u8; 2]; 2], i: int, j: int, v: u8) -> bool {
    forall|a: int, b: int| 0 <= a < 2 && 0 <= b < 2 ==> #[trigger] new[a][b] == (if a == i && b == j { v } else { old[a][b] })
}

impl CDRom {
    pub open spec fn wf(&self) -> bool {
        &&& self.bank_address < 4
        &&& self.parameter_fifo@.len() <= PARAMETER_FIFO_LEN
    }

    pub fn new() -> (r: Self)
        ensures
            r.wf(),
            r.drive_state == DriveState::Idle,
            r.disc is None,
            r.bank_address == 0 && r.hintmsk_reg == 0 && r.hintsts_reg == 0 && r.hchpctl == 0,
            r.parameter_fifo@.len() == 0 && r.result_fifo@.len() == 0 && r.data_buffer@.len() == 0,
            forall|a: int, b: int| 0 <= a < 2 && 0 <= b < 2 ==> #[trigger] r.cd_to_spu_volume[a][b] == 0
                && r.pending_cd_to_spu_volume[a][b] == 0,
            !r.audio_mute && !r.shell_once_opened && !r.motor_on && !r.adpcm_muted,
            r.command_state == CommandState::Idle,
            r.pending_setloc is None,
            r.mode == 0,
            r.last_sector@.len() == 0,
            r.adpcm_file == 0 && r.adpcm_channel == 0 && !r.adpcm_filter_enabled,
    {
        CDRom {
            drive_state: DriveState::Idle,
            disc: None,
            bank_address: 0,
            hintmsk_reg: 0,
            hintsts_reg: 0,
            hchpctl: 0,
            parameter_fifo: VecDeque::new(),
            result_fifo: VecDeque::new(),
            data_buffer: VecDeque::new(),
            cd_to_spu_volume: [[0; 2]; 2],
            pending_cd_to_spu_volume: [[0; 2]; 2],
            audio_mute: false,
            audio_sample: AudioLeftRight(0, 0),
            command_state: CommandState::Idle,
            shell_once_opened: false,
            motor_on: false,
            pending_setloc: None,
            mode: 0,
            adpcm_muted: false,
            last_sector: Vec::new(),
            adpcm_file: 0,
            adpcm_channel: 0,
            adpcm_filter_enabled: false,
        }
    }

    pub fn insert_disk(&mut self, disc: Disc)
        ensures
            final(self).disc == Some(disc),
            final(self).bank_address == old(self).bank_address,
            final(self).parameter_fifo == old(self).parameter_fifo,
    {
        self.disc = Some(disc);
    }

    /// What the drive is doing, with the head position (zero without a disc).
    pub fn current_operation(&self) -> (r: CDOperation)
        ensures
            r == match self.drive_state {
                DriveState::Reading { .. } => CDOperation::Reading(match self.disc {
                    Some(d) => d.head_position,
                    None => DiscTime { minutes: 0, seconds: 0, frames: 0 },
                }),
                DriveState::Playing { .. } => CDOperation::Playing(match self.disc {
                    Some(d) => d.head_position,
                    None => DiscTime { minutes: 0, seconds: 0, frames: 0 },
                }),
                _ => CDOperation::Idle,
            },
    {
        let time = match &self.disc {
            Some(d) => d.get_head_position(),
            None => DiscTime::new(0, 0, 0),
        };
        match self.drive_state {
            DriveState::Reading { .. } => CDOperation::Reading(time),
            DriveState::Playing { .. } => CDOperation::Playing(time),
            _ => CDOperation::Idle,
        }
    }

    pub fn spu_volume_matrix(&self) -> (r: [[u8; 2]; 2])
        ensures r == self.cd_to_spu_volume,
    {
        self.cd_to_spu_volume
    }

    /// The current audio sample, silent when muted.
    pub fn get_audio_sample(&self) -> (r: (u16, u16))
        ensures
            r == (if self.audio_mute { (0u16, 0u16) } else { (self.audio_sample.0, self.audio_sample.1) }),
    {
        if self.audio_mute {
            (0, 0)
        } else {
            (self.audio_sample.0, self.audio_sample.1)
        }
    }

    /// Setmode bit 7: double speed.
    pub fn get_speed(&self) -> (r: Speed)
        ensures
            r == (if (self.mode & 0x80) != 0 { Speed::DoubleSpeed } else { Speed::Normal }),
    {
        if (self.mode & 0x80) != 0 { Speed::DoubleSpeed } else { Speed::Normal }
    }

    /// Setmode bit 5: whole sectors (except the sync bytes) rather than data only.
    pub fn get_sector_size(&self) -> (r: TrackSectorDataSize)
        ensures
            r == (if (self.mode & 0x20) != 0 { TrackSectorDataSize::WholeSectorExceptSyncBytes } else { TrackSectorDataSize::DataOnly }),
    {
        if (self.mode & 0x20) != 0 {
            TrackSectorDataSize::WholeSectorExceptSyncBytes
        } else {
            TrackSectorDataSize::DataOnly
        }
    }

    /// The status byte (see `stat_value`).
    pub fn get_stat(&self, id_error: bool, seek_error: bool, error: bool) -> (r: u8)
        ensures
            r == stat_value(*self, id_error, seek_error, error),
    {
        let a = self.drive_state.to_u8();
        let b: u8 = if self.shell_once_opened { 0x10 } else { 0 };
        let c: u8 = if id_error { 0x08 } else { 0 };
        let d: u8 = if seek_error { 0x04 } else { 0 };
        let e: u8 = if self.motor_on { 0x02 } else { 0 };
        let f: u8 = if error { 0x01 } else { 0 };
        a | b | c | d | e | f
    }

    /// Whether an interrupt (INT1-INT7) is waiting for acknowledge.
    pub fn is_irq_pending(&self) -> (r: bool)
        ensures r == ((self.hintsts_reg & 7) != 0),
    {
        (self.hintsts_reg & 7) != 0
    }

    /// Sets the interrupt number (bits 0-2 of HINTSTS).
    pub fn set_irq(&mut self, irq: u8)
        ensures
            *final(self) == (CDRom { hintsts_reg: (old(self).hintsts_reg & !7u8) | irq, ..*old(self) }),
    {
        self.hintsts_reg = (self.hintsts_reg & !7u8) | irq;
    }

    /// Acknowledges interrupt bits 0-2 given in `ints`.
    pub fn ack_irqs(&mut self, ints: u8)
        ensures
            *final(self) == (CDRom { hintsts_reg: (old(self).hintsts_reg & !7u8) | (old(self).hintsts_reg & 7 & !ints), ..*old(self) }),
    {
        self.hintsts_reg = (self.hintsts_reg & !7u8) | (self.hintsts_reg & 7 & !ints);
    }

    /// Raises the CD-ROM interrupt line when an enabled flag is set.
    pub fn check_irq(&self, irq_handler: &mut IrqHandler)
        ensures
            (self.hintmsk_reg & self.hintsts_reg) != 0 ==> (((old(irq_handler).irqs ^ irq_mask(InterruptType::CDROM)) != 0
                ==> final(irq_handler).irqs == old(irq_handler).irqs | irq_mask(InterruptType::CDROM) && final(irq_handler).changed)
                && ((old(irq_handler).irqs ^ irq_mask(InterruptType::CDROM)) == 0 ==> *final(irq_handler) == *old(irq_handler))),
            (self.hintmsk_reg & self.hintsts_reg) == 0 ==> *final(irq_handler) == *old(irq_handler),
    {
        if (self.hintmsk_reg & self.hintsts_reg) != 0 {
            irq_handler.set_irq(InterruptType::CDROM);
        }
    }

    /// Delivers a response: the interrupt number, the line if enabled, and the bytes into the
    /// result FIFO.
    pub fn apply_irq_and_result(&mut self, irq: u8, response: &Vec<u8>, irq_handler: &mut IrqHandler)
        requires
            old(self).wf(),
        ensures
            final(self).wf(),
            *final(self) == (CDRom { hintsts_reg: (old(self).hintsts_reg & !7u8) | irq, result_fifo: final(self).result_fifo, ..*old(self) }),
            final(self).result_fifo@ == old(self).result_fifo@ + response@,
            irq_delivered(*old(irq_handler), *final(irq_handler), (old(self).hintmsk_reg & ((old(self).hintsts_reg & !7u8) | irq)) != 0),
    {
        self.set_irq(irq);
        self.check_irq(irq_handler);
        let mut i: usize = 0;
        while i < response.len()
            invariant
                self.wf(),
                i <= response@.len(),
                *self == (CDRom { hintsts_reg: (old(self).hintsts_reg & !7u8) | irq, result_fifo: self.result_fifo, ..*old(self) }),
                self.result_fifo@ == old(self).result_fifo@ + response@.take(i as int),
            decreases response@.len() - i,
        {
            self.result_fifo.push_back(response[i]);
            proof {
                assert(response@.take(i as int + 1) == response@.take(i as int).push(response@[i as int]));
            }
            i = i + 1;
        }
        proof {
            assert(response@.take(response@.len() as int) == response@);
        }
    }

    /// HSTS (see `hsts_value`).
    pub fn read_0(&self) -> (r: u8)
        requires
            self.wf(),
        ensures
            r == hsts_value(*self),
    {
        let a = self.bank_address as u8;
        let b: u8 = if self.parameter_fifo.len() == 0 { 0x08 } else { 0 };
        let c: u8 = if self.parameter_fifo.len() < PARAMETER_FIFO_LEN { 0x10 } else { 0 };
        let d: u8 = if self.result_fifo.len() != 0 { 0x20 } else { 0 };
        let e: u8 = if self.data_buffer.len() != 0 { 0x40 } else { 0 };
        let f: u8 = match self.command_state {
            CommandState::Idle => 0,
            _ => 0x80,
        };
        a | b | c | d | e | f
    }

    /// RESULT: the next response byte (zero when none).
    pub fn read_1(&mut self) -> (r: u8)
        ensures
            old(self).result_fifo@.len() > 0 ==> r == old(self).result_fifo@[0]
                && final(self).result_fifo@ == old(self).result_fifo@.drop_first(),
            old(self).result_fifo@.len() == 0 ==> r == 0 && final(self).result_fifo@ == old(self).result_fifo@,
            final(self).parameter_fifo == old(self).parameter_fifo,
            final(self).bank_address == old(self).bank_address,
    {
        match self.result_fifo.pop_front() {
            Some(v) => v,
            None => 0,
        }
    }

    /// The next response byte, left in place.
    pub fn peek_1(&self) -> (r: u8)
        ensures
            r == (if self.result_fifo@.len() > 0 { self.result_fifo@[0] } else { 0u8 }),
    {
        if self.result_fifo.len() > 0 {
            self.result_fifo[0]
        } else {
            0
        }
    }

    fn pop_data(&mut self) -> (r: u8)
        ensures
            (r as nat, final(self).data_buffer@) == take_le(old(self).data_buffer@, 1),
            final(self).parameter_fifo == old(self).parameter_fifo,
            final(self).bank_address == old(self).bank_address,
    {
        proof {
            reveal_with_fuel(take_le, 2);
        }
        match self.data_buffer.pop_front() {
            Some(v) => v,
            None => 0,
        }
    }

    /// RDDATA: `SIZE` bits from the data FIFO, first byte lowest (a missing byte reads as zero).
    pub fn read_2<const SIZE: usize>(&mut self) -> (r: u32)
        requires
            SIZE == 8 || SIZE == 16 || SIZE == 32,
        ensures
            (r as nat, final(self).data_buffer@) == take_le(old(self).data_buffer@, (SIZE / 8) as nat),
            final(self).parameter_fifo == old(self).parameter_fifo,
            final(self).bank_address == old(self).bank_address,
    {
        proof {
            reveal_with_fuel(take_le, 5);
        }
        let ghost d0 = self.data_buffer@;
        let b0 = self.pop_data() as u32;
        if SIZE == 8 {
            return b0;
        }
        let ghost d1 = self.data_buffer@;
        let b1 = self.pop_data() as u32;
        if SIZE == 16 {
            proof {
                assert(take_le(d1, 1) == (b1 as nat, self.data_buffer@));
                assert(take_le(d0, 2) == ((b0 + 256 * b1) as nat, self.data_buffer@));
            }
            return b0 + b1 * 256;
        }
        let ghost d2 = self.data_buffer@;
        let b2 = self.pop_data() as u32;
        let ghost d3 = self.data_buffer@;
        let b3 = self.pop_data() as u32;
        proof {
            assert(take_le(d3, 1) == (b3 as nat, self.data_buffer@));
            assert(take_le(d2, 2) == ((b2 + 256 * b3) as nat, self.data_buffer@));
            assert(take_le(d1, 3) == ((b1 + 256 * (b2 + 256 * b3)) as nat, self.data_buffer@));
            assert(take_le(d0, 4) == ((b0 + 256 * (b1 + 256 * (b2 + 256 * b3))) as nat, self.data_buffer@));
        }
        b0 + b1 * 256 + b2 * 65536 + b3 * 16777216
    }

    pub fn peek_2(&self) -> (r: u8)
        ensures r == 0,
    {
        0
    }

    /// HINTMSK (banks 0, 2) or HINTSTS (banks 1, 3), the upper three bits always set.
    pub fn read_3(&self) -> (r: u8)
        requires
            self.wf(),
        ensures
            r == (if self.bank_address % 2 == 0 { self.hintmsk_reg | 0xE0 } else { self.hintsts_reg | 0xE0 }),
    {
        if self.bank_address % 2 == 0 {
            self.hintmsk_reg | 0xE0
        } else {
            self.hintsts_reg | 0xE0
        }
    }

    /// ADDRESS: selects the register bank.
    pub fn write_0(&mut self, value: u8)
        requires
            old(self).wf(),
        ensures
            final(self).wf(),
            final(self).bank_address == (value % 4) as usize,
            final(self).parameter_fifo == old(self).parameter_fifo,
            final(self).command_state == old(self).command_state,
    {
        self.bank_address = (value % 4) as usize;
    }

    /// Bank 0: COMMAND (queued until the pending interrupt is acknowledged); banks 1 and 2 are
    /// ignored; bank 3: ATV2 (right to right volume).
    pub fn write_1(&mut self, value: u8)
        requires
            old(self).wf(),
        ensures
            final(self).wf(),
            old(self).bank_address == 0 ==> final(self).command_state == (if (old(self).hintsts_reg & 7) != 0 {
                CommandState::WaitingIrqAck(value)
            } else {
                CommandState::ToProcess(value)
            }),
            old(self).bank_address != 0 ==> final(self).command_state == old(self).command_state,
            old(self).bank_address == 3 ==> vol_updated(old(self).pending_cd_to_spu_volume, final(self).pending_cd_to_spu_volume, 1, 1, value),
            old(self).bank_address != 3 ==> final(self).pending_cd_to_spu_volume == old(self).pending_cd_to_spu_volume,
            final(self).parameter_fifo == old(self).parameter_fifo,
            final(self).bank_address == old(self).bank_address,
    {
        if self.bank_address == 0 {
            self.command_state = if self.is_irq_pending() {
                CommandState::WaitingIrqAck(value)
            } else {
                CommandState::ToProcess(value)
            };
        } else if self.bank_address == 3 {
            self.pending_cd_to_spu_volume[1][1] = value;
        }
    }

    /// Bank 0: PARAMETER (dropped when the FIFO is full); bank 1: HINTMSK; bank 2: ATV0 (left
    /// to left); bank 3: ATV3 (right to left).
    pub fn write_2(&mut self, value: u8)
        requires
            old(self).wf(),
        ensures
            final(self).wf(),
            old(self).bank_address == 0 ==> final(self).parameter_fifo@ == (if old(self).parameter_fifo@.len() < PARAMETER_FIFO_LEN {
                old(self).parameter_fifo@.push(value)
            } else {
                old(self).parameter_fifo@
            }),
            old(self).bank_address != 0 ==> final(self).parameter_fifo == old(self).parameter_fifo,
            final(self).hintmsk_reg == (if old(self).bank_address == 1 { value } else { old(self).hintmsk_reg }),
            old(self).bank_address == 2 ==> vol_updated(old(self).pending_cd_to_spu_volume, final(self).pending_cd_to_spu_volume, 0, 0, value),
            old(self).bank_address == 3 ==> vol_updated(old(self).pending_cd_to_spu_volume, final(self).pending_cd_to_spu_volume, 0, 1, value),
            old(self).bank_address < 2 ==> final(self).pending_cd_to_spu_volume == old(self).pending_cd_to_spu_volume,
            final(self).bank_address == old(self).bank_address,
            final(self).command_state == old(self).command_state,
    {
        if self.bank_address == 0 {
            if self.parameter_fifo.len() < PARAMETER_FIFO_LEN {
                self.parameter_fifo.push_back(value);
            }
        } else if self.bank_address == 1 {
            self.hintmsk_reg = value;
        } else if self.bank_address == 2 {
            self.pending_cd_to_spu_volume[0][0] = value;
        } else {
            self.pending_cd_to_spu_volume[0][1] = value;
        }
    }

    /// Bank 0: HCHPCTL; bank 1: HCLRCTL (acknowledge interrupts, bit 6 clears the parameter
    /// FIFO); bank 2: ATV1 (left to right); bank 3: ADPCTL (bit 0 mutes XA-ADPCM, bit 5 applies
    /// the pending volumes).
    pub fn write_3(&mut self, value: u8)
        requires
            old(self).wf(),
        ensures
            final(self).wf(),
            final(self).hchpctl == (if old(self).bank_address == 0 { value } else { old(self).hchpctl }),
            final(self).hintsts_reg == (if old(self).bank_address == 1 {
                (old(self).hintsts_reg & !7u8) | (old(self).hintsts_reg & 7 & !value)
            } else {
                old(self).hintsts_reg
            }),
            final(self).parameter_fifo@ == (if old(self).bank_address == 1 && (value & 0x40) != 0 {
                Seq::<u8>::empty()
            } else {
                old(self).parameter_fifo@
            }),
            old(self).bank_address == 2 ==> vol_updated(old(self).pending_cd_to_spu_volume, final(self).pending_cd_to_spu_volume, 1, 0, value),
            old(self).bank_address != 2 ==> final(self).pending_cd_to_spu_volume == old(self).pending_cd_to_spu_volume,
            final(self).adpcm_muted == (if old(self).bank_address == 3 { (value & 1) != 0 } else { old(self).adpcm_muted }),
            final(self).cd_to_spu_volume == (if old(self).bank_address == 3 && (value & 0x20) != 0 {
                old(self).pending_cd_to_spu_volume
            } else {
                old(self).cd_to_spu_volume
            }),
            final(self).bank_address == old(self).bank_address,
            final(self).command_state == old(self).command_state,
    {
        if self.bank_address == 0 {
            self.hchpctl = value;
        } else if self.bank_address == 1 {
            self.ack_irqs(value);
            if (value & 0x40) != 0 {
                self.parameter_fifo.clear();
            }
        } else if self.bank_address == 2 {
            self.pending_cd_to_spu_volume[1][0] = value;
        } else {
            self.adpcm_muted = (value & 0x01) != 0;
            if (value & 0x20) != 0 {
                self.cd_to_spu_volume = self.pending_cd_to_spu_volume;
            }
        }
    }

    /// Whether a DMA read can take data: the data FIFO holds bytes.
    pub fn is_dma_ready(&self) -> (r: bool)
        ensures r == (self.data_buffer@.len() != 0),
    {
        self.data_buffer.len() != 0
    }

    /// A DMA read takes a 32-bit word from the data FIFO.
    pub fn dma_read(&mut self) -> (r: u32)
        ensures
            (r as nat, final(self).data_buffer@) == take_le(old(self).data_buffer@, 4),
            final(self).parameter_fifo == old(self).parameter_fifo,
            final(self).bank_address == old(self).bank_address,
    {
        self.read_2::<32>()
    }

    /// Whether a command byte names a known command (`None` when not) with an acceptable
    /// number of parameters in the parameter FIFO.
    pub fn command_parameters_ok(&self, cmd: u8) -> (r: Option<bool>)
        ensures
            r is None <==> command_of(cmd) is None,
    {
        match Command::from_u8(cmd) {
            Some(c) => {
                let (lo, hi) = c.parameters_number();
                let n = self.parameter_fifo.len();
                Some(lo <= n && n <= hi)
            },
            None => None,
        }
    }
}

} // verus!
