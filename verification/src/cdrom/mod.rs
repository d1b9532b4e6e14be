use vstd::prelude::*;
use crate::cdrom::disc::DiscTime;

pub mod disc;
pub mod cue;
pub mod image;
pub mod util;
pub mod controller;
pub mod commands;

verus! {

/// Television region of a disc.
#[derive(Debug, Clone, Copy, PartialEq, Eq, Structural)]
pub enum Region {
    Japan,
    USA,
    Europe,
}

impl Region {
    /// The letter of the region in the licence string ("SCEI", "SCEA", "SCEE").
    pub fn to_scee_letter(&self) -> (r: char)
        ensures
            r == match *self {
                Region::Japan => 'I',
                Region::USA => 'A',
                Region::Europe => 'E',
            },
    {
        match self {
            Region::Japan => 'I',
            Region::USA => 'A',
            Region::Europe => 'E',
        }
    }

    /// Scanlines per frame of the region's video standard (NTSC 263, PAL 312).
    pub fn get_crt_total_lines(&self) -> (r: usize)
        ensures
            r == match *self {
                Region::Japan | Region::USA => 263usize,
                Region::Europe => 312usize,
            },
    {
        match self {
            Region::Japan | Region::USA => 263,
            Region::Europe => 312,
        }
    }
}

/// Commands of the CD-ROM controller.
#[derive(Debug, Clone, Copy, PartialEq, Eq, Structural)]
pub enum Command {
    Nop,
    Setloc,
    Play,
    Read,
    MotorOn,
    Stop,
    Pause,
    Init,
    Mute,
    Demute,
    SetMode,
    SetFilter,
    GetLocL,
    GetLocP,
    GetTN,
    GetTD,
    SeekL,
    SeekP,
    Test,
    GetID,
    ReadTOC,
}

/// The command a command byte selects, if any.
pub open spec fn command_of(value: u8) -> Option<Command> {
    if value == 0x01 { Some(Command::Nop) }
    else if value == 0x02 { Some(Command::Setloc) }
    else if value == 0x03 { Some(Command::Play) }
    else if value == 0x06 || value == 0x1B { Some(Command::Read) }
    else if value == 0x07 { Some(Command::MotorOn) }
    else if value == 0x08 { Some(Command::Stop) }
    else if value == 0x09 { Some(Command::Pause) }
    else if value == 0x0A { Some(Command::Init) }
    else if value == 0x0B { Some(Command::Mute) }
    else if value == 0x0C { Some(Command::Demute) }
    else if value == 0x0D { Some(Command::SetFilter) }
    else if value == 0x0E { Some(Command::SetMode) }
    else if value == 0x10 { Some(Command::GetLocL) }
    else if value == 0x11 { Some(Command::GetLocP) }
    else if value == 0x13 { Some(Command::GetTN) }
    else if value == 0x14 { Some(Command::GetTD) }
    else if value == 0x15 { Some(Command::SeekL) }
    else if value == 0x16 { Some(Command::SeekP) }
    else if value == 0x19 { Some(Command::Test) }
    else if value == 0x1A { Some(Command::GetID) }
    else if value == 0x1E { Some(Command::ReadTOC) }
    else { None }
}

/// Inclusive range of the number of parameters a command takes.
pub open spec fn command_parameters(c: Command) -> (usize, usize) {
    match c {
        Command::Nop => (0, 0),
        Command::Setloc => (3, 3),
        Command::Play => (0, 1),
        Command::SetFilter => (2, 2),
        Command::SetMode => (1, 1),
        Command::GetTD => (1, 1),
        Command::Test => (1, 1),
        _ => (0, 0),
    }
}

impl Command {
    pub fn from_u8(value: u8) -> (r: Option<Self>)
        ensures
            r == command_of(value),
    {
        match value {
            0x01 => Some(Command::Nop),
            0x02 => Some(Command::Setloc),
            0x03 => Some(Command::Play),
            0x06 | 0x1B => Some(Command::Read),
            0x07 => Some(Command::MotorOn),
            0x08 => Some(Command::Stop),
            0x09 => Some(Command::Pause),
            0x0A => Some(Command::Init),
            0x0B => Some(Command::Mute),
            0x0C => Some(Command::Demute),
            0x0D => Some(Command::SetFilter),
            0x0E => Some(Command::SetMode),
            0x10 => Some(Command::GetLocL),
            0x11 => Some(Command::GetLocP),
            0x13 => Some(Command::GetTN),
            0x14 => Some(Command::GetTD),
            0x15 => Some(Command::SeekL),
            0x16 => Some(Command::SeekP),
            0x19 => Some(Command::Test),
            0x1A => Some(Command::GetID),
            0x1E => Some(Command::ReadTOC),
            _ => None,
        }
    }

    /// Fewest and most parameters the command takes (both inclusive).
    pub fn parameters_number(&self) -> (r: (usize, usize))
        ensures
            r == command_parameters(*self),
    {
        match self {
            Command::Nop => (0, 0),
            Command::Setloc => (3, 3),
            Command::Play => (0, 1),
            Command::SetFilter => (2, 2),
            Command::SetMode => (1, 1),
            Command::GetTD => (1, 1),
            Command::Test => (1, 1),
            _ => (0, 0),
        }
    }
}

/// What the drive mechanism is doing.
#[derive(Debug, Clone, Copy, PartialEq, Eq, Structural)]
pub enum DriveState {
    Idle,
    Playing { sample_index: isize, report_counter: usize, report_absolute: bool },
    Seeking,
    Reading { next_sector_cycles: usize },
}

/// Status bits of a drive state (play 80h, seek 40h, read 20h).
pub open spec fn drive_state_bits(s: DriveState) -> u8 {
    match s {
        DriveState::Playing { .. } => 0x80,
        DriveState::Seeking => 0x40,
        DriveState::Reading { .. } => 0x20,
        DriveState::Idle => 0x00,
    }
}

impl DriveState {
    pub fn to_u8(&self) -> (r: u8)
        ensures
            r == drive_state_bits(*self),
    {
        match self {
            DriveState::Playing { .. } => 0x80,
            DriveState::Seeking => 0x40,
            DriveState::Reading { .. } => 0x20,
            _ => 0x00,
        }
    }
}

/// What the drive reports it is doing, with the head position.
#[derive(Debug, Clone, Copy, PartialEq, Eq, Structural)]
pub enum CDOperation {
    Reading(DiscTime),
    Playing(DiscTime),
    Idle,
}

} // verus!
