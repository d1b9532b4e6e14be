use vstd::prelude::*;

pub mod memory_card;

use memory_card::{MemoryCard, MemoryCardCommand, CardView, MEM_SIZE, card_read_spec, card_write_spec, card_select_spec};

verus! {

/// The buttons of a digital pad, in switch-bit order.
#[derive(Copy, Clone, Debug, PartialEq, Eq, Structural)]
pub enum ControllerButton {
    Select,
    L3,
    R3,
    Start,
    Up,
    Right,
    Down,
    Left,
    L2,
    R2,
    L1,
    R1,
    Triangle,
    Circle,
    Cross,
    Square,
}

/// The switch bit of a button.
pub open spec fn button_bit(b: ControllerButton) -> u16 {
    match b {
        ControllerButton::Select => 0,
        ControllerButton::L3 => 1,
        ControllerButton::R3 => 2,
        ControllerButton::Start => 3,
        ControllerButton::Up => 4,
        ControllerButton::Right => 5,
        ControllerButton::Down => 6,
        ControllerButton::Left => 7,
        ControllerButton::L2 => 8,
        ControllerButton::R2 => 9,
        ControllerButton::L1 => 10,
        ControllerButton::R1 => 11,
        ControllerButton::Triangle => 12,
        ControllerButton::Circle => 13,
        ControllerButton::Cross => 14,
        ControllerButton::Square => 15,
    }
}

impl ControllerButton {
    /// The switch bit of this button.
    pub fn bit(&self) -> (r: u16)
        ensures r == button_bit(*self), r < 16,
    {
        match self {
            ControllerButton::Select => 0,
            ControllerButton::L3 => 1,
            ControllerButton::R3 => 2,
            ControllerButton::Start => 3,
            ControllerButton::Up => 4,
            ControllerButton::Right => 5,
            ControllerButton::Down => 6,
            ControllerButton::Left => 7,
            ControllerButton::L2 => 8,
            ControllerButton::R2 => 9,
            ControllerButton::L1 => 10,
            ControllerButton::R1 => 11,
            ControllerButton::Triangle => 12,
            ControllerButton::Circle => 13,
            ControllerButton::Cross => 14,
            ControllerButton::Square => 15,
        }
    }
}

/// A mouse event.
#[derive(Copy, Clone, Debug, PartialEq, Eq, Structural)]
pub enum MouseInfo {
    RightButton(bool),
    LeftButton(bool),
    DXYMotion(i8, i8),
}

/// The kind of device plugged into a port.
#[derive(Debug, Copy, Clone, PartialEq, Eq, Structural)]
pub enum ControllerType {
    Digital,
    Analog,
    Mouse,
}

/// The identification halfword a device answers with.
pub open spec fn type_id(t: ControllerType) -> u16 {
    match t {
        ControllerType::Digital => 0x5A41,
        ControllerType::Analog => 0x5A73,
        ControllerType::Mouse => 0x5A12,
    }
}

impl ControllerType {
    pub fn id(&self) -> (r: u16)
        ensures r == type_id(*self),
    {
        match self {
            ControllerType::Digital => 0x5A41,
            ControllerType::Analog => 0x5A73,
            ControllerType::Mouse => 0x5A12,
        }
    }

    pub fn is_digital(&self) -> (r: bool)
        ensures r == (*self == ControllerType::Digital),
    {
        match self {
            ControllerType::Digital => true,
            _ => false,
        }
    }

    pub fn is_analog(&self) -> (r: bool)
        ensures r == (*self == ControllerType::Analog),
    {
        match self {
            ControllerType::Analog => true,
            _ => false,
        }
    }

    pub fn is_mouse(&self) -> (r: bool)
        ensures r == (*self == ControllerType::Mouse),
    {
        match self {
            ControllerType::Mouse => true,
            _ => false,
        }
    }
}

/// Where a controller (or its memory card) is in the serial exchange.
#[derive(Debug, Clone, Copy, PartialEq, Eq, Structural)]
pub enum ControllerState {
    Init,
    IdLo,
    IdHi,
    SwLo,
    SwHi,
    Analog0,
    Analog1,
    Analog2,
    Analog3,
    MemCommand,
    MemId1,
    MemId2,
    MemLSB,
    MemMSB,
    MemAck1,
    MemAck2,
    MemConfirmedLSB,
    MemConfirmedMSB,
    MemReadDataSector,
    MemSendDataSector,
    MemChecksum,
    MemEndByteRead,
    MemEndByteWrite,
    MemGetIdEpilogue(usize),
    MouseButtonsLo,
    MouseButtonsHi,
    MouseMovementLo,
    MouseMovementHi,
}

/// The states of a memory card transfer.
pub open spec fn is_mem_state(s: ControllerState) -> bool {
    match s {
        ControllerState::MemCommand | ControllerState::MemId1 | ControllerState::MemId2 | ControllerState::MemLSB
        | ControllerState::MemMSB | ControllerState::MemAck1 | ControllerState::MemAck2
        | ControllerState::MemConfirmedLSB | ControllerState::MemConfirmedMSB | ControllerState::MemReadDataSector
        | ControllerState::MemSendDataSector | ControllerState::MemChecksum | ControllerState::MemEndByteRead
        | ControllerState::MemEndByteWrite => true,
        ControllerState::MemGetIdEpilogue(i) => 1 <= i <= 4,
        _ => false,
    }
}

/// The state of the mouse buttons and motion.
#[derive(Debug, Clone, Copy, PartialEq, Eq, Structural)]
pub struct MouseSwitches {
    pub right_button: bool,
    pub left_button: bool,
    pub dx_motion: i8,
    pub dy_motion: i8,
}

/// A device on a controller port, with its memory card slot.
#[derive(Debug)]
pub struct Controller {
    pub id: u8,
    pub controller_type: ControllerType,
    /// Button switches, active low.
    pub digital_switches: u16,
    pub analog_switches: u32,
    pub mouse_switches: MouseSwitches,
    pub state: ControllerState,
    pub connected: bool,
    pub memory_card: MemoryCard,
    pub memory_card_selected: bool,
    pub memory_card_sector: u16,
    pub last_cmd: u8,
    pub write_checksum: u8,
}

/// The abstract state of a controller.
pub struct ControllerView {
    pub id: u8,
    pub controller_type: ControllerType,
    pub digital_switches: u16,
    pub analog_switches: u32,
    pub mouse: MouseSwitches,
    pub state: ControllerState,
    pub connected: bool,
    pub card: CardView,
    pub card_selected: bool,
    pub card_sector: u16,
    pub last_cmd: u8,
    pub write_checksum: u8,
}

impl View for Controller {
    type V = ControllerView;

    open spec fn view(&self) -> ControllerView {
        ControllerView {
            id: self.id,
            controller_type: self.controller_type,
            digital_switches: self.digital_switches,
            analog_switches: self.analog_switches,
            mouse: self.mouse_switches,
            state: self.state,
            connected: self.connected,
            card: self.memory_card@,
            card_selected: self.memory_card_selected,
            card_sector: self.memory_card_sector,
            last_cmd: self.last_cmd,
            write_checksum: self.write_checksum,
        }
    }
}

/// One byte exchanged with the memory card: the new state and the byte answered
/// (the command byte is then remembered as the last one).
pub open spec fn mem_step(c: ControllerView, cmd: u8) -> (ControllerView, u8) {
    let r: (ControllerView, u8) = match c.state {
        ControllerState::MemCommand => {
            if cmd == 0x52 {
                (ControllerView { state: ControllerState::MemId1, card: CardView { command: MemoryCardCommand::Read, ..c.card }, ..c }, c.card.flag)
            } else if cmd == 0x57 {
                (ControllerView { state: ControllerState::MemId1, card: CardView { command: MemoryCardCommand::Write, ..c.card }, ..c }, c.card.flag)
            } else if cmd == 0x53 {
                (ControllerView { state: ControllerState::MemId1, card: CardView { command: MemoryCardCommand::GetId, ..c.card }, ..c }, c.card.flag)
            } else {
                (ControllerView { state: ControllerState::Init, ..c }, cmd)
            }
        },
        ControllerState::MemId1 => (ControllerView { state: ControllerState::MemId2, ..c }, 0x5Au8),
        ControllerState::MemId2 => (ControllerView {
            state: if c.card.command == MemoryCardCommand::GetId { ControllerState::MemAck1 } else { ControllerState::MemMSB },
            ..c
        }, 0x5Du8),
        ControllerState::MemMSB => (ControllerView { state: ControllerState::MemLSB, card_sector: ((cmd as u16) << 8u16) as u16, ..c }, 0u8),
        ControllerState::MemLSB => {
            let sector = c.card_sector | (cmd as u16);
            (ControllerView {
                card_sector: sector,
                card: card_select_spec(c.card, sector),
                state: if c.card.command == MemoryCardCommand::Read { ControllerState::MemAck1 } else { ControllerState::MemSendDataSector },
                ..c
            }, c.last_cmd)
        },
        ControllerState::MemAck1 => (ControllerView { state: ControllerState::MemAck2, ..c }, 0x5Cu8),
        ControllerState::MemAck2 => (ControllerView {
            state: match c.card.command {
                MemoryCardCommand::Read => ControllerState::MemConfirmedMSB,
                MemoryCardCommand::GetId => ControllerState::MemGetIdEpilogue(1),
                MemoryCardCommand::Write => ControllerState::MemEndByteWrite,
            },
            ..c
        }, 0x5Du8),
        ControllerState::MemGetIdEpilogue(index) => {
            let byte: u8 = if index == 1 { 0x04 } else if index == 4 { 0x80 } else { 0x00 };
            if index == 4 {
                (ControllerView { state: ControllerState::Init, card_selected: false, ..c }, byte)
            } else {
                (ControllerView { state: ControllerState::MemGetIdEpilogue((index + 1) as usize), ..c }, byte)
            }
        },
        ControllerState::MemConfirmedMSB => (ControllerView { state: ControllerState::MemConfirmedLSB, ..c },
            if c.card.sector_number > 0x3FF { 0xFFu8 } else { (c.card.sector_number >> 8u16) as u8 }),
        ControllerState::MemConfirmedLSB => {
            if c.card.sector_number > 0x3FF {
                (ControllerView { state: ControllerState::Init, card_selected: false, ..c }, 0xFFu8)
            } else {
                (ControllerView { state: ControllerState::MemReadDataSector, ..c }, c.card.sector_number as u8)
            }
        },
        ControllerState::MemReadDataSector => {
            let (card, (byte, last)) = card_read_spec(c.card);
            (ControllerView { card, state: if last { ControllerState::MemChecksum } else { c.state }, ..c }, byte)
        },
        ControllerState::MemChecksum => {
            if c.card.command == MemoryCardCommand::Read {
                (ControllerView { state: ControllerState::MemEndByteRead, ..c }, c.card.checksum)
            } else {
                (ControllerView { write_checksum: cmd, state: ControllerState::MemAck1, ..c }, c.last_cmd)
            }
        },
        ControllerState::MemEndByteRead => (ControllerView { state: ControllerState::Init, card_selected: false, ..c }, 0x47u8),
        ControllerState::MemSendDataSector => {
            let (card, last) = card_write_spec(c.card, cmd);
            (ControllerView { card, state: if last { ControllerState::MemChecksum } else { c.state }, ..c }, c.last_cmd)
        },
        ControllerState::MemEndByteWrite => (ControllerView { state: ControllerState::Init, card_selected: false, ..c },
            if c.card.sector_number > 0x3FF { 0xFFu8 } else if c.write_checksum == c.card.checksum { 0x47u8 } else { 0x4Eu8 }),
        _ => (c, 0u8),
    };
    (ControllerView { last_cmd: cmd, ..r.0 }, r.1)
}

/// One byte exchanged with the pad (no memory card selected): the new state and the byte answered.
pub open spec fn pad_step(c: ControllerView, cmd: u8) -> (ControllerView, u8) {
    let id = type_id(c.controller_type);
    match c.state {
        ControllerState::Init => {
            if cmd == 0x01 && c.connected {
                (ControllerView { card_selected: false, state: ControllerState::IdLo, ..c }, 0xFFu8)
            } else if cmd == 0x81 && c.card.present {
                (ControllerView { card_selected: true, state: ControllerState::MemCommand, ..c }, 0xFFu8)
            } else {
                (c, 0xFFu8)
            }
        },
        ControllerState::IdLo => {
            if 0x40 <= cmd < 0x50 {
                (ControllerView { last_cmd: cmd, state: ControllerState::IdHi, ..c }, id as u8)
            } else {
                (ControllerView { state: ControllerState::Init, ..c }, id as u8)
            }
        },
        ControllerState::IdHi => (ControllerView {
            state: if c.last_cmd == 0x42 {
                if c.controller_type == ControllerType::Mouse { ControllerState::MouseButtonsLo } else { ControllerState::SwLo }
            } else {
                ControllerState::Init
            },
            ..c
        }, (id >> 8u16) as u8),
        ControllerState::SwLo => (ControllerView { state: ControllerState::SwHi, ..c }, c.digital_switches as u8),
        ControllerState::SwHi => (ControllerView {
            state: if c.controller_type == ControllerType::Digital { ControllerState::Init } else { ControllerState::Analog0 },
            ..c
        }, (c.digital_switches >> 8u16) as u8),
        ControllerState::Analog0 => if cmd == 0 {
            (ControllerView { state: ControllerState::Analog1, ..c }, (c.analog_switches & 0xFFu32) as u8)
        } else {
            (ControllerView { state: ControllerState::Init, ..c }, 0xFFu8)
        },
        ControllerState::Analog1 => if cmd == 0 {
            (ControllerView { state: ControllerState::Analog2, ..c }, ((c.analog_switches >> 8u32) & 0xFFu32) as u8)
        } else {
            (ControllerView { state: ControllerState::Init, ..c }, 0xFFu8)
        },
        ControllerState::Analog2 => if cmd == 0 {
            (ControllerView { state: ControllerState::Analog3, ..c }, ((c.analog_switches >> 16u32) & 0xFFu32) as u8)
        } else {
            (ControllerView { state: ControllerState::Init, ..c }, 0xFFu8)
        },
        ControllerState::Analog3 => if cmd == 0 {
            (ControllerView { state: ControllerState::Init, ..c }, ((c.analog_switches >> 24u32) & 0xFFu32) as u8)
        } else {
            (ControllerView { state: ControllerState::Init, ..c }, 0xFFu8)
        },
        ControllerState::MouseButtonsLo => (ControllerView { state: ControllerState::MouseButtonsHi, ..c }, 0xFFu8),
        ControllerState::MouseButtonsHi => {
            let b1: u8 = if c.mouse.right_button { 0xFCu8 & !0x04u8 } else { 0xFCu8 };
            let b2: u8 = if c.mouse.left_button { b1 & !0x08u8 } else { b1 };
            (ControllerView { state: ControllerState::MouseMovementLo, ..c }, b2)
        },
        ControllerState::MouseMovementLo => (ControllerView {
            state: ControllerState::MouseMovementHi,
            mouse: MouseSwitches { dx_motion: 0, ..c.mouse },
            ..c
        }, c.mouse.dx_motion as u8),
        ControllerState::MouseMovementHi => (ControllerView {
            state: ControllerState::Init,
            mouse: MouseSwitches { dy_motion: 0, ..c.mouse },
            ..c
        }, c.mouse.dy_motion as u8),
        _ => (c, 0u8),
    }
}

/// One byte exchanged on the serial line: the memory card answers when it is selected, the pad otherwise.
pub open spec fn exchange_spec(c: ControllerView, cmd: u8) -> (ControllerView, u8) {
    if c.card_selected { mem_step(c, cmd) } else { pad_step(c, cmd) }
}

/// A byte can be exchanged: a memory card that is present or selected holds a full image.
pub open spec fn exchange_ok(c: ControllerView) -> bool {
    &&& c.card_selected ==> c.card.memory.len() == MEM_SIZE
    &&& c.card.present ==> c.card.memory.len() == MEM_SIZE
    &&& (c.state matches ControllerState::MemGetIdEpilogue(i) ==> 1 <= i <= 4)
}

impl Controller {
    /// A device of `controller_type` on port `id`, with no button pressed and no memory card.
    pub fn new(id: u8, connected: bool, controller_type: ControllerType) -> (r: Controller)
        ensures
            r@.id == id,
            r@.connected == connected,
            r@.controller_type == controller_type,
            r@.digital_switches == 0xFFFF,
            r@.analog_switches == 0,
            r@.state == ControllerState::Init,
            !r@.card_selected,
            !r@.card.present,
            r@.last_cmd == 0,
            r@.write_checksum == 0,
            r@.card == (CardView { memory: Seq::empty(), present: false, file_name: None, command: MemoryCardCommand::Read,
                flag: 0x8, sector_number: 0, checksum: 0, bytes_count: 0 }),
            r@.mouse == (MouseSwitches { right_button: false, left_button: false, dx_motion: 0, dy_motion: 0 }),
            r@.card_sector == 0,
            exchange_ok(r@),
    {
        Controller {
            id,
            controller_type,
            digital_switches: 0xFFFF,
            analog_switches: 0,
            mouse_switches: MouseSwitches { right_button: false, left_button: false, dx_motion: 0, dy_motion: 0 },
            state: ControllerState::Init,
            connected,
            memory_card: MemoryCard::new(),
            memory_card_selected: false,
            memory_card_sector: 0,
            last_cmd: 0,
            write_checksum: 0,
        }
    }

    pub fn get_type(&self) -> (r: &ControllerType)
        ensures *r == self@.controller_type,
    {
        &self.controller_type
    }

    pub fn get_memory_card_mut(&mut self) -> (r: &mut MemoryCard)
        ensures
            *r == old(self).memory_card,
            final(self)@ == (ControllerView { card: final(r)@, ..old(self)@ }),
    {
        &mut self.memory_card
    }

    pub fn is_connected(&self) -> (r: bool)
        ensures r == self@.connected,
    {
        self.connected
    }

    pub fn set_connected(&mut self, connected: bool)
        ensures final(self)@ == (ControllerView { connected, ..old(self)@ }),
    {
        self.connected = connected;
    }

    /// A button press clears its switch bit, a release sets it; a disconnected pad ignores both.
    pub fn on_controller_event(&mut self, key: ControllerButton, pressed: bool)
        ensures
            final(self)@ == (ControllerView {
                digital_switches: if !old(self)@.connected {
                    old(self)@.digital_switches
                } else if pressed {
                    old(self)@.digital_switches & !(1u16 << button_bit(key))
                } else {
                    old(self)@.digital_switches | (1u16 << button_bit(key))
                },
                ..old(self)@
            }),
    {
        if self.connected {
            let bit = key.bit();
            if pressed {
                self.digital_switches = self.digital_switches & !(1u16 << bit);
            } else {
                self.digital_switches = self.digital_switches | (1u16 << bit);
            }
        }
    }

    /// Records a mouse button or motion event.
    pub fn on_mouse_event(&mut self, event: MouseInfo)
        ensures
            final(self)@ == (ControllerView {
                mouse: match event {
                    MouseInfo::RightButton(p) => MouseSwitches { right_button: p, ..old(self)@.mouse },
                    MouseInfo::LeftButton(p) => MouseSwitches { left_button: p, ..old(self)@.mouse },
                    MouseInfo::DXYMotion(dx, dy) => MouseSwitches { dx_motion: dx, dy_motion: dy, ..old(self)@.mouse },
                },
                ..old(self)@
            }),
    {
        match event {
            MouseInfo::RightButton(pressed) => {
                self.mouse_switches.right_button = pressed;
            },
            MouseInfo::LeftButton(pressed) => {
                self.mouse_switches.left_button = pressed;
            },
            MouseInfo::DXYMotion(dx, dy) => {
                self.mouse_switches.dx_motion = dx;
                self.mouse_switches.dy_motion = dy;
            },
        }
    }

    /// Ends any exchange: back to the initial state, memory card deselected.
    pub fn reset(&mut self)
        ensures
            final(self)@ == (ControllerView { state: ControllerState::Init, card_selected: false, ..old(self)@ }),
            exchange_ok(old(self)@) ==> exchange_ok(final(self)@),
    {
        self.state = ControllerState::Init;
        self.memory_card_selected = false;
    }

    /// Resets the whole device: exchange, memory card transfer, switches and checksums.
    pub fn reset_component(&mut self, hard_reset: bool)
        ensures
            final(self)@ == (ControllerView {
                state: ControllerState::Init,
                card: CardView { flag: 0x8, bytes_count: 0, checksum: 0, ..old(self)@.card },
                card_selected: false,
                digital_switches: 0xFFFF,
                analog_switches: 0,
                last_cmd: 0,
                write_checksum: 0,
                ..old(self)@
            }),
    {
        self.state = ControllerState::Init;
        self.memory_card.reset();
        self.memory_card_selected = false;
        self.digital_switches = 0xFFFF;
        self.analog_switches = 0;
        self.last_cmd = 0;
        self.write_checksum = 0;
    }

    /// Whether a byte can be exchanged (see `exchange_ok`).
    pub fn is_exchange_ok(&self) -> (r: bool)
        ensures
            r == exchange_ok(self@),
    {
        let n = self.memory_card.memory.len();
        let epilogue_ok = match self.state {
            ControllerState::MemGetIdEpilogue(i) => 1 <= i && i <= 4,
            _ => true,
        };
        (!self.memory_card_selected || n == MEM_SIZE) && (!self.memory_card.present || n == MEM_SIZE) && epilogue_ok
    }

    /// The device acknowledges (pulls /ACK) whenever an exchange is in progress.
    pub fn ack(&self) -> (r: bool)
        ensures r == (self@.state != ControllerState::Init),
    {
        match self.state {
            ControllerState::Init => false,
            _ => true,
        }
    }

    fn read_mem_card_byte_after_command(&mut self, cmd: u8) -> (r: u8)
        requires
            old(self)@.card.memory.len() == MEM_SIZE,
            old(self)@.state matches ControllerState::MemGetIdEpilogue(i) ==> 1 <= i <= 4,
        ensures
            (final(self)@, r) == mem_step(old(self)@, cmd),
    {
        proof {
            assert((0x5A5Du16 >> 8u16) as u8 == 0x5Au8) by (bit_vector);
            assert(0x5A5Du16 as u8 == 0x5Du8) by (bit_vector);
            assert((0x5C5Du16 >> 8u16) as u8 == 0x5Cu8) by (bit_vector);
            assert(0x5C5Du16 as u8 == 0x5Du8) by (bit_vector);
        }
        let response: u8 = match self.state {
            ControllerState::MemCommand => {
                if cmd == 0x52 {
                    self.memory_card.set_command(MemoryCardCommand::Read);
                    self.state = ControllerState::MemId1;
                    self.memory_card.get_flag()
                } else if cmd == 0x57 {
                    self.memory_card.set_command(MemoryCardCommand::Write);
                    self.state = ControllerState::MemId1;
                    self.memory_card.get_flag()
                } else if cmd == 0x53 {
                    self.memory_card.set_command(MemoryCardCommand::GetId);
                    self.state = ControllerState::MemId1;
                    self.memory_card.get_flag()
                } else {
                    self.state = ControllerState::Init;
                    cmd
                }
            },
            ControllerState::MemId1 => {
                self.state = ControllerState::MemId2;
                (self.memory_card.get_id() >> 8u16) as u8
            },
            ControllerState::MemId2 => {
                if let MemoryCardCommand::GetId = self.memory_card.get_command() {
                    self.state = ControllerState::MemAck1;
                } else {
                    self.state = ControllerState::MemMSB;
                }
                self.memory_card.get_id() as u8
            },
            ControllerState::MemMSB => {
                self.state = ControllerState::MemLSB;
                self.memory_card_sector = (cmd as u16) << 8u16;
                0x00
            },
            ControllerState::MemLSB => {
                self.memory_card_sector = self.memory_card_sector | (cmd as u16);
                let sector = self.memory_card_sector;
                self.memory_card.set_sector_number(sector);
                if let MemoryCardCommand::Read = self.memory_card.get_command() {
                    self.state = ControllerState::MemAck1;
                } else {
                    self.state = ControllerState::MemSendDataSector;
                }
                self.last_cmd
            },
            ControllerState::MemAck1 => {
                self.state = ControllerState::MemAck2;
                (self.memory_card.get_command_ack() >> 8u16) as u8
            },
            ControllerState::MemAck2 => {
                self.state = match self.memory_card.get_command() {
                    MemoryCardCommand::Read => ControllerState::MemConfirmedMSB,
                    MemoryCardCommand::GetId => ControllerState::MemGetIdEpilogue(1),
                    MemoryCardCommand::Write => ControllerState::MemEndByteWrite,
                };
                self.memory_card.get_command_ack() as u8
            },
            ControllerState::MemGetIdEpilogue(index) => {
                if index == 4 {
                    self.state = ControllerState::Init;
                    self.memory_card_selected = false;
                } else {
                    self.state = ControllerState::MemGetIdEpilogue(index + 1);
                }
                if index == 1 { 0x04 } else if index == 4 { 0x80 } else { 0x00 }
            },
            ControllerState::MemConfirmedMSB => {
                self.state = ControllerState::MemConfirmedLSB;
                let sector = self.memory_card.get_sector_number();
                if sector > 0x3FF { 0xFF } else { (sector >> 8u16) as u8 }
            },
            ControllerState::MemConfirmedLSB => {
                let sector = self.memory_card.get_sector_number();
                if sector > 0x3FF {
                    self.state = ControllerState::Init;
                    self.memory_card_selected = false;
                    0xFF
                } else {
                    self.state = ControllerState::MemReadDataSector;
                    sector as u8
                }
            },
            ControllerState::MemReadDataSector => {
                let (byte, last) = self.memory_card.read_sector_data();
                if last {
                    self.state = ControllerState::MemChecksum;
                }
                byte
            },
            ControllerState::MemChecksum => {
                if let MemoryCardCommand::Read = self.memory_card.get_command() {
                    self.state = ControllerState::MemEndByteRead;
                    self.memory_card.get_checksum()
                } else {
                    self.write_checksum = cmd;
                    self.state = ControllerState::MemAck1;
                    self.last_cmd
                }
            },
            ControllerState::MemEndByteRead => {
                self.state = ControllerState::Init;
                self.memory_card_selected = false;
                0x47
            },
            ControllerState::MemSendDataSector => {
                if self.memory_card.write_sector_data(cmd) {
                    self.state = ControllerState::MemChecksum;
                }
                self.last_cmd
            },
            ControllerState::MemEndByteWrite => {
                self.state = ControllerState::Init;
                self.memory_card_selected = false;
                if self.memory_card.get_sector_number() > 0x3FF {
                    0xFF
                } else if self.write_checksum == self.memory_card.get_checksum() {
                    0x47
                } else {
                    0x4E
                }
            },
            _ => 0,
        };
        self.last_cmd = cmd;
        response
    }

    /// Exchanges one byte: sends `cmd` to the device and returns its answer.
    pub fn read_byte_after_command(&mut self, cmd: u8) -> (r: u8)
        requires
            exchange_ok(old(self)@),
        ensures
            (final(self)@, r) == exchange_spec(old(self)@, cmd),
    {
        if self.memory_card_selected {
            return self.read_mem_card_byte_after_command(cmd);
        }
        let id = self.controller_type.id();
        match self.state {
            ControllerState::Init => {
                if cmd == 0x01 && self.connected {
                    self.memory_card_selected = false;
                    self.state = ControllerState::IdLo;
                } else if cmd == 0x81 && self.memory_card.is_present() {
                    self.memory_card_selected = true;
                    self.state = ControllerState::MemCommand;
                }
                0xFF
            },
            ControllerState::IdLo => {
                if 0x40 <= cmd && cmd < 0x50 {
                    self.last_cmd = cmd;
                    self.state = ControllerState::IdHi;
                } else {
                    self.state = ControllerState::Init;
                }
                id as u8
            },
            ControllerState::IdHi => {
                if self.last_cmd == 0x42 {
                    if self.controller_type.is_mouse() {
                        self.state = ControllerState::MouseButtonsLo;
                    } else {
                        self.state = ControllerState::SwLo;
                    }
                } else {
                    self.state = ControllerState::Init;
                }
                (id >> 8u16) as u8
            },
            ControllerState::SwLo => {
                self.state = ControllerState::SwHi;
                self.digital_switches as u8
            },
            ControllerState::SwHi => {
                self.state = if self.controller_type.is_digital() { ControllerState::Init } else { ControllerState::Analog0 };
                (self.digital_switches >> 8u16) as u8
            },
            ControllerState::Analog0 => {
                if cmd == 0x00 {
                    self.state = ControllerState::Analog1;
                    (self.analog_switches & 0xFFu32) as u8
                } else {
                    self.state = ControllerState::Init;
                    0xFF
                }
            },
            ControllerState::Analog1 => {
                if cmd == 0x00 {
                    self.state = ControllerState::Analog2;
                    ((self.analog_switches >> 8u32) & 0xFFu32) as u8
                } else {
                    self.state = ControllerState::Init;
                    0xFF
                }
            },
            ControllerState::Analog2 => {
                if cmd == 0x00 {
                    self.state = ControllerState::Analog3;
                    ((self.analog_switches >> 16u32) & 0xFFu32) as u8
                } else {
                    self.state = ControllerState::Init;
                    0xFF
                }
            },
            ControllerState::Analog3 => {
                if cmd == 0x00 {
                    self.state = ControllerState::Init;
                    ((self.analog_switches >> 24u32) & 0xFFu32) as u8
                } else {
                    self.state = ControllerState::Init;
                    0xFF
                }
            },
            ControllerState::MouseButtonsLo => {
                self.state = ControllerState::MouseButtonsHi;
                0xFF
            },
            ControllerState::MouseButtonsHi => {
                self.state = ControllerState::MouseMovementLo;
                let mut mouse_buttons_hi: u8 = 0xFC;
                if self.mouse_switches.right_button {
                    mouse_buttons_hi = mouse_buttons_hi & !0x04u8;
                }
                if self.mouse_switches.left_button {
                    mouse_buttons_hi = mouse_buttons_hi & !0x08u8;
                }
                mouse_buttons_hi
            },
            ControllerState::MouseMovementLo => {
                self.state = ControllerState::MouseMovementHi;
                let x_motion = self.mouse_switches.dx_motion;
                self.mouse_switches.dx_motion = 0;
                x_motion as u8
            },
            ControllerState::MouseMovementHi => {
                self.state = ControllerState::Init;
                let y_motion = self.mouse_switches.dy_motion;
                self.mouse_switches.dy_motion = 0;
                y_motion as u8
            },
            _ => 0,
        }
    }
}


/// An exchange keeps the memory card selection in step with the exchange state.
pub proof fn lemma_exchange_keeps_ok(c: ControllerView, cmd: u8)
    requires
        exchange_ok(c),
    ensures
        exchange_ok(exchange_spec(c, cmd).0),
{
}

} // verus!
