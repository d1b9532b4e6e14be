use vstd::prelude::*;
use std::collections::VecDeque;
use crate::controllers::{Controller, ControllerType, ControllerView, exchange_ok, exchange_spec};
use crate::controllers::ControllerState;
use crate::interrupt::{InterruptType, IrqHandler};
use crate::clock::{Clock, ClockEvent, EventType};

verus! {

/// CPU clock frequency in Hz.
pub const CPU_CLOCK: usize = 33_868_800;

/// CPU cycles of one byte exchanged each way at 250 kbps (12 bit times).
pub const TX_RX_DATA_CYCLES: usize = 12 * CPU_CLOCK / 250_000;

/*
SIO_TX_DATA holds (almost) two bytes: one being sent and one waiting. SIO_RX_DATA is an 8 byte
FIFO; bytes received while it is full are dropped here. Reading an empty RX FIFO gives FFh.
*/

/// The controller and memory card serial port.
pub struct SIO0 {
    pub baud: u16,
    pub mode: u16,
    pub controllers: [Controller; 2],
    pub selected_device: Option<u8>,
    pub irq: bool,
    pub ctrl: u16,
    pub tx_data: VecDeque<u8>,
    pub rx_fifo: VecDeque<u8>,
    pub tx_idle: bool,
    pub ack_asserted: bool,
    pub start_timer_timestamp: u64,
}

/// SIO_STAT: TX ready (bit 0), RX data available (1), TX idle (2), /ACK (7), IRQ (9) and the
/// baud rate timer (bits 11 up: cycles since the transfer started).
pub open spec fn sio_status(s: SIO0, now: u64) -> u32 {
    (if s.tx_data@.len() < 2 { 0x01u32 } else { 0u32 })
        | (if s.rx_fifo@.len() != 0 { 0x02u32 } else { 0u32 })
        | (if s.tx_idle { 0x04u32 } else { 0u32 })
        | (if s.ack_asserted { 0x80u32 } else { 0u32 })
        | (if s.irq { 0x200u32 } else { 0u32 })
        | ((((now - s.start_timer_timestamp) as u64) as u32) << 11u32)
}

impl SIO0 {
    /// Both devices agree with their memory card selection, and the FIFOs are within their sizes.
    pub open spec fn wf(&self) -> bool {
        &&& exchange_ok(self.controllers[0]@)
        &&& exchange_ok(self.controllers[1]@)
        &&& self.tx_data@.len() <= 2
        &&& self.rx_fifo@.len() <= 8
        &&& (self.selected_device matches Some(d) ==> d < 2)
    }

    /// The port with a digital pad on each connector that is connected.
    pub fn new(c1_connected: bool, c2_connected: bool) -> (r: SIO0)
        ensures
            r.wf(),
            r.baud == 0 && r.mode == 0 && r.ctrl == 0,
            r.selected_device is None,
            !r.irq,
            r.tx_idle,
            r.tx_data@.len() == 0,
            r.rx_fifo@.len() == 0,
            r.controllers[0]@.id == 0 && r.controllers[0]@.connected == c1_connected,
            r.controllers[1]@.id == 1 && r.controllers[1]@.connected == c2_connected,
    {
        SIO0 {
            baud: 0,
            mode: 0,
            controllers: [Controller::new(0, c1_connected, ControllerType::Digital), Controller::new(1, c2_connected, ControllerType::Digital)],
            selected_device: None,
            irq: false,
            ctrl: 0,
            tx_data: VecDeque::with_capacity(2),
            rx_fifo: VecDeque::with_capacity(8),
            tx_idle: true,
            ack_asserted: false,
            start_timer_timestamp: 0,
        }
    }

    /// The device on connector `index` (0 or 1).
    pub fn get_controller_mut(&mut self, index: usize) -> (r: &mut Controller)
        requires
            index < 2,
        ensures
            *r == old(self).controllers[index as int],
            final(self).controllers@ == old(self).controllers@.update(index as int, *final(r)),
            final(self).tx_data == old(self).tx_data,
            final(self).rx_fifo == old(self).rx_fifo,
            final(self).selected_device == old(self).selected_device,
    {
        &mut self.controllers[index]
    }

    /// Whether both devices agree with their memory card selection and the FIFOs are in range.
    pub fn is_consistent(&self) -> (r: bool)
        ensures
            r == self.wf(),
    {
        self.controllers[0].is_exchange_ok() && self.controllers[1].is_exchange_ok()
            && self.tx_data.len() <= 2 && self.rx_fifo.len() <= 8
            && match self.selected_device {
                Some(d) => d < 2,
                None => true,
            }
    }

    /// SIO_MODE write: on SIO0 the stop bit length (bits 6-7) and bits 9-15 always read zero.
    pub fn write_mode(&mut self, value: u16)
        ensures
            *final(self) == (SIO0 { mode: value & 0x013Fu16, ..*old(self) }),
    {
        self.mode = value & 0x013F;
    }

    pub fn read_mode(&self) -> (r: u16)
        ensures
            r == self.mode,
    {
        self.mode
    }

    pub fn write_baud(&mut self, value: u16)
        ensures
            *final(self) == (SIO0 { baud: value, ..*old(self) }),
    {
        self.baud = value;
    }

    pub fn read_baud(&self) -> (r: u16)
        ensures
            r == self.baud,
    {
        self.baud
    }

    /// SIO_CTRL write: acknowledge (bit 4) and reset (bit 6) clear the interrupt and are not
    /// kept, bits 14-15 always read zero; DTR (bit 1) selects the device of bit 13, otherwise
    /// none is selected.
    pub fn write_ctrl(&mut self, value: u16)
        ensures
            final(self).ctrl == value & 0x3FAFu16,
            final(self).irq == (old(self).irq && (value & 0x10) == 0 && (value & 0x40) == 0),
            final(self).selected_device == (if (value & 0x02) != 0 { Some(((value >> 13u16) & 1) as u8) } else { None }),
            *final(self) == (SIO0 { ctrl: final(self).ctrl, irq: final(self).irq, selected_device: final(self).selected_device, ..*old(self) }),
    {
        self.ctrl = value & 0x3FAF;
        if (value & 0x10) != 0 {
            self.irq = false;
        }
        if (value & 0x40) != 0 {
            self.irq = false;
            self.selected_device = None;
        }
        if (value & 0x02) != 0 {
            let selected_device = ((value >> 13u16) & 1) as u8;
            self.selected_device = Some(selected_device);
        } else {
            self.selected_device = None;
        }
    }

    pub fn read_ctrl(&self) -> (r: u16)
        ensures
            r == self.ctrl,
    {
        self.ctrl
    }

    /// SIO_TX_DATA write: with a device selected and TX enabled, the byte is queued (at most
    /// two) and its transfer is scheduled on the clock.
    pub fn write_tx_data(&mut self, data: u8, clock: &mut Clock)
        requires
            old(clock).current_time + TX_RX_DATA_CYCLES <= u64::MAX,
        ensures
            ({
                let queued = old(self).selected_device is Some && (old(self).ctrl & 0x01) != 0 && old(self).tx_data@.len() < 2;
                &&& queued ==> *final(self) == (SIO0 { tx_data: final(self).tx_data, tx_idle: false, start_timer_timestamp: old(clock).current_time, ..*old(self) })
                    && final(self).tx_data@ == old(self).tx_data@.push(data)
                    && final(clock).events@ == old(clock).events@.push(ClockEvent {
                        event_type: EventType::SIO0, timestamp: (old(clock).current_time + TX_RX_DATA_CYCLES) as u64 })
                &&& !queued ==> *final(self) == *old(self) && final(clock).events@ == old(clock).events@
            }),
            final(clock).current_time == old(clock).current_time,
            final(clock).clock_config == old(clock).clock_config,
            old(self).wf() ==> final(self).wf(),
    {
        match self.selected_device {
            Some(_) => {
                if (self.ctrl & 0x01) != 0 && self.tx_data.len() < 2 {
                    self.tx_data.push_back(data);
                    self.reschedule(clock);
                }
            },
            None => {},
        }
    }

    /// Starts the transfer timer and schedules the end of the transfer.
    fn reschedule(&mut self, clock: &mut Clock)
        requires
            old(clock).current_time + TX_RX_DATA_CYCLES <= u64::MAX,
        ensures
            *final(self) == (SIO0 { tx_idle: false, start_timer_timestamp: old(clock).current_time, ..*old(self) }),
            final(clock).events@ == old(clock).events@.push(ClockEvent {
                event_type: EventType::SIO0, timestamp: (old(clock).current_time + TX_RX_DATA_CYCLES) as u64 }),
            final(clock).current_time == old(clock).current_time,
            final(clock).clock_config == old(clock).clock_config,
    {
        self.tx_idle = false;
        self.start_timer_timestamp = clock.current_time();
        clock.schedule(EventType::SIO0, TX_RX_DATA_CYCLES as u64);
    }

    /// Completes the transfer of the oldest queued byte: the selected device answers it (and
    /// may raise the DSR interrupt), the answer enters the RX FIFO (when not full), RXEN is
    /// cleared, and the next queued byte, if any, is scheduled.
    pub fn on_tx_transmitted(&mut self, clock: &mut Clock, interrupt_handler: &mut IrqHandler)
        requires
            old(self).wf(),
            old(self).tx_data@.len() > 0,
            old(clock).current_time + TX_RX_DATA_CYCLES <= u64::MAX,
        ensures
            final(clock).current_time == old(clock).current_time,
            final(clock).clock_config == old(clock).clock_config,
            final(self).tx_data@.len() != 0 ==> final(self).start_timer_timestamp == old(clock).current_time
                && final(clock).events@ == old(clock).events@.push(ClockEvent {
                    event_type: EventType::SIO0, timestamp: (old(clock).current_time + TX_RX_DATA_CYCLES) as u64 }),
            final(self).tx_data@.len() == 0 ==> final(self).start_timer_timestamp == old(self).start_timer_timestamp
                && final(clock).events@ == old(clock).events@,
            final(self).tx_data@ == old(self).tx_data@.drop_first(),
            final(self).ctrl == old(self).ctrl & !0x04u16,
            final(self).tx_idle == (final(self).tx_data@.len() == 0),
            old(self).selected_device is None ==> final(self).rx_fifo == old(self).rx_fifo
                && final(self).controllers == old(self).controllers && final(self).irq == old(self).irq,
            old(self).selected_device matches Some(d) ==> ({
                let (dev, answer) = exchange_spec(old(self).controllers[d as int]@, old(self).tx_data@[0]);
                &&& final(self).controllers[d as int]@ == dev
                &&& final(self).controllers[1 - d] == old(self).controllers[1 - d]
                &&& final(self).ack_asserted == (dev.state != ControllerState::Init)
                &&& final(self).irq == (old(self).irq || (final(self).ack_asserted && (old(self).ctrl & 0x1000) != 0))
                &&& final(self).rx_fifo@ == (if old(self).rx_fifo@.len() < 8 { old(self).rx_fifo@.push(answer) } else { old(self).rx_fifo@ })
            }),
            final(self).rx_fifo@.len() <= 8,
            final(self).selected_device == old(self).selected_device,
            final(self).wf(),
    {
        match self.selected_device {
            Some(dev) => {
                let tx = match self.tx_data.pop_front() {
                    Some(b) => b,
                    None => 0,
                };
                let d = dev as usize;
                proof {
                    crate::controllers::lemma_exchange_keeps_ok(self.controllers[d as int]@, tx);
                }
                let rx = self.controllers[d].read_byte_after_command(tx);
                self.ack_asserted = self.controllers[d].ack();
                if self.ack_asserted && (self.ctrl & 0x1000u16) != 0 {
                    self.irq = true;
                    interrupt_handler.set_irq(InterruptType::ControllerMemoryCard);
                }
                self.rx_data(rx);
            },
            None => {
                let _ = self.tx_data.pop_front();
            },
        }
        self.ctrl = self.ctrl & !0x04u16;
        self.tx_idle = self.tx_data.len() == 0;
        if !self.tx_idle {
            self.reschedule(clock);
        }
    }

    /// Stores a received byte; a byte received while the FIFO is full is dropped.
    fn rx_data(&mut self, data: u8)
        ensures
            final(self).rx_fifo@ == (if old(self).rx_fifo@.len() < 8 { old(self).rx_fifo@.push(data) } else { old(self).rx_fifo@ }),
            *final(self) == (SIO0 { rx_fifo: final(self).rx_fifo, ..*old(self) }),
    {
        if self.rx_fifo.len() < 8 {
            self.rx_fifo.push_back(data);
        }
    }

    /// Takes the oldest received byte (00h when none).
    pub fn read_rx_data(&mut self) -> (r: u8)
        ensures
            old(self).rx_fifo@.len() > 0 ==> r == old(self).rx_fifo@[0] && final(self).rx_fifo@ == old(self).rx_fifo@.drop_first(),
            old(self).rx_fifo@.len() == 0 ==> r == 0 && final(self).rx_fifo@ == old(self).rx_fifo@,
            *final(self) == (SIO0 { rx_fifo: final(self).rx_fifo, ..*old(self) }),
    {
        match self.rx_fifo.pop_front() {
            Some(b) => b,
            None => 0,
        }
    }

    /// The oldest received byte (00h when none), left in place.
    pub fn peek_rx_data(&self) -> (r: u8)
        ensures
            r == (if self.rx_fifo@.len() > 0 { self.rx_fifo@[0] } else { 0u8 }),
    {
        if self.rx_fifo.len() > 0 {
            self.rx_fifo[0]
        } else {
            0
        }
    }

    /// SIO_STAT at the clock's current time (which is not before the start of the last transfer).
    pub fn read_status(&self, clock: &Clock) -> (r: u32)
        requires
            clock.current_time >= self.start_timer_timestamp,
        ensures
            r == sio_status(*self, clock.current_time),
    {
        let now = clock.current_time();
        let a: u32 = if self.tx_data.len() < 2 { 0x01 } else { 0 };
        let b: u32 = if self.rx_fifo.len() != 0 { 0x02 } else { 0 };
        let c: u32 = if self.tx_idle { 0x04 } else { 0 };
        let d: u32 = if self.ack_asserted { 0x80 } else { 0 };
        let e: u32 = if self.irq { 0x200 } else { 0 };
        let timer = ((now - self.start_timer_timestamp) as u32) << 11u32;
        a | b | c | d | e | timer
    }
}

} // verus!
