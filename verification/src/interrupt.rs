use vstd::prelude::*;
use crate::cpu::cop0::Cop0;

verus! {

/// The interrupt lines of the console, in I_STAT bit order.
#[derive(Debug, Clone, Copy, PartialEq, Eq, Structural)]
pub enum InterruptType {
    VBlank,
    GPU,
    CDROM,
    DMA,
    TIMER0,
    TIMER1,
    TIMER2,
    ControllerMemoryCard,
    SIO,
    SPU,
    LightPen,
}

/// Bit position of an interrupt line in I_STAT.
pub open spec fn irq_bit_index(t: InterruptType) -> nat {
    match t {
        InterruptType::VBlank => 0,
        InterruptType::GPU => 1,
        InterruptType::CDROM => 2,
        InterruptType::DMA => 3,
        InterruptType::TIMER0 => 4,
        InterruptType::TIMER1 => 5,
        InterruptType::TIMER2 => 6,
        InterruptType::ControllerMemoryCard => 7,
        InterruptType::SIO => 8,
        InterruptType::SPU => 9,
        InterruptType::LightPen => 10,
    }
}

/// I_STAT mask of an interrupt line.
pub open spec fn irq_mask(t: InterruptType) -> u16 {
    (1u16 << (irq_bit_index(t) as u16)) as u16
}

impl InterruptType {
    /// The I_STAT mask of this line.
    pub fn mask(&self) -> (m: u16)
        ensures
            m == irq_mask(*self),
    {
        match self {
            InterruptType::VBlank => 1u16 << 0u16,
            InterruptType::GPU => 1u16 << 1u16,
            InterruptType::CDROM => 1u16 << 2u16,
            InterruptType::DMA => 1u16 << 3u16,
            InterruptType::TIMER0 => 1u16 << 4u16,
            InterruptType::TIMER1 => 1u16 << 5u16,
            InterruptType::TIMER2 => 1u16 << 6u16,
            InterruptType::ControllerMemoryCard => 1u16 << 7u16,
            InterruptType::SIO => 1u16 << 8u16,
            InterruptType::SPU => 1u16 << 9u16,
            InterruptType::LightPen => 1u16 << 10u16,
        }
    }
}

/// Something that takes hardware interrupt requests (the interrupt controller).
pub trait InterruptController: Sized {
    /// The pending interrupt lines (I_STAT).
    spec fn pending(&self) -> u16;

    /// Raises the interrupt lines whose bits are set in `irqs`.
    fn raise_hw_interrupts(&mut self, irqs: u16)
        ensures
            final(self).pending() == old(self).pending() | irqs,
    ;

    /// Raises one interrupt line.
    fn raise_interrupt(&mut self, irq_type: InterruptType)
        ensures
            final(self).pending() == old(self).pending() | irq_mask(irq_type),
    {
        let bit = irq_type.mask();
        self.raise_hw_interrupts(bit);
    }
}

/// The interrupt controller's registers: I_STAT (pending lines) and I_MASK. The hardware
/// interrupt line of COP0 is active exactly when a pending line is unmasked.
#[derive(Debug, Clone, Copy, PartialEq, Eq, Structural)]
pub struct InterruptState {
    pub pending: u16,
    pub mask: u16,
}

impl InterruptState {
    /// Nothing pending, everything masked.
    pub fn new() -> (r: Self)
        ensures
            r == (InterruptState { pending: 0, mask: 0 }),
    {
        InterruptState { pending: 0, mask: 0 }
    }

    /// Back to nothing pending and everything masked.
    pub fn reset(&mut self)
        ensures
            *final(self) == (InterruptState { pending: 0, mask: 0 }),
    {
        self.pending = 0;
        self.mask = 0;
    }

    /// Raises the lines set in `irqs`: I_STAT |= irqs.
    pub fn raise(&mut self, irqs: u16)
        ensures
            *final(self) == (InterruptState { pending: old(self).pending | irqs, ..*old(self) }),
    {
        self.pending = self.pending | irqs;
    }

    /// I_STAT write: the lines written as zero are acknowledged (I_STAT &= value).
    pub fn write_stat(&mut self, value: u16)
        ensures
            *final(self) == (InterruptState { pending: old(self).pending & value, ..*old(self) }),
    {
        self.pending = self.pending & value;
    }

    /// I_MASK write.
    pub fn write_mask(&mut self, value: u16)
        ensures
            *final(self) == (InterruptState { mask: value, ..*old(self) }),
    {
        self.mask = value;
    }

    pub fn read_stat(&self) -> (r: u16)
        ensures
            r == self.pending,
    {
        self.pending
    }

    pub fn read_mask(&self) -> (r: u16)
        ensures
            r == self.mask,
    {
        self.mask
    }

    /// Whether the hardware interrupt line of COP0 is active: a pending line is unmasked.
    pub fn line_active(&self) -> (r: bool)
        ensures
            r == (self.pending & self.mask != 0),
    {
        (self.pending & self.mask) != 0
    }

    /// Sets the hardware interrupt line of COP0 (CAUSE bit 10) to what the registers say.
    pub fn update_cop0(&self, cop0: &mut Cop0)
        ensures
            final(cop0).regs@ == old(cop0).regs@.update(13, if self.pending & self.mask != 0 {
                old(cop0).regs@[13] | (1u32 << 10u32) } else { old(cop0).regs@[13] & !(1u32 << 10u32) }),
            final(cop0).pending_int_on_next_opcode == old(cop0).pending_int_on_next_opcode,
    {
        if self.line_active() {
            cop0.set_hw_interrupt();
        } else {
            cop0.clear_hw_interrupt();
        }
    }
}

impl InterruptController for InterruptState {
    open spec fn pending(&self) -> u16 {
        self.pending
    }

    fn raise_hw_interrupts(&mut self, irqs: u16) {
        self.raise(irqs);
    }
}

/// Interrupt requests collected during a step, handed to the controller afterwards.
#[derive(Debug)]
pub struct IrqHandler {
    pub irqs: u16,
    pub changed: bool,
}

impl IrqHandler {
    pub fn new() -> (r: Self)
        ensures
            r.irqs == 0,
            !r.changed,
    {
        IrqHandler { irqs: 0, changed: false }
    }

    /// Requests an interrupt line (a request equal to the lines already pending is dropped).
    pub fn set_irq(&mut self, irq_type: InterruptType)
        ensures
            *final(self) == set_irq_spec(*old(self), irq_type),
            (old(self).irqs ^ irq_mask(irq_type)) != 0 ==> final(self).irqs == old(self).irqs | irq_mask(irq_type) && final(self).changed,
            (old(self).irqs ^ irq_mask(irq_type)) == 0 ==> *final(self) == *old(self),
    {
        let bit = irq_type.mask();
        if (self.irqs ^ bit) != 0 {
            self.changed = true;
            self.irqs = self.irqs | bit;
        }
    }

    /// Hands the collected requests to the controller, once, and clears them.
    pub fn forward_to_controller<T: InterruptController>(&mut self, controller: &mut T)
        ensures
            old(self).changed ==> final(self).irqs == 0 && !final(self).changed
                && final(controller).pending() == old(controller).pending() | old(self).irqs,
            !old(self).changed ==> *final(self) == *old(self) && *final(controller) == *old(controller),
    {
        if self.changed {
            self.changed = false;
            controller.raise_hw_interrupts(self.irqs);
            self.irqs = 0;
        }
    }
}

/// The handler after a request of line `t`.
pub open spec fn set_irq_spec(h: IrqHandler, t: InterruptType) -> IrqHandler {
    if (h.irqs ^ irq_mask(t)) != 0 {
        IrqHandler { irqs: h.irqs | irq_mask(t), changed: true }
    } else {
        h
    }
}

/// The handler after requests of the lines of `ts`, in turn.
pub open spec fn set_irqs_spec(h: IrqHandler, ts: Seq<InterruptType>) -> IrqHandler
    decreases ts.len(),
{
    if ts.len() == 0 {
        h
    } else {
        set_irq_spec(set_irqs_spec(h, ts.drop_last()), ts.last())
    }
}

/// The I_STAT bits of the lines of `ts`.
pub open spec fn irqs_or(ts: Seq<InterruptType>) -> u16
    decreases ts.len(),
{
    if ts.len() == 0 {
        0
    } else {
        irqs_or(ts.drop_last()) | irq_mask(ts.last())
    }
}

/// Requests of lines `t1 .. tn` on a handler with nothing collected (new, or just forwarded)
/// collect the OR of their I_STAT bits, and mark the handler changed exactly when there was a
/// request; one `forward_to_controller` then raises exactly those lines, once.
pub proof fn lemma_set_irqs_collect(ts: Seq<InterruptType>)
    ensures
        set_irqs_spec(IrqHandler { irqs: 0, changed: false }, ts).irqs == irqs_or(ts),
        set_irqs_spec(IrqHandler { irqs: 0, changed: false }, ts).changed == (ts.len() > 0),
    decreases ts.len(),
{
    if ts.len() > 0 {
        let p = ts.drop_last();
        lemma_set_irqs_collect(p);
        let h = set_irqs_spec(IrqHandler { irqs: 0, changed: false }, p);
        let m = irq_mask(ts.last());
        crate::memory::bus::lemma_bus_bits(0, 0, h.irqs, m, irq_bit_index(ts.last()) as u16, 0, 0, 0, 0, 0, 0, 0, 0, 0, 0);
        crate::memory::bus::lemma_bus_bits(0, 0, 0u16, m, irq_bit_index(ts.last()) as u16, 0, 0, 0, 0, 0, 0, 0, 0, 0, 0);
        if (h.irqs ^ m) == 0 {
            assert(h.irqs == m);
            if p.len() == 0 {
                assert(h.irqs == 0);
                assert(m != 0);
            }
        }
    }
}

} // verus!
