use vstd::prelude::*;
use crate::clock::{Clock, ClockEvent, EventType, convert_cycles};
use crate::interrupt::{IrqHandler, irq_mask, InterruptType};
use crate::gpu::{GPU, Gp0Op, Gp0State, DrawingArea, ReadyBits, VRamCopyConfig, draw_mode_of, texture_window_of, sext11};
use crate::gpu::vram::{gp0_operation, cpu_to_vram_effect, vram_to_cpu_effect, nop_effect, flush_effect, quick_fill_effect,
    vram_copy_effect};
use crate::gpu::draw_polygon::{PolygonDraw, polygon_ready, polygon_effect};
use crate::gpu::draw_line::{line_ready, line_effect};
use crate::gpu::draw_rectangle::{rect_ready, rect_effect};

verus! {

/// What operation `op` needs of the GPU it runs on.
pub open spec fn op_ready(g: GPU, op: Gp0Op) -> bool {
    match op {
        Gp0Op::PolygonRendering => polygon_ready(g),
        Gp0Op::LineRendering => line_ready(g),
        Gp0Op::RectangleRendering => rect_ready(g),
        Gp0Op::VramVramCopy => g.gp0state matches Gp0State::WaitingCommandParameters(_, Some(_)) ==> ({
            let q = g.cmd_fifo.view();
            q.len() >= 4 && (q[3] as u16) != 0 && ((q[3] >> 16u32) as u16) != 0
        }),
        Gp0Op::CpuToVramCopy | Gp0Op::VramToCpuCopy | Gp0Op::QuickVramFill =>
            g.gp0state matches Gp0State::WaitingCommandParameters(_, Some(_)) ==> g.cmd_fifo.view().len() >= 3,
        _ => true,
    }
}

/// Operation `op` run with word `cmd` takes the GPU from `o` to `f` and the interrupt requests
/// from `io` to `ifn`, taking `cycles` GPU cycles and handing back `draw` (a polygon to
/// rasterise).
#[verifier::opaque]
pub open spec fn op_effect(op: Gp0Op, o: GPU, f: GPU, cmd: u32, io: IrqHandler, ifn: IrqHandler, cycles: usize,
    draw: Option<PolygonDraw>) -> bool {
    if op == Gp0Op::PolygonRendering {
        polygon_effect(o, f, cmd, draw) && cycles == 0 && ifn == io
    } else {
        &&& draw is None
        &&& match op {
            Gp0Op::LineRendering => line_effect(o, f, cmd) && cycles == 0 && ifn == io,
            Gp0Op::RectangleRendering => rect_effect(o, f, cmd) && cycles == 0 && ifn == io,
            Gp0Op::VramVramCopy => vram_copy_effect(o, f, cycles) && ifn == io,
            Gp0Op::CpuToVramCopy => cpu_to_vram_effect(o, f, cmd, cycles) && ifn == io,
            Gp0Op::VramToCpuCopy => vram_to_cpu_effect(o, f, cycles) && ifn == io,
            Gp0Op::Nop => nop_effect(o, f, cycles) && ifn == io,
            Gp0Op::FlushTextureCache => flush_effect(o, f, cycles) && ifn == io,
            Gp0Op::QuickVramFill => quick_fill_effect(o, f, cycles) && ifn == io,
            Gp0Op::DrawModeSettings => f == draw_mode_of(o, cmd) && cycles == 0 && ifn == io,
            Gp0Op::TextureWindowSettings => f == texture_window_of(o, cmd) && cycles == 0 && ifn == io,
            Gp0Op::DrawingAreaTopLeft => f == (GPU { drawing_area: DrawingArea { area_left: (cmd & 0x3FF) as u16,
                area_top: ((cmd >> 10u32) & 0x1FF) as u16, ..o.drawing_area }, ..o }) && cycles == 0 && ifn == io,
            Gp0Op::DrawingAreaBottomRight => f == (GPU { drawing_area: DrawingArea { area_right: (cmd & 0x3FF) as u16,
                area_bottom: ((cmd >> 10u32) & 0x1FF) as u16, ..o.drawing_area }, ..o }) && cycles == 0 && ifn == io,
            Gp0Op::DrawingOffset => f == (GPU { drawing_area: DrawingArea { x_offset: sext11(cmd), y_offset: sext11(cmd >> 11u32),
                ..o.drawing_area }, ..o }) && cycles == 0 && ifn == io,
            Gp0Op::MaskBitSettings => f == (GPU { force_set_mask_bit: (cmd & 1) != 0, preserve_masked_pixels: (cmd & 2) != 0, ..o })
                && cycles == 0 && ifn == io,
            Gp0Op::SetIrq => f == (GPU { irq: true, ..o }) && cycles == 0 && if (io.irqs ^ irq_mask(InterruptType::GPU)) != 0 {
                ifn.irqs == io.irqs | irq_mask(InterruptType::GPU) && ifn.changed
            } else {
                ifn == io
            },
            _ => false,
        }
    }
}

/// The command FIFO after a word is stored (a full FIFO drops it).
pub open spec fn fifo_stored(q: Seq<u32>, w: u32) -> Seq<u32> {
    if q.len() < 16 { q.push(w) } else { q }
}

/// `m` is `g` with word `w` stored in the command FIFO.
pub open spec fn word_stored(g: GPU, m: GPU, w: u32) -> bool {
    m.cmd_fifo.view() == fifo_stored(g.cmd_fifo.view(), w) && m.cmd_fifo.wf() && m == (GPU { cmd_fifo: m.cmd_fifo, ..g })
}

/// A poly-line ends on a word with 5 in bits 12-15 and 28-31.
pub open spec fn polyline_end(w: u32) -> bool {
    (w & 0xF000_F000) == 0x5000_5000
}

/// What the GP0 port needs to take word `cmd`: drawing offsets in their 11-bit range, a
/// parameter count already known when parameters come, and the operation the word runs ready
/// for it (with the word stored); a transfer not past its last line.
pub open spec fn gp0_word_ready(g: GPU, cmd: u32) -> bool {
    &&& -1024 <= g.drawing_area.x_offset <= 1023
    &&& -1024 <= g.drawing_area.y_offset <= 1023
    &&& g.ready_bits.ready_to_receive_cmd_word ==> match g.gp0state {
        Gp0State::WaitingCommand => true,
        Gp0State::WaitingCommandParameters(op, None) => false,
        Gp0State::WaitingCommandParameters(op, Some(pars)) => pars <= 1 ==> forall|m: GPU| #[trigger] word_stored(g, m, cmd)
            ==> op_ready(m, op),
        Gp0State::WaitingPolyline(op, n, _, _, _, _) => !polyline_end(cmd) && n <= 1 ==> forall|m: GPU| #[trigger] word_stored(g, m, cmd)
            ==> op_ready(m, op),
        Gp0State::VRamCopy(op, c) => c.counter_y < c.height && op_ready(g, op),
    }
}

/// The command-completion step after an operation took `cycles` GPU cycles: none for no cycles;
/// otherwise the port is busy and the completion event is due after the cycles in CPU time.
pub open spec fn completion(f1: GPU, f: GPU, c0: Clock, c1: Clock, cycles: usize) -> bool {
    &&& c1.current_time == c0.current_time
    &&& if cycles == 0 {
            f == f1 && c1.events@ == c0.events@
        } else {
            &&& f == (GPU { ready_bits: ReadyBits { ready_to_receive_cmd_word: false, ..f1.ready_bits }, ..f1 })
            &&& c1.events@ == c0.events@.push(ClockEvent { event_type: EventType::GPUCommandCompleted,
                    timestamp: (c0.current_time + convert_cycles(cycles as u64, c0.clock_config.gpu_hz, c0.clock_config.cpu_hz)) as u64 })
        }
}

/// The last parameter of operation `op` arrived in `m`: the operation runs, then the completion
/// step (a polygon's completion is left to whoever rasterises it).
pub open spec fn op_finished(op: Gp0Op, m: GPU, f: GPU, cmd: u32, io: IrqHandler, ifn: IrqHandler, c0: Clock, c1: Clock,
    draw: Option<PolygonDraw>) -> bool {
    exists|f1: GPU, cycles: usize| #[trigger] op_effect(op, m, f1, cmd, io, ifn, cycles, draw)
        && if op == Gp0Op::PolygonRendering { f == f1 && c1.events@ == c0.events@ && c1.current_time == c0.current_time }
           else { completion(f1, f, c0, c1, cycles) }
}

/// The transfer position after one word (see `VRamCopyConfig::next`).
pub open spec fn copy_next(c: VRamCopyConfig) -> Option<VRamCopyConfig> {
    let cx = c.counter_x.wrapping_add(2);
    if cx >= c.width {
        if c.counter_y + 1 == c.height { None } else { Some(VRamCopyConfig { counter_x: 0, counter_y: (c.counter_y + 1) as u16, ..c }) }
    } else {
        Some(VRamCopyConfig { counter_x: cx, ..c })
    }
}

/// `g` waiting for the parameters of operation `op`, their number not known yet.
pub open spec fn awaiting_params(g: GPU, op: Gp0Op) -> GPU {
    GPU { gp0state: Gp0State::WaitingCommandParameters(op, None), ..g }
}

/// A word on a port waiting for a command: an unknown command is ignored; a command with
/// parameters is stored in the command FIFO and its operation learns how many it takes; one
/// without runs at once.
pub open spec fn command_step(o: GPU, f: GPU, cmd: u32, io: IrqHandler, ifn: IrqHandler, draw: Option<PolygonDraw>) -> bool {
    match gp0_operation(cmd) {
        None => f == o && ifn == io && draw is None,
        Some((needs_params, op)) => if needs_params {
            exists|m: GPU, cycles: usize|
                #![trigger word_stored(o, m, cmd), op_effect(op, awaiting_params(m, op), f, cmd, io, ifn, cycles, draw)]
                word_stored(o, m, cmd) && op_effect(op, awaiting_params(m, op), f, cmd, io, ifn, cycles, draw)
        } else {
            exists|cycles: usize| #[trigger] op_effect(op, o, f, cmd, io, ifn, cycles, draw)
        },
    }
}

/// A parameter of operation `op` with `pars` still to come: it is stored; the last one runs
/// the operation (see `op_finished`).
pub open spec fn parameter_step(o: GPU, f: GPU, op: Gp0Op, pars: usize, cmd: u32, io: IrqHandler, ifn: IrqHandler,
    c0: Clock, c1: Clock, draw: Option<PolygonDraw>) -> bool {
    exists|m: GPU| #[trigger] word_stored(o, m, cmd) && if pars > 1 {
        f == (GPU { gp0state: Gp0State::WaitingCommandParameters(op, Some((pars - 1) as usize)), ..m })
            && ifn == io && c1 == c0 && draw is None
    } else {
        op_finished(op, m, f, cmd, io, ifn, c0, c1, draw)
    }
}

/// A word of a poly-line with `n` words still to come for the next vertex: the end marker
/// ends the poly-line; otherwise the word is stored and the last one of a vertex draws the
/// next segment (see `op_finished`).
pub open spec fn polyline_step(o: GPU, f: GPU, op: Gp0Op, n: usize, cmd: u32, io: IrqHandler, ifn: IrqHandler,
    c0: Clock, c1: Clock, draw: Option<PolygonDraw>) -> bool {
    if polyline_end(cmd) {
        f == (GPU { gp0state: Gp0State::WaitingCommand, ..o }) && ifn == io && c1 == c0 && draw is None
    } else {
        exists|m: GPU| #[trigger] word_stored(o, m, cmd) && if n > 1 {
            f == (GPU { gp0state: match o.gp0state {
                Gp0State::WaitingPolyline(op2, _, v, c, shaded, semi) => Gp0State::WaitingPolyline(op2, (n - 1) as usize, v, c, shaded, semi),
                _ => o.gp0state,
            }, ..m }) && ifn == io && c1 == c0 && draw is None
        } else {
            op_finished(op, m, f, cmd, io, ifn, c0, c1, draw)
        }
    }
}

/// A data word of a transfer: the operation takes it and the transfer moves on one word (see
/// `copy_next`), ending after its last line.
pub open spec fn copy_step(o: GPU, f: GPU, op: Gp0Op, config: VRamCopyConfig, cmd: u32, io: IrqHandler, ifn: IrqHandler,
    draw: Option<PolygonDraw>) -> bool {
    exists|f1: GPU, cycles: usize| #[trigger] op_effect(op, o, f1, cmd, io, ifn, cycles, draw)
        && f == (GPU { gp0state: match copy_next(config) {
            Some(n) => Gp0State::VRamCopy(op, n),
            None => Gp0State::WaitingCommand,
        }, ..f1 })
}

/// What a GP0 word does on a port ready for it (see `GPU::gp0_cmd`).
pub open spec fn gp0_step(o: GPU, f: GPU, cmd: u32, io: IrqHandler, ifn: IrqHandler, c0: Clock, c1: Clock,
    draw: Option<PolygonDraw>) -> bool {
    match o.gp0state {
        Gp0State::WaitingCommand => c1 == c0 && command_step(o, f, cmd, io, ifn, draw),
        Gp0State::WaitingCommandParameters(op, pars) => parameter_step(o, f, op, pars.unwrap(), cmd, io, ifn, c0, c1, draw),
        Gp0State::WaitingPolyline(op, n, _, _, _, _) => polyline_step(o, f, op, n, cmd, io, ifn, c0, c1, draw),
        Gp0State::VRamCopy(op, config) => c1 == c0 && copy_step(o, f, op, config, cmd, io, ifn, draw),
    }
}

/// An operation takes fewer than 2^32 GPU cycles.
proof fn lemma_op_cycles(op: Gp0Op, o: GPU, f: GPU, cmd: u32, io: IrqHandler, ifn: IrqHandler, cycles: usize,
    draw: Option<PolygonDraw>)
    requires
        op_effect(op, o, f, cmd, io, ifn, cycles, draw),
    ensures
        cycles <= 0xFFFF_FFFF,
{
    reveal(op_effect);
    if op == Gp0Op::QuickVramFill {
        if o.gp0state matches Gp0State::WaitingCommandParameters(_, Some(_)) {
            let q = o.cmd_fifo.view();
            let w = ((((q[2] as u16) & 0x3FF) + 0xF) as u16) & !0xFu16;
            let h = ((q[2] >> 16u32) as u16) & 0x1FF;
            assert(w * h <= 0xFFFF_FFFF) by (nonlinear_arith)
                requires w <= 0xFFFF, h <= 0xFFFF;
        }
    } else if op == Gp0Op::VramVramCopy {
        if o.gp0state matches Gp0State::WaitingCommandParameters(_, Some(_)) {
            let q = o.cmd_fifo.view();
            let w = ((((q[3] as u16) - 1) as u16) & 0x3FF) + 1;
            let h = (((((q[3] >> 16u32) as u16) - 1) as u16) & 0x1FF) + 1;
            assert(30 + (w * h) / 2 <= 0xFFFF_FFFF) by (nonlinear_arith)
                requires 0 <= w <= 0x1_0000, 0 <= h <= 0x1_0000;
        }
    }
}

impl GPU {
    /// Runs operation `op` with word `cmd`: the GPU cycles it takes and the polygon it hands
    /// back to be rasterised.
    fn run_op(&mut self, op: Gp0Op, cmd: u32, irq: &mut IrqHandler) -> (r: (usize, Option<PolygonDraw>))
        requires
            old(self).wf(),
            op_ready(*old(self), op),
        ensures
            final(self).wf(),
            op_effect(op, *old(self), *final(self), cmd, *old(irq), *final(irq), r.0, r.1),
    {
        reveal(op_effect);
        match op {
            Gp0Op::PolygonRendering => (0, self.operation_polygon_rendering(cmd)),
            Gp0Op::LineRendering => {
                self.operation_line_rendering(cmd);
                (0, None)
            },
            Gp0Op::RectangleRendering => {
                self.operation_rectangle_rendering(cmd);
                (0, None)
            },
            Gp0Op::VramVramCopy => (self.operation_vram_vram_copy(), None),
            Gp0Op::CpuToVramCopy => (self.operation_cpu_to_vram_copy(cmd), None),
            Gp0Op::VramToCpuCopy => (self.operation_vram_to_cpu_copy(), None),
            Gp0Op::Nop => (self.operation_nop(), None),
            Gp0Op::FlushTextureCache => (self.operation_flush_texture_cache(), None),
            Gp0Op::QuickVramFill => (self.operation_quick_vram_fill(), None),
            Gp0Op::DrawModeSettings => (self.gp0_draw_mode_settings(cmd), None),
            Gp0Op::TextureWindowSettings => (self.gp0_texture_window_settings(cmd), None),
            Gp0Op::DrawingAreaTopLeft => (self.gp0_set_drawing_area_top_left(cmd), None),
            Gp0Op::DrawingAreaBottomRight => (self.gp0_set_drawing_area_bottom_right(cmd), None),
            Gp0Op::DrawingOffset => (self.gp0_set_drawing_offset(cmd), None),
            Gp0Op::MaskBitSettings => (self.gp0_mask_bit_settings(cmd), None),
            Gp0Op::SetIrq => (self.gp0_set_irq(irq), None),
        }
    }

    /// One word on the GP0 port. While a command runs the word is queued (`true` when the
    /// queue is full and the word is lost); otherwise it starts a command (stored in the command
    /// FIFO when it takes parameters; an unknown one is ignored), is a parameter (the last one
    /// runs the command and schedules its completion), ends or extends a poly-line, or is data of
    /// a CPU-to-VRAM transfer. A polygon is handed back to be rasterised.
    pub fn gp0_cmd(&mut self, cmd: u32, clock: &mut Clock, irq: &mut IrqHandler) -> (r: (bool, Option<PolygonDraw>))
        requires
            old(self).wf(),
            gp0_word_ready(*old(self), cmd),
            old(clock).clock_config.gpu_hz > 0,
            old(clock).current_time + convert_cycles(0xFFFF_FFFFu64, old(clock).clock_config.gpu_hz,
                old(clock).clock_config.cpu_hz) <= u64::MAX,
        ensures
            final(self).wf(),
            !old(self).ready_bits.ready_to_receive_cmd_word ==> {
                &&& r == (old(self).gp0_fifo.view().len() == 16, None::<PolygonDraw>)
                &&& final(self).gp0_fifo.view() == fifo_stored(old(self).gp0_fifo.view(), cmd)
                &&& *final(self) == (GPU { gp0_fifo: final(self).gp0_fifo, ..*old(self) })
                &&& *final(clock) == *old(clock) && *final(irq) == *old(irq)
            },
            old(self).ready_bits.ready_to_receive_cmd_word ==> !r.0
                && gp0_step(*old(self), *final(self), cmd, *old(irq), *final(irq), *old(clock), *final(clock), r.1),
    {
        if !self.ready_bits.ready_to_receive_cmd_word {
            let stored = self.gp0_fifo.push(cmd);
            return (!stored, None);
        }
        let d = match self.gp0state {
            Gp0State::WaitingCommand => self.gp0_command_word(cmd, irq),
            Gp0State::WaitingCommandParameters(op, pars) => {
                let n = match pars {
                    Some(n) => n,
                    None => 0,
                };
                self.gp0_parameter_word(op, n, cmd, clock, irq)
            },
            Gp0State::WaitingPolyline(op, arg_size, _, _, _, _) => self.gp0_polyline_word(op, arg_size, cmd, clock, irq),
            Gp0State::VRamCopy(op, config) => self.gp0_copy_word(op, config, cmd, irq),
        };
        (false, d)
    }

    /// A word on a port waiting for a command (see `command_step`).
    fn gp0_command_word(&mut self, cmd: u32, irq: &mut IrqHandler) -> (d: Option<PolygonDraw>)
        requires
            old(self).wf(),
            old(self).gp0state == Gp0State::WaitingCommand,
            -1024 <= old(self).drawing_area.x_offset <= 1023,
            -1024 <= old(self).drawing_area.y_offset <= 1023,
        ensures
            final(self).wf(),
            command_step(*old(self), *final(self), cmd, *old(irq), *final(irq), d),
    {
        match GPU::cmd_to_operation(cmd) {
            Some((needs_params, op)) => {
                if needs_params {
                    let _ = self.cmd_fifo.push(cmd);
                    let ghost m = *self;
                    assert(word_stored(*old(self), m, cmd));
                    self.gp0state = Gp0State::WaitingCommandParameters(op, None);
                    assert(*self == awaiting_params(m, op));
                    let (c, d) = self.run_op(op, cmd, irq);
                    assert(op_effect(op, awaiting_params(m, op), *self, cmd, *old(irq), *irq, c, d));
                    return d;
                }
                let (c, d) = self.run_op(op, cmd, irq);
                assert(op_effect(op, *old(self), *self, cmd, *old(irq), *irq, c, d));
                d
            },
            None => None,
        }
    }

    /// A parameter word (see `parameter_step`).
    fn gp0_parameter_word(&mut self, op: Gp0Op, pars: usize, cmd: u32, clock: &mut Clock, irq: &mut IrqHandler)
        -> (d: Option<PolygonDraw>)
        requires
            old(self).wf(),
            old(self).gp0state == Gp0State::WaitingCommandParameters(op, Some(pars)),
            pars <= 1 ==> forall|m: GPU| #[trigger] word_stored(*old(self), m, cmd) ==> op_ready(m, op),
            old(clock).clock_config.gpu_hz > 0,
            old(clock).current_time + convert_cycles(0xFFFF_FFFFu64, old(clock).clock_config.gpu_hz,
                old(clock).clock_config.cpu_hz) <= u64::MAX,
        ensures
            final(self).wf(),
            parameter_step(*old(self), *final(self), op, pars, cmd, *old(irq), *final(irq), *old(clock), *final(clock), d),
    {
        let _ = self.cmd_fifo.push(cmd);
        let ghost m = *self;
        assert(word_stored(*old(self), m, cmd));
        if pars > 1 {
            self.gp0state = Gp0State::WaitingCommandParameters(op, Some(pars - 1));
            return None;
        }
        let (cycles, d) = self.run_op(op, cmd, irq);
        let ghost f1 = *self;
        proof { lemma_op_cycles(op, m, f1, cmd, *old(irq), *irq, cycles, d); }
        if !matches!(op, Gp0Op::PolygonRendering) {
            self.finish_command(cycles, clock);
        }
        assert(op_effect(op, m, f1, cmd, *old(irq), *irq, cycles, d));
        d
    }

    /// A poly-line word (see `polyline_step`).
    fn gp0_polyline_word(&mut self, op: Gp0Op, n: usize, cmd: u32, clock: &mut Clock, irq: &mut IrqHandler)
        -> (d: Option<PolygonDraw>)
        requires
            old(self).wf(),
            old(self).gp0state matches Gp0State::WaitingPolyline(op2, n2, _, _, _, _) && op2 == op && n2 == n,
            !polyline_end(cmd) && n <= 1 ==> forall|m: GPU| #[trigger] word_stored(*old(self), m, cmd) ==> op_ready(m, op),
            old(clock).clock_config.gpu_hz > 0,
            old(clock).current_time + convert_cycles(0xFFFF_FFFFu64, old(clock).clock_config.gpu_hz,
                old(clock).clock_config.cpu_hz) <= u64::MAX,
        ensures
            final(self).wf(),
            polyline_step(*old(self), *final(self), op, n, cmd, *old(irq), *final(irq), *old(clock), *final(clock), d),
    {
        if (cmd & 0xF000_F000) == 0x5000_5000 {
            self.gp0state = Gp0State::WaitingCommand;
            return None;
        }
        let _ = self.cmd_fifo.push(cmd);
        let ghost m = *self;
        assert(word_stored(*old(self), m, cmd));
        if n > 1 {
            match self.gp0state {
                Gp0State::WaitingPolyline(op2, _, v, c, shaded, semi) => {
                    self.gp0state = Gp0State::WaitingPolyline(op2, n - 1, v, c, shaded, semi);
                },
                _ => {},
            }
            return None;
        }
        let (cycles, d) = self.run_op(op, cmd, irq);
        let ghost f1 = *self;
        proof { lemma_op_cycles(op, m, f1, cmd, *old(irq), *irq, cycles, d); }
        if !matches!(op, Gp0Op::PolygonRendering) {
            self.finish_command(cycles, clock);
        }
        assert(op_effect(op, m, f1, cmd, *old(irq), *irq, cycles, d));
        d
    }

    /// A data word of a transfer (see `copy_step`).
    fn gp0_copy_word(&mut self, op: Gp0Op, config: VRamCopyConfig, cmd: u32, irq: &mut IrqHandler) -> (d: Option<PolygonDraw>)
        requires
            old(self).wf(),
            old(self).gp0state == Gp0State::VRamCopy(op, config),
            config.counter_y < config.height,
            op_ready(*old(self), op),
        ensures
            final(self).wf(),
            copy_step(*old(self), *final(self), op, config, cmd, *old(irq), *final(irq), d),
    {
        let (cycles, d) = self.run_op(op, cmd, irq);
        let ghost f1 = *self;
        self.gp0state = match config.next() {
            Some(next) => Gp0State::VRamCopy(op, next),
            None => Gp0State::WaitingCommand,
        };
        assert(op_effect(op, *old(self), f1, cmd, *old(irq), *irq, cycles, d));
        d
    }

    /// The completion step of a command that took `cycles` GPU cycles (see `completion`).
    fn finish_command(&mut self, cycles: usize, clock: &mut Clock)
        requires
            old(self).wf(),
            old(clock).clock_config.gpu_hz > 0,
            old(clock).current_time + convert_cycles(0xFFFF_FFFFu64, old(clock).clock_config.gpu_hz,
                old(clock).clock_config.cpu_hz) <= u64::MAX,
            cycles <= 0xFFFF_FFFF,
        ensures
            final(self).wf(),
            completion(*old(self), *final(self), *old(clock), *final(clock), cycles),
    {
        proof {
            let hz = clock.clock_config.cpu_hz as int;
            let g = clock.clock_config.gpu_hz as int;
            assert(cycles as int * hz <= 0xFFFF_FFFF * hz) by (nonlinear_arith)
                requires cycles <= 0xFFFF_FFFF, hz >= 0;
            vstd::arithmetic::div_mod::lemma_div_is_ordered(cycles as int * hz, 0xFFFF_FFFF * hz, g);
        }
        self.schedule_command_completion(cycles, clock);
    }
}

} // verus!
