use vstd::prelude::*;
use crate::memory::{Memory, MemoryMap, MemorySection, MemorySegment, ReadMemoryAccess, WriteMemoryAccess, ArrayMemory,
    map_of, get_memory_map, le_value, le_store, mem_read, mem_write, lemma_le_value_bounds};
use crate::memory::io::{IoTarget, io_target, io_target_of};
use crate::cpu::cop0::Cop0;
use crate::interrupt::{InterruptState, InterruptController, IrqHandler};
use crate::dma::{DMAController, DMAChannel, SyncMode, dicr_value, dpcr_enabled, prio_list, reload_counts, sync_mode_of};
use crate::gpu::{GPU, Gp0Op, Gp0State, Vertex, Texture, TextureDepth, VRAM_SIZE, gpu_status, gp1_result, sext11};
use crate::gpu::draw_rectangle::{RectEnv, RectParams, rect_params, rect_rows, rect_row, rect_pixel, rect_words, rect_env, rect_ready,
    tex_coord, texel_word, texel_index, texel_in_vram, clut_entry_offset};
use crate::gpu::gp0::{gp0_word_ready, gp0_step, fifo_stored, word_stored, op_ready, polyline_end};
use crate::gpu::draw_polygon::{PolygonDraw, vertices_complete, vertex_words};
use crate::sio::{SIO0, sio_status, TX_RX_DATA_CYCLES};
use crate::clock::{Clock, ClockConfig, ClockEvent, EventType, convert_cycles};

verus! {

/// Bytes of main RAM (mirrored over the first 8MB of the address space).
pub const MAIN_RAM_LEN: usize = 2097152;
/// Bytes of the data scratchpad.
pub const SCRATCHPAD_LEN: usize = 1024;
/// Bytes of the SPU register area (1F801C00h-1F801E7Fh).
pub const SPU_REGS_LEN: usize = 640;
/// Words of the memory control registers (1F801000h-1F801063h).
pub const IO_PORTS_LEN: usize = 25;
/// CPU cycles of an I/O register access.
pub const IO_REG_ACCESS_CYCLES: usize = 5;
/// CPU cycles of a main RAM access.
pub const RAM_ACCESS_CYCLES: usize = 5;
/// CPU cycles of a scratchpad access.
pub const SCRATCHPAD_ACCESS_CYCLES: usize = 1;

/// The system bus: main RAM, scratchpad, BIOS ROM, the I/O registers of the devices behind it
/// (interrupt controller, DMA, GPU, SIO0, SPU area), the cache control register, and the COP0
/// whose mode bits decide what the CPU may reach. Polygons drawn through the GP0 port are
/// queued in `polygons` for the rasteriser.
pub struct Bus {
    pub main_ram: Vec<u8>,
    pub scratchpad: Vec<u8>,
    pub bios: ArrayMemory,
    pub spu_regs: ArrayMemory,
    /// The memory control registers, kept as written.
    pub io_ports: Vec<u32>,
    /// Counter, mode and target of the three root counters, kept as written.
    pub timer_regs: Vec<u32>,
    pub cop0: Cop0,
    pub interrupt: InterruptState,
    pub dma: DMAController,
    pub gpu: GPU,
    pub sio0: SIO0,
    pub clock: Clock,
    pub cache_control_reg: u32,
    pub polygons: Vec<PolygonDraw>,
}

/// `v` cut to an access of `size` bits.
pub open spec fn fit(v: u32, size: usize) -> u32 {
    if size == 8 { v & 0xFF } else if size == 16 { v & 0xFFFF } else { v }
}

/// The bit facts the library relies on: masks bound their results, a KUSEG address has its top
/// bit clear, the device select bit of a SIO0 control word is 0 or 1; a request bit is never
/// zero, and OR-ing in bits already there changes nothing; a word's sign as a 32-bit signed
/// number is its top bit; a jump target is the top four bits of the PC and the 26-bit index
/// times four.
pub(crate) proof fn lemma_bus_bits(v: u32, w: u16, x: u16, m: u16, k: u16, c: u32, mm: u8, oo: u8, u: u32, p: u32, j: u32,
    h: u32, a: i32, y: u32, z: u64)
    by (bit_vector)
    ensures
        ((z >> 32u64) as u32) as u64 * 0x1_0000_0000u64 + (z as u32) as u64 == z,
        (((h & 0xFFFFu32) as i16) as u32) == (if (h & 0xFFFFu32) < 0x8000u32 { h & 0xFFFFu32 } else { ((h & 0xFFFFu32) + 0xFFFF_0000u32) as u32 }),
        (h & 0xFFFFu32) == h % 0x10000u32,
        (((h as u8) as i8) as i32 as u32) == (if (h & 0xFFu32) < 0x80u32 { h & 0xFFu32 } else { ((h & 0xFFu32) + 0xFFFF_FF00u32) as u32 }),
        (((h as u16) as i16) as i32 as u32) == (if (h & 0xFFFFu32) < 0x8000u32 { h & 0xFFFFu32 } else { ((h & 0xFFFFu32) + 0xFFFF_0000u32) as u32 }),
        (h & 0xFFu32) == h % 0x100u32,
        ((h & 0xFFFFu32) << 16u32) == (h % 0x10000u32) * 0x10000u32,
        u >= 0x8000_0000u32 ==> (u as i32) == ((u - 0x1_0000_0000int) as i32),
        ((a as u32) as i32) == a,
        (y << 2u32) == (y & 0x3FFF_FFFFu32) * 4u32,
        (y & 0x3FFF_FFFFu32) == y % 0x4000_0000u32,
        ((u as i32) < 0) == (u >= 0x8000_0000u32),
        ((u as i32) <= 0) == (u == 0 || u >= 0x8000_0000u32),
        ((u as i32) > 0) == (0 < u && u < 0x8000_0000u32),
        ((u as i32) >= 0) == (u < 0x8000_0000u32),
        (p & 0xF000_0000u32) | ((j & 0x3FF_FFFFu32) << 2u32) == (p / 0x1000_0000u32) * 0x1000_0000u32 + (j % 0x400_0000u32) * 4u32,
        c < 256 && mm <= 31 ==> (c & !((mm as u32) << 3u32)) | (((oo & mm) as u32) << 3u32) < 256,
        (x ^ m) == 0 ==> x == m,
        x | x == x,
        0u16 | m == m,
        k < 16 ==> (1u16 << k) != 0,
        (0u16 ^ m) == m,
        v & 0xFF < 0x100,
        v & 0xFFFF < 0x10000,
        v == 0 ==> v & 0xFF == 0 && v & 0xFFFF == 0,
        v & 0x1F_FFFF <= 0x1F_FFFF,
        v & 0x7FF <= 0x7FF,
        v & 0x3FF <= 0x3FF,
        v < 0x8000_0000 <==> v >> 29u32 < 4,
        (w >> 13u16) & 1 < 2,
{
}

proof fn lemma_fit(v: u32)
    ensures
        fit(v, 8) < 0x100,
        fit(v, 16) < 0x10000,
        v == 0 ==> fit(v, 8) == 0 && fit(v, 16) == 0,
{
    lemma_bus_bits(v, 0, 0, 0, 0, 0, 0, 0, 0, 0, 0, 0, 0, 0, 0);
}

/// The value a BCR read gives (see `DMAController::read_bcr`).
pub open spec fn bcr_read_value(c: DMAChannel) -> u32 {
    match c.sync_mode {
        SyncMode::Manual => if (c.chcr & 0x100) != 0 { c.remaining_words as u32 } else { c.bcr },
        SyncMode::Slice => (c.bcr & 0xFFFF) | ((c.remaining_blocks as u32) << 16u32),
        SyncMode::LinkedList => c.bcr,
    }
}

/// COP0 after the interrupt controller `i` set its hardware line (CAUSE bit 10).
pub open spec fn line_updated(c0: Cop0, c1: Cop0, i: InterruptState) -> bool {
    &&& c1.regs@ == c0.regs@.update(13, if i.pending & i.mask != 0 {
            c0.regs@[13] | (1u32 << 10u32) } else { c0.regs@[13] & !(1u32 << 10u32) })
    &&& c1.pending_int_on_next_opcode == c0.pending_int_on_next_opcode
}

/// `n` is `b` with the interrupt controller set to `i` and the COP0 line following it.
pub open spec fn interrupt_set(b: Bus, n: Bus, i: InterruptState) -> bool {
    &&& n.interrupt == i
    &&& line_updated(b.cop0, n.cop0, i)
    &&& n == (Bus { interrupt: n.interrupt, cop0: n.cop0, ..b })
}

/// `n` is `b` with only the DMA controller changed.
pub open spec fn only_dma(b: Bus, n: Bus) -> bool {
    n == (Bus { dma: n.dma, ..b })
}

/// A MADR write of channel `ch` (see `DMAController::write_madr`).
pub open spec fn madr_written(d0: DMAController, d1: DMAController, ch: int, v: u32) -> bool {
    &&& d1.wf()
    &&& d1.channels[ch] == (DMAChannel { madr: v & 0xFF_FFFC, madr_read: v, ..d0.channels[ch] })
    &&& forall|c: int| 0 <= c < 7 && c != ch ==> #[trigger] d1.channels[c] == d0.channels[c]
    &&& d1.priorities@ == d0.priorities@ && d1.dpcr == d0.dpcr
    &&& d1.dma_in_progress_on_channel == d0.dma_in_progress_on_channel
}

/// A BCR write of channel `ch` (see `DMAController::write_bcr`).
pub open spec fn bcr_written(d0: DMAController, d1: DMAController, ch: int, v: u32) -> bool {
    &&& d1.wf()
    &&& (d1.channels[ch].remaining_words, d1.channels[ch].remaining_blocks)
            == reload_counts(d0.channels[ch].sync_mode, v, false, d0.channels[ch].remaining_blocks)
    &&& d1.channels[ch] == (DMAChannel { bcr: v, remaining_words: d1.channels[ch].remaining_words,
            remaining_blocks: d1.channels[ch].remaining_blocks, ..d0.channels[ch] })
    &&& forall|c: int| 0 <= c < 7 && c != ch ==> #[trigger] d1.channels[c] == d0.channels[c]
    &&& d1.priorities@ == d0.priorities@ && d1.dpcr == d0.dpcr
    &&& d1.dma_in_progress_on_channel == d0.dma_in_progress_on_channel
}

/// A CHCR write of channel `ch` (see `DMAController::write_chcr`).
pub open spec fn chcr_written(d0: DMAController, d1: DMAController, ch: int, v: u32) -> bool {
    &&& d1.wf()
    &&& d1.channels[ch].chcr == (if ch == 6 { (v & 0x5100_0000u32) | 2 } else { v })
    &&& d1.channels[ch].sync_mode == sync_mode_of(d1.channels[ch].chcr)
    &&& forall|c: int| 0 <= c < 7 && c != ch ==> #[trigger] d1.channels[c] == d0.channels[c]
    &&& d1.priorities@ == d0.priorities@ && d1.dpcr == d0.dpcr
    &&& d1.dma_in_progress_on_channel == d0.dma_in_progress_on_channel
}

/// A DPCR write (see `DMAController::write_dpcr`).
pub open spec fn dpcr_written(d0: DMAController, d1: DMAController, v: u32) -> bool {
    &&& d1.wf()
    &&& d1.dpcr == v
    &&& d1.dpcr_changed
    &&& d1.dma_enabled == exists|ch: int| 0 <= ch < 8 && #[trigger] dpcr_enabled(v, ch)
    &&& forall|ch: int| 0 <= ch < 7 ==> (#[trigger] d1.channels[ch]) == (DMAChannel { enabled: dpcr_enabled(v, ch), ..d0.channels[ch] })
    &&& d1.priorities@ == prio_list(v, 0)
    &&& d1.dcir == d0.dcir && d1.irq_flags == d0.irq_flags
    &&& d1.dma_in_progress_on_channel == d0.dma_in_progress_on_channel
    &&& d1.reg_f8 == d0.reg_f8 && d1.reg_fc == d0.reg_fc
}

/// A DICR write (see `DMAController::write_dicr`).
pub open spec fn dicr_written(d0: DMAController, d1: DMAController, v: u32) -> bool {
    &&& d1.dcir == v & 0x7FFF_FFFF
    &&& d1.irq_flags == d0.irq_flags & !(((v >> 24u32) & 0x7F) as u8)
    &&& d1.channels == d0.channels
    &&& d1.priorities@ == d0.priorities@
    &&& d1.dpcr == d0.dpcr && d1.dma_enabled == d0.dma_enabled
    &&& d1.dma_in_progress_on_channel == d0.dma_in_progress_on_channel
}

/// A GPUREAD read (see `GPU::gpu_read_read`).
pub open spec fn gpu_read_effect(o: GPU, f: GPU) -> bool {
    &&& f.wf()
    &&& f.vram == o.vram
    &&& match o.gp0state {
        Gp0State::VRamCopy(op, c) => {
            let v = crate::gpu::vram::read_word(o.vram@, c);
            match c.next_spec() {
                Some(n) => f.gpu_read_register == v && f.gp0state == Gp0State::VRamCopy(op, n)
                    && f.ready_bits == o.ready_bits,
                None => f.gpu_read_register == (if c.width % 2 == 1 { v % 65536 } else { v })
                    && f.gp0state == Gp0State::WaitingCommand
                    && !f.ready_bits.ready_to_send_vram_to_cpu
                    && f.ready_bits.ready_to_receive_cmd_word == o.ready_bits.ready_to_receive_cmd_word,
            }
        },
        _ => f == o,
    }
}

/// A byte written to the SIO0 data register (see `SIO0::write_tx_data`).
pub open spec fn tx_written(s0: SIO0, s1: SIO0, c0: Clock, c1: Clock, data: u8) -> bool {
    let queued = s0.selected_device is Some && (s0.ctrl & 0x01) != 0 && s0.tx_data@.len() < 2;
    &&& queued ==> s1 == (SIO0 { tx_data: s1.tx_data, tx_idle: false, start_timer_timestamp: c0.current_time, ..s0 })
        && s1.tx_data@ == s0.tx_data@.push(data)
        && c1.events@ == c0.events@.push(ClockEvent { event_type: EventType::SIO0,
            timestamp: (c0.current_time + TX_RX_DATA_CYCLES) as u64 })
    &&& !queued ==> s1 == s0 && c1.events@ == c0.events@
    &&& c1.current_time == c0.current_time
    &&& c1.clock_config == c0.clock_config
    &&& s1.wf()
}

/// A SIO0 control write (see `SIO0::write_ctrl`).
pub open spec fn ctrl_written(s0: SIO0, s1: SIO0, v: u16) -> bool {
    &&& s1.ctrl == v & 0x3FAFu16
    &&& s1.irq == (s0.irq && (v & 0x10) == 0 && (v & 0x40) == 0)
    &&& s1.selected_device == (if (v & 0x02) != 0 { Some(((v >> 13u16) & 1) as u8) } else { None })
    &&& s1 == (SIO0 { ctrl: s1.ctrl, irq: s1.irq, selected_device: s1.selected_device, ..s0 })
}

/// The clock leaves room for any GP0 completion event: a GPU clock that ticks, and the time of
/// the latest completion still representable.
pub open spec fn gp0_clock_ok(c: Clock) -> bool {
    c.clock_config.gpu_hz > 0
        && c.current_time + convert_cycles(0xFFFF_FFFFu64, c.clock_config.gpu_hz, c.clock_config.cpu_hz) <= u64::MAX
}

/// The command FIFO after word `w` is stored.
pub open spec fn stored_queue(g: GPU, w: u32) -> Seq<u32> {
    fifo_stored(g.cmd_fifo.view(), w)
}

/// Whether the operation `op` that the word completes is ready, for the operations whose
/// readiness the bus checks: the settings and transfers by the words they need, lines by their
/// words and start vertex, polygons by whole vertices, rectangles by their words, rows and
/// texel reads (`texture_reads_ok`).
pub open spec fn last_word_ok(g: GPU, op: Gp0Op, w: u32) -> bool {
    let q = stored_queue(g, w);
    match op {
        Gp0Op::RectangleRendering => match g.gp0state {
            Gp0State::WaitingCommandParameters(_, _) => q.len() >= 1
                && q.len() >= rect_words(q[0])
                && rect_params(q, g.drawing_area).y0 + rect_params(q, g.drawing_area).height <= i16::MAX
                && (rect_params(q, g.drawing_area).textured
                    ==> texture_reads_ok(g.texture, rect_params(q, g.drawing_area).clut_x, rect_params(q, g.drawing_area).clut_y)),
            _ => true,
        },
        Gp0Op::PolygonRendering => match g.gp0state {
            Gp0State::WaitingCommandParameters(_, _) => q.len() >= 1
                && vertices_complete(q.drop_first(), (q[0] & 0x1000_0000) != 0, (q[0] & 0x0400_0000) != 0, 0),
            _ => true,
        },
        Gp0Op::LineRendering => match g.gp0state {
            Gp0State::WaitingCommandParameters(_, _) => q.len() >= 1 && q.len() >= crate::gpu::draw_line::line_words(q[0]),
            Gp0State::WaitingPolyline(_, _, sv, _, shaded, _) => q.len() >= (if shaded { 2int } else { 1int })
                && -1024 <= sv.x <= 1023 && -1024 <= sv.y <= 1023,
            _ => true,
        },
        Gp0Op::VramVramCopy => match g.gp0state {
            Gp0State::WaitingCommandParameters(_, _) => q.len() >= 4 && (q[3] as u16) != 0 && ((q[3] >> 16u32) as u16) != 0,
            _ => true,
        },
        Gp0Op::CpuToVramCopy | Gp0Op::VramToCpuCopy | Gp0Op::QuickVramFill => match g.gp0state {
            Gp0State::WaitingCommandParameters(_, _) => q.len() >= 3,
            _ => true,
        },
        _ => true,
    }
}

/// When the bus hands word `w` to the GP0 port: drawing offsets in range, and, when the word is
/// the last one of an operation, that operation ready for it (`last_word_ok`): a command whose
/// drawing would read texels or palette entries outside VRAM, or run past the 16-bit
/// coordinate range, is not taken.
pub open spec fn gp0_accepts(g: GPU, w: u32) -> bool {
    &&& -1024 <= g.drawing_area.x_offset <= 1023
    &&& -1024 <= g.drawing_area.y_offset <= 1023
    &&& g.ready_bits.ready_to_receive_cmd_word ==> match g.gp0state {
        Gp0State::WaitingCommand => true,
        Gp0State::WaitingCommandParameters(op, None) => false,
        Gp0State::WaitingCommandParameters(op, Some(pars)) => pars > 1 || last_word_ok(g, op, w),
        Gp0State::WaitingPolyline(op, n, _, _, _, _) => polyline_end(w) || n > 1 || last_word_ok(g, op, w),
        Gp0State::VRamCopy(op, c) => c.counter_y < c.height,
    }
}

/// A GP0 word taken by the port: the GPU steps (or, while busy, keeps the word in its pending
/// FIFO); the interrupt requests it makes reach the interrupt controller; a polygon to draw is
/// queued.
pub open spec fn gp0_written(b: Bus, n: Bus, w: u32) -> bool {
    exists|ifn: IrqHandler, d: Option<PolygonDraw>| {
        &&& #[trigger] gp0_port_step(b, n, w, ifn, d)
    }
}

/// One GP0 word with handler result `ifn` and polygon `d`.
pub open spec fn gp0_port_step(b: Bus, n: Bus, w: u32, ifn: IrqHandler, d: Option<PolygonDraw>) -> bool {
    &&& if b.gpu.ready_bits.ready_to_receive_cmd_word {
            gp0_step(b.gpu, n.gpu, w, IrqHandler { irqs: 0, changed: false }, ifn, b.clock, n.clock, d)
        } else {
            &&& n.gpu.gp0_fifo.view() == fifo_stored(b.gpu.gp0_fifo.view(), w)
            &&& n.gpu == (GPU { gp0_fifo: n.gpu.gp0_fifo, ..b.gpu })
            &&& n.clock == b.clock
            &&& ifn == (IrqHandler { irqs: 0, changed: false })
            &&& d is None
        }
    &&& n.gpu.wf()
    &&& if ifn.changed {
            n.interrupt == (InterruptState { pending: b.interrupt.pending | ifn.irqs, ..b.interrupt })
                && line_updated(b.cop0, n.cop0, n.interrupt)
        } else {
            n.interrupt == b.interrupt && n.cop0 == b.cop0
        }
    &&& n.polygons@ == (match d { Some(p) => b.polygons@.push(p), None => b.polygons@ })
    &&& n == (Bus { gpu: n.gpu, clock: n.clock, interrupt: n.interrupt, cop0: n.cop0, polygons: n.polygons, ..b })
}

/// Offset of an SPU register address within the SPU area.
pub open spec fn spu_offset(a: u32) -> int {
    a - 0x1F80_1C00
}

/// Index of the word of a memory control register.
pub open spec fn io_port_index(a: u32) -> int {
    (a - 0x1F80_1000) / 4
}

/// A read of `size` bits of I/O register address `a` (top bits cleared) takes the bus from `b`
/// to `n` and answers `r`, in `IO_REG_ACCESS_CYCLES` (the SPU area in its own penalty): the
/// register's value cut to the access size. A read from an address no register answers, and an
/// SPU access running past the area, is a bus error; so is a SIO0 status read with the clock
/// behind the start of the transfer timer.
pub open spec fn io_reads(b: Bus, n: Bus, a: u32, size: usize, r: ReadMemoryAccess) -> bool {
    let c = IO_REG_ACCESS_CYCLES;
    match io_target_of(a) {
        IoTarget::MemoryControl => n == b && r == ReadMemoryAccess::Read(fit(b.io_ports@[io_port_index(a)], size), c),
        IoTarget::Timer(t, k) => n == b && r == ReadMemoryAccess::Read(fit(b.timer_regs@[t * 3 + k], size), c),
        IoTarget::InterruptStatus => n == b && r == ReadMemoryAccess::Read(fit(b.interrupt.pending as u32, size), c),
        IoTarget::InterruptMask => n == b && r == ReadMemoryAccess::Read(fit(b.interrupt.mask as u32, size), c),
        IoTarget::Spu => n == b && if spu_offset(a) + size / 8 <= SPU_REGS_LEN {
            r matches ReadMemoryAccess::Read(v, p) && v as nat == le_value(b.spu_regs.memory@, spu_offset(a), (size / 8) as nat)
                && p == b.spu_regs.read_penalty
        } else {
            r == ReadMemoryAccess::BusError
        },
        IoTarget::DmaMadr(ch) => n == b && r == ReadMemoryAccess::Read(fit(b.dma.channels[ch as int].madr_read, size), c),
        IoTarget::DmaBcr(ch) => n == b && r == ReadMemoryAccess::Read(fit(bcr_read_value(b.dma.channels[ch as int]), size), c),
        IoTarget::DmaChcr(ch) => n == b && r == ReadMemoryAccess::Read(fit(b.dma.channels[ch as int].chcr, size), c),
        IoTarget::DmaControl => n == b && r == ReadMemoryAccess::Read(fit(b.dma.dpcr, size), c),
        IoTarget::DmaInterrupt => n == b && r == ReadMemoryAccess::Read(fit(dicr_value(b.dma.dcir, b.dma.irq_flags), size), c),
        IoTarget::DmaUnknown(k) => n == b && r == ReadMemoryAccess::Read(fit(if k == 0 { b.dma.reg_f8 } else { b.dma.reg_fc }, size), c),
        IoTarget::GpuData => gpu_read_effect(b.gpu, n.gpu) && n == (Bus { gpu: n.gpu, ..b })
            && r == ReadMemoryAccess::Read(fit(n.gpu.gpu_read_register, size), c),
        IoTarget::GpuStatus => n == b && r == ReadMemoryAccess::Read(fit(gpu_status(b.gpu), size), c),
        IoTarget::Sio0Data => if b.sio0.rx_fifo@.len() > 0 {
            &&& n.sio0.rx_fifo@ == b.sio0.rx_fifo@.drop_first()
            &&& n == (Bus { sio0: SIO0 { rx_fifo: n.sio0.rx_fifo, ..b.sio0 }, ..b })
            &&& r == ReadMemoryAccess::Read(fit(b.sio0.rx_fifo@[0] as u32, size), c)
        } else {
            &&& n.sio0.rx_fifo@ == b.sio0.rx_fifo@
            &&& n == (Bus { sio0: SIO0 { rx_fifo: n.sio0.rx_fifo, ..b.sio0 }, ..b })
            &&& r == ReadMemoryAccess::Read(0, c)
        },
        IoTarget::Sio0Status => n == b && if b.sio0.start_timer_timestamp <= b.clock.current_time {
            r == ReadMemoryAccess::Read(fit(sio_status(b.sio0, b.clock.current_time), size), c)
        } else {
            r == ReadMemoryAccess::BusError
        },
        IoTarget::Sio0Mode => n == b && r == ReadMemoryAccess::Read(fit(b.sio0.mode as u32, size), c),
        IoTarget::Sio0Control => n == b && r == ReadMemoryAccess::Read(fit(b.sio0.ctrl as u32, size), c),
        IoTarget::Sio0Baud => n == b && r == ReadMemoryAccess::Read(fit(b.sio0.baud as u32, size), c),
        IoTarget::Unmapped => n == b && r == ReadMemoryAccess::BusError,
    }
}

/// A write of the low `size` bits of `v` to I/O register address `a` (top bits cleared) takes
/// the bus from `b` to `n` and answers `r`, in `IO_REG_ACCESS_CYCLES` (the SPU area in its own
/// penalty). I_STAT acknowledges the lines written as zero and I_MASK is replaced, the COP0
/// line following both; DMA, GPU and SIO0 registers go to their device. Refused with a bus
/// error, the bus unchanged: an address no register answers, an SPU access running past the
/// area, a CHCR write with the reserved sync mode 3 (channels 0-5), a GP0 word the port cannot
/// take (`gp0_accepts`) or with no room on the clock for its completion, and a SIO0 data byte
/// with no room on the clock for its transfer.
pub open spec fn io_writes(b: Bus, n: Bus, a: u32, size: usize, v: u32, r: WriteMemoryAccess) -> bool {
    let ok = WriteMemoryAccess::Write(IO_REG_ACCESS_CYCLES);
    match io_target_of(a) {
        IoTarget::MemoryControl => n == (Bus { io_ports: n.io_ports, ..b }) && n.io_ports@ == b.io_ports@.update(io_port_index(a), v) && r == ok,
        IoTarget::Timer(t, k) => n == (Bus { timer_regs: n.timer_regs, ..b }) && n.timer_regs@ == b.timer_regs@.update(t * 3 + k, v) && r == ok,
        IoTarget::InterruptStatus => interrupt_set(b, n, InterruptState { pending: b.interrupt.pending & (v as u16), ..b.interrupt }) && r == ok,
        IoTarget::InterruptMask => interrupt_set(b, n, InterruptState { mask: v as u16, ..b.interrupt }) && r == ok,
        IoTarget::Spu => if spu_offset(a) + size / 8 <= SPU_REGS_LEN {
            b.spu_regs.writes(n.spu_regs, spu_offset(a) as u32, size, v, r) && n == (Bus { spu_regs: n.spu_regs, ..b })
        } else {
            n == b && r == WriteMemoryAccess::BusError
        },
        IoTarget::DmaMadr(ch) => only_dma(b, n) && madr_written(b.dma, n.dma, ch as int, v) && r == ok,
        IoTarget::DmaBcr(ch) => only_dma(b, n) && bcr_written(b.dma, n.dma, ch as int, v) && r == ok,
        IoTarget::DmaChcr(ch) => if ch == 6 || (v >> 9u32) & 3 != 3 {
            only_dma(b, n) && chcr_written(b.dma, n.dma, ch as int, v) && r == ok
        } else {
            n == b && r == WriteMemoryAccess::BusError
        },
        IoTarget::DmaControl => only_dma(b, n) && dpcr_written(b.dma, n.dma, v) && r == ok,
        IoTarget::DmaInterrupt => only_dma(b, n) && dicr_written(b.dma, n.dma, v) && r == ok,
        IoTarget::DmaUnknown(k) => n == (Bus { dma: if k == 0 { DMAController { reg_f8: v, ..b.dma } }
            else { DMAController { reg_fc: v, ..b.dma } }, ..b }) && r == ok,
        IoTarget::GpuData => if gp0_accepts(b.gpu, v) && gp0_clock_ok(b.clock) {
            gp0_written(b, n, v) && r == ok
        } else {
            n == b && r == WriteMemoryAccess::BusError
        },
        IoTarget::GpuStatus => n == (Bus { gpu: gp1_result(b.gpu, v), ..b }) && r == ok,
        IoTarget::Sio0Data => if b.clock.current_time + TX_RX_DATA_CYCLES <= u64::MAX {
            tx_written(b.sio0, n.sio0, b.clock, n.clock, v as u8) && n == (Bus { sio0: n.sio0, clock: n.clock, ..b }) && r == ok
        } else {
            n == b && r == WriteMemoryAccess::BusError
        },
        IoTarget::Sio0Status => n == b && r == ok,
        IoTarget::Sio0Mode => n == (Bus { sio0: SIO0 { mode: (v as u16) & 0x013Fu16, ..b.sio0 }, ..b }) && r == ok,
        IoTarget::Sio0Control => ctrl_written(b.sio0, n.sio0, v as u16) && n == (Bus { sio0: n.sio0, ..b }) && r == ok,
        IoTarget::Sio0Baud => n == (Bus { sio0: SIO0 { baud: v as u16, ..b.sio0 }, ..b }) && r == ok,
        IoTarget::Unmapped => n == b && r == WriteMemoryAccess::BusError,
    }
}

/// Word `i` of the command FIFO of `g` once `w` is stored.
fn stored_word(g: &GPU, w: u32, i: usize) -> (r: u32)
    requires
        g.cmd_fifo.wf(),
        i < stored_queue(*g, w).len(),
    ensures
        r == stored_queue(*g, w)[i as int],
{
    let len = g.cmd_fifo.len as usize;
    if i < len {
        g.cmd_fifo.buf[((g.cmd_fifo.head as usize) + i) % 16]
    } else {
        w
    }
}

/// Length of the command FIFO of `g` once `w` is stored.
fn stored_len(g: &GPU) -> (r: usize)
    requires
        g.cmd_fifo.wf(),
    ensures
        forall|w: u32| r == #[trigger] stored_queue(*g, w).len(),
{
    let len = g.cmd_fifo.len as usize;
    if len < 16 { len + 1 } else { len }
}

/// Whether the command FIFO of `g`, once `w` is stored, splits after its first word into whole
/// vertices of a polygon.
fn vertices_check(g: &GPU, w: u32, shaded: bool, textured: bool) -> (r: bool)
    requires
        g.cmd_fifo.wf(),
    ensures
        r == vertices_complete(stored_queue(*g, w).drop_first(), shaded, textured, 0),
{
    let ghost q = stored_queue(*g, w);
    let n = stored_len(g);
    let mut pos: usize = 1;
    let mut k: usize = 0;
    proof {
        assert(q.drop_first() =~= q.skip(1));
    }
    while pos < n
        invariant
            1 <= pos,
            k <= pos,
            n == q.len(),
            n <= 16,
            pos <= n || n == 0,
            q == stored_queue(*g, w),
            vertices_complete(q.drop_first(), shaded, textured, 0) == vertices_complete(q.skip(pos as int), shaded, textured, k as int),
        decreases n - pos,
    {
        let vw: usize = (if shaded && k > 0 { 1usize } else { 0usize }) + 1 + (if textured { 1usize } else { 0usize });
        assert(vw == vertex_words(shaded, textured, k as int));
        if n - pos < vw {
            return false;
        }
        proof {
            assert(q.skip(pos as int).skip(vw as int) =~= q.skip((pos + vw) as int));
        }
        pos = pos + vw;
        k = k + 1;
    }
    proof {
        assert(q.skip(pos as int).len() == 0);
    }
    true
}

/// Whether the operation completed by `w` is ready (`last_word_ok`).
fn last_word_check(g: &GPU, op: Gp0Op, w: u32) -> (r: bool)
    requires
        g.cmd_fifo.wf(),
    ensures
        r == last_word_ok(*g, op, w),
{
    let n = stored_len(g);
    let waiting_pars = match g.gp0state {
        Gp0State::WaitingCommandParameters(_, _) => true,
        _ => false,
    };
    match op {
        Gp0Op::RectangleRendering => if waiting_pars {
            if n < 1 {
                false
            } else {
                let c = stored_word(g, w, 0);
                let textured = ((c >> 26u32) & 1) != 0;
                let size = (c >> 27u32) & 3;
                let words: usize = 2 + (if textured { 1usize } else { 0usize }) + (if size == 0 { 1usize } else { 0usize });
                if n < words {
                    false
                } else {
                    let v = Vertex::from_command_parameter(stored_word(g, w, 1));
                    let height: i32 = if size == 0 {
                        let sz = stored_word(g, w, if textured { 3 } else { 2 });
                        ((sz >> 16u32) as u16) as i32
                    } else if size == 1 { 1 } else if size == 2 { 8 } else { 16 };
                    let y0: i32 = v.y as i32 + g.drawing_area.y_offset as i32;
                    proof {
                        reveal(rect_params);
                    }
                    if y0 + height > 0x7FFF {
                        false
                    } else if !textured {
                        true
                    } else {
                        let clut = stored_word(g, w, 2) >> 16u32;
                        let t = &g.texture;
                        let indexed = match t.depth {
                            TextureDepth::T4Bit | TextureDepth::T8Bit => true,
                            _ => false,
                        };
                        let clut_x = (clut & 0x3F) as u64;
                        let clut_y = ((clut >> 6u32) & 0x1FF) as u64;
                        t.window_x_mask <= 31 && t.window_y_mask <= 31 && t.page_base_y <= 1
                            && (!indexed || (clut_y * 1024 + clut_x * 16) * 2 + 255 * 2 + 1 < VRAM_SIZE as u64)
                    }
                }
            }
        } else {
            true
        },
        Gp0Op::PolygonRendering => if waiting_pars {
            if n < 1 {
                false
            } else {
                let c = stored_word(g, w, 0);
                vertices_check(g, w, (c & 0x1000_0000) != 0, (c & 0x0400_0000) != 0)
            }
        } else {
            true
        },
        Gp0Op::LineRendering => match g.gp0state {
            Gp0State::WaitingCommandParameters(_, _) => {
                if n < 1 {
                    false
                } else {
                    let c = stored_word(g, w, 0);
                    let words: usize = if (c & 0x1000_0000) != 0 { 4 } else { 3 };
                    n >= words
                }
            },
            Gp0State::WaitingPolyline(_, _, sv, _, shaded, _) => {
                let need: usize = if shaded { 2 } else { 1 };
                n >= need && -1024 <= sv.x && sv.x <= 1023 && -1024 <= sv.y && sv.y <= 1023
            },
            _ => true,
        },
        Gp0Op::VramVramCopy => if waiting_pars {
            if n < 4 {
                false
            } else {
                let q3 = stored_word(g, w, 3);
                (q3 as u16) != 0 && ((q3 >> 16u32) as u16) != 0
            }
        } else {
            true
        },
        Gp0Op::CpuToVramCopy | Gp0Op::VramToCpuCopy | Gp0Op::QuickVramFill => !waiting_pars || n >= 3,
        _ => true,
    }
}

/// Whether the GP0 port can take `w` (`gp0_accepts`).
pub fn gp0_accepts_check(g: &GPU, w: u32) -> (r: bool)
    requires
        g.wf(),
    ensures
        r == gp0_accepts(*g, w),
{
    let xo = g.drawing_area.x_offset;
    let yo = g.drawing_area.y_offset;
    if !(-1024 <= xo && xo <= 1023 && -1024 <= yo && yo <= 1023) {
        return false;
    }
    if !g.ready_bits.ready_to_receive_cmd_word {
        return true;
    }
    match g.gp0state {
        Gp0State::WaitingCommand => true,
        Gp0State::WaitingCommandParameters(op, None) => false,
        Gp0State::WaitingCommandParameters(op, Some(pars)) => pars > 1 || last_word_check(g, op, w),
        Gp0State::WaitingPolyline(op, n, _, _, _, _) => (w & 0xF000_F000) == 0x5000_5000 || n > 1 || last_word_check(g, op, w),
        Gp0State::VRamCopy(op, c) => c.counter_y < c.height,
    }
}

/// Every texel of the texture page (coordinates below 256) is read from inside VRAM: texture
/// window masks of five bits, a page in the two rows of pages, and, for indexed depths, the
/// whole palette at (clut_x * 16, clut_y) inside VRAM.
pub open spec fn texture_reads_ok(t: Texture, clut_x: u32, clut_y: u32) -> bool {
    &&& t.window_x_mask <= 31
    &&& t.window_y_mask <= 31
    &&& t.page_base_y <= 1
    &&& (t.depth == TextureDepth::T4Bit || t.depth == TextureDepth::T8Bit) ==> clut_entry_offset(clut_x, clut_y, 255) + 1 < VRAM_SIZE
}

proof fn lemma_texel_in_vram(vram: Seq<u8>, t: Texture, clut_x: u32, clut_y: u32, u: u32, v: u32)
    requires
        texture_reads_ok(t, clut_x, clut_y),
        u < 256,
        v < 256,
    ensures
        texel_in_vram(vram, t, clut_x, clut_y, u, v, t.page_base_x, t.page_base_y, t.depth),
{
    lemma_bus_bits(0, 0, 0, 0, 0, u, t.window_x_mask, t.window_x_offset, 0, 0, 0, 0, 0, 0, 0);
    lemma_bus_bits(0, 0, 0, 0, 0, v, t.window_y_mask, t.window_y_offset, 0, 0, 0, 0, 0, 0, 0);
    let u2 = tex_coord(u, t.window_x_mask, t.window_x_offset) as int;
    let v2 = tex_coord(v, t.window_y_mask, t.window_y_offset) as int;
    assert(0 <= u2 < 256 && 0 <= v2 < 256);
    let y = t.page_base_y as int * 256 + v2;
    assert(0 <= y < 512);
    let w = texel_word(t, u, v, t.page_base_x, t.page_base_y, t.depth);
    assert(0 <= w && w + 1 < VRAM_SIZE);
    if t.depth == TextureDepth::T4Bit || t.depth == TextureDepth::T8Bit {
        let i = texel_index(vram, t, u, v, t.page_base_x, t.page_base_y, t.depth);
        assert(0 <= i < 256);
    }
}

/// A rectangle whose texels, if any, are all read from inside VRAM draws all its rows from
/// `row` on.
proof fn lemma_rect_rows_drawn(e: RectEnv, p: RectParams, vram: Seq<u8>, row: int)
    requires
        vram.len() == VRAM_SIZE,
        p.textured ==> texture_reads_ok(e.texture, p.clut_x, p.clut_y),
    ensures
        rect_rows(e, p, vram, row) is Some,
    decreases p.height - row,
{
    reveal(rect_rows);
    if row < p.height {
        lemma_rect_row_drawn(e, p, vram, row, 0);
        let v = rect_row(e, p, vram, row, 0)->0;
        lemma_rect_rows_drawn(e, p, v, row + 1);
    }
}

proof fn lemma_rect_row_drawn(e: RectEnv, p: RectParams, vram: Seq<u8>, row: int, col: int)
    requires
        vram.len() == VRAM_SIZE,
        p.textured ==> texture_reads_ok(e.texture, p.clut_x, p.clut_y),
    ensures
        rect_row(e, p, vram, row, col) is Some && (rect_row(e, p, vram, row, col)->0).len() == VRAM_SIZE,
    decreases p.width - col,
{
    reveal(rect_row);
    reveal(rect_pixel);
    if col < p.width {
        if p.textured {
            let u = ((p.base_u as int + col) % 256) as u8;
            let vv = ((p.base_v as int + row) % 256) as u8;
            lemma_texel_in_vram(vram, e.texture, p.clut_x, p.clut_y, u as u32, vv as u32);
        }
        let xx = p.x0 + col;
        let yy = p.y0 + row;
        crate::gpu::lemma_coord_masks(xx as i16 as u16, yy as i16 as u16);
        assert(rect_pixel(e, p, vram, col, row) is Some);
        let v = rect_pixel(e, p, vram, col, row)->0;
        assert(v.len() == VRAM_SIZE);
        lemma_rect_row_drawn(e, p, v, row, col + 1);
        assert(rect_row(e, p, vram, row, col) == rect_row(e, p, v, row, col + 1));
    }
}

/// A rectangle whose last word the bus accepts is ready to draw.
proof fn lemma_rect_ready(g: GPU, m: GPU, w: u32)
    requires
        g.wf(),
        word_stored(g, m, w),
        -1024 <= g.drawing_area.x_offset <= 1023,
        -1024 <= g.drawing_area.y_offset <= 1023,
        g.gp0state matches Gp0State::WaitingCommandParameters(_, _),
        last_word_ok(g, Gp0Op::RectangleRendering, w),
    ensures
        rect_ready(m),
{
    let q = m.cmd_fifo.view();
    assert(q == stored_queue(g, w));
    lemma_bus_bits(q[1], 0, 0, 0, 0, 0, 0, 0, 0, 0, 0, 0, 0, 0, 0);
    lemma_bus_bits(q[2], 0, 0, 0, 0, 0, 0, 0, 0, 0, 0, 0, 0, 0, 0);
    lemma_bus_bits(q[3], 0, 0, 0, 0, 0, 0, 0, 0, 0, 0, 0, 0, 0, 0);
    reveal(rect_params);
    let p = rect_params(q, m.drawing_area);
    assert(-1024 <= sext11(q[1]) <= 1023);
    assert(p.x0 + p.width <= i16::MAX);
    lemma_rect_rows_drawn(rect_env(m), p, m.vram@, 0);
}

/// What the bus accepts of the port is what the port needs.
pub proof fn lemma_gp0_accepts_ready(g: GPU, w: u32)
    requires
        g.wf(),
        gp0_accepts(g, w),
    ensures
        gp0_word_ready(g, w),
{
    if g.ready_bits.ready_to_receive_cmd_word {
        match g.gp0state {
            Gp0State::WaitingCommandParameters(op, Some(pars)) => {
                assert forall|m: GPU| #[trigger] word_stored(g, m, w) && pars <= 1 implies op_ready(m, op) by {
                    assert(m.cmd_fifo.view() == stored_queue(g, w));
                    if op == Gp0Op::RectangleRendering {
                        lemma_rect_ready(g, m, w);
                    }
                }
            },
            Gp0State::WaitingPolyline(op, n, _, _, _, _) => {
                assert forall|m: GPU| #[trigger] word_stored(g, m, w) && !polyline_end(w) && n <= 1 implies op_ready(m, op) by {
                    assert(m.cmd_fifo.view() == stored_queue(g, w));
                }
            },
            _ => {},
        }
    }
}

/// Whether the clock leaves room for a GP0 completion event (`gp0_clock_ok`).
fn gp0_clock_check(c: &Clock) -> (r: bool)
    ensures
        r == gp0_clock_ok(*c),
{
    let gpu_hz = c.clock_config.gpu_hz;
    if gpu_hz == 0 {
        return false;
    }
    proof {
        assert(0xFFFF_FFFFu64 as u128 * c.clock_config.cpu_hz as u128 <= u64::MAX as u128 * u64::MAX as u128) by (nonlinear_arith);
    }
    let p: u128 = 0xFFFF_FFFFu128 * (c.clock_config.cpu_hz as u128);
    let q: u128 = p / (gpu_hz as u128);
    q <= (u64::MAX - c.current_time) as u128
}

impl Bus {
    /// Main RAM, scratchpad, SPU area, memory control and counter registers at their sizes;
    /// the devices consistent.
    pub open spec fn wf(&self) -> bool {
        &&& self.main_ram@.len() == MAIN_RAM_LEN
        &&& self.scratchpad@.len() == SCRATCHPAD_LEN
        &&& self.spu_regs.memory@.len() == SPU_REGS_LEN
        &&& self.io_ports@.len() == IO_PORTS_LEN
        &&& self.timer_regs@.len() == 9
        &&& self.gpu.wf()
        &&& self.dma.wf()
        &&& self.sio0.wf()
    }

    /// A bus with cleared RAM, scratchpad and registers, the devices just reset, and `bios` as
    /// the BIOS ROM.
    pub fn new(clock_config: ClockConfig, bios: ArrayMemory) -> (r: Bus)
        ensures
            r.wf(),
            forall|i: int| 0 <= i < MAIN_RAM_LEN ==> r.main_ram@[i] == 0,
            forall|i: int| 0 <= i < SCRATCHPAD_LEN ==> r.scratchpad@[i] == 0,
            r.bios == bios,
            r.interrupt == (InterruptState { pending: 0, mask: 0 }),
            r.clock.current_time == 0 && r.clock.clock_config == clock_config && r.clock.events@.len() == 0,
            r.cache_control_reg == 0,
            r.polygons@.len() == 0,
            r.cop0.regs@ == Seq::new(32, |i: int| 0u32).update(12, 1u32 << 22u32).update(15, crate::cpu::cop0::PRID_VALUE),
    {
        let spu = vec![0u8; SPU_REGS_LEN];
        Bus {
            main_ram: vec![0u8; MAIN_RAM_LEN],
            scratchpad: vec![0u8; SCRATCHPAD_LEN],
            bios,
            spu_regs: ArrayMemory::new(spu.as_slice(), false, 0, 0),
            io_ports: vec![0u32; IO_PORTS_LEN],
            timer_regs: vec![0u32; 9],
            cop0: Cop0::new(),
            interrupt: InterruptState::new(),
            dma: DMAController::new(),
            gpu: GPU::new(),
            sio0: SIO0::new(true, true),
            clock: Clock::new(clock_config),
            cache_control_reg: 0,
            polygons: Vec::new(),
        }
    }

    /// Reads `size` bits of the I/O register at `address` (1F801000h-1F801FFFh, top bits
    /// cleared), as `io_reads` says.
    #[verifier::rlimit(40)]
    pub fn io_read(&mut self, address: u32, size: usize) -> (r: ReadMemoryAccess)
        requires
            old(self).wf(),
            0x1F80_1000 <= address < 0x1F80_2000,
            size == 8 || size == 16 || size == 32,
        ensures
            final(self).wf(),
            io_reads(*old(self), *final(self), address, size, r),
            r matches ReadMemoryAccess::Read(v, _) ==> (size == 8 ==> v < 0x100) && (size == 16 ==> v < 0x10000),
    {
        let c = IO_REG_ACCESS_CYCLES;
        let target = io_target(address);
        let raw: u32 = match target {
            IoTarget::MemoryControl => self.io_ports[((address - 0x1F80_1000) / 4) as usize],
            IoTarget::Timer(t, k) => self.timer_regs[(t as usize) * 3 + (k as usize)],
            IoTarget::InterruptStatus => self.interrupt.read_stat() as u32,
            IoTarget::InterruptMask => self.interrupt.read_mask() as u32,
            IoTarget::Spu => {
                let off = address - 0x1F80_1C00;
                if (off as usize) + size / 8 > SPU_REGS_LEN {
                    return ReadMemoryAccess::BusError;
                }
                let r = if size == 8 {
                    self.spu_regs.read::<8>(off, false)
                } else if size == 16 {
                    self.spu_regs.read::<16>(off, false)
                } else {
                    self.spu_regs.read::<32>(off, false)
                };
                return r;
            },
            IoTarget::DmaMadr(ch) => self.dma.read_madr(ch as usize),
            IoTarget::DmaBcr(ch) => self.dma.read_bcr(ch as usize),
            IoTarget::DmaChcr(ch) => self.dma.read_chcr(ch as usize),
            IoTarget::DmaControl => self.dma.read_dpcr(),
            IoTarget::DmaInterrupt => self.dma.read_dicr(),
            IoTarget::DmaUnknown(k) => if k == 0 { self.dma.read_reg_f8() } else { self.dma.read_reg_fc() },
            IoTarget::GpuData => self.gpu.gpu_read_read(),
            IoTarget::GpuStatus => self.gpu.gpu_stat_read(),
            IoTarget::Sio0Data => self.sio0.read_rx_data() as u32,
            IoTarget::Sio0Status => {
                if self.sio0.start_timer_timestamp > self.clock.current_time {
                    return ReadMemoryAccess::BusError;
                }
                self.sio0.read_status(&self.clock)
            },
            IoTarget::Sio0Mode => self.sio0.read_mode() as u32,
            IoTarget::Sio0Control => self.sio0.read_ctrl() as u32,
            IoTarget::Sio0Baud => self.sio0.read_baud() as u32,
            IoTarget::Unmapped => return ReadMemoryAccess::BusError,
        };
        proof { lemma_fit(raw); }
        let v = if size == 8 { raw & 0xFF } else if size == 16 { raw & 0xFFFF } else { raw };
        ReadMemoryAccess::Read(v, c)
    }

    /// Writes the low `size` bits of `value` to the I/O register at `address`
    /// (1F801000h-1F801FFFh, top bits cleared), as `io_writes` says.
    #[verifier::rlimit(60)]
    pub fn io_write(&mut self, address: u32, value: u32, size: usize) -> (r: WriteMemoryAccess)
        requires
            old(self).wf(),
            0x1F80_1000 <= address < 0x1F80_2000,
            size == 8 || size == 16 || size == 32,
        ensures
            final(self).wf(),
            io_writes(*old(self), *final(self), address, size, value, r),
    {
        let ok = WriteMemoryAccess::Write(IO_REG_ACCESS_CYCLES);
        let target = io_target(address);
        match target {
            IoTarget::MemoryControl => {
                self.io_ports.set(((address - 0x1F80_1000) / 4) as usize, value);
                ok
            },
            IoTarget::Timer(t, k) => {
                self.timer_regs.set((t as usize) * 3 + (k as usize), value);
                ok
            },
            IoTarget::InterruptStatus => {
                self.interrupt.write_stat(value as u16);
                self.interrupt.update_cop0(&mut self.cop0);
                ok
            },
            IoTarget::InterruptMask => {
                self.interrupt.write_mask(value as u16);
                self.interrupt.update_cop0(&mut self.cop0);
                ok
            },
            IoTarget::Spu => {
                let off = address - 0x1F80_1C00;
                if (off as usize) + size / 8 > SPU_REGS_LEN {
                    return WriteMemoryAccess::BusError;
                }
                let ghost before = self.spu_regs;
                let r = if size == 8 {
                    self.spu_regs.write::<8>(off, value)
                } else if size == 16 {
                    self.spu_regs.write::<16>(off, value)
                } else {
                    self.spu_regs.write::<32>(off, value)
                };
                proof {
                    assert(before.accepts(SPU_REGS_LEN as u32, 0));
                    assert(self.spu_regs.accepts(SPU_REGS_LEN as u32, 0));
                    assert(!before.accepts((SPU_REGS_LEN + 1) as u32, 0));
                    assert(!self.spu_regs.accepts((SPU_REGS_LEN + 1) as u32, 0));
                }
                r
            },
            IoTarget::DmaMadr(ch) => {
                self.dma.write_madr(ch as usize, value);
                ok
            },
            IoTarget::DmaBcr(ch) => {
                self.dma.write_bcr(ch as usize, value);
                ok
            },
            IoTarget::DmaChcr(ch) => {
                if ch != 6 && (value >> 9u32) & 3 == 3 {
                    return WriteMemoryAccess::BusError;
                }
                self.dma.write_chcr(ch as usize, value);
                ok
            },
            IoTarget::DmaControl => {
                self.dma.write_dpcr(value);
                ok
            },
            IoTarget::DmaInterrupt => {
                self.dma.write_dicr(value);
                ok
            },
            IoTarget::DmaUnknown(k) => {
                if k == 0 {
                    self.dma.write_reg_f8(value);
                } else {
                    self.dma.write_reg_fc(value);
                }
                ok
            },
            IoTarget::GpuData => {
                if !gp0_accepts_check(&self.gpu, value) || !gp0_clock_check(&self.clock) {
                    return WriteMemoryAccess::BusError;
                }
                proof { lemma_gp0_accepts_ready(self.gpu, value); }
                let ghost b = *self;
                let mut irq = IrqHandler::new();
                let (_, draw) = self.gpu.gp0_cmd(value, &mut self.clock, &mut irq);
                let ghost ifn = irq;
                if irq.changed {
                    self.interrupt.raise(irq.irqs);
                    self.interrupt.update_cop0(&mut self.cop0);
                }
                let ghost d = draw;
                match draw {
                    Some(p) => self.polygons.push(p),
                    None => {},
                }
                proof {
                    assert(gp0_port_step(b, *self, value, ifn, d));
                }
                ok
            },
            IoTarget::GpuStatus => {
                self.gpu.gp1_cmd(value);
                ok
            },
            IoTarget::Sio0Data => {
                if self.clock.current_time > u64::MAX - (TX_RX_DATA_CYCLES as u64) {
                    return WriteMemoryAccess::BusError;
                }
                self.sio0.write_tx_data(value as u8, &mut self.clock);
                ok
            },
            IoTarget::Sio0Status => ok,
            IoTarget::Sio0Mode => {
                self.sio0.write_mode(value as u16);
                ok
            },
            IoTarget::Sio0Control => {
                let v16 = value as u16;
                proof { lemma_bus_bits(0, v16, 0, 0, 0, 0, 0, 0, 0, 0, 0, 0, 0, 0, 0); }
                self.sio0.write_ctrl(v16);
                ok
            },
            IoTarget::Sio0Baud => {
                self.sio0.write_baud(value as u16);
                ok
            },
            IoTarget::Unmapped => WriteMemoryAccess::BusError,
        }
    }
}

/// Kernel mode: SR.KUc clear.
pub open spec fn kernel_mode(c: Cop0) -> bool {
    c.regs@[12] & 2u32 == 0
}

/// SR.Isc set: stores go to the instruction cache.
pub open spec fn cache_isolated(c: Cop0) -> bool {
    c.regs@[12] & (1u32 << 16u32) != 0
}

/// What the expansion regions read: all ones.
pub open spec fn exp_value(size: usize) -> u32 {
    if size == 8 { 0xFF } else if size == 16 { 0xFFFF } else { 0xFFFF_FFFF }
}

/// Cycles of an expansion region read (and of an expansion 1 write).
pub open spec fn exp1_cycles(size: usize) -> usize {
    if size == 8 { 7 } else if size == 16 { 13 } else { 25 }
}

/// Cycles of an expansion 2 write.
pub open spec fn exp2_write_cycles(size: usize) -> usize {
    if size == 8 { 11 } else if size == 16 { 26 } else { 56 }
}

/// Cycles of an expansion 3 write.
pub open spec fn exp3_write_cycles(size: usize) -> usize {
    if size == 8 { 7 } else if size == 16 { 6 } else { 10 }
}

/// Cycles of a BIOS ROM read.
pub open spec fn bios_read_cycles(size: usize) -> usize {
    if size == 8 { 8 } else if size == 16 { 12 } else { 24 }
}

/// Address in main RAM of a RAM section offset: 2MB mirrored over the first 8MB.
pub open spec fn ram_address(offset: u32) -> int {
    (offset & 0x1F_FFFFu32) as int
}

/// Whether an access of `size` bits at RAM section offset `offset` reaches main RAM (within
/// the first 8MB, not running past its end).
pub open spec fn ram_reached(offset: u32, size: usize) -> bool {
    offset < 0x80_0000 && ram_address(offset) + size / 8 <= MAIN_RAM_LEN
}

/// Whether an access of `size` bits at BIOS section offset `offset` reaches the ROM (within
/// its 512KB, not running past the image).
pub open spec fn bios_reached(b: Bus, offset: u32, size: usize) -> bool {
    offset < 0x8_0000 && offset + size / 8 <= b.bios.memory@.len()
}

/// A read of `size` bits at `address`: user mode reaches KUSEG only (memory error); RAM,
/// scratchpad (not for instruction fetches) and BIOS give their little-endian unit, an access
/// outside them or running past their end a bus error; the I/O area as `io_reads`; the
/// expansion regions all ones; cache control its register; anything else a bus error.
pub open spec fn bus_reads(b: Bus, n: Bus, address: u32, size: usize, fetch: bool, r: ReadMemoryAccess) -> bool {
    let m = map_of(address);
    let nb = (size / 8) as nat;
    if m.0 != MemorySegment::KUSEG && !kernel_mode(b.cop0) {
        n == b && r == ReadMemoryAccess::MemoryError
    } else {
        match m.1 {
            MemorySection::MainRAM => n == b && if ram_reached(m.3, size) {
                r matches ReadMemoryAccess::Read(v, c) && v as nat == le_value(b.main_ram@, ram_address(m.3), nb)
                    && c == RAM_ACCESS_CYCLES
            } else {
                r == ReadMemoryAccess::BusError
            },
            MemorySection::ScratchPad => n == b && if !fetch && m.3 + size / 8 <= SCRATCHPAD_LEN {
                r matches ReadMemoryAccess::Read(v, c) && v as nat == le_value(b.scratchpad@, m.3 as int, nb)
                    && c == SCRATCHPAD_ACCESS_CYCLES
            } else {
                r == ReadMemoryAccess::BusError
            },
            MemorySection::BIOSRom => n == b && if bios_reached(b, m.3, size) {
                r matches ReadMemoryAccess::Read(v, c) && v as nat == le_value(b.bios.memory@, m.3 as int, nb)
                    && c == bios_read_cycles(size)
            } else {
                r == ReadMemoryAccess::BusError
            },
            MemorySection::IOPorts => io_reads(b, n, m.2, size, r),
            MemorySection::ExpansionRegion1 | MemorySection::ExpansionRegion2 | MemorySection::ExpansionRegion3 =>
                n == b && r == ReadMemoryAccess::Read(exp_value(size), exp1_cycles(size)),
            MemorySection::CacheControl => n == b && r == ReadMemoryAccess::Read(fit(b.cache_control_reg, size), IO_REG_ACCESS_CYCLES),
            MemorySection::Unmapped => n == b && r == ReadMemoryAccess::BusError,
        }
    }
}

/// A write of the low `size` bits of `v` at `address`: with the cache isolated it goes to the
/// instruction cache (tag test mode: cache control bit 2); user mode reaches KUSEG only (memory
/// error); RAM and scratchpad store the unit, the BIOS refuses it as read-only, an access
/// outside them or running past their end is a bus error; the I/O area as `io_writes`; the
/// expansion regions take it in their cycles; cache control stores it; anything else is a bus
/// error.
pub open spec fn bus_writes(b: Bus, n: Bus, address: u32, size: usize, v: u32, r: WriteMemoryAccess) -> bool {
    let m = map_of(address);
    let nb = (size / 8) as nat;
    if cache_isolated(b.cop0) {
        n == b && r == (if b.cache_control_reg & 4 != 0 { WriteMemoryAccess::InvalidateICacheTag }
            else { WriteMemoryAccess::InvalidateICacheOpcode })
    } else if m.0 != MemorySegment::KUSEG && !kernel_mode(b.cop0) {
        n == b && r == WriteMemoryAccess::MemoryError
    } else {
        match m.1 {
            MemorySection::MainRAM => if ram_reached(m.3, size) {
                n == (Bus { main_ram: n.main_ram, ..b }) && n.main_ram@ == le_store(b.main_ram@, ram_address(m.3), v, nb)
                    && r == WriteMemoryAccess::Write(RAM_ACCESS_CYCLES)
            } else {
                n == b && r == WriteMemoryAccess::BusError
            },
            MemorySection::ScratchPad => if m.3 + size / 8 <= SCRATCHPAD_LEN {
                n == (Bus { scratchpad: n.scratchpad, ..b }) && n.scratchpad@ == le_store(b.scratchpad@, m.3 as int, v, nb)
                    && r == WriteMemoryAccess::Write(SCRATCHPAD_ACCESS_CYCLES)
            } else {
                n == b && r == WriteMemoryAccess::BusError
            },
            MemorySection::BIOSRom => n == b && r == (if m.3 < 0x8_0000 { WriteMemoryAccess::WriteErrorReadOnly(8) }
                else { WriteMemoryAccess::BusError }),
            MemorySection::IOPorts => io_writes(b, n, m.2, size, v, r),
            MemorySection::ExpansionRegion1 => n == b && r == WriteMemoryAccess::Write(exp1_cycles(size)),
            MemorySection::ExpansionRegion2 => n == b && r == WriteMemoryAccess::Write(exp2_write_cycles(size)),
            MemorySection::ExpansionRegion3 => n == b && r == WriteMemoryAccess::Write(exp3_write_cycles(size)),
            MemorySection::CacheControl => n == (Bus { cache_control_reg: v, ..b }) && r == WriteMemoryAccess::Write(IO_REG_ACCESS_CYCLES),
            MemorySection::Unmapped => n == b && r == WriteMemoryAccess::BusError,
        }
    }
}

/// What a look at I/O register address `a` gives, with no effect: the register's value; the
/// SPU area zero; nothing where no register answers, nor for a SIO0 status with the clock
/// behind the transfer timer.
pub open spec fn io_peeks(b: Bus, a: u32, r: Option<u32>) -> bool {
    match io_target_of(a) {
        IoTarget::MemoryControl => r == Some(b.io_ports@[io_port_index(a)]),
        IoTarget::Timer(t, k) => r == Some(b.timer_regs@[t * 3 + k]),
        IoTarget::InterruptStatus => r == Some(b.interrupt.pending as u32),
        IoTarget::InterruptMask => r == Some(b.interrupt.mask as u32),
        IoTarget::Spu => r == Some(0u32),
        IoTarget::DmaMadr(ch) => r == Some(b.dma.channels[ch as int].madr_read),
        IoTarget::DmaBcr(ch) => r == Some(bcr_read_value(b.dma.channels[ch as int])),
        IoTarget::DmaChcr(ch) => r == Some(b.dma.channels[ch as int].chcr),
        IoTarget::DmaControl => r == Some(b.dma.dpcr),
        IoTarget::DmaInterrupt => r == Some(dicr_value(b.dma.dcir, b.dma.irq_flags)),
        IoTarget::DmaUnknown(k) => r == Some(if k == 0 { b.dma.reg_f8 } else { b.dma.reg_fc }),
        IoTarget::GpuData => r == Some(b.gpu.gpu_read_register),
        IoTarget::GpuStatus => r == Some(gpu_status(b.gpu)),
        IoTarget::Sio0Data => r == Some((if b.sio0.rx_fifo@.len() > 0 { b.sio0.rx_fifo@[0] } else { 0u8 }) as u32),
        IoTarget::Sio0Status => r == (if b.sio0.start_timer_timestamp <= b.clock.current_time {
            Some(sio_status(b.sio0, b.clock.current_time)) } else { None }),
        IoTarget::Sio0Mode => r == Some(b.sio0.mode as u32),
        IoTarget::Sio0Control => r == Some(b.sio0.ctrl as u32),
        IoTarget::Sio0Baud => r == Some(b.sio0.baud as u32),
        IoTarget::Unmapped => r is None,
    }
}

/// A look at `size` bits at `address`, with no effect and no privilege check.
pub open spec fn bus_peeks(b: Bus, address: u32, size: usize, r: Option<u32>) -> bool {
    let m = map_of(address);
    let nb = (size / 8) as nat;
    match m.1 {
        MemorySection::MainRAM => if ram_reached(m.3, size) {
            r matches Some(v) && v as nat == le_value(b.main_ram@, ram_address(m.3), nb)
        } else {
            r is None
        },
        MemorySection::ScratchPad => if m.3 + size / 8 <= SCRATCHPAD_LEN {
            r matches Some(v) && v as nat == le_value(b.scratchpad@, m.3 as int, nb)
        } else {
            r is None
        },
        MemorySection::BIOSRom => if bios_reached(b, m.3, size) {
            r matches Some(v) && v as nat == le_value(b.bios.memory@, m.3 as int, nb)
        } else {
            r is None
        },
        MemorySection::IOPorts => io_peeks(b, m.2, r),
        MemorySection::ExpansionRegion1 | MemorySection::ExpansionRegion2 | MemorySection::ExpansionRegion3 =>
            r == Some(exp_value(size)),
        MemorySection::CacheControl => r == Some(b.cache_control_reg),
        MemorySection::Unmapped => r is None,
    }
}

impl Bus {
    /// Looks at the I/O register at `address` (1F801000h-1F801FFFh, top bits cleared) without
    /// effect, as `io_peeks` says.
    #[verifier::rlimit(30)]
    pub fn io_peek(&self, address: u32) -> (r: Option<u32>)
        requires
            self.wf(),
            0x1F80_1000 <= address < 0x1F80_2000,
        ensures
            io_peeks(*self, address, r),
    {
        match io_target(address) {
            IoTarget::MemoryControl => Some(self.io_ports[((address - 0x1F80_1000) / 4) as usize]),
            IoTarget::Timer(t, k) => Some(self.timer_regs[(t as usize) * 3 + (k as usize)]),
            IoTarget::InterruptStatus => Some(self.interrupt.read_stat() as u32),
            IoTarget::InterruptMask => Some(self.interrupt.read_mask() as u32),
            IoTarget::Spu => Some(0),
            IoTarget::DmaMadr(ch) => Some(self.dma.read_madr(ch as usize)),
            IoTarget::DmaBcr(ch) => Some(self.dma.read_bcr(ch as usize)),
            IoTarget::DmaChcr(ch) => Some(self.dma.read_chcr(ch as usize)),
            IoTarget::DmaControl => Some(self.dma.read_dpcr()),
            IoTarget::DmaInterrupt => Some(self.dma.read_dicr()),
            IoTarget::DmaUnknown(k) => Some(if k == 0 { self.dma.read_reg_f8() } else { self.dma.read_reg_fc() }),
            IoTarget::GpuData => Some(self.gpu.gpu_read_peek()),
            IoTarget::GpuStatus => Some(self.gpu.gpu_stat_read()),
            IoTarget::Sio0Data => Some(self.sio0.peek_rx_data() as u32),
            IoTarget::Sio0Status => if self.sio0.start_timer_timestamp <= self.clock.current_time {
                Some(self.sio0.read_status(&self.clock))
            } else {
                None
            },
            IoTarget::Sio0Mode => Some(self.sio0.read_mode() as u32),
            IoTarget::Sio0Control => Some(self.sio0.read_ctrl() as u32),
            IoTarget::Sio0Baud => Some(self.sio0.read_baud() as u32),
            IoTarget::Unmapped => None,
        }
    }
}

/// The interrupt controller of the bus: raised lines go to I_STAT and the COP0 line follows.
impl InterruptController for Bus {
    open spec fn pending(&self) -> u16 {
        self.interrupt.pending
    }

    fn raise_hw_interrupts(&mut self, irqs: u16)
        ensures
            interrupt_set(*old(self), *final(self), InterruptState { pending: old(self).interrupt.pending | irqs, ..old(self).interrupt }),
    {
        self.interrupt.raise(irqs);
        self.interrupt.update_cop0(&mut self.cop0);
    }
}

/// The bus as the CPU's memory: every access is served while the bus is consistent.
impl Memory for Bus {
    open spec fn accepts(&self, address: u32, size: usize) -> bool {
        self.wf()
    }

    open spec fn reads(&self, new: Self, address: u32, size: usize, is_fetching: bool, r: ReadMemoryAccess) -> bool {
        bus_reads(*self, new, address, size, is_fetching, r)
    }

    open spec fn writes(&self, new: Self, address: u32, size: usize, value: u32, r: WriteMemoryAccess) -> bool {
        bus_writes(*self, new, address, size, value, r)
    }

    open spec fn peeks(&self, address: u32, size: usize, r: Option<u32>) -> bool {
        bus_peeks(*self, address, size, r)
    }

    #[verifier::rlimit(30)]
    #[verifier::spinoff_prover]
    fn read<const SIZE: usize>(&mut self, address: u32, is_fetching: bool) -> (r: ReadMemoryAccess) {
        let MemoryMap(segment, section, a, offset) = get_memory_map(address);
        if segment.is_kernel() && !self.cop0.is_in_kernel_mode() {
            return ReadMemoryAccess::MemoryError;
        }
        let r = match section {
            MemorySection::MainRAM => {
                let ra = offset & 0x1F_FFFF;
                proof { lemma_bus_bits(offset, 0, 0, 0, 0, 0, 0, 0, 0, 0, 0, 0, 0, 0, 0); }
                if offset < 0x80_0000 && (ra as usize) + SIZE / 8 <= self.main_ram.len() {
                    let v = mem_read::<SIZE>(ra, &self.main_ram);
                    proof {
                        lemma_le_value_bounds(self.main_ram@, ra as int);
                        assert(SIZE == 8 ==> v < 0x100);
                        assert(SIZE == 16 ==> v < 0x10000);
                    }
                    ReadMemoryAccess::Read(v, RAM_ACCESS_CYCLES)
                } else {
                    ReadMemoryAccess::BusError
                }
            },
            MemorySection::ScratchPad => {
                if !is_fetching && (offset as usize) + SIZE / 8 <= self.scratchpad.len() {
                    let v = mem_read::<SIZE>(offset, &self.scratchpad);
                    proof {
                        lemma_le_value_bounds(self.scratchpad@, offset as int);
                        assert(SIZE == 8 ==> v < 0x100);
                        assert(SIZE == 16 ==> v < 0x10000);
                    }
                    ReadMemoryAccess::Read(v, SCRATCHPAD_ACCESS_CYCLES)
                } else {
                    ReadMemoryAccess::BusError
                }
            },
            MemorySection::BIOSRom => {
                if offset < 0x8_0000 && (offset as usize) + SIZE / 8 <= self.bios.memory.len() {
                    let cycles: usize = if SIZE == 8 { 8 } else if SIZE == 16 { 12 } else { 24 };
                    let v = mem_read::<SIZE>(offset, &self.bios.memory);
                    proof {
                        lemma_le_value_bounds(self.bios.memory@, offset as int);
                        assert(SIZE == 8 ==> v < 0x100);
                        assert(SIZE == 16 ==> v < 0x10000);
                    }
                    ReadMemoryAccess::Read(v, cycles)
                } else {
                    ReadMemoryAccess::BusError
                }
            },
            MemorySection::IOPorts => {
                let r = self.io_read(a, SIZE);
                proof {
                    assert(r matches ReadMemoryAccess::Read(v, _) ==> (SIZE == 8 ==> v < 0x100) && (SIZE == 16 ==> v < 0x10000));
                }
                r
            },
            MemorySection::ExpansionRegion1 | MemorySection::ExpansionRegion2 | MemorySection::ExpansionRegion3 => {
                if SIZE == 8 {
                    ReadMemoryAccess::Read(0xFF, 7)
                } else if SIZE == 16 {
                    ReadMemoryAccess::Read(0xFFFF, 13)
                } else {
                    ReadMemoryAccess::Read(0xFFFF_FFFF, 25)
                }
            },
            MemorySection::CacheControl => {
                let raw = self.cache_control_reg;
                proof { lemma_fit(raw); }
                let v = if SIZE == 8 { raw & 0xFF } else if SIZE == 16 { raw & 0xFFFF } else { raw };
                proof {
                    assert(SIZE == 8 ==> v < 0x100);
                    assert(SIZE == 16 ==> v < 0x10000);
                }
                ReadMemoryAccess::Read(v, IO_REG_ACCESS_CYCLES)
            },
            MemorySection::Unmapped => ReadMemoryAccess::BusError,
        };
        proof {
            assert(r matches ReadMemoryAccess::Read(v, _) ==> (SIZE == 8 ==> v < 0x100) && (SIZE == 16 ==> v < 0x10000));
        }
        r
    }

    #[verifier::rlimit(30)]
    fn write<const SIZE: usize>(&mut self, address: u32, value: u32) -> (r: WriteMemoryAccess) {
        if self.cop0.is_cache_isolated() {
            return if (self.cache_control_reg & 0x04) != 0 {
                WriteMemoryAccess::InvalidateICacheTag
            } else {
                WriteMemoryAccess::InvalidateICacheOpcode
            };
        }
        let MemoryMap(segment, section, a, offset) = get_memory_map(address);
        if segment.is_kernel() && !self.cop0.is_in_kernel_mode() {
            return WriteMemoryAccess::MemoryError;
        }
        match section {
            MemorySection::MainRAM => {
                let ra = offset & 0x1F_FFFF;
                proof { lemma_bus_bits(offset, 0, 0, 0, 0, 0, 0, 0, 0, 0, 0, 0, 0, 0, 0); }
                if offset < 0x80_0000 && (ra as usize) + SIZE / 8 <= self.main_ram.len() {
                    mem_write::<SIZE>(ra, value, &mut self.main_ram);
                    WriteMemoryAccess::Write(RAM_ACCESS_CYCLES)
                } else {
                    WriteMemoryAccess::BusError
                }
            },
            MemorySection::ScratchPad => {
                if (offset as usize) + SIZE / 8 <= self.scratchpad.len() {
                    mem_write::<SIZE>(offset, value, &mut self.scratchpad);
                    WriteMemoryAccess::Write(SCRATCHPAD_ACCESS_CYCLES)
                } else {
                    WriteMemoryAccess::BusError
                }
            },
            MemorySection::BIOSRom => {
                if offset < 0x8_0000 {
                    WriteMemoryAccess::WriteErrorReadOnly(8)
                } else {
                    WriteMemoryAccess::BusError
                }
            },
            MemorySection::IOPorts => self.io_write(a, value, SIZE),
            MemorySection::ExpansionRegion1 => WriteMemoryAccess::Write(if SIZE == 8 { 7 } else if SIZE == 16 { 13 } else { 25 }),
            MemorySection::ExpansionRegion2 => WriteMemoryAccess::Write(if SIZE == 8 { 11 } else if SIZE == 16 { 26 } else { 56 }),
            MemorySection::ExpansionRegion3 => WriteMemoryAccess::Write(if SIZE == 8 { 7 } else if SIZE == 16 { 6 } else { 10 }),
            MemorySection::CacheControl => {
                self.cache_control_reg = value;
                WriteMemoryAccess::Write(IO_REG_ACCESS_CYCLES)
            },
            MemorySection::Unmapped => WriteMemoryAccess::BusError,
        }
    }

    #[verifier::rlimit(30)]
    fn peek<const SIZE: usize>(&self, address: u32) -> (r: Option<u32>) {
        let MemoryMap(_segment, section, a, offset) = get_memory_map(address);
        match section {
            MemorySection::MainRAM => {
                let ra = offset & 0x1F_FFFF;
                proof { lemma_bus_bits(offset, 0, 0, 0, 0, 0, 0, 0, 0, 0, 0, 0, 0, 0, 0); }
                if offset < 0x80_0000 && (ra as usize) + SIZE / 8 <= self.main_ram.len() {
                    Some(mem_read::<SIZE>(ra, &self.main_ram))
                } else {
                    None
                }
            },
            MemorySection::ScratchPad => {
                if (offset as usize) + SIZE / 8 <= self.scratchpad.len() {
                    Some(mem_read::<SIZE>(offset, &self.scratchpad))
                } else {
                    None
                }
            },
            MemorySection::BIOSRom => {
                if offset < 0x8_0000 && (offset as usize) + SIZE / 8 <= self.bios.memory.len() {
                    Some(mem_read::<SIZE>(offset, &self.bios.memory))
                } else {
                    None
                }
            },
            MemorySection::IOPorts => self.io_peek(a),
            MemorySection::ExpansionRegion1 | MemorySection::ExpansionRegion2 | MemorySection::ExpansionRegion3 => {
                Some(if SIZE == 8 { 0xFF } else if SIZE == 16 { 0xFFFF } else { 0xFFFF_FFFF })
            },
            MemorySection::CacheControl => Some(self.cache_control_reg),
            MemorySection::Unmapped => None,
        }
    }
}

/// A RAM write read back at the same address and size gives the value written, cut to the size;
/// the 2MB mirrors over the first 8MB reach the same bytes.
pub proof fn lemma_bus_ram_read_after_write(b: Bus, n: Bus, n2: Bus, address: u32, address2: u32, size: usize, v: u32,
    w: WriteMemoryAccess, r: ReadMemoryAccess)
    requires
        b.wf(),
        size == 8 || size == 16 || size == 32,
        map_of(address).1 == MemorySection::MainRAM,
        map_of(address2).1 == MemorySection::MainRAM,
        ram_reached(map_of(address).3, size),
        map_of(address2).3 < 0x80_0000,
        ram_address(map_of(address2).3) == ram_address(map_of(address).3),
        !cache_isolated(b.cop0),
        map_of(address).0 == MemorySegment::KUSEG || kernel_mode(b.cop0),
        map_of(address2).0 == MemorySegment::KUSEG || kernel_mode(b.cop0),
        bus_writes(b, n, address, size, v, w),
        bus_reads(n, n2, address2, size, false, r),
    ensures
        w == WriteMemoryAccess::Write(RAM_ACCESS_CYCLES),
        n2 == n,
        r matches ReadMemoryAccess::Read(x, c) && x as nat == v as nat % crate::memory::pow256((size / 8) as nat)
            && c == RAM_ACCESS_CYCLES,
{
    crate::memory::lemma_read_after_write(b.main_ram@, ram_address(map_of(address).3), v, (size / 8) as nat);
}

} // verus!
