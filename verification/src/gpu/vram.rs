use vstd::prelude::*;
use crate::clock::{Clock, ClockEvent, EventType, convert_cycles};
use crate::gpu::{GPU, Gp0Op, Gp0State, VRamCopyConfig, SemiTransparency, Color, VRAM_SIZE, vram_offset_15, pixel_at,
    copy_config_ok, blend_channel, channel, lemma_coord_masks};
use crate::gpu::timings::GPUTimings;

verus! {

/// The operation a GP0 command word starts, and whether it takes parameters (`None` for an
/// unknown command).
pub open spec fn gp0_operation(cmd: u32) -> Option<(bool, Gp0Op)> {
    let top = (cmd >> 29u32) & 7;
    let code = cmd >> 24u32;
    if top == 1 {
        Some((true, Gp0Op::PolygonRendering))
    } else if top == 2 {
        Some((true, Gp0Op::LineRendering))
    } else if top == 3 {
        Some((true, Gp0Op::RectangleRendering))
    } else if top == 4 {
        Some((true, Gp0Op::VramVramCopy))
    } else if top == 5 {
        Some((true, Gp0Op::CpuToVramCopy))
    } else if top == 6 {
        Some((true, Gp0Op::VramToCpuCopy))
    } else if code == 0x00 {
        Some((false, Gp0Op::Nop))
    } else if code == 0x01 {
        Some((false, Gp0Op::FlushTextureCache))
    } else if code == 0x02 {
        Some((true, Gp0Op::QuickVramFill))
    } else if code == 0xE1 {
        Some((false, Gp0Op::DrawModeSettings))
    } else if code == 0xE2 {
        Some((false, Gp0Op::TextureWindowSettings))
    } else if code == 0xE3 {
        Some((false, Gp0Op::DrawingAreaTopLeft))
    } else if code == 0xE4 {
        Some((false, Gp0Op::DrawingAreaBottomRight))
    } else if code == 0xE5 {
        Some((false, Gp0Op::DrawingOffset))
    } else if code == 0xE6 {
        Some((false, Gp0Op::MaskBitSettings))
    } else if code == 0x1F {
        Some((false, Gp0Op::SetIrq))
    } else if (0x04 <= code <= 0x1E) || code == 0xE0 || (0xE7 <= code <= 0xEF) {
        Some((false, Gp0Op::Nop))
    } else {
        None
    }
}

/// The blend of two RGB555 pixels (see `SemiTransparency::blend_rgb555`).
pub open spec fn blended(m: SemiTransparency, fg: u16, bg: u16) -> u16 {
    (blend_channel(m, channel(fg, 0), channel(bg, 0)) + 32 * blend_channel(m, channel(fg, 1), channel(bg, 1))
        + 1024 * blend_channel(m, channel(fg, 2), channel(bg, 2))) as u16
}

/// The halfword stored when `pixel` is drawn over `old` (`None`: the old pixel is protected).
/// With the mask checks on, a pixel whose mask bit is set is kept when preserving masked
/// pixels, and the mask bit is forced when asked; semi-transparent pixels are blended.
pub open spec fn drawn_pixel(preserve: bool, force: bool, old: u16, pixel: u16, use_mask: bool, semi: bool,
    mode: Option<SemiTransparency>) -> Option<u16> {
    if use_mask {
        if preserve && (old & 0x8000) != 0 {
            None
        } else {
            let p1: u16 = if force { pixel | 0x8000 } else { pixel };
            Some(if semi { blended(mode.unwrap(), p1, old) } else { p1 })
        }
    } else if semi {
        Some(blended(mode.unwrap(), pixel, old))
    } else {
        Some(pixel)
    }
}

/// VRAM with the halfword at byte `offset` replaced.
pub open spec fn with_pixel(vram: Seq<u8>, offset: int, p: u16) -> Seq<u8> {
    vram.update(offset, (p % 256) as u8).update(offset + 1, (p / 256) as u8)
}

/// VRAM after drawing `pixel` at byte `offset`.
pub open spec fn draw_effect(preserve: bool, force: bool, vram: Seq<u8>, offset: int, pixel: u16, use_mask: bool, semi: bool,
    mode: Option<SemiTransparency>) -> Seq<u8> {
    match drawn_pixel(preserve, force, pixel_at(vram, offset), pixel, use_mask, semi, mode) {
        Some(p) => with_pixel(vram, offset, p),
        None => vram,
    }
}

/// The word GPUREAD gives at a VRAM-to-CPU position: two pixels, the left one low.
pub open spec fn read_word(vram: Seq<u8>, c: VRamCopyConfig) -> u32 {
    let x = (c.coord_x + c.counter_x) as u16;
    let y = (c.coord_y + c.counter_y) as u16;
    (pixel_at(vram, vram_offset_15(x, y)) as int + 65536 * pixel_at(vram, vram_offset_15((x + 1) as u16, y)) as int) as u32
}

/// The transfer rectangle of a copy command: position masked to VRAM, sizes 1 to 1024 (or
/// 512) with zero meaning the most.
pub open spec fn copy_config_of(coord: u32, size: u32) -> VRamCopyConfig {
    let w = size as u16;
    let h = (size >> 16u32) as u16;
    VRamCopyConfig {
        coord_x: (coord as u16) & 0x3FF,
        coord_y: ((coord >> 16u32) as u16) & 0x1FF,
        counter_x: 0,
        counter_y: 0,
        width: if w == 0 { 0x400 } else { ((((w - 1) as u16) & 0x3FF) + 1) as u16 },
        height: if h == 0 { 0x200 } else { ((((h - 1) as u16) & 0x1FF) + 1) as u16 },
    }
}

/// A pixel written at byte `offset` reads back as written.
pub proof fn lemma_pixel_read_after_write(vram: Seq<u8>, offset: int, p: u16)
    requires
        0 <= offset,
        offset + 1 < vram.len(),
    ensures
        pixel_at(with_pixel(vram, offset, p), offset) == p,
        with_pixel(vram, offset, p).len() == vram.len(),
{
    let v = with_pixel(vram, offset, p);
    assert(v[offset] == (p % 256) as u8);
    assert(v[offset + 1] == (p / 256) as u8);
}

/// What `operation_cpu_to_vram_copy` does to the GPU and what it returns.
pub open spec fn cpu_to_vram_effect(o: GPU, f: GPU, word: u32, r: usize) -> bool {
    &&& r == 0
    &&& match o.gp0state {
            Gp0State::WaitingCommandParameters(op, None) =>
                f == (GPU { gp0state: Gp0State::WaitingCommandParameters(op, Some(2)), ..o }),
            Gp0State::WaitingCommandParameters(op, Some(_)) =>
                f.gp0state == Gp0State::VRamCopy(op, copy_config_of(o.cmd_fifo.view()[1], o.cmd_fifo.view()[2]))
                && f.vram == o.vram,
            Gp0State::VRamCopy(_, c) => {
                let x = ((c.coord_x + c.counter_x) as u16) & 0x3FF;
                let y = ((c.coord_y + c.counter_y) as u16) & 0x1FF;
                let v1 = draw_effect(o.preserve_masked_pixels, o.force_set_mask_bit, o.vram@, vram_offset_15((x + 1) as u16, y), (word / 65536) as u16, true, false, None);
                &&& f.vram@ == draw_effect(o.preserve_masked_pixels, o.force_set_mask_bit, v1, vram_offset_15(x, y), (word % 65536) as u16, true, false, None)
                &&& f.gp0state == o.gp0state
            },
            _ => f == o,
        }
}

/// What `operation_vram_to_cpu_copy` does to the GPU and what it returns.
pub open spec fn vram_to_cpu_effect(o: GPU, f: GPU, r: usize) -> bool {
    &&& r == 0
    &&& f.vram == o.vram
    &&& match o.gp0state {
            Gp0State::WaitingCommandParameters(op, None) =>
                f == (GPU { gp0state: Gp0State::WaitingCommandParameters(op, Some(2)), ..o }),
            Gp0State::WaitingCommandParameters(op, Some(_)) =>
                f.gp0state == Gp0State::VRamCopy(op, copy_config_of(o.cmd_fifo.view()[1], o.cmd_fifo.view()[2]))
                && f.ready_bits.ready_to_send_vram_to_cpu,
            _ => f == o,
        }
}

/// What `operation_nop` does to the GPU and what it returns.
pub open spec fn nop_effect(o: GPU, f: GPU, r: usize) -> bool {
    &&& r == 0
    &&& f.cmd_fifo.view() == (if o.cmd_fifo.view().len() > 0 {
            o.cmd_fifo.view().drop_first()
        } else {
            o.cmd_fifo.view()
        })
    &&& f == (GPU { cmd_fifo: f.cmd_fifo, ..o })
}

/// What `operation_flush_texture_cache` does to the GPU and what it returns.
pub open spec fn flush_effect(o: GPU, f: GPU, r: usize) -> bool {
    &&& r == 0
    &&& f.cmd_fifo.view() == (if o.cmd_fifo.view().len() > 0 {
            o.cmd_fifo.view().drop_first()
        } else {
            o.cmd_fifo.view()
        })
    &&& f == (GPU { cmd_fifo: f.cmd_fifo, ..o })
}

impl GPU {
    /// Which operation a GP0 command word starts.
    pub fn cmd_to_operation(cmd: u32) -> (r: Option<(bool, Gp0Op)>)
        ensures
            r == gp0_operation(cmd),
    {
        let top = (cmd >> 29u32) & 7;
        let code = cmd >> 24u32;
        if top == 1 {
            Some((true, Gp0Op::PolygonRendering))
        } else if top == 2 {
            Some((true, Gp0Op::LineRendering))
        } else if top == 3 {
            Some((true, Gp0Op::RectangleRendering))
        } else if top == 4 {
            Some((true, Gp0Op::VramVramCopy))
        } else if top == 5 {
            Some((true, Gp0Op::CpuToVramCopy))
        } else if top == 6 {
            Some((true, Gp0Op::VramToCpuCopy))
        } else if code == 0x00 {
            Some((false, Gp0Op::Nop))
        } else if code == 0x01 {
            Some((false, Gp0Op::FlushTextureCache))
        } else if code == 0x02 {
            Some((true, Gp0Op::QuickVramFill))
        } else if code == 0xE1 {
            Some((false, Gp0Op::DrawModeSettings))
        } else if code == 0xE2 {
            Some((false, Gp0Op::TextureWindowSettings))
        } else if code == 0xE3 {
            Some((false, Gp0Op::DrawingAreaTopLeft))
        } else if code == 0xE4 {
            Some((false, Gp0Op::DrawingAreaBottomRight))
        } else if code == 0xE5 {
            Some((false, Gp0Op::DrawingOffset))
        } else if code == 0xE6 {
            Some((false, Gp0Op::MaskBitSettings))
        } else if code == 0x1F {
            Some((false, Gp0Op::SetIrq))
        } else if (0x04 <= code && code <= 0x1E) || code == 0xE0 || (0xE7 <= code && code <= 0xEF) {
            Some((false, Gp0Op::Nop))
        } else {
            None
        }
    }

    /// Draws a halfword at a byte offset of VRAM, honouring the mask settings when `use_mask`
    /// and blending when semi-transparent (see `drawn_pixel`).
    pub fn draw_pixel_offset(&mut self, offset: usize, pixel: u16, use_mask: bool, semi_transparent: bool,
        semi_transparency: Option<SemiTransparency>)
        requires
            old(self).wf(),
            offset + 1 < VRAM_SIZE,
            semi_transparent ==> semi_transparency is Some,
        ensures
            final(self).wf(),
            final(self).vram@ == draw_effect(old(self).preserve_masked_pixels, old(self).force_set_mask_bit, old(self).vram@, offset as int, pixel, use_mask, semi_transparent,
                semi_transparency),
            *final(self) == (GPU { vram: final(self).vram, ..*old(self) }),
    {
        let old_pixel = self.get_pixel_15(offset);
        let mut to_write = pixel;
        if use_mask {
            if self.preserve_masked_pixels && (old_pixel & 0x8000) != 0 {
                return;
            }
            if self.force_set_mask_bit {
                to_write = to_write | 0x8000;
            }
            if semi_transparent {
                match semi_transparency {
                    Some(m) => {
                        to_write = m.blend_rgb555(to_write, old_pixel);
                    },
                    None => {},
                }
            }
        } else if semi_transparent {
            match semi_transparency {
                Some(m) => {
                    to_write = m.blend_rgb555(to_write, old_pixel);
                },
                None => {},
            }
        }
        self.vram.set(offset, (to_write % 256) as u8);
        self.vram.set(offset + 1, (to_write / 256) as u8);
    }

    /// GPUREAD: during a VRAM-to-CPU transfer, the next two pixels (the high one dropped at the
    /// end of an odd-width transfer, which then ends); otherwise the latch as it is.
    pub fn gpu_read_read(&mut self) -> (r: u32)
        requires
            old(self).wf(),
        ensures
            final(self).wf(),
            r == final(self).gpu_read_register,
            final(self).vram == old(self).vram,
            match old(self).gp0state {
                Gp0State::VRamCopy(op, c) => {
                    let v = read_word(old(self).vram@, c);
                    match c.next_spec() {
                        Some(n) => final(self).gpu_read_register == v && final(self).gp0state == Gp0State::VRamCopy(op, n)
                            && final(self).ready_bits == old(self).ready_bits,
                        None => final(self).gpu_read_register == (if c.width % 2 == 1 { v % 65536 } else { v })
                            && final(self).gp0state == Gp0State::WaitingCommand
                            && !final(self).ready_bits.ready_to_send_vram_to_cpu
                            && final(self).ready_bits.ready_to_receive_cmd_word == old(self).ready_bits.ready_to_receive_cmd_word,
                    }
                },
                _ => *final(self) == *old(self),
            },
    {
        match self.gp0state {
            Gp0State::VRamCopy(op, config) => {
                let x = config.coord_x + config.counter_x;
                let y = config.coord_y + config.counter_y;
                let lo = self.get_pixel_15(self.get_vram_offset_15(x, y));
                let hi = self.get_pixel_15(self.get_vram_offset_15(x + 1, y));
                self.gpu_read_register = lo as u32 + (hi as u32) * 65536;
                match config.next() {
                    Some(n) => {
                        self.gp0state = Gp0State::VRamCopy(op, n);
                    },
                    None => {
                        if config.width % 2 == 1 {
                            self.gpu_read_register = self.gpu_read_register % 65536;
                        }
                        self.ready_bits.ready_to_send_vram_to_cpu = false;
                        self.gp0state = Gp0State::WaitingCommand;
                    },
                }
            },
            _ => {},
        }
        self.gpu_read_register
    }

    /// Takes the three words of a CPU/VRAM copy command from the command FIFO and starts the
    /// transfer over the rectangle they give.
    fn extract_cpu_vram_copy_parameters(&mut self, op: Gp0Op) -> (r: Gp0State)
        requires
            old(self).wf(),
            old(self).cmd_fifo.view().len() >= 3,
        ensures
            final(self).wf(),
            r == Gp0State::VRamCopy(op, copy_config_of(old(self).cmd_fifo.view()[1], old(self).cmd_fifo.view()[2])),
            copy_config_ok(copy_config_of(old(self).cmd_fifo.view()[1], old(self).cmd_fifo.view()[2])),
            final(self).cmd_fifo.view() == old(self).cmd_fifo.view().subrange(3, old(self).cmd_fifo.view().len() as int),
            *final(self) == (GPU { cmd_fifo: final(self).cmd_fifo, ..*old(self) }),
    {
        let _ = self.cmd_fifo.pop();
        let dest = match self.cmd_fifo.pop() { Some(v) => v, None => 0 };
        let size = match self.cmd_fifo.pop() { Some(v) => v, None => 0 };
        let w = size as u16;
        let h = (size >> 16u32) as u16;
        let cx = dest as u16;
        let cy = (dest >> 16u32) as u16;
        proof {
            lemma_coord_masks(cx, cy);
            lemma_coord_masks((w - 1) as u16, (h - 1) as u16);
        }
        let width: u16 = if w == 0 { 0x400 } else { ((w - 1) & 0x3FF) + 1 };
        let height: u16 = if h == 0 { 0x200 } else { ((h - 1) & 0x1FF) + 1 };
        proof {
            assert(self.cmd_fifo.view() =~= old(self).cmd_fifo.view().subrange(3, old(self).cmd_fifo.view().len() as int));
        }
        Gp0State::VRamCopy(op, VRamCopyConfig {
            coord_x: cx & 0x3FF,
            coord_y: cy & 0x1FF,
            counter_x: 0,
            counter_y: 0,
            width,
            height,
        })
    }

    /// CPU-to-VRAM copy: the command first asks for two parameters; with them the transfer
    /// starts; then each data word writes two pixels (high halfword at x + 1 first, then the
    /// low one at x), with the mask checks.
    pub fn operation_cpu_to_vram_copy(&mut self, word: u32) -> (r: usize)
        requires
            old(self).wf(),
            old(self).gp0state matches Gp0State::WaitingCommandParameters(_, Some(_)) ==> old(self).cmd_fifo.view().len() >= 3,
        ensures
            final(self).wf(),
            cpu_to_vram_effect(*old(self), *final(self), word, r),
    {
        match self.gp0state {
            Gp0State::WaitingCommandParameters(op, None) => {
                self.gp0state = Gp0State::WaitingCommandParameters(op, Some(2));
            },
            Gp0State::WaitingCommandParameters(op, Some(_)) => {
                self.gp0state = self.extract_cpu_vram_copy_parameters(op);
            },
            Gp0State::VRamCopy(_, c) => {
                let sx = c.coord_x + c.counter_x;
                let sy = c.coord_y + c.counter_y;
                proof {
                    lemma_coord_masks(sx, sy);
                }
                let x = sx & 0x3FF;
                let y = sy & 0x1FF;
                let off1 = self.get_vram_offset_15(x + 1, y);
                self.draw_pixel_offset(off1, (word / 65536) as u16, true, false, None);
                let off0 = self.get_vram_offset_15(x, y);
                self.draw_pixel_offset(off0, (word % 65536) as u16, true, false, None);
            },
            _ => {},
        }
        0
    }

    /// VRAM-to-CPU copy: the command first asks for two parameters; with them the transfer
    /// starts and GPUSTAT shows VRAM data ready to send.
    pub fn operation_vram_to_cpu_copy(&mut self) -> (r: usize)
        requires
            old(self).wf(),
            old(self).gp0state matches Gp0State::WaitingCommandParameters(_, Some(_)) ==> old(self).cmd_fifo.view().len() >= 3,
        ensures
            final(self).wf(),
            vram_to_cpu_effect(*old(self), *final(self), r),
    {
        match self.gp0state {
            Gp0State::WaitingCommandParameters(op, None) => {
                self.gp0state = Gp0State::WaitingCommandParameters(op, Some(2));
            },
            Gp0State::WaitingCommandParameters(op, Some(_)) => {
                self.gp0state = self.extract_cpu_vram_copy_parameters(op);
                self.ready_bits.ready_to_send_vram_to_cpu = true;
            },
            _ => {},
        }
        0
    }

    /// NOP: the command word is dropped from the command FIFO.
    pub fn operation_nop(&mut self) -> (r: usize)
        requires
            old(self).wf(),
        ensures
            final(self).wf(),
            nop_effect(*old(self), *final(self), r),
    {
        let _ = self.cmd_fifo.pop();
        0
    }

    /// Texture cache flush: nothing is cached, the command word is dropped.
    pub fn operation_flush_texture_cache(&mut self) -> (r: usize)
        requires
            old(self).wf(),
        ensures
            final(self).wf(),
            flush_effect(*old(self), *final(self), r),
    {
        let _ = self.cmd_fifo.pop();
        0
    }

    /// Marks the GPU busy for `cycles` GPU cycles and schedules the completion event.
    pub fn schedule_command_completion(&mut self, cycles: usize, clock: &mut Clock)
        requires
            old(clock).clock_config.gpu_hz > 0,
            old(clock).current_time + convert_cycles(cycles as u64, old(clock).clock_config.gpu_hz, old(clock).clock_config.cpu_hz)
                <= u64::MAX,
        ensures
            cycles == 0 ==> *final(self) == *old(self) && final(clock).events@ == old(clock).events@,
            cycles > 0 ==> *final(self) == (GPU { ready_bits: crate::gpu::ReadyBits { ready_to_receive_cmd_word: false,
                ..old(self).ready_bits }, ..*old(self) })
                && final(clock).events@ == old(clock).events@.push(ClockEvent { event_type: EventType::GPUCommandCompleted,
                    timestamp: (old(clock).current_time + convert_cycles(cycles as u64, old(clock).clock_config.gpu_hz,
                        old(clock).clock_config.cpu_hz)) as u64 }),
            final(clock).current_time == old(clock).current_time,
    {
        if cycles > 0 {
            self.ready_bits.ready_to_receive_cmd_word = false;
            clock.schedule_gpu(EventType::GPUCommandCompleted, cycles as u64);
        }
    }

    /// Schedules the end of the first horizontal blank.
    pub fn send_first_hblank_event(&self, clock: &mut Clock)
        requires
            old(clock).clock_config.gpu_hz > 0,
            old(clock).current_time + convert_cycles(self.display_config.horizontal_start as u64,
                old(clock).clock_config.gpu_hz, old(clock).clock_config.cpu_hz) <= u64::MAX,
        ensures
            final(clock).events@ == old(clock).events@.push(ClockEvent { event_type: EventType::HBlankEnd,
                timestamp: (old(clock).current_time + convert_cycles(self.display_config.horizontal_start as u64,
                    old(clock).clock_config.gpu_hz, old(clock).clock_config.cpu_hz)) as u64 }),
            final(clock).current_time == old(clock).current_time,
    {
        clock.schedule_gpu(EventType::HBlankEnd, self.display_config.horizontal_start as u64);
    }
}

/// The fill colour of a command word: its 24-bit RGB cut to RGB555, mask bit clear.
pub open spec fn fill_colour(cmd: u32) -> u16 {
    crate::gpu::reduce8(cmd as u8) | (crate::gpu::reduce8((cmd >> 8u32) as u8) << 5u16)
        | (crate::gpu::reduce8((cmd >> 16u32) as u8) << 10u16) | (0u16 << 15u16)
}

/// VRAM after filling the first `n` pixels of row `y` from `x0` with colour `c`.
pub open spec fn fill_row(v: Seq<u8>, x0: u16, y: u16, c: u16, n: int) -> Seq<u8>
    decreases n,
{
    if n <= 0 { v } else { with_pixel(fill_row(v, x0, y, c, n - 1), vram_offset_15((x0 + n - 1) as u16, y), c) }
}

/// VRAM after filling the first `m` rows of a `w`-pixel-wide rectangle at (x0, y0).
pub open spec fn fill_rect(v: Seq<u8>, x0: u16, y0: u16, w: int, c: u16, m: int) -> Seq<u8>
    decreases m,
{
    if m <= 0 { v } else { fill_row(fill_rect(v, x0, y0, w, c, m - 1), x0, (y0 + m - 1) as u16, c, w) }
}

/// VRAM after copying the first `n` pixels of a row, pixel by pixel, with the mask checks.
pub open spec fn copy_row(preserve: bool, force: bool, v: Seq<u8>, sx: u16, sy: u16, dx: u16, dy: u16, n: int) -> Seq<u8>
    decreases n,
{
    if n <= 0 {
        v
    } else {
        let p = copy_row(preserve, force, v, sx, sy, dx, dy, n - 1);
        draw_effect(preserve, force, p, vram_offset_15((dx + n - 1) as u16, dy), pixel_at(p, vram_offset_15((sx + n - 1) as u16, sy)), true, false, None)
    }
}

/// VRAM after copying the first `m` rows of a `w`-pixel-wide rectangle, row by row.
pub open spec fn copy_rect(preserve: bool, force: bool, v: Seq<u8>, sx: u16, sy: u16, dx: u16, dy: u16, w: int, m: int) -> Seq<u8>
    decreases m,
{
    if m <= 0 {
        v
    } else {
        copy_row(preserve, force, copy_rect(preserve, force, v, sx, sy, dx, dy, w, m - 1), sx, (sy + m - 1) as u16, dx, (dy + m - 1) as u16, w)
    }
}

/// Sizes of the fill and copy rectangles stay within VRAM's wrapping range.
pub proof fn lemma_fill_sizes(t: u16, s: u16)
    ensures
        (t & 0x3F0) <= 0x3F0,
        ((((s & 0x3FF) + 0xF) as u16) & !0xFu16) <= 0x400,
        (s & 0x1FF) <= 0x1FF,
{
    assert((t & 0x3F0) <= 0x3F0 && ((((s & 0x3FF) + 0xF) as u16) & !0xFu16) <= 0x400 && (s & 0x1FF) <= 0x1FF) by (bit_vector);
}

/// What `operation_quick_vram_fill` does to the GPU and what it returns.
pub open spec fn quick_fill_effect(o: GPU, f: GPU, r: usize) -> bool {
    &&& match o.gp0state {
            Gp0State::WaitingCommandParameters(op, None) => r == 0
                && f == (GPU { gp0state: Gp0State::WaitingCommandParameters(op, Some(2)), ..o }),
            Gp0State::WaitingCommandParameters(_, Some(_)) => {
                let q = o.cmd_fifo.view();
                let x0 = (q[1] as u16) & 0x3F0;
                let y0 = ((q[1] >> 16u32) as u16) & 0x1FF;
                let w = ((((q[2] as u16) & 0x3FF) + 0xF) as u16) & !0xFu16;
                let h = ((q[2] >> 16u32) as u16) & 0x1FF;
                &&& f.vram@ == fill_rect(o.vram@, x0, y0, w as int, fill_colour(q[0]), h as int)
                &&& f.gp0state == Gp0State::WaitingCommand
                &&& r == w * h
                &&& f.cmd_fifo.view() == q.subrange(3, q.len() as int)
            },
            _ => r == 0 && f == o,
        }
}

/// What `operation_vram_vram_copy` does to the GPU and what it returns.
pub open spec fn vram_copy_effect(o: GPU, f: GPU, r: usize) -> bool {
    &&& match o.gp0state {
            Gp0State::WaitingCommandParameters(op, None) => r == 0
                && f == (GPU { gp0state: Gp0State::WaitingCommandParameters(op, Some(3)), ..o }),
            Gp0State::WaitingCommandParameters(_, Some(_)) => {
                let q = o.cmd_fifo.view();
                let sx = (q[1] as u16) & 0x3FF;
                let sy = ((q[1] >> 16u32) as u16) & 0x1FF;
                let dx = (q[2] as u16) & 0x3FF;
                let dy = ((q[2] >> 16u32) as u16) & 0x1FF;
                let w = ((((q[3] as u16) - 1) as u16) & 0x3FF) + 1;
                let h = (((((q[3] >> 16u32) as u16) - 1) as u16) & 0x1FF) + 1;
                &&& f.vram@ == copy_rect(o.preserve_masked_pixels, o.force_set_mask_bit, o.vram@, sx, sy, dx, dy, w, h)
                &&& f.gp0state == Gp0State::WaitingCommand
                &&& r == 30 + (w * h) / 2
                &&& f.cmd_fifo.view() == q.subrange(4, q.len() as int)
            },
            _ => r == 0 && f == o,
        }
}

impl GPU {
    /// Fills `n` pixels of row `y` from `x0` with a colour (no mask checks).
    fn fill_row_exec(&mut self, x0: u16, y: u16, c: u16, n: u16)
        requires
            old(self).wf(),
            x0 as int + n <= 0xFFFF,
        ensures
            final(self).wf(),
            final(self).vram@ == fill_row(old(self).vram@, x0, y, c, n as int),
            *final(self) == (GPU { vram: final(self).vram, ..*old(self) }),
    {
        let mut x: u16 = 0;
        while x < n
            invariant
                self.wf(),
                x <= n,
                x0 as int + n <= 0xFFFF,
                self.vram@ == fill_row(old(self).vram@, x0, y, c, x as int),
                *self == (GPU { vram: self.vram, ..*old(self) }),
            decreases n - x,
        {
            let off = self.get_vram_offset_15(x0 + x, y);
            self.draw_pixel_offset(off, c, false, false, None);
            x = x + 1;
        }
    }

    /// Quick VRAM fill: the command first asks for two parameters; then the rectangle (x in
    /// steps of 16 pixels, width rounded up to 16) is filled with the command's colour, without
    /// mask checks.
    pub fn operation_quick_vram_fill(&mut self) -> (r: usize)
        requires
            old(self).wf(),
            old(self).gp0state matches Gp0State::WaitingCommandParameters(_, Some(_)) ==> old(self).cmd_fifo.view().len() >= 3,
        ensures
            final(self).wf(),
            quick_fill_effect(*old(self), *final(self), r),
    {
        match self.gp0state {
            Gp0State::WaitingCommandParameters(op, None) => {
                self.gp0state = Gp0State::WaitingCommandParameters(op, Some(2));
                0
            },
            Gp0State::WaitingCommandParameters(_, Some(_)) => {
                let ghost q = self.cmd_fifo.view();
                let c0 = match self.cmd_fifo.pop() { Some(v) => v, None => 0 };
                let top_left = match self.cmd_fifo.pop() { Some(v) => v, None => 0 };
                let wh = match self.cmd_fifo.pop() { Some(v) => v, None => 0 };
                proof {
                    assert(self.cmd_fifo.view() =~= q.subrange(3, q.len() as int));
                }
                let fill = Color::from_u32(c0).to_u16();
                let t = top_left as u16;
                let s = wh as u16;
                let hs = (wh >> 16u32) as u16;
                let ty = (top_left >> 16u32) as u16;
                proof {
                    lemma_fill_sizes(t, s);
                    lemma_fill_sizes(t, hs);
                    lemma_coord_masks(s, ty);
                }
                let x0 = t & 0x3F0;
                let y0 = ty & 0x1FF;
                let width = ((s & 0x3FF) + 0xF) & !0xFu16;
                let height = hs & 0x1FF;
                let ghost start = self.vram@;
                let ghost q2 = self.cmd_fifo.view();
                let mut y: u16 = 0;
                while y < height
                    invariant
                        self.wf(),
                        y <= height,
                        height <= 0x1FF,
                        width <= 0x400,
                        x0 <= 0x3F0,
                        y0 <= 0x1FF,
                        self.vram@ == fill_rect(start, x0, y0, width as int, fill, y as int),
                        self.cmd_fifo.view() == q2,
                        self.gp0state == old(self).gp0state,
                    decreases height - y,
                {
                    self.fill_row_exec(x0, y0 + y, fill, width);
                    y = y + 1;
                }
                self.gp0state = Gp0State::WaitingCommand;
                GPUTimings::rectangle_fill(width, height)
            },
            _ => 0,
        }
    }

    /// Copies `n` pixels of a row, one by one, with the mask checks.
    fn copy_row_exec(&mut self, sx: u16, sy: u16, dx: u16, dy: u16, n: u16)
        requires
            old(self).wf(),
            sx as int + n <= 0xFFFF,
            dx as int + n <= 0xFFFF,
        ensures
            final(self).wf(),
            final(self).vram@ == copy_row(old(self).preserve_masked_pixels, old(self).force_set_mask_bit, old(self).vram@, sx, sy, dx, dy, n as int),
            *final(self) == (GPU { vram: final(self).vram, ..*old(self) }),
    {
        let mut x: u16 = 0;
        while x < n
            invariant
                self.wf(),
                x <= n,
                sx as int + n <= 0xFFFF,
                dx as int + n <= 0xFFFF,
                self.vram@ == copy_row(old(self).preserve_masked_pixels, old(self).force_set_mask_bit, old(self).vram@, sx, sy, dx, dy, x as int),
                *self == (GPU { vram: self.vram, ..*old(self) }),
            decreases n - x,
        {
            let src = self.get_vram_offset_15(sx + x, sy);
            let pixel = self.get_pixel_15(src);
            let dest = self.get_vram_offset_15(dx + x, dy);
            self.draw_pixel_offset(dest, pixel, true, false, None);
            x = x + 1;
        }
    }

    /// VRAM-to-VRAM copy: the command first asks for three parameters; then the rectangle is
    /// copied pixel by pixel, row by row, with the mask checks (sizes of zero are refused as
    /// the hardware masks them: `(size - 1) & mask + 1`).
    #[verifier::rlimit(30)]
    pub fn operation_vram_vram_copy(&mut self) -> (r: usize)
        requires
            old(self).wf(),
            old(self).gp0state matches Gp0State::WaitingCommandParameters(_, Some(_)) ==> ({
                let q = old(self).cmd_fifo.view();
                q.len() >= 4 && (q[3] as u16) != 0 && ((q[3] >> 16u32) as u16) != 0
            }),
        ensures
            final(self).wf(),
            vram_copy_effect(*old(self), *final(self), r),
    {
        match self.gp0state {
            Gp0State::WaitingCommandParameters(op, None) => {
                self.gp0state = Gp0State::WaitingCommandParameters(op, Some(3));
                0
            },
            Gp0State::WaitingCommandParameters(_, Some(_)) => {
                let ghost q = self.cmd_fifo.view();
                let _ = self.cmd_fifo.pop();
                let src = match self.cmd_fifo.pop() { Some(v) => v, None => 0 };
                let dest = match self.cmd_fifo.pop() { Some(v) => v, None => 0 };
                let wh = match self.cmd_fifo.pop() { Some(v) => v, None => 0 };
                proof {
                    assert(self.cmd_fifo.view() =~= q.subrange(4, q.len() as int));
                }
                let ws = (wh as u16) - 1;
                let hs = ((wh >> 16u32) as u16) - 1;
                let ssx = src as u16;
                let ssy = (src >> 16u32) as u16;
                let ddx = dest as u16;
                let ddy = (dest >> 16u32) as u16;
                proof {
                    lemma_coord_masks(ssx, ssy);
                    lemma_coord_masks(ddx, ddy);
                    lemma_coord_masks(ws, hs);
                }
                let sx = ssx & 0x3FF;
                let sy = ssy & 0x1FF;
                let dx = ddx & 0x3FF;
                let dy = ddy & 0x1FF;
                let width = (ws & 0x3FF) + 1;
                let height = (hs & 0x1FF) + 1;
                let ghost g0 = *self;
                let ghost start = self.vram@;
                let ghost q2 = self.cmd_fifo.view();
                let mut y: u16 = 0;
                while y < height
                    invariant
                        self.wf(),
                        y <= height,
                        height <= 0x200,
                        width <= 0x400,
                        sx <= 0x3FF && sy <= 0x1FF && dx <= 0x3FF && dy <= 0x1FF,
                        self.vram@ == copy_rect(g0.preserve_masked_pixels, g0.force_set_mask_bit, start, sx, sy, dx, dy, width as int, y as int),
                        *self == (GPU { vram: self.vram, ..g0 }),
                    decreases height - y,
                {
                    self.copy_row_exec(sx, sy + y, dx, dy + y, width);
                    y = y + 1;
                }
                self.gp0state = Gp0State::WaitingCommand;
                proof {
                    assert(width as int * height as int <= 0x400 * 0x200) by (nonlinear_arith)
                        requires width <= 0x400, height <= 0x200;
                }
                GPUTimings::vram_to_vram_copy(width as usize, height as usize)
            },
            _ => 0,
        }
    }
}

impl VRamCopyConfig {
    /// The position after one word (see `next`).
    pub open spec fn next_spec(&self) -> Option<VRamCopyConfig> {
        let cx = self.counter_x.wrapping_add(2);
        if cx >= self.width {
            if self.counter_y + 1 == self.height {
                None
            } else {
                Some(VRamCopyConfig { counter_x: 0, counter_y: (self.counter_y + 1) as u16, ..*self })
            }
        } else {
            Some(VRamCopyConfig { counter_x: cx, ..*self })
        }
    }
}

} // verus!
