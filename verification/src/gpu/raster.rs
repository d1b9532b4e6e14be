use vstd::prelude::*;
use crate::gpu::{GPU, Raster, DisplayConfig, InterlaceField};

verus! {

/// What the end of a raster line asks of the rest of the machine: the cycles until the next
/// horizontal blank ends, whether the vertical blank ended (timer 1 leaves its blank) or started
/// (timer 1 enters its blank, the VBlank interrupt is raised and a frame is produced).
#[derive(Debug, Clone, Copy, PartialEq, Eq)]
pub struct LineEnd {
    pub delay: u64,
    pub vblank_ended: bool,
    pub vblank_started: bool,
}

/// The other field of an interlaced picture.
pub open spec fn other_field(f: InterlaceField) -> InterlaceField {
    match f {
        InterlaceField::Even => InterlaceField::Odd,
        InterlaceField::Odd => InterlaceField::Even,
    }
}

/// The end of a raster line: the next line starts; reaching the first line of the display
/// area ends the vertical blank, reaching its last one starts it; past the last line of the
/// frame the count wraps to zero, the vertical blank starts if it was not on, and an interlaced
/// picture moves to its other field.
pub open spec fn line_end_of(g: GPU, over_cycles: usize) -> (GPU, LineEnd) {
    let line = g.raster.raster_line + 1;
    let starts = line == g.display_config.vertical_start as int;
    let ends = !starts && line == g.display_config.vertical_end as int;
    let vb1 = if starts { false } else if ends { true } else { g.raster.v_blank };
    let wraps = line >= g.raster.total_lines;
    let forced = wraps && !vb1;
    (GPU {
        raster: Raster { raster_line: if wraps { 0usize } else { line as usize }, v_blank: vb1 || forced, ..g.raster },
        display_config: DisplayConfig {
            field: if wraps && g.display_config.interlaced { other_field(g.display_config.field) } else { g.display_config.field },
            ..g.display_config
        },
        ..g
    }, LineEnd {
        delay: (g.display_config.horizontal_start - over_cycles) as u64,
        vblank_ended: starts,
        vblank_started: ends || forced,
    })
}

impl GPU {
    /// End of the horizontal blank: the blank is off; returns the cycles until it starts again
    /// (end of the display range, less the cycles already past). Timer 0 leaves its blank.
    pub fn on_hblank_end(&mut self, over_cycles: usize) -> (delay: u64)
        requires
            old(self).display_config.horizontal_start as int + over_cycles as int <= old(self).display_config.horizontal_end as int,
        ensures
            delay == old(self).display_config.horizontal_end - old(self).display_config.horizontal_start - over_cycles,
            *final(self) == (GPU { raster: Raster { h_blank: false, ..old(self).raster }, ..*old(self) }),
    {
        self.raster.h_blank = false;
        self.display_config.horizontal_end as u64 - self.display_config.horizontal_start as u64 - over_cycles as u64
    }

    /// Start of the horizontal blank: the blank is on; returns the cycles until the raster line
    /// ends. Timer 0 enters its blank and timer 1 counts a horizontal blank.
    pub fn on_hblank_start(&mut self, over_cycles: usize) -> (delay: u64)
        requires
            old(self).display_config.horizontal_end as int + over_cycles as int <= old(self).raster.total_cycles as int,
        ensures
            delay == old(self).raster.total_cycles - old(self).display_config.horizontal_end - over_cycles,
            *final(self) == (GPU { raster: Raster { h_blank: true, ..old(self).raster }, ..*old(self) }),
    {
        self.raster.h_blank = true;
        self.raster.total_cycles as u64 - self.display_config.horizontal_end as u64 - over_cycles as u64
    }

    /// End of a raster line (see `line_end_of`); returns what the rest of the machine must do.
    #[verifier::spinoff_prover]
    #[verifier::rlimit(60)]
    pub fn on_raster_line_end(&mut self, over_cycles: usize) -> (r: LineEnd)
        requires
            over_cycles <= old(self).display_config.horizontal_start,
            old(self).raster.raster_line < usize::MAX,
        ensures
            (*final(self), r) == line_end_of(*old(self), over_cycles),
    {
        let delay = self.display_config.horizontal_start as u64 - over_cycles as u64;
        let line = self.raster.raster_line + 1;
        let starts = line == self.display_config.vertical_start as usize;
        let ends = !starts && line == self.display_config.vertical_end as usize;
        let vb1 = if starts { false } else if ends { true } else { self.raster.v_blank };
        let wraps = line >= self.raster.total_lines;
        let forced = wraps && !vb1;
        let new_line = if wraps { 0 } else { line };
        let field = if wraps && self.display_config.interlaced {
            match self.display_config.field {
                InterlaceField::Even => InterlaceField::Odd,
                InterlaceField::Odd => InterlaceField::Even,
            }
        } else {
            self.display_config.field
        };
        let raster = Raster { raster_line: new_line, v_blank: vb1 || forced, ..self.raster };
        self.raster = raster;
        self.display_config.field = field;
        LineEnd { delay, vblank_ended: starts, vblank_started: ends || forced }
    }
}

} // verus!
