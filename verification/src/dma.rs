use vstd::prelude::*;
use crate::clock::Clock;
use crate::interrupt::IrqHandler;
use crate::memory::{Memory, ReadMemoryAccess, WriteMemoryAccess};

verus! {

/// A device that DMA moves words to or from.
pub trait DmaDevice {
    /// Whether the device can take or give a word now.
    fn is_dma_ready(&self) -> bool;
    /// Whether the device asks for the next block.
    fn dma_request(&self) -> bool;
    /// A word from RAM to the device.
    fn dma_write(&mut self, word: u32, clock: &mut Clock, irq_handler: &mut IrqHandler);
    /// A word from the device to RAM.
    fn dma_read(&mut self) -> u32;
}

/// The devices of the seven DMA channels, by channel number.
pub trait DmaDevices: Sized {
    /// Whether the device of `channel` can take or give a word in this state.
    spec fn ready_for(&self, channel: usize) -> bool;
    /// Whether the device of `channel` asks for the next block in this state.
    spec fn requests_block(&self, channel: usize) -> bool;
    /// Handing `word` to the device of `channel` may leave the devices as `new`.
    spec fn takes(&self, new: Self, channel: usize, word: u32) -> bool;
    /// Taking a word from the device of `channel` may give `word` and leave the devices as `new`.
    spec fn gives(&self, new: Self, channel: usize, word: u32) -> bool;

    fn is_dma_ready(&self, channel: usize) -> (r: bool)
        ensures
            r == self.ready_for(channel),
    ;

    fn dma_request(&self, channel: usize) -> (r: bool)
        ensures
            r == self.requests_block(channel),
    ;

    fn dma_write(&mut self, channel: usize, word: u32, clock: &mut Clock, irq_handler: &mut IrqHandler)
        ensures
            old(self).takes(*final(self), channel, word),
    ;

    fn dma_read(&mut self, channel: usize) -> (r: u32)
        ensures
            old(self).gives(*final(self), channel, r),
    ;
}

/// Stand-in devices for every channel, always ready and always asking for the next block: each
/// word DMA hands them is kept with its channel, in order, and channel `n` gives `base + n`.
pub struct RecordingDevices {
    pub written: Vec<(usize, u32)>,
    pub base: u32,
}

impl DmaDevices for RecordingDevices {
    open spec fn ready_for(&self, channel: usize) -> bool {
        true
    }

    open spec fn requests_block(&self, channel: usize) -> bool {
        true
    }

    open spec fn takes(&self, new: Self, channel: usize, word: u32) -> bool {
        new.written@ == self.written@.push((channel, word)) && new.base == self.base
    }

    open spec fn gives(&self, new: Self, channel: usize, word: u32) -> bool {
        new == *self && word == self.base.wrapping_add(channel as u32)
    }

    fn is_dma_ready(&self, _channel: usize) -> (r: bool) {
        true
    }

    fn dma_request(&self, _channel: usize) -> (r: bool) {
        true
    }

    fn dma_write(&mut self, channel: usize, word: u32, _clock: &mut Clock, _irq_handler: &mut IrqHandler) {
        self.written.push((channel, word));
    }

    fn dma_read(&mut self, channel: usize) -> (r: u32) {
        self.base.wrapping_add(channel as u32)
    }
}

/// A channel with nothing behind it: always ready, reads zero.
pub struct DummyDMAChannel {}

impl DmaDevice for DummyDMAChannel {
    fn is_dma_ready(&self) -> (r: bool)
        ensures r,
    {
        true
    }

    fn dma_request(&self) -> (r: bool)
        ensures r,
    {
        true
    }

    fn dma_write(&mut self, _word: u32, _clock: &mut Clock, _irq_handler: &mut IrqHandler) {
    }

    fn dma_read(&mut self) -> (r: u32)
        ensures r == 0,
    {
        0
    }
}

#[derive(Debug, Clone, Copy, PartialEq, Eq, Structural)]
pub enum SyncMode {
    Manual,
    Slice,
    LinkedList,
}

/// The sync mode in CHCR bits 9-10 (3 is reserved).
pub open spec fn sync_mode_of(chcr: u32) -> SyncMode {
    let m = (chcr >> 9u32) & 3;
    if m == 0 { SyncMode::Manual } else if m == 1 { SyncMode::Slice } else { SyncMode::LinkedList }
}

impl SyncMode {
    pub fn from_chcr(chcr: u32) -> (r: Self)
        requires
            (chcr >> 9u32) & 3 != 3,
        ensures
            r == sync_mode_of(chcr),
    {
        let m = (chcr >> 9u32) & 3;
        if m == 0 {
            SyncMode::Manual
        } else if m == 1 {
            SyncMode::Slice
        } else {
            SyncMode::LinkedList
        }
    }
}

#[derive(Debug, Clone, Copy, PartialEq, Eq, Structural)]
pub enum TransferDirection {
    DeviceToRAM,
    RAMToDevice,
}

impl TransferDirection {
    /// CHCR bit 0: 0 device to RAM, 1 RAM to device.
    pub fn from_chcr(chcr: u32) -> (r: Self)
        ensures
            r == (if chcr & 1 == 0 { TransferDirection::DeviceToRAM } else { TransferDirection::RAMToDevice }),
    {
        if chcr & 1 == 0 {
            TransferDirection::DeviceToRAM
        } else {
            TransferDirection::RAMToDevice
        }
    }
}

#[derive(Debug, Clone, Copy, PartialEq, Eq, Structural)]
pub enum DMAResult {
    InProgress,
    Paused,
    Finished,
    BlockFinished,
}

/// One DMA channel's registers and transfer state.
pub struct DMAChannel {
    pub id: usize,
    /// MADR as the transfer uses it (bits 2-23).
    pub madr: u32,
    /// MADR as the CPU reads it.
    pub madr_read: u32,
    pub bcr: u32,
    pub chcr: u32,
    pub enabled: bool,
    pub bus_error: bool,
    pub sync_mode: SyncMode,
    pub transfer_direction: TransferDirection,
    pub remaining_words: u16,
    pub remaining_blocks: u16,
    pub waiting_next_block: bool,
    pub chopping_window_words: usize,
    pub chopping_window_cycles: usize,
    pub linked_list_header: Option<(u32, u32)>,
}

/// Remaining words and blocks after a (re)load from BCR: manual mode counts words only, slice
/// mode words per block and blocks (the blocks kept when only the words are reloaded),
/// linked lists neither.
pub open spec fn reload_counts(mode: SyncMode, bcr: u32, only_words: bool, blocks: u16) -> (u16, u16) {
    match mode {
        SyncMode::Manual => ((bcr & 0xFFFF) as u16, 0u16),
        SyncMode::Slice => ((bcr & 0xFFFF) as u16, if only_words { blocks } else { (bcr >> 16u32) as u16 }),
        SyncMode::LinkedList => (0u16, 0u16),
    }
}

/// Clearing the start bit (24) keeps the chopping bit (8).
pub proof fn lemma_clear_start_bit(c: u32)
    ensures
        ((c & !0x0100_0000u32) & 0x100) == (c & 0x100),
        ((c & !0x0100_0000u32) & 0x0100_0000) == 0,
{
    assert(((c & !0x0100_0000u32) & 0x100) == (c & 0x100) && ((c & !0x0100_0000u32) & 0x0100_0000) == 0) by (bit_vector);
}

pub proof fn lemma_madr_mask(v: u32)
    ensures
        (v & 0xFF_FFFC) < 0x100_0000,
        (v & 0xFF_FFFF) < 0x100_0000,
{
    assert((v & 0xFF_FFFC) < 0x100_0000 && (v & 0xFF_FFFF) < 0x100_0000) by (bit_vector);
}

/// All that DMA can address (24 bits) is served for 32-bit accesses.
pub open spec fn dma_reachable<M: Memory>(m: &M) -> bool {
    forall|a: u32| a < 0x100_0000 ==> #[trigger] m.accepts(a, 32)
}

/// Clearing the trigger bit (28) keeps the chopping bit.
pub proof fn lemma_clear_trigger_bit(c: u32)
    ensures
        ((c & !0x1000_0000u32) & 0x100) == (c & 0x100),
        ((c & !0x1000_0000u32) & 0x1000_0000) == 0,
        (c & 0x1000_0000) == 0 ==> (c & !0x1000_0000u32) == c,
{
    assert(((c & !0x1000_0000u32) & 0x100) == (c & 0x100) && ((c & !0x1000_0000u32) & 0x1000_0000) == 0
        && ((c & 0x1000_0000) == 0 ==> (c & !0x1000_0000u32) == c)) by (bit_vector);
}

/// Clearing the start bit leaves the trigger bit clear.
pub proof fn lemma_clear_start_bit_keeps_trigger(c: u32)
    ensures
        (c & 0x1000_0000) == 0 ==> ((c & !0x0100_0000u32) & 0x1000_0000) == 0,
{
    assert((c & 0x1000_0000) == 0 ==> ((c & !0x0100_0000u32) & 0x1000_0000) == 0) by (bit_vector);
}

/// The next MADR: four bytes up (CHCR bit 1 clear) or down, kept to 24 bits word aligned.
pub open spec fn next_madr(madr: u32, chcr: u32) -> u32 {
    (if chcr & 2 == 0 {
        if madr + 4 > u32::MAX { (madr + 4 - 0x1_0000_0000) as u32 } else { (madr + 4) as u32 }
    } else {
        if madr >= 4 { (madr - 4) as u32 } else { (madr + 0x1_0000_0000 - 4) as u32 }
    }) & 0xFF_FFFC
}

/// A 16-bit counter one step down, wrapping at zero.
pub open spec fn count_down(n: u16) -> u16 {
    if n == 0 { 0xFFFFu16 } else { (n - 1) as u16 }
}

/// Chopping word window from CHCR: `1 << bits 16-18` words.
pub open spec fn window_words(chcr: u32) -> usize {
    1usize << (((chcr >> 16u32) & 7) as usize)
}

/// Chopping CPU window from CHCR: `1 << bits 20-22` cycles.
pub open spec fn window_cycles(chcr: u32) -> usize {
    1usize << (((chcr >> 20u32) & 7) as usize)
}

/// The channel at the end of its transfer: CHCR bit 24 cleared, no linked-list header.
pub open spec fn completed(c: DMAChannel) -> DMAChannel {
    DMAChannel { chcr: c.chcr & !0x0100_0000u32, linked_list_header: None, ..c }
}

/// One chopping step and whether the transfer pauses: with chopping on (CHCR bit 8) and the
/// word window used up, a CPU cycle passes; when the CPU window is used up too both windows
/// reload, otherwise the transfer pauses.
pub open spec fn chopped(c: DMAChannel) -> (DMAChannel, bool) {
    if (c.chcr & 0x100) != 0 && c.chopping_window_words == 0 {
        if c.chopping_window_cycles == 1 {
            (DMAChannel { chopping_window_words: window_words(c.chcr), chopping_window_cycles: window_cycles(c.chcr), ..c }, false)
        } else {
            (DMAChannel { chopping_window_cycles: (c.chopping_window_cycles - 1) as usize, ..c }, true)
        }
    } else {
        (c, false)
    }
}

/// After a word in manual mode: one word less; at zero the transfer is complete, otherwise,
/// chopping, one word of the window is used and the transfer pauses when none is left.
pub open spec fn after_word_of(c: DMAChannel, chopping: bool) -> (DMAChannel, DMAResult) {
    let c1 = DMAChannel { remaining_words: count_down(c.remaining_words), ..c };
    if c1.remaining_words == 0 {
        (completed(c1), DMAResult::Finished)
    } else if chopping {
        let w = (c.chopping_window_words - 1) as usize;
        (DMAChannel { chopping_window_words: w, ..c1 }, if w == 0 { DMAResult::Paused } else { DMAResult::InProgress })
    } else {
        (c1, DMAResult::InProgress)
    }
}

/// One word between RAM at MADR and the device of the channel, `done` telling whether it
/// moved: nothing happens when the device is not ready; otherwise MADR steps and the word goes
/// from the device to RAM or from RAM to the device. A failed memory access sets the bus error
/// flag; a failed read hands the device nothing.
pub open spec fn word_moved<M: Memory, D: DmaDevices>(c: DMAChannel, c2: DMAChannel, ma: M, mb: M, da: D, db: D,
    done: bool) -> bool {
    if !da.ready_for(c.id) {
        !done && c2 == c && mb == ma && db == da
    } else {
        &&& done
        &&& c2 == (DMAChannel { madr: next_madr(c.madr, c.chcr), bus_error: c2.bus_error, ..c })
        &&& match c.transfer_direction {
            TransferDirection::DeviceToRAM => exists|w: u32, wr: WriteMemoryAccess|
                #![trigger da.gives(db, c.id, w), ma.writes(mb, c.madr, 32, w, wr)]
                da.gives(db, c.id, w) && ma.writes(mb, c.madr, 32, w, wr)
                    && c2.bus_error == (c.bus_error || !(wr is Write)),
            TransferDirection::RAMToDevice => exists|rr: ReadMemoryAccess| #[trigger] ma.reads(mb, c.madr, 32, false, rr)
                && match rr {
                    ReadMemoryAccess::Read(v, _) => da.takes(db, c.id, v) && c2.bus_error == c.bus_error,
                    _ => db == da && c2.bus_error,
                },
        }
    }
}

/// One manual-mode step: the chopping step, then, unless it pauses, one word; `Paused` when the
/// device was not ready, otherwise the count goes down as `after_word_of` says.
pub open spec fn manual_step<M: Memory, D: DmaDevices>(c: DMAChannel, c2: DMAChannel, ma: M, mb: M, da: D, db: D,
    r: DMAResult) -> bool {
    let chopping = (c.chcr & 0x100) != 0;
    let c1 = chopped(c).0;
    if chopped(c).1 {
        r == DMAResult::Paused && c2 == c1 && mb == ma && db == da
    } else {
        exists|cw: DMAChannel, done: bool| #[trigger] word_moved(c1, cw, ma, mb, da, db, done)
            && if done { (c2, r) == after_word_of(cw, chopping) } else { r == DMAResult::Paused && c2 == cw }
    }
}

/// One step of the ordering table channel (6): the chopping step, then, unless it pauses, the
/// entry at MADR is written: the end marker FFFFFFh for the last word, otherwise the address
/// four bytes below, which becomes MADR (a failed write sets the bus error flag).
pub open spec fn ot_step<M: Memory>(c: DMAChannel, c2: DMAChannel, ma: M, mb: M, r: DMAResult) -> bool {
    let chopping = (c.chcr & 0x100) != 0;
    let c1 = chopped(c).0;
    if chopped(c).1 {
        r == DMAResult::Paused && c2 == c1 && mb == ma
    } else if c1.remaining_words == 1 {
        exists|wr: WriteMemoryAccess| #[trigger] ma.writes(mb, c1.madr, 32, 0xFF_FFFFu32, wr)
            && (c2, r) == after_word_of(c1, chopping)
    } else {
        let below = c1.madr.wrapping_sub(4) & 0xFF_FFFCu32;
        exists|wr: WriteMemoryAccess| #[trigger] ma.writes(mb, c1.madr, 32, below, wr)
            && (c2, r) == after_word_of(DMAChannel { madr: below, bus_error: c1.bus_error || !(wr is Write), ..c1 }, chopping)
    }
}

/// One slice-mode step: a channel waiting for the next block pauses until the device asks for
/// it; then one word moves (`Paused` when the device was not ready). The word count goes down;
/// at zero the block count goes down: at zero the transfer is complete, otherwise the words
/// reload from BCR and the channel waits for the next block.
pub open spec fn slice_step<M: Memory, D: DmaDevices>(c: DMAChannel, c2: DMAChannel, ma: M, mb: M, da: D, db: D,
    r: DMAResult) -> bool {
    if c.waiting_next_block && !da.requests_block(c.id) {
        r == DMAResult::Paused && c2 == c && mb == ma && db == da
    } else {
        let c0 = DMAChannel { waiting_next_block: false, ..c };
        exists|cw: DMAChannel, done: bool| #[trigger] word_moved(c0, cw, ma, mb, da, db, done) && if !done {
            r == DMAResult::Paused && c2 == cw
        } else if count_down(cw.remaining_words) != 0 {
            r == DMAResult::InProgress && c2 == (DMAChannel { remaining_words: count_down(cw.remaining_words), ..cw })
        } else if count_down(cw.remaining_blocks) == 0 {
            r == DMAResult::Finished && c2 == completed(DMAChannel { remaining_words: 0, remaining_blocks: 0, ..cw })
        } else {
            r == DMAResult::BlockFinished && c2 == (DMAChannel { remaining_words: (cw.bcr & 0xFFFF) as u16,
                remaining_blocks: count_down(cw.remaining_blocks), waiting_next_block: true, ..cw })
        }
    }
}

/// One linked-list step: the word at MADR is read (0 on a failed read, which sets the bus error
/// flag) and MADR steps. Without a header the word is one: its count (bits 24-31) makes it the
/// header, or, with no words, its next address (bits 0-23) ends the list when bit 23 is set and
/// otherwise becomes MADR. With a header the word goes to the device and one word less is left;
/// after the last one the next address ends the list or becomes MADR.
pub open spec fn linked_list_step<M: Memory, D: DmaDevices>(c: DMAChannel, c2: DMAChannel, ma: M, mb: M, da: D, db: D,
    r: DMAResult) -> bool {
    exists|rr: ReadMemoryAccess| #[trigger] ma.reads(mb, c.madr, 32, false, rr) && {
        let word: u32 = match rr { ReadMemoryAccess::Read(v, _) => v, _ => 0u32 };
        let c1 = DMAChannel { madr: next_madr(c.madr, c.chcr), bus_error: c.bus_error || !(rr is Read), ..c };
        match c.linked_list_header {
            None => {
                let next = word & 0xFF_FFFFu32;
                let words = word >> 24u32;
                &&& db == da
                &&& if words > 0 {
                        r == DMAResult::InProgress && c2 == (DMAChannel { linked_list_header: Some((next, words)), ..c1 })
                    } else if (next & 0x80_0000u32) != 0 {
                        r == DMAResult::Finished && c2 == completed(DMAChannel { madr_read: next, ..c1 })
                    } else {
                        r == DMAResult::InProgress && c2 == (DMAChannel { madr: next, ..c1 })
                    }
            },
            Some(h) => {
                &&& da.takes(db, c.id, word)
                &&& if h.1 != 1 {
                        r == DMAResult::InProgress && c2 == (DMAChannel { linked_list_header: Some((h.0, (h.1 - 1) as u32)), ..c1 })
                    } else if (h.0 & 0x80_0000u32) != 0 {
                        r == DMAResult::Finished && c2 == completed(DMAChannel { madr_read: h.0, ..c1 })
                    } else {
                        r == DMAResult::InProgress && c2 == (DMAChannel { madr: h.0, linked_list_header: None, ..c1 })
                    }
            },
        }
    }
}

/// One step of a channel: CHCR bit 28 (trigger) is cleared, then the step of its mode runs
/// (the ordering table step for channel 6 in manual mode).
pub open spec fn channel_step<M: Memory, D: DmaDevices>(c: DMAChannel, c2: DMAChannel, ma: M, mb: M, da: D, db: D,
    r: DMAResult) -> bool {
    let ct = DMAChannel { chcr: c.chcr & !0x1000_0000u32, ..c };
    match c.sync_mode {
        SyncMode::Manual => if c.id == 6 {
            ot_step(ct, c2, ma, mb, r) && db == da
        } else {
            manual_step(ct, c2, ma, mb, da, db, r)
        },
        SyncMode::Slice => slice_step(ct, c2, ma, mb, da, db, r),
        SyncMode::LinkedList => linked_list_step(ct, c2, ma, mb, da, db, r),
    }
}

impl DMAChannel {
    /// The chopping windows are set while chopping is on, a linked-list header announces words,
    /// and a linked-list transfer goes from RAM to the device.
    pub open spec fn wf(&self) -> bool {
        &&& (self.chcr & 0x100) != 0 ==> self.chopping_window_cycles >= 1
        &&& (self.linked_list_header matches Some(h) ==> h.1 > 0 && h.0 < 0x100_0000)
        &&& self.id < 7
        &&& self.madr < 0x100_0000
    }

    pub fn new(id: usize) -> (r: DMAChannel)
        requires
            id < 7,
        ensures
            r.wf(),
            r.id == id,
            r.madr == 0 && r.madr_read == 0 && r.bcr == 0 && r.chcr == 0,
            !r.enabled && !r.bus_error,
            r.sync_mode == SyncMode::Slice,
            r.transfer_direction == TransferDirection::DeviceToRAM,
            r.remaining_words == 0 && r.remaining_blocks == 0,
            !r.waiting_next_block,
            r.linked_list_header is None,
    {
        assert((0u32 & 0x100) == 0) by (bit_vector);
        DMAChannel {
            id,
            madr: 0,
            madr_read: 0,
            bcr: 0,
            chcr: 0,
            enabled: false,
            bus_error: false,
            sync_mode: SyncMode::Slice,
            transfer_direction: TransferDirection::DeviceToRAM,
            remaining_words: 0,
            remaining_blocks: 0,
            waiting_next_block: false,
            chopping_window_words: 0,
            chopping_window_cycles: 0,
            linked_list_header: None,
        }
    }

    /// Returns and clears the bus error flag.
    pub fn get_bus_error(&mut self) -> (r: bool)
        ensures
            r == old(self).bus_error,
            *final(self) == (DMAChannel { bus_error: false, ..*old(self) }),
    {
        let e = self.bus_error;
        self.bus_error = false;
        e
    }

    /// End of transfer: CHCR bit 24 cleared, no linked-list header pending.
    pub fn transfer_completed(&mut self)
        ensures
            *final(self) == (DMAChannel { chcr: old(self).chcr & !0x0100_0000u32, linked_list_header: None, ..*old(self) }),
    {
        self.chcr = self.chcr & !0x0100_0000u32;
        self.linked_list_header = None;
    }

    pub open spec fn is_ready_spec(&self) -> bool {
        self.enabled && (self.chcr & 0x0100_0000) != 0
            && (self.sync_mode == SyncMode::Manual ==> (self.chcr & 0x1000_0000) != 0)
    }

    /// Enabled, started (bit 24) and, in manual mode, triggered (bit 28).
    pub fn is_ready(&self) -> (r: bool)
        ensures
            r == self.is_ready_spec(),
    {
        let active = (self.chcr & 0x0100_0000) != 0;
        let trigger = (self.chcr & 0x1000_0000) != 0;
        let ready = match self.sync_mode {
            SyncMode::Manual => trigger && active,
            SyncMode::Slice => active,
            SyncMode::LinkedList => active,
        };
        self.enabled && ready
    }

    pub fn read_madr(&self) -> (r: u32)
        ensures r == self.madr_read,
    {
        self.madr_read
    }

    pub fn write_madr(&mut self, value: u32)
        ensures
            *final(self) == (DMAChannel { madr: value & 0xFF_FFFC, madr_read: value, ..*old(self) }),
            old(self).wf() ==> final(self).wf(),
    {
        proof {
            lemma_madr_mask(value);
        }
        self.madr = value & 0xFF_FFFC;
        self.madr_read = value;
    }

    /// BCR as read: remaining words in chopped manual mode, remaining blocks in the high half
    /// in slice mode, the written value otherwise.
    pub fn read_bcr(&self) -> (r: u32)
        ensures
            r == match self.sync_mode {
                SyncMode::Manual => if (self.chcr & 0x100) != 0 { self.remaining_words as u32 } else { self.bcr },
                SyncMode::Slice => (self.bcr & 0xFFFF) | ((self.remaining_blocks as u32) << 16u32),
                SyncMode::LinkedList => self.bcr,
            },
    {
        match self.sync_mode {
            SyncMode::Manual => {
                if (self.chcr & 0x100) != 0 {
                    self.remaining_words as u32
                } else {
                    self.bcr
                }
            },
            SyncMode::Slice => (self.bcr & 0xFFFF) | ((self.remaining_blocks as u32) << 16u32),
            SyncMode::LinkedList => self.bcr,
        }
    }

    fn update_remaining_blocks_words(&mut self, only_words: bool)
        ensures
            (final(self).remaining_words, final(self).remaining_blocks)
                == reload_counts(old(self).sync_mode, old(self).bcr, only_words, old(self).remaining_blocks),
            *final(self) == (DMAChannel { remaining_words: final(self).remaining_words,
                remaining_blocks: final(self).remaining_blocks, ..*old(self) }),
    {
        match self.sync_mode {
            SyncMode::Manual => {
                self.remaining_words = (self.bcr & 0xFFFF) as u16;
                self.remaining_blocks = 0;
            },
            SyncMode::Slice => {
                self.remaining_words = (self.bcr & 0xFFFF) as u16;
                if !only_words {
                    self.remaining_blocks = (self.bcr >> 16u32) as u16;
                }
            },
            SyncMode::LinkedList => {
                self.remaining_words = 0;
                self.remaining_blocks = 0;
            },
        }
    }

    pub fn write_bcr(&mut self, value: u32)
        ensures
            final(self).bcr == value,
            (final(self).remaining_words, final(self).remaining_blocks)
                == reload_counts(old(self).sync_mode, value, false, old(self).remaining_blocks),
            *final(self) == (DMAChannel { bcr: value, remaining_words: final(self).remaining_words,
                remaining_blocks: final(self).remaining_blocks, ..*old(self) }),
    {
        self.bcr = value;
        self.update_remaining_blocks_words(false);
    }

    pub fn read_chcr(&self) -> (r: u32)
        ensures r == self.chcr,
    {
        self.chcr
    }

    /// Chopping windows from CHCR: `1 << bits 16-18` words, `1 << bits 20-22` cycles.
    fn update_chopping_windows(&mut self)
        ensures
            final(self).chopping_window_words == 1usize << (((old(self).chcr >> 16u32) & 7) as usize),
            final(self).chopping_window_cycles == 1usize << (((old(self).chcr >> 20u32) & 7) as usize),
            final(self).chopping_window_words >= 1 && final(self).chopping_window_cycles >= 1,
            *final(self) == (DMAChannel { chopping_window_words: final(self).chopping_window_words,
                chopping_window_cycles: final(self).chopping_window_cycles, ..*old(self) }),
    {
        let ch = self.chcr;
        let w = ((ch >> 16u32) & 7) as usize;
        let c = ((ch >> 20u32) & 7) as usize;
        proof {
            assert(w < 8 && c < 8 && (1usize << w) >= 1 && (1usize << c) >= 1) by (bit_vector)
                requires w == ((ch >> 16u32) & 7) as usize, c == ((ch >> 20u32) & 7) as usize;
        }
        self.chopping_window_words = 1usize << w;
        self.chopping_window_cycles = 1usize << c;
    }

    /// CHCR write: channel 6 keeps only bits 24, 28 and 30 and always counts down; the mode,
    /// direction, counters and chopping windows follow the new value.
    pub fn write_chcr(&mut self, value: u32)
        requires
            old(self).wf(),
            old(self).id == 6 || (value >> 9u32) & 3 != 3,
        ensures
            final(self).wf(),
            final(self).chcr == (if old(self).id == 6 { (value & 0x5100_0000u32) | 2 } else { value }),
            final(self).sync_mode == sync_mode_of(final(self).chcr),
            final(self).transfer_direction == (if final(self).chcr & 1 == 0 { TransferDirection::DeviceToRAM } else { TransferDirection::RAMToDevice }),
            (final(self).remaining_words, final(self).remaining_blocks)
                == reload_counts(final(self).sync_mode, old(self).bcr, false, old(self).remaining_blocks),
            final(self).chopping_window_words == 1usize << (((final(self).chcr >> 16u32) & 7) as usize),
            final(self).chopping_window_cycles == 1usize << (((final(self).chcr >> 20u32) & 7) as usize),
            !final(self).waiting_next_block,
            final(self).linked_list_header is None,
            final(self).madr == old(self).madr && final(self).madr_read == old(self).madr_read,
            final(self).bcr == old(self).bcr && final(self).enabled == old(self).enabled,
            final(self).bus_error == old(self).bus_error && final(self).id == old(self).id,
    {
        self.chcr = value;
        if self.id == 6 {
            self.chcr = (self.chcr & 0x5100_0000u32) | 2;
            proof {
                assert(((((value & 0x5100_0000u32) | 2) >> 9u32) & 3) != 3) by (bit_vector);
            }
        }
        self.sync_mode = SyncMode::from_chcr(self.chcr);
        self.transfer_direction = TransferDirection::from_chcr(self.chcr);
        self.update_remaining_blocks_words(false);
        self.update_chopping_windows();
        self.waiting_next_block = false;
        self.linked_list_header = None;
    }

    /// One chopping step before a word: with chopping on and the word window used up, a CPU
    /// cycle passes; the windows reload when the CPU window is used up too. Returns whether the
    /// transfer must pause.
    fn chop(&mut self) -> (paused: bool)
        requires
            old(self).wf(),
        ensures
            final(self).id == old(self).id,
            final(self).enabled == old(self).enabled,
            final(self).wf(),
            final(self).madr == old(self).madr && final(self).chcr == old(self).chcr,
            final(self).remaining_words == old(self).remaining_words,
            final(self).remaining_blocks == old(self).remaining_blocks,
            final(self).linked_list_header == old(self).linked_list_header,
            final(self).bus_error == old(self).bus_error,
            final(self).sync_mode == old(self).sync_mode,
            final(self).transfer_direction == old(self).transfer_direction,
            final(self).waiting_next_block == old(self).waiting_next_block,
            final(self).madr_read == old(self).madr_read,
            (old(self).chcr & 0x100) == 0 ==> !paused && *final(self) == *old(self),
            !paused && (old(self).chcr & 0x100) != 0 ==> final(self).chopping_window_words >= 1,
            (*final(self), paused) == chopped(*old(self)),
    {
        if (self.chcr & 0x100) != 0 && self.chopping_window_words == 0 {
            self.chopping_window_cycles = self.chopping_window_cycles - 1;
            if self.chopping_window_cycles == 0 {
                self.update_chopping_windows();
            } else {
                return true;
            }
        }
        false
    }


    /// Manual-mode word transfer for the ordering table channel (6): each entry points to the
    /// one four bytes below, the last one holds the end marker FFFFFFh.
    pub fn do_dma_channel6_ot<M: Memory>(&mut self, mem: &mut M) -> (r: DMAResult)
        requires
            old(self).wf(),
            dma_reachable(&*old(mem)),
        ensures
            final(self).id == old(self).id,
            final(self).enabled == old(self).enabled,
            final(self).wf(),
            dma_reachable(&*final(mem)),
            r == DMAResult::Finished ==> final(self).remaining_words == 0
                && final(self).chcr == old(self).chcr & !0x0100_0000u32,
            r != DMAResult::Finished ==> final(self).chcr == old(self).chcr,
            r != DMAResult::BlockFinished,
            final(self).sync_mode == old(self).sync_mode,
            final(self).transfer_direction == old(self).transfer_direction,
            ot_step(*old(self), *final(self), *old(mem), *final(mem), r),
    {
        let chopping = (self.chcr & 0x100) != 0;
        if self.chop() {
            return DMAResult::Paused;
        }
        let ghost c1 = *self;
        let ghost m0 = *mem;
        if self.remaining_words == 1 {
            let wr = mem.write::<32>(self.madr, 0xFF_FFFF);
            assert(m0.writes(*mem, c1.madr, 32, 0xFF_FFFFu32, wr));
        } else {
            let target = self.madr;
            self.madr = target.wrapping_sub(4) & 0xFF_FFFC;
            proof {
                lemma_madr_mask(target.wrapping_sub(4));
            }
            let wr = mem.write::<32>(target, self.madr);
            match wr {
                WriteMemoryAccess::Write(_) => {},
                _ => {
                    self.bus_error = true;
                },
            }
            assert(m0.writes(*mem, c1.madr, 32, c1.madr.wrapping_sub(4) & 0xFF_FFFCu32, wr));
            assert(*self == (DMAChannel { madr: c1.madr.wrapping_sub(4) & 0xFF_FFFCu32,
                bus_error: c1.bus_error || !(wr is Write), ..c1 }));
        }
        self.after_word(chopping)
    }

    /// Moves one word between RAM at MADR and the device, stepping MADR; false (nothing done)
    /// when the device is not ready.
    fn dma_read_write_word<M: Memory, D: DmaDevices>(&mut self, mem: &mut M, devices: &mut D, clock: &mut Clock,
        irq_handler: &mut IrqHandler) -> (done: bool)
        requires
            old(self).wf(),
            dma_reachable(&*old(mem)),
        ensures
            final(self).wf(),
            dma_reachable(&*final(mem)),
            done ==> final(self).madr == next_madr(old(self).madr, old(self).chcr),
            !done ==> *final(self) == *old(self) && *final(mem) == *old(mem),
            final(self).chcr == old(self).chcr,
            final(self).remaining_words == old(self).remaining_words,
            final(self).remaining_blocks == old(self).remaining_blocks,
            final(self).sync_mode == old(self).sync_mode,
            final(self).transfer_direction == old(self).transfer_direction,
            final(self).linked_list_header == old(self).linked_list_header,
            final(self).waiting_next_block == old(self).waiting_next_block,
            final(self).chopping_window_words == old(self).chopping_window_words,
            final(self).chopping_window_cycles == old(self).chopping_window_cycles,
            final(self).bcr == old(self).bcr && final(self).id == old(self).id,
            final(self).enabled == old(self).enabled && final(self).madr_read == old(self).madr_read,
            word_moved(*old(self), *final(self), *old(mem), *final(mem), *old(devices), *final(devices), done),
    {
        if !devices.is_dma_ready(self.id) {
            return false;
        }
        let target = self.madr;
        let stepped = if (self.chcr & 2) == 0 { self.madr.wrapping_add(4) } else { self.madr.wrapping_sub(4) };
        self.madr = stepped & 0xFF_FFFC;
        proof {
            lemma_madr_mask(stepped);
        }
        match self.transfer_direction {
            TransferDirection::DeviceToRAM => {
                let word = devices.dma_read(self.id);
                let wr = mem.write::<32>(target, word);
                match wr {
                    WriteMemoryAccess::Write(_) => {},
                    _ => {
                        self.bus_error = true;
                    },
                }
                assert(old(devices).gives(*devices, old(self).id, word) && old(mem).writes(*mem, old(self).madr, 32, word, wr));
            },
            TransferDirection::RAMToDevice => {
                let rr = mem.read::<32>(target, false);
                match rr {
                    ReadMemoryAccess::Read(v, _) => {
                        devices.dma_write(self.id, v, clock, irq_handler);
                    },
                    _ => {
                        self.bus_error = true;
                    },
                }
                assert(old(mem).reads(*mem, old(self).madr, 32, false, rr));
            },
        }
        true
    }

    /// Manual (burst) mode: one word, chopped when CHCR bit 8 is set.
    pub fn do_dma_manual<M: Memory, D: DmaDevices>(&mut self, mem: &mut M, devices: &mut D, clock: &mut Clock,
        irq_handler: &mut IrqHandler) -> (r: DMAResult)
        requires
            old(self).wf(),
            dma_reachable(&*old(mem)),
        ensures
            final(self).id == old(self).id,
            final(self).enabled == old(self).enabled,
            final(self).wf(),
            dma_reachable(&*final(mem)),
            r == DMAResult::Finished ==> final(self).remaining_words == 0
                && final(self).chcr == old(self).chcr & !0x0100_0000u32,
            r != DMAResult::Finished ==> final(self).chcr == old(self).chcr,
            r != DMAResult::BlockFinished,
            final(self).sync_mode == old(self).sync_mode,
            final(self).transfer_direction == old(self).transfer_direction,
            manual_step(*old(self), *final(self), *old(mem), *final(mem), *old(devices), *final(devices), r),
    {
        let chopping = (self.chcr & 0x100) != 0;
        if self.chop() {
            return DMAResult::Paused;
        }
        let ghost c1 = *self;
        let ghost m0 = *mem;
        let ghost d0 = *devices;
        let done = self.dma_read_write_word(mem, devices, clock, irq_handler);
        assert(word_moved(c1, *self, m0, *mem, d0, *devices, done));
        if !done {
            return DMAResult::Paused;
        }
        self.after_word(chopping)
    }

    /// Slice mode: one word; at the end of a block, the next one waits for a device request.
    pub fn do_dma_slice<M: Memory, D: DmaDevices>(&mut self, mem: &mut M, devices: &mut D, clock: &mut Clock,
        irq_handler: &mut IrqHandler) -> (r: DMAResult)
        requires
            old(self).wf(),
            old(self).sync_mode == SyncMode::Slice,
            dma_reachable(&*old(mem)),
        ensures
            final(self).id == old(self).id,
            final(self).enabled == old(self).enabled,
            final(self).wf(),
            dma_reachable(&*final(mem)),
            final(self).sync_mode == SyncMode::Slice,
            final(self).transfer_direction == old(self).transfer_direction,
            r == DMAResult::Finished ==> final(self).remaining_blocks == 0
                && final(self).chcr == old(self).chcr & !0x0100_0000u32,
            r == DMAResult::BlockFinished ==> final(self).waiting_next_block
                && final(self).remaining_words == (old(self).bcr & 0xFFFF) as u16
                && final(self).remaining_blocks != 0,
            r == DMAResult::InProgress ==> final(self).remaining_words != 0
                && final(self).remaining_blocks == old(self).remaining_blocks,
            r != DMAResult::Finished ==> final(self).chcr == old(self).chcr,
            slice_step(*old(self), *final(self), *old(mem), *final(mem), *old(devices), *final(devices), r),
    {
        if self.waiting_next_block {
            if devices.dma_request(self.id) {
                self.waiting_next_block = false;
            } else {
                return DMAResult::Paused;
            }
        }
        let ghost c0 = *self;
        let ghost m0 = *mem;
        let ghost d0 = *devices;
        assert(c0 == (DMAChannel { waiting_next_block: false, ..*old(self) }));
        let done = self.dma_read_write_word(mem, devices, clock, irq_handler);
        let ghost cw = *self;
        assert(word_moved(c0, cw, m0, *mem, d0, *devices, done));
        if !done {
            return DMAResult::Paused;
        }
        self.remaining_words = if self.remaining_words == 0 { 0xFFFF } else { self.remaining_words - 1 };
        if self.remaining_words == 0 {
            self.remaining_blocks = if self.remaining_blocks == 0 { 0xFFFF } else { self.remaining_blocks - 1 };
            if self.remaining_blocks == 0 {
                proof {
                    lemma_clear_start_bit(self.chcr);
                }
                self.transfer_completed();
                return DMAResult::Finished;
            }
            self.update_remaining_blocks_words(true);
            self.waiting_next_block = true;
            return DMAResult::BlockFinished;
        }
        DMAResult::InProgress
    }

    /// Linked-list mode: reads a node header (next address in bits 0-23, word count in 24-31),
    /// then hands its words to the device; an address with bit 23 set ends the list.
    pub fn do_dma_linked_list<M: Memory, D: DmaDevices>(&mut self, mem: &mut M, devices: &mut D, clock: &mut Clock,
        irq_handler: &mut IrqHandler) -> (r: DMAResult)
        requires
            old(self).wf(),
            old(self).transfer_direction == TransferDirection::RAMToDevice,
            dma_reachable(&*old(mem)),
        ensures
            final(self).id == old(self).id,
            final(self).enabled == old(self).enabled,
            final(self).wf(),
            dma_reachable(&*final(mem)),
            final(self).transfer_direction == TransferDirection::RAMToDevice,
            final(self).sync_mode == old(self).sync_mode,
            r == DMAResult::Finished || r == DMAResult::InProgress,
            r == DMAResult::Finished ==> final(self).chcr == old(self).chcr & !0x0100_0000u32
                && final(self).linked_list_header is None && (final(self).madr_read & 0x80_0000) != 0,
            r == DMAResult::InProgress ==> final(self).chcr == old(self).chcr,
            linked_list_step(*old(self), *final(self), *old(mem), *final(mem), *old(devices), *final(devices), r),
    {
        let target = self.madr;
        let stepped = if (self.chcr & 2) == 0 { self.madr.wrapping_add(4) } else { self.madr.wrapping_sub(4) };
        self.madr = stepped & 0xFF_FFFC;
        proof {
            lemma_madr_mask(stepped);
        }
        let rr = mem.read::<32>(target, false);
        let word = match rr {
            ReadMemoryAccess::Read(v, _) => v,
            _ => {
                self.bus_error = true;
                0
            },
        };
        assert(old(mem).reads(*mem, old(self).madr, 32, false, rr));
        assert(self.madr == next_madr(old(self).madr, old(self).chcr));
        let (next_node_address, extra_words) = match self.linked_list_header {
            None => {
                let next_node_address = word & 0xFF_FFFF;
                let words = word >> 24u32;
                proof {
                    lemma_madr_mask(word);
                }
                if words > 0 {
                    self.linked_list_header = Some((next_node_address, words));
                } else {
                    self.linked_list_header = None;
                    if (next_node_address & 0x80_0000) != 0 {
                        self.madr_read = next_node_address;
                        proof {
                            lemma_clear_start_bit(self.chcr);
                        }
                        self.transfer_completed();
                        return DMAResult::Finished;
                    }
                    self.madr = next_node_address;
                }
                return DMAResult::InProgress;
            },
            Some(h) => h,
        };
        devices.dma_write(self.id, word, clock, irq_handler);
        let extra_words = extra_words - 1;
        if extra_words == 0 {
            if (next_node_address & 0x80_0000) != 0 {
                self.madr_read = next_node_address;
                proof {
                    lemma_clear_start_bit(self.chcr);
                }
                self.transfer_completed();
                return DMAResult::Finished;
            }
            self.madr = next_node_address;
            self.linked_list_header = None;
        } else {
            self.linked_list_header = Some((next_node_address, extra_words));
        }
        DMAResult::InProgress
    }

    /// One DMA step of this channel: CHCR bit 28 (trigger) is cleared, then the step of the
    /// channel's mode runs.
    pub fn do_dma<M: Memory, D: DmaDevices>(&mut self, mem: &mut M, devices: &mut D, clock: &mut Clock,
        irq_handler: &mut IrqHandler) -> (r: DMAResult)
        requires
            old(self).wf(),
            old(self).sync_mode == SyncMode::LinkedList ==> old(self).transfer_direction == TransferDirection::RAMToDevice,
            dma_reachable(&*old(mem)),
        ensures
            final(self).id == old(self).id,
            final(self).enabled == old(self).enabled,
            final(self).wf(),
            dma_reachable(&*final(mem)),
            final(self).sync_mode == old(self).sync_mode,
            final(self).transfer_direction == old(self).transfer_direction,
            (final(self).chcr & 0x1000_0000) == 0,
            r == DMAResult::Finished ==> final(self).chcr == (old(self).chcr & !0x1000_0000u32) & !0x0100_0000u32,
            r != DMAResult::Finished ==> final(self).chcr == old(self).chcr & !0x1000_0000u32,
            old(self).sync_mode == SyncMode::Manual ==> r != DMAResult::BlockFinished,
            old(self).sync_mode == SyncMode::LinkedList ==> r == DMAResult::Finished || r == DMAResult::InProgress,
            channel_step(*old(self), *final(self), *old(mem), *final(mem), *old(devices), *final(devices), r),
    {
        proof {
            lemma_clear_trigger_bit(self.chcr);
        }
        if (self.chcr & 0x1000_0000) != 0 {
            self.chcr = self.chcr & !0x1000_0000u32;
        }
        assert(*self == (DMAChannel { chcr: old(self).chcr & !0x1000_0000u32, ..*old(self) }));
        let r = match self.sync_mode {
            SyncMode::Manual => {
                if self.id == 6 {
                    self.do_dma_channel6_ot(mem)
                } else {
                    self.do_dma_manual(mem, devices, clock, irq_handler)
                }
            },
            SyncMode::Slice => self.do_dma_slice(mem, devices, clock, irq_handler),
            SyncMode::LinkedList => self.do_dma_linked_list(mem, devices, clock, irq_handler),
        };
        proof {
            lemma_clear_start_bit_keeps_trigger(old(self).chcr & !0x1000_0000u32);
        }
        r
    }

    /// After a word in manual mode: one word less; the end of the transfer, or a pause when
    /// the chopping word window is used up.
    fn after_word(&mut self, chopping: bool) -> (r: DMAResult)
        requires
            old(self).wf(),
            chopping == ((old(self).chcr & 0x100) != 0),
            chopping ==> old(self).chopping_window_words >= 1,
        ensures
            final(self).id == old(self).id,
            final(self).enabled == old(self).enabled,
            final(self).wf(),
            final(self).remaining_words == (if old(self).remaining_words == 0 { 0xFFFFu16 } else { (old(self).remaining_words - 1) as u16 }),
            final(self).remaining_words == 0 ==> r == DMAResult::Finished
                && final(self).chcr == old(self).chcr & !0x0100_0000u32 && final(self).linked_list_header is None,
            final(self).remaining_words != 0 ==> final(self).chcr == old(self).chcr
                && final(self).linked_list_header == old(self).linked_list_header
                && r == (if chopping && old(self).chopping_window_words == 1 { DMAResult::Paused } else { DMAResult::InProgress }),
            final(self).madr == old(self).madr && final(self).madr_read == old(self).madr_read,
            final(self).bus_error == old(self).bus_error,
            final(self).sync_mode == old(self).sync_mode,
            final(self).transfer_direction == old(self).transfer_direction,
            final(self).remaining_blocks == old(self).remaining_blocks,
            (*final(self), r) == after_word_of(*old(self), chopping),
    {
        self.remaining_words = if self.remaining_words == 0 { 0xFFFF } else { self.remaining_words - 1 };
        if self.remaining_words == 0 {
            proof {
                lemma_clear_start_bit(self.chcr);
            }
            self.transfer_completed();
            DMAResult::Finished
        } else if chopping {
            self.chopping_window_words = self.chopping_window_words - 1;
            if self.chopping_window_words == 0 {
                DMAResult::Paused
            } else {
                DMAResult::InProgress
            }
        } else {
            DMAResult::InProgress
        }
    }
}

/// Sort key of a (channel, priority) pair: priority, then channel.
pub open spec fn prio_key(p: (usize, usize)) -> int {
    p.1 * 8 + p.0
}

/// Priority of channel `ch` (7: the CPU) in DPCR.
pub open spec fn dpcr_priority(dpcr: u32, ch: int) -> usize {
    ((dpcr >> (4 * ch) as u32) & 7) as usize
}

/// Master enable of channel `ch` (7: the CPU bit) in DPCR.
pub open spec fn dpcr_enabled(dpcr: u32, ch: int) -> bool {
    ((dpcr >> (4 * ch + 3) as u32) & 1) != 0
}

/// DICR as read: bits 24-30 are replaced by the interrupt flags shifted to bits 16-22 (over
/// the mask), and bit 31 is set on a bus error (bit 15) or on an enabled (bit 23) flagged
/// channel that is unmasked.
pub open spec fn dicr_value(dcir: u32, irq_flags: u8) -> u32 {
    let d = (dcir & !0x7F00_0000u32) | ((irq_flags as u32) << 16u32);
    let mask = ((d >> 16u32) & 0x7F) as u8;
    let b31 = (d & 0x8000) != 0 || ((d & 0x80_0000) != 0 && (mask & irq_flags) != 0);
    d | (if b31 { 0x8000_0000u32 } else { 0u32 })
}

/// The (channel, priority) pairs whose key `priority * 8 + channel` is at least `k`, by
/// decreasing key.
pub open spec fn prio_list(dpcr: u32, k: int) -> Seq<(usize, usize)>
    decreases 64 - k,
{
    if k >= 64 || k < 0 {
        Seq::empty()
    } else {
        let rest = prio_list(dpcr, k + 1);
        if dpcr_priority(dpcr, k % 8) == k / 8 { rest.push(((k % 8) as usize, (k / 8) as usize)) } else { rest }
    }
}


/// The priority table lists each of the eight entries (the seven channels and the CPU) exactly
/// once, with its priority from DPCR, by strictly decreasing key `priority * 8 + channel`.
pub proof fn lemma_priority_table(dpcr: u32)
    ensures
        prio_list(dpcr, 0).len() == 8,
        forall|i: int, j: int| 0 <= i < j < prio_list(dpcr, 0).len()
            ==> prio_key(#[trigger] prio_list(dpcr, 0)[i]) > prio_key(#[trigger] prio_list(dpcr, 0)[j]),
        forall|c: int| 0 <= c < 8 ==> #[trigger] prio_list(dpcr, 0).contains((c as usize, dpcr_priority(dpcr, c))),
{
    lemma_prio_list_from(dpcr, 0);
    assert forall|c: int| 0 <= c < 8 implies #[trigger] prio_list(dpcr, 0).contains((c as usize, dpcr_priority(dpcr, c))) by {
        let k = dpcr_priority(dpcr, c) * 8 + c;
        lemma_priority_small(dpcr, c);
        assert(k % 8 == c && k / 8 == dpcr_priority(dpcr, c));
        assert(prio_list(dpcr, 0).contains((c as usize, dpcr_priority(dpcr, c))));
    }
    lemma_count_channels(dpcr, 0);
}

proof fn lemma_priority_small(dpcr: u32, c: int)
    ensures
        dpcr_priority(dpcr, c) < 8,
{
    let v = dpcr >> (4 * c) as u32;
    assert(v & 7 < 8) by (bit_vector);
}

/// Entries of `prio_list(dpcr, k)`: keys at least `k`, strictly decreasing, each matching DPCR;
/// and every channel whose key is at least `k` is there.
proof fn lemma_prio_list_from(dpcr: u32, k: int)
    requires
        0 <= k <= 64,
    ensures
        forall|i: int| 0 <= i < prio_list(dpcr, k).len() ==> {
            let e = #[trigger] prio_list(dpcr, k)[i];
            &&& k <= prio_key(e) < 64
            &&& e.0 < 8
            &&& e.1 == dpcr_priority(dpcr, e.0 as int)
        },
        forall|i: int, j: int| 0 <= i < j < prio_list(dpcr, k).len()
            ==> prio_key(#[trigger] prio_list(dpcr, k)[i]) > prio_key(#[trigger] prio_list(dpcr, k)[j]),
        forall|key: int| k <= key < 64 && dpcr_priority(dpcr, key % 8) == key / 8
            ==> #[trigger] prio_list(dpcr, k).contains(((key % 8) as usize, (key / 8) as usize)),
    decreases 64 - k,
{
    if k < 64 {
        lemma_prio_list_from(dpcr, k + 1);
        let rest = prio_list(dpcr, k + 1);
        if dpcr_priority(dpcr, k % 8) == k / 8 {
            let e = ((k % 8) as usize, (k / 8) as usize);
            assert(prio_list(dpcr, k) == rest.push(e));
            assert(prio_key(e) == k);
            assert forall|key: int| k <= key < 64 && dpcr_priority(dpcr, key % 8) == key / 8
                implies #[trigger] prio_list(dpcr, k).contains(((key % 8) as usize, (key / 8) as usize)) by {
                if key == k {
                    assert(prio_list(dpcr, k)[rest.len() as int] == e);
                } else {
                    assert(rest.contains(((key % 8) as usize, (key / 8) as usize)));
                    let idx = choose|idx: int| 0 <= idx < rest.len() && rest[idx] == ((key % 8) as usize, (key / 8) as usize);
                    assert(prio_list(dpcr, k)[idx] == rest[idx]);
                }
            }
        }
    }
}

/// Each entry has its own channel, so eight channels make eight entries.
proof fn lemma_count_channels(dpcr: u32, k: int)
    requires
        0 <= k <= 64,
    ensures
        prio_list(dpcr, k).len() == (if k == 0 { 8 } else { count_keys(dpcr, k) }),
    decreases 64 - k,
{
    lemma_count_keys(dpcr, k);
}

/// How many channels have their key at least `k`.
pub open spec fn count_keys(dpcr: u32, k: int) -> int
    decreases 64 - k,
{
    if k >= 64 || k < 0 { 0 } else { count_keys(dpcr, k + 1) + (if dpcr_priority(dpcr, k % 8) == k / 8 { 1int } else { 0 }) }
}

proof fn lemma_count_keys(dpcr: u32, k: int)
    requires
        0 <= k <= 64,
    ensures
        prio_list(dpcr, k).len() == count_keys(dpcr, k),
        k == 0 ==> count_keys(dpcr, k) == 8,
    decreases 64 - k,
{
    if k < 64 {
        lemma_count_keys(dpcr, k + 1);
    }
    if k == 0 {
        lemma_count_all(dpcr);
    }
}

/// Over all 64 keys, each channel's key occurs once.
proof fn lemma_count_all(dpcr: u32)
    ensures
        count_keys(dpcr, 0) == 8,
{
    assert forall|c: int| 0 <= c < 8 implies dpcr_priority(dpcr, c) < 8 by {
        lemma_priority_small(dpcr, c);
    }
    lemma_count_block(dpcr, 0);
    lemma_block_sum(dpcr, 0);
}

/// Keys `8p .. 8p+7` hold the channels whose priority is `p`; summing blocks from the top.
proof fn lemma_count_block(dpcr: u32, p: int)
    requires
        0 <= p <= 8,
        forall|c: int| 0 <= c < 8 ==> dpcr_priority(dpcr, c) < 8,
    ensures
        count_keys(dpcr, 8 * p) == count_prio_at_least(dpcr, p, 8),
    decreases 8 - p,
{
    if p < 8 {
        lemma_count_block(dpcr, p + 1);
        lemma_block_sum(dpcr, p);
        assert(8 * (p + 1) == 8 * p + 8);
    } else {
        reveal_with_fuel(count_prio_at_least, 9);
        assert(dpcr_priority(dpcr, 0) < 8 && dpcr_priority(dpcr, 1) < 8 && dpcr_priority(dpcr, 2) < 8 && dpcr_priority(dpcr, 3) < 8);
        assert(dpcr_priority(dpcr, 4) < 8 && dpcr_priority(dpcr, 5) < 8 && dpcr_priority(dpcr, 6) < 8 && dpcr_priority(dpcr, 7) < 8);
    }
}

/// Channels below `n` whose priority is at least `p`.
pub open spec fn count_prio_at_least(dpcr: u32, p: int, n: int) -> int
    decreases n,
{
    if n <= 0 { 0 } else { count_prio_at_least(dpcr, p, n - 1) + (if dpcr_priority(dpcr, n - 1) >= p { 1int } else { 0 }) }
}

proof fn lemma_block_sum(dpcr: u32, p: int)
    requires
        0 <= p < 8,
    ensures
        count_keys(dpcr, 8 * p) == count_keys(dpcr, 8 * p + 8) + count_prio_eq(dpcr, p, 8),
        count_prio_at_least(dpcr, p, 8) == count_prio_at_least(dpcr, p + 1, 8) + count_prio_eq(dpcr, p, 8),
        p == 0 ==> count_prio_at_least(dpcr, 0, 8) == 8,
{
    lemma_key_steps(dpcr, p, 8);
    lemma_at_least_split(dpcr, p, 8);
    lemma_at_least_zero(dpcr, 8);
}

/// The first `n` keys of block `p` count the channels below `n` whose priority is `p`.
proof fn lemma_key_steps(dpcr: u32, p: int, n: int)
    requires
        0 <= p < 8,
        0 <= n <= 8,
    ensures
        count_keys(dpcr, 8 * p) == count_keys(dpcr, 8 * p + n) + count_prio_eq(dpcr, p, n),
    decreases n,
{
    if n > 0 {
        lemma_key_steps(dpcr, p, n - 1);
        lemma_key_step(dpcr, p, n - 1);
    }
}

/// One key of block `p`: the key `8p + c` counts channel `c` when its priority is `p`.
proof fn lemma_key_step(dpcr: u32, p: int, c: int)
    requires
        0 <= p < 8,
        0 <= c < 8,
    ensures
        count_keys(dpcr, 8 * p + c) == count_keys(dpcr, 8 * p + c + 1) + (if dpcr_priority(dpcr, c) == p { 1int } else { 0 }),
{
    vstd::arithmetic::div_mod::lemma_fundamental_div_mod_converse(8 * p + c, 8, p, c);
}

proof fn lemma_at_least_split(dpcr: u32, p: int, n: int)
    requires
        0 <= n,
    ensures
        count_prio_at_least(dpcr, p, n) == count_prio_at_least(dpcr, p + 1, n) + count_prio_eq(dpcr, p, n),
    decreases n,
{
    if n > 0 {
        lemma_at_least_split(dpcr, p, n - 1);
    }
}

proof fn lemma_at_least_zero(dpcr: u32, n: int)
    requires
        0 <= n,
    ensures
        count_prio_at_least(dpcr, 0, n) == n,
    decreases n,
{
    if n > 0 {
        lemma_at_least_zero(dpcr, n - 1);
    }
}

/// Channels below `n` whose priority is exactly `p`.
pub open spec fn count_prio_eq(dpcr: u32, p: int, n: int) -> int
    decreases n,
{
    if n <= 0 { 0 } else { count_prio_eq(dpcr, p, n - 1) + (if dpcr_priority(dpcr, n - 1) == p { 1int } else { 0 }) }
}

/// The first channel in priority table order (the CPU entry skipped) that is ready.
pub open spec fn first_ready(d: DMAController, c: int) -> bool {
    &&& 0 <= c < 7
    &&& d.channels[c].is_ready_spec()
    &&& exists|i: int| 0 <= i < d.priorities@.len() && #[trigger] d.priorities@[i].0 == c
        && forall|k: int| 0 <= k < i ==> !(#[trigger] d.priorities@[k].0 < 7
            && d.channels[d.priorities@[k].0 as int].is_ready_spec())
}

/// The channel a DMA cycle works on: the one in progress while DPCR is unchanged, otherwise,
/// with DMA enabled, the first ready one.
pub open spec fn dma_picked(d: DMAController, c: int) -> bool {
    if d.dma_in_progress_on_channel is Some && !d.dpcr_changed {
        d.dma_in_progress_on_channel.unwrap() == c
    } else {
        d.dma_enabled && first_ready(d, c)
    }
}

/// Channel `c` takes one step: it becomes `c2`, and the controller forgets the channel in
/// progress when the transfer is finished; nothing else changes. `r`: the transfer goes on.
pub open spec fn picked_step<M: Memory, D: DmaDevices>(d: DMAController, c: int, d2: DMAController, ma: M, mb: M,
    da: D, db: D, r: bool) -> bool {
    exists|c2: DMAChannel, res: DMAResult| #[trigger] channel_step(d.channels[c], c2, ma, mb, da, db, res)
        && d2.channels@ == d.channels@.update(c, c2)
        && d2 == (DMAController { channels: d2.channels,
            dma_in_progress_on_channel: if res == DMAResult::Finished { None } else { d.dma_in_progress_on_channel }, ..d })
        && r == (res == DMAResult::InProgress)
}

/// One DMA cycle: the channel in progress takes a step while DPCR is unchanged; otherwise the
/// DPCR change is taken note of and, with DMA enabled, the first ready channel becomes the one
/// in progress and takes a step; with none, nothing else happens.
pub open spec fn controller_step<M: Memory, D: DmaDevices>(d: DMAController, d2: DMAController, ma: M, mb: M,
    da: D, db: D, r: bool) -> bool {
    if d.dma_in_progress_on_channel is Some && !d.dpcr_changed {
        picked_step(d, d.dma_in_progress_on_channel.unwrap() as int, d2, ma, mb, da, db, r)
    } else if d.dma_enabled && exists|c: int| #[trigger] first_ready(d, c) {
        exists|c: int| #[trigger] first_ready(d, c) && picked_step(DMAController { dpcr_changed: false,
            dma_in_progress_on_channel: Some(c as usize), ..d }, c, d2, ma, mb, da, db, r)
    } else {
        !r && d2 == (DMAController { dpcr_changed: false, ..d }) && mb == ma && db == da
    }
}

/// Step `k` of a run of DMA cycles: controller, memory and devices go from entry `k` to
/// entry `k + 1`, the cycle answering `rs[k]`.
pub open spec fn run_step<M: Memory, D: DmaDevices>(ds: Seq<DMAController>, ms: Seq<M>, dvs: Seq<D>, rs: Seq<bool>,
    k: int) -> bool {
    controller_step(ds[k], ds[k + 1], ms[k], ms[k + 1], dvs[k], dvs[k + 1], rs[k])
}

/// A run of DMA cycles: one more state than cycles, each cycle a controller step.
pub open spec fn dma_run<M: Memory, D: DmaDevices>(ds: Seq<DMAController>, ms: Seq<M>, dvs: Seq<D>, rs: Seq<bool>) -> bool {
    &&& ds.len() == rs.len() + 1
    &&& ms.len() == ds.len()
    &&& dvs.len() == ds.len()
    &&& forall|k: int| 0 <= k < rs.len() ==> #[trigger] run_step(ds, ms, dvs, rs, k)
}

/// The DMA controller: seven channels, the priority and interrupt registers.
pub struct DMAController {
    pub channels: [DMAChannel; 7],
    pub dpcr: u32,
    pub dpcr_changed: bool,
    pub dcir: u32,
    /// (channel, priority) pairs, channel 7 standing for the CPU, by decreasing priority key.
    pub priorities: Vec<(usize, usize)>,
    pub irq_flags: u8,
    pub reg_f8: u32,
    pub reg_fc: u32,
    pub dma_in_progress_on_channel: Option<usize>,
    pub dma_enabled: bool,
}

impl DMAController {
    pub open spec fn wf(&self) -> bool {
        &&& forall|i: int| 0 <= i < 7 ==> (#[trigger] self.channels[i]).wf() && self.channels[i].id == i
        &&& forall|i: int| 0 <= i < self.priorities@.len() ==> (#[trigger] self.priorities@[i]).0 < 8
        &&& (self.dma_in_progress_on_channel matches Some(c) ==> c < 7)
    }

    /// Every channel in linked-list mode goes from RAM to the device.
    pub open spec fn linked_lists_ok(&self) -> bool {
        forall|i: int| 0 <= i < 7 ==> ((#[trigger] self.channels[i]).sync_mode == SyncMode::LinkedList
            ==> self.channels[i].transfer_direction == TransferDirection::RAMToDevice)
    }

    pub fn new() -> (r: Self)
        ensures
            r.wf(),
            r.linked_lists_ok(),
            r.dpcr == 0x0765_4321,
            !r.dpcr_changed && r.dcir == 0 && r.irq_flags == 0 && r.reg_f8 == 0 && r.reg_fc == 0,
            r.dma_in_progress_on_channel is None,
            !r.dma_enabled,
            r.priorities@ == seq![(7usize, 7usize), (6, 6), (5, 5), (4, 4), (3, 3), (2, 2), (1, 1), (0, 0)],
    {
        let r = DMAController {
            channels: [DMAChannel::new(0), DMAChannel::new(1), DMAChannel::new(2), DMAChannel::new(3),
                DMAChannel::new(4), DMAChannel::new(5), DMAChannel::new(6)],
            dpcr: 0x0765_4321,
            dpcr_changed: false,
            dcir: 0,
            priorities: vec![(7, 7), (6, 6), (5, 5), (4, 4), (3, 3), (2, 2), (1, 1), (0, 0)],
            irq_flags: 0,
            reg_f8: 0,
            reg_fc: 0,
            dma_in_progress_on_channel: None,
            dma_enabled: false,
        };
        r
    }

    pub fn read_dpcr(&self) -> (r: u32)
        ensures r == self.dpcr,
    {
        self.dpcr
    }

    /// DPCR write: each channel's master enable and priority; DMA is enabled when any enable
    /// bit (the CPU's included) is set; the priority table lists (channel, priority), channel 7
    /// for the CPU, by decreasing `priority * 8 + channel`.
    pub fn write_dpcr(&mut self, value: u32)
        requires
            old(self).wf(),
        ensures
            final(self).wf(),
            final(self).dpcr == value,
            final(self).dpcr_changed,
            final(self).dma_enabled == exists|ch: int| 0 <= ch < 8 && #[trigger] dpcr_enabled(value, ch),
            forall|ch: int| 0 <= ch < 7 ==> (#[trigger] final(self).channels[ch]) == (DMAChannel { enabled: dpcr_enabled(value, ch), ..old(self).channels[ch] }),
            final(self).priorities@ == prio_list(value, 0),
            final(self).dcir == old(self).dcir && final(self).irq_flags == old(self).irq_flags,
            final(self).dma_in_progress_on_channel == old(self).dma_in_progress_on_channel,
            final(self).reg_f8 == old(self).reg_f8 && final(self).reg_fc == old(self).reg_fc,
    {
        self.dpcr = value;
        self.dma_enabled = false;
        let mut ch: usize = 0;
        while ch < 8
            invariant
                ch <= 8,
                old(self).wf(),
                self.dpcr == value,
                self.dcir == old(self).dcir && self.irq_flags == old(self).irq_flags,
                self.dma_in_progress_on_channel == old(self).dma_in_progress_on_channel,
                self.reg_f8 == old(self).reg_f8 && self.reg_fc == old(self).reg_fc,
                self.dma_enabled == exists|c: int| 0 <= c < ch && #[trigger] dpcr_enabled(value, c),
                forall|c: int| 0 <= c < 7 ==> (#[trigger] self.channels[c]) == (DMAChannel {
                    enabled: if c < ch { dpcr_enabled(value, c) } else { old(self).channels[c].enabled }, ..old(self).channels[c] }),
            decreases 8 - ch,
        {
            let shift: u32 = 4 * ch as u32;
            let enabled = ((value >> (shift + 3)) & 1) != 0;
            proof {
                assert(enabled == dpcr_enabled(value, ch as int));
            }
            if enabled {
                self.dma_enabled = true;
            }
            if ch < 7 {
                self.channels[ch].enabled = enabled;
            }
            ch = ch + 1;
        }
        let mut prios: Vec<(usize, usize)> = Vec::new();
        let mut k: usize = 64;
        while k > 0
            invariant
                k <= 64,
                prios@ == prio_list(value, k as int),
                forall|i: int| 0 <= i < prios@.len() ==> (#[trigger] prios@[i]).0 < 8,
            decreases k,
        {
            k = k - 1;
            let c = k % 8;
            let p = k / 8;
            let shift: u32 = 4 * c as u32;
            let pr = ((value >> shift) & 7) as usize;
            proof {
                assert(pr == dpcr_priority(value, c as int));
            }
            if pr == p {
                prios.push((c, p));
            }
        }
        self.priorities = prios;
        self.dpcr_changed = true;
    }

    /// DICR as read (see `dicr_value`).
    pub fn read_dicr(&self) -> (r: u32)
        ensures r == dicr_value(self.dcir, self.irq_flags),
    {
        let dcir = (self.dcir & !0x7F00_0000u32) | ((self.irq_flags as u32) << 16u32);
        let irq_mask = ((dcir >> 16u32) & 0x7F) as u8;
        let b31_cond = (dcir & 0x8000) != 0 || ((dcir & 0x80_0000) != 0 && (irq_mask & self.irq_flags) != 0);
        dcir | (if b31_cond { 0x8000_0000u32 } else { 0u32 })
    }

    /// DICR write: bit 31 is read-only; writing 1 to bits 24-30 clears those channel flags.
    pub fn write_dicr(&mut self, value: u32)
        ensures
            final(self).dcir == value & 0x7FFF_FFFF,
            final(self).irq_flags == old(self).irq_flags & !(((value >> 24u32) & 0x7F) as u8),
            final(self).channels == old(self).channels,
            final(self).priorities@ == old(self).priorities@,
            final(self).dpcr == old(self).dpcr && final(self).dma_enabled == old(self).dma_enabled,
            final(self).dma_in_progress_on_channel == old(self).dma_in_progress_on_channel,
    {
        self.dcir = value & 0x7FFF_FFFF;
        self.irq_flags = self.irq_flags & !(((value >> 24u32) & 0x7F) as u8);
    }

    pub fn read_madr(&self, channel: usize) -> (r: u32)
        requires channel < 7,
        ensures r == self.channels[channel as int].madr_read,
    {
        self.channels[channel].read_madr()
    }

    pub fn write_madr(&mut self, channel: usize, value: u32)
        requires
            channel < 7,
            old(self).wf(),
        ensures
            final(self).wf(),
            final(self).channels[channel as int] == (DMAChannel { madr: value & 0xFF_FFFC, madr_read: value, ..old(self).channels[channel as int] }),
            forall|c: int| 0 <= c < 7 && c != channel ==> #[trigger] final(self).channels[c] == old(self).channels[c],
            final(self).priorities@ == old(self).priorities@ && final(self).dpcr == old(self).dpcr,
            final(self).dma_in_progress_on_channel == old(self).dma_in_progress_on_channel,
    {
        self.channels[channel].write_madr(value);
    }

    pub fn read_bcr(&self, channel: usize) -> (r: u32)
        requires channel < 7,
        ensures
            r == match self.channels[channel as int].sync_mode {
                SyncMode::Manual => if (self.channels[channel as int].chcr & 0x100) != 0 {
                    self.channels[channel as int].remaining_words as u32
                } else {
                    self.channels[channel as int].bcr
                },
                SyncMode::Slice => (self.channels[channel as int].bcr & 0xFFFF)
                    | ((self.channels[channel as int].remaining_blocks as u32) << 16u32),
                SyncMode::LinkedList => self.channels[channel as int].bcr,
            },
    {
        self.channels[channel].read_bcr()
    }

    pub fn write_bcr(&mut self, channel: usize, value: u32)
        requires
            channel < 7,
            old(self).wf(),
        ensures
            final(self).wf(),
            final(self).channels[channel as int].bcr == value,
            (final(self).channels[channel as int].remaining_words, final(self).channels[channel as int].remaining_blocks)
                == reload_counts(old(self).channels[channel as int].sync_mode, value, false, old(self).channels[channel as int].remaining_blocks),
            final(self).channels[channel as int] == (DMAChannel { bcr: value,
                remaining_words: final(self).channels[channel as int].remaining_words,
                remaining_blocks: final(self).channels[channel as int].remaining_blocks, ..old(self).channels[channel as int] }),
            forall|c: int| 0 <= c < 7 && c != channel ==> #[trigger] final(self).channels[c] == old(self).channels[c],
            final(self).priorities@ == old(self).priorities@ && final(self).dpcr == old(self).dpcr,
            final(self).dma_in_progress_on_channel == old(self).dma_in_progress_on_channel,
    {
        self.channels[channel].write_bcr(value);
    }

    pub fn read_chcr(&self, channel: usize) -> (r: u32)
        requires channel < 7,
        ensures r == self.channels[channel as int].chcr,
    {
        self.channels[channel].read_chcr()
    }

    /// CHCR write of a channel (see `DMAChannel::write_chcr`); the reserved sync mode 3 is only
    /// refused where CHCR keeps those bits (not on channel 6).
    pub fn write_chcr(&mut self, channel: usize, value: u32)
        requires
            channel < 7,
            old(self).wf(),
            channel == 6 || (value >> 9u32) & 3 != 3,
        ensures
            final(self).wf(),
            final(self).channels[channel as int].chcr == (if channel == 6 { (value & 0x5100_0000u32) | 2 } else { value }),
            final(self).channels[channel as int].sync_mode == sync_mode_of(final(self).channels[channel as int].chcr),
            forall|c: int| 0 <= c < 7 && c != channel ==> #[trigger] final(self).channels[c] == old(self).channels[c],
            final(self).priorities@ == old(self).priorities@ && final(self).dpcr == old(self).dpcr,
            final(self).dma_in_progress_on_channel == old(self).dma_in_progress_on_channel,
    {
        self.channels[channel].write_chcr(value);
    }

    pub fn read_reg_f8(&self) -> (r: u32)
        ensures r == self.reg_f8,
    {
        self.reg_f8
    }

    pub fn write_reg_f8(&mut self, value: u32)
        ensures *final(self) == (DMAController { reg_f8: value, ..*old(self) }),
    {
        self.reg_f8 = value;
    }

    pub fn read_reg_fc(&self) -> (r: u32)
        ensures r == self.reg_fc,
    {
        self.reg_fc
    }

    pub fn write_reg_fc(&mut self, value: u32)
        ensures *final(self) == (DMAController { reg_fc: value, ..*old(self) }),
    {
        self.reg_fc = value;
    }

    /// The first channel, in priority table order (the CPU entry skipped), that is ready.
    fn find_ready_channel(&self) -> (r: Option<usize>)
        requires
            self.wf(),
        ensures
            match r {
                Some(c) => c < 7 && self.channels[c as int].is_ready_spec()
                    && exists|i: int| 0 <= i < self.priorities@.len() && #[trigger] self.priorities@[i].0 == c
                        && forall|k: int| 0 <= k < i ==> !(#[trigger] self.priorities@[k].0 < 7
                            && self.channels[self.priorities@[k].0 as int].is_ready_spec()),
                None => forall|k: int| 0 <= k < self.priorities@.len() ==> !(#[trigger] self.priorities@[k].0 < 7
                    && self.channels[self.priorities@[k].0 as int].is_ready_spec()),
            },
    {
        let mut i: usize = 0;
        while i < self.priorities.len()
            invariant
                self.wf(),
                i <= self.priorities@.len(),
                forall|k: int| 0 <= k < i ==> !(#[trigger] self.priorities@[k].0 < 7
                    && self.channels[self.priorities@[k].0 as int].is_ready_spec()),
            decreases self.priorities@.len() - i,
        {
            let channel = self.priorities[i].0;
            if channel < 7 && self.channels[channel].is_ready() {
                return Some(channel);
            }
            i = i + 1;
        }
        None
    }

    /// One cycle of DMA: keeps the channel in progress unless DPCR changed; otherwise, with DMA
    /// enabled, picks the first ready channel in priority order. Returns whether a transfer is
    /// still in progress.
    pub fn do_dma<M: Memory, D: DmaDevices>(&mut self, mem: &mut M, devices: &mut D, clock: &mut Clock,
        irq_handler: &mut IrqHandler) -> (r: bool)
        requires
            old(self).wf(),
            old(self).linked_lists_ok(),
            dma_reachable(&*old(mem)),
        ensures
            final(self).wf(),
            final(self).linked_lists_ok(),
            dma_reachable(&*final(mem)),
            !old(self).dma_enabled && (old(self).dma_in_progress_on_channel is None || old(self).dpcr_changed)
                ==> !r && final(self).channels == old(self).channels,
            final(self).priorities@ == old(self).priorities@ && final(self).dpcr == old(self).dpcr,
            forall|c: int| #[trigger] dma_picked(*old(self), c) ==> {
                &&& forall|j: int| 0 <= j < 7 && j != c ==> #[trigger] final(self).channels[j] == old(self).channels[j]
                &&& final(self).dma_in_progress_on_channel == Some(c as usize) || final(self).dma_in_progress_on_channel is None
                &&& r ==> final(self).dma_in_progress_on_channel == Some(c as usize)
            },
            (forall|c: int| !#[trigger] dma_picked(*old(self), c)) ==> !r && final(self).channels == old(self).channels,
            controller_step(*old(self), *final(self), *old(mem), *final(mem), *old(devices), *final(devices), r),
    {
        let channel_in_progress = match self.dma_in_progress_on_channel {
            Some(c) if !self.dpcr_changed => c,
            _ => {
                self.dpcr_changed = false;
                if self.dma_enabled {
                    match self.find_ready_channel() {
                        Some(c) => {
                            self.dma_in_progress_on_channel = Some(c);
                            assert(first_ready(*old(self), c as int));
                            c
                        },
                        None => {
                            assert(!exists|c: int| #[trigger] first_ready(*old(self), c)) by {
                                assert forall|c: int| !#[trigger] first_ready(*old(self), c) by {
                                    if first_ready(*old(self), c) {
                                        let i = choose|i: int| 0 <= i < self.priorities@.len() && #[trigger] self.priorities@[i].0 == c
                                            && forall|k: int| 0 <= k < i ==> !(#[trigger] self.priorities@[k].0 < 7
                                                && self.channels[self.priorities@[k].0 as int].is_ready_spec());
                                        assert(self.priorities@[i].0 < 7);
                                    }
                                }
                            }
                            return false;
                        },
                    }
                } else {
                    return false;
                }
            },
        };
        assert(dma_picked(*old(self), channel_in_progress as int));
        let ghost before = self.channels@;
        let ghost d1 = *self;
        let ghost m0 = *mem;
        let ghost dv0 = *devices;
        let result = self.channels[channel_in_progress].do_dma(mem, devices, clock, irq_handler);
        assert(channel_step(d1.channels[channel_in_progress as int], self.channels[channel_in_progress as int], m0, *mem, dv0, *devices, result));
        proof {
            assert forall|i: int| 0 <= i < 7 implies (#[trigger] self.channels[i]).wf() && self.channels[i].id == i by {
                if i != channel_in_progress as int {
                    assert(self.channels[i] == before[i]);
                }
            }
        }
        match result {
            DMAResult::InProgress => true,
            DMAResult::Paused => false,
            DMAResult::Finished => {
                self.dma_in_progress_on_channel = None;
                false
            },
            DMAResult::BlockFinished => false,
        }
    }

    /// Runs DMA for `cpu_cycles` cycles; returns whether a transfer was in progress after the last.
    pub fn do_dma_for_cpu_cycles<M: Memory, D: DmaDevices>(&mut self, cpu_cycles: usize, mem: &mut M, devices: &mut D,
        clock: &mut Clock, irq_handler: &mut IrqHandler) -> (r: bool)
        requires
            old(self).wf(),
            old(self).linked_lists_ok(),
            dma_reachable(&*old(mem)),
        ensures
            final(self).wf(),
            final(self).linked_lists_ok(),
            dma_reachable(&*final(mem)),
            cpu_cycles == 0 ==> !r && *final(self) == *old(self),
            final(self).priorities@ == old(self).priorities@ && final(self).dpcr == old(self).dpcr,
            exists|ds: Seq<DMAController>, ms: Seq<M>, dvs: Seq<D>, rs: Seq<bool>|
                #![trigger dma_run(ds, ms, dvs, rs)]
                dma_run(ds, ms, dvs, rs) && rs.len() == cpu_cycles
                && ds[0] == *old(self) && ms[0] == *old(mem) && dvs[0] == *old(devices)
                && ds.last() == *final(self) && ms.last() == *final(mem) && dvs.last() == *final(devices)
                && r == (cpu_cycles > 0 && rs.last()),
    {
        let mut dma_in_progress = false;
        let mut n: usize = 0;
        let ghost mut ds: Seq<DMAController> = seq![*self];
        let ghost mut ms: Seq<M> = seq![*mem];
        let ghost mut dvs: Seq<D> = seq![*devices];
        let ghost mut rs: Seq<bool> = Seq::empty();
        while n < cpu_cycles
            invariant
                n <= cpu_cycles,
                self.wf(),
                self.linked_lists_ok(),
                dma_reachable(&*mem),
                n == 0 ==> !dma_in_progress && *self == *old(self),
                self.priorities@ == old(self).priorities@ && self.dpcr == old(self).dpcr,
                dma_run(ds, ms, dvs, rs),
                rs.len() == n,
                ds[0] == *old(self) && ms[0] == *old(mem) && dvs[0] == *old(devices),
                ds.last() == *self && ms.last() == *mem && dvs.last() == *devices,
                dma_in_progress == (n > 0 && rs.last()),
            decreases cpu_cycles - n,
        {
            let ghost d0 = *self;
            let ghost m0 = *mem;
            let ghost dv0 = *devices;
            dma_in_progress = self.do_dma(mem, devices, clock, irq_handler);
            proof {
                let ghost k = rs.len() as int;
                let ghost (ds0, ms0, dvs0, rs0) = (ds, ms, dvs, rs);
                ds = ds.push(*self);
                ms = ms.push(*mem);
                dvs = dvs.push(*devices);
                rs = rs.push(dma_in_progress);
                assert forall|j: int| 0 <= j < rs.len() implies #[trigger] run_step(ds, ms, dvs, rs, j) by {
                    if j < k {
                        assert(run_step(ds0, ms0, dvs0, rs0, j));
                        assert(ds[j] == ds0[j] && ds[j + 1] == ds0[j + 1] && ms[j] == ms0[j] && ms[j + 1] == ms0[j + 1]);
                        assert(dvs[j] == dvs0[j] && dvs[j + 1] == dvs0[j + 1] && rs[j] == rs0[j]);
                    } else {
                        assert(controller_step(d0, *self, m0, *mem, dv0, *devices, dma_in_progress));
                    }
                }
            }
            n = n + 1;
        }
        dma_in_progress
    }
}

} // verus!
