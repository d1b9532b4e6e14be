use vstd::prelude::*;

verus! {

/// Size of a memory card image in bytes (1024 sectors of 128 bytes).
pub const MEM_SIZE: usize = 131072;

/// The transfer a memory card is performing.
#[derive(Debug, Clone, Copy, PartialEq, Eq, Structural)]
pub enum MemoryCardCommand {
    Read,
    Write,
    GetId,
}

/// A memory card: its image, whether it is inserted, and the state of the current sector transfer.
#[derive(Debug)]
pub struct MemoryCard {
    pub memory: Vec<u8>,
    pub present: bool,
    pub file_name: Option<String>,
    pub memory_card_command: MemoryCardCommand,
    /// FLAG byte: bit 3 set until the first write (directory not read yet).
    pub flag: u8,
    pub sector_number: u16,
    /// XOR of the address bytes and the data bytes transferred so far.
    pub checksum: u8,
    /// Data bytes of the current sector transferred so far.
    pub bytes_count: usize,
}

/// The abstract state of a memory card.
pub struct CardView {
    pub memory: Seq<u8>,
    pub present: bool,
    pub file_name: Option<Seq<char>>,
    pub command: MemoryCardCommand,
    pub flag: u8,
    pub sector_number: u16,
    pub checksum: u8,
    pub bytes_count: nat,
}

pub open spec fn opt_string_view(s: Option<String>) -> Option<Seq<char>> {
    match s {
        Some(t) => Some(t@),
        None => None,
    }
}

impl View for MemoryCard {
    type V = CardView;

    open spec fn view(&self) -> CardView {
        CardView {
            memory: self.memory@,
            present: self.present,
            file_name: opt_string_view(self.file_name),
            command: self.memory_card_command,
            flag: self.flag,
            sector_number: self.sector_number,
            checksum: self.checksum,
            bytes_count: self.bytes_count as nat,
        }
    }
}

/// Byte offset of data byte `k` of sector `sector`: sector `s` is the 128-byte frame `s`.
pub open spec fn sector_offset(sector: u16, k: nat) -> int {
    sector as int * 128 + k
}

/// Reading the next data byte of the current sector: the byte and whether it was the last one
/// (past the end, or a sector above 3FFh: FFh, last).
pub open spec fn card_read_spec(c: CardView) -> (CardView, (u8, bool)) {
    if c.bytes_count > 127 || c.sector_number > 0x3FF {
        (c, (0xFFu8, true))
    } else {
        let b = c.memory[sector_offset(c.sector_number, c.bytes_count)];
        (CardView { bytes_count: c.bytes_count + 1, checksum: c.checksum ^ b, ..c }, (b, c.bytes_count + 1 == 128))
    }
}

/// Writing the next data byte of the current sector: returns whether it was the last one
/// (past the end: nothing written, last). Writing clears FLAG bit 3. A sector above 3FFh is
/// not written; its bytes are only counted into the checksum.
pub open spec fn card_write_spec(c: CardView, byte: u8) -> (CardView, bool) {
    if c.bytes_count > 127 {
        (c, true)
    } else if c.sector_number > 0x3FF {
        (CardView { bytes_count: c.bytes_count + 1, checksum: c.checksum ^ byte, ..c }, c.bytes_count + 1 == 128)
    } else {
        (CardView {
            flag: c.flag & !8u8,
            memory: c.memory.update(sector_offset(c.sector_number, c.bytes_count), byte),
            bytes_count: c.bytes_count + 1,
            checksum: c.checksum ^ byte,
            ..c
        }, c.bytes_count + 1 == 128)
    }
}

/// Selecting a sector starts its checksum with the address bytes.
pub open spec fn card_select_spec(c: CardView, sector: u16) -> CardView {
    CardView { sector_number: sector, checksum: ((sector >> 8u16) as u8) ^ (sector as u8), bytes_count: 0, ..c }
}

impl MemoryCard {
    /// An absent card with an empty image.
    pub fn new() -> (r: MemoryCard)
        ensures
            r@ == (CardView {
                memory: Seq::empty(), present: false, file_name: None, command: MemoryCardCommand::Read,
                flag: 0x8, sector_number: 0, checksum: 0, bytes_count: 0,
            }),
    {
        MemoryCard {
            memory: Vec::new(),
            present: false,
            file_name: None,
            memory_card_command: MemoryCardCommand::Read,
            flag: 0x8,
            sector_number: 0,
            checksum: 0,
            bytes_count: 0,
        }
    }

    /// Back to the power-on FLAG and an idle transfer.
    pub fn reset(&mut self)
        ensures
            final(self)@ == (CardView { flag: 0x8, bytes_count: 0, checksum: 0, ..old(self)@ }),
    {
        self.flag = 0x8;
        self.bytes_count = 0;
        self.checksum = 0;
    }

    pub fn get_sector_number(&self) -> (r: u16)
        ensures r == self@.sector_number,
    {
        self.sector_number
    }

    pub fn set_sector_number(&mut self, sector_number: u16)
        ensures
            final(self)@ == card_select_spec(old(self)@, sector_number),
    {
        self.sector_number = sector_number;
        self.checksum = ((sector_number >> 8u16) as u8) ^ (sector_number as u8);
        self.bytes_count = 0;
    }

    /// Next data byte of the current sector and whether it was the last one.
    pub fn read_sector_data(&mut self) -> (r: (u8, bool))
        requires
            old(self).memory@.len() == MEM_SIZE,
        ensures
            (final(self)@, r) == card_read_spec(old(self)@),
    {
        if self.bytes_count > 127 || self.sector_number > 0x3FF {
            return (0xFF, true);
        }
        let index = self.sector_number as usize * 128 + self.bytes_count;
        let byte = self.memory[index];
        self.bytes_count += 1;
        self.checksum = self.checksum ^ byte;
        (byte, self.bytes_count == 128)
    }

    /// Stores the next data byte of the current sector; returns whether it was the last one.
    pub fn write_sector_data(&mut self, byte: u8) -> (r: bool)
        requires
            old(self).memory@.len() == MEM_SIZE,
        ensures
            (final(self)@, r) == card_write_spec(old(self)@, byte),
    {
        if self.bytes_count > 127 {
            return true;
        }
        if self.sector_number > 0x3FF {
            self.bytes_count += 1;
            self.checksum = self.checksum ^ byte;
            return self.bytes_count == 128;
        }
        self.flag = self.flag & !8u8;
        let index = self.sector_number as usize * 128 + self.bytes_count;
        self.memory.set(index, byte);
        self.bytes_count += 1;
        self.checksum = self.checksum ^ byte;
        proof {
            assert(final(self)@.memory =~= old(self)@.memory.update(sector_offset(old(self).sector_number, old(self).bytes_count as nat), byte));
        }
        self.bytes_count == 128
    }

    pub fn get_checksum(&self) -> (r: u8)
        ensures r == self@.checksum,
    {
        self.checksum
    }

    /// The card identification bytes 5Ah, 5Dh.
    pub fn get_id(&self) -> (r: u16)
        ensures r == 0x5A5D,
    {
        0x5A5D
    }

    /// The command acknowledge bytes 5Ch, 5Dh.
    pub fn get_command_ack(&self) -> (r: u16)
        ensures r == 0x5C5D,
    {
        0x5C5D
    }

    pub fn get_flag(&self) -> (r: u8)
        ensures r == self@.flag,
    {
        self.flag
    }

    pub fn set_command(&mut self, command: MemoryCardCommand)
        ensures
            final(self)@ == (CardView { command, ..old(self)@ }),
    {
        self.memory_card_command = command;
    }

    pub fn get_command(&self) -> (r: MemoryCardCommand)
        ensures r == self@.command,
    {
        self.memory_card_command
    }

    /// Inserts (with a zero-filled image of full size, keeping existing bytes) or removes (empty image) the card.
    pub fn set_present(&mut self, present: bool)
        ensures
            final(self)@.present == present,
            present ==> final(self)@.memory.len() == MEM_SIZE
                && forall|i: int| 0 <= i < MEM_SIZE ==> #[trigger] final(self)@.memory[i]
                    == if i < old(self)@.memory.len() { old(self)@.memory[i] } else { 0u8 },
            !present ==> final(self)@.memory == Seq::<u8>::empty(),
            final(self)@.file_name == old(self)@.file_name,
            final(self)@.command == old(self)@.command,
            final(self)@.flag == old(self)@.flag,
            final(self)@.sector_number == old(self)@.sector_number,
            final(self)@.checksum == old(self)@.checksum,
            final(self)@.bytes_count == old(self)@.bytes_count,
    {
        let size = if present { MEM_SIZE } else { 0 };
        self.memory.resize(size, 0u8);
        self.present = present;
        proof {
            if present {
                assert forall|i: int| 0 <= i < MEM_SIZE implies #[trigger] self@.memory[i]
                    == if i < old(self)@.memory.len() { old(self)@.memory[i] } else { 0u8 } by {
                    if i < old(self)@.memory.len() {
                        if MEM_SIZE < old(self)@.memory.len() {
                            assert(self.memory@ == old(self).memory@.subrange(0, MEM_SIZE as int));
                        } else {
                            assert(self.memory@.subrange(0, old(self).memory@.len() as int)[i] == self.memory@[i]);
                        }
                    }
                }
            } else {
                assert(self.memory@ =~= Seq::<u8>::empty());
            }
        }
    }

    pub fn is_present(&self) -> (r: bool)
        ensures r == self@.present,
    {
        self.present
    }

    /// Takes `image` (the bytes of a card file named `file_name`) as the card's contents.
    /// An image of the wrong size is kept but refused: the error carries its size and the
    /// card's presence and file name are unchanged.
    pub fn load_image(&mut self, image: Vec<u8>, file_name: String) -> (r: Result<(), usize>)
        ensures
            final(self)@.memory == image@,
            image@.len() == MEM_SIZE ==> r is Ok && final(self)@.present && final(self)@.file_name == Some(file_name@),
            image@.len() != MEM_SIZE ==> r == Err::<(), usize>(image@.len() as usize)
                && final(self)@.present == old(self)@.present && final(self)@.file_name == old(self)@.file_name,
            final(self)@.command == old(self)@.command,
            final(self)@.flag == old(self)@.flag,
            final(self)@.sector_number == old(self)@.sector_number,
            final(self)@.checksum == old(self)@.checksum,
            final(self)@.bytes_count == old(self)@.bytes_count,
    {
        let n = image.len();
        self.memory = image;
        if n != MEM_SIZE {
            Err(n)
        } else {
            self.present = true;
            self.file_name = Some(file_name);
            Ok(())
        }
    }
}

} // verus!
