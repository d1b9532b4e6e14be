use vstd::prelude::*;
use crate::text::{append_str, dec_digits, dec_string};

verus! {

/// The current snapshot slot and the directory the slots are stored in.
pub struct SnapshotManager {
    pub slot: u8,
    pub slot_path: String,
}

/// The file name of a slot: `slot_N`.
pub open spec fn slot_file_name(slot: u8) -> Seq<char> {
    seq!['s', 'l', 'o', 't', '_'] + dec_digits(slot as nat)
}

impl SnapshotManager {
    /// A manager on slot 0 (the directory is created by the caller).
    pub fn new(slot_path: String) -> (r: Self)
        ensures
            r.slot == 0,
            r.slot_path == slot_path,
    {
        SnapshotManager { slot: 0, slot_path }
    }

    /// Selects a slot; only a number above 9 is taken, others leave the slot unchanged.
    pub fn set_slot(&mut self, slot: u8)
        ensures
            final(self).slot == (if slot > 9 { slot } else { old(self).slot }),
            final(self).slot_path == old(self).slot_path,
    {
        if slot > 9 {
            self.slot = slot;
        }
    }

    pub fn get_slot(&self) -> (r: u8)
        ensures
            r == self.slot,
    {
        self.slot
    }

    /// The name of the file of the current slot, inside `slot_path`.
    pub fn slot_file_name(&self) -> (r: String)
        ensures
            r@ == slot_file_name(self.slot),
    {
        let mut s = String::new();
        append_str(&mut s, "slot_");
        let d = dec_string(self.slot as usize);
        append_str(&mut s, d.as_str());
        proof {
            reveal_strlit("slot_");
        }
        s
    }
}

} // verus!
