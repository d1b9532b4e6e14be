use vstd::prelude::*;
use crate::cdrom::Region;
use crate::cdrom::disc::{DiscTime, Track, TrackType, SECTOR_SIZE, time_add, time_of_lba, track_duration, track_spec};
use crate::cdrom::cue::{CueSheet, CueFileV, TrackV, TrackTypeV, Index, opt_file_v};
use crate::text::{append_str, string_of};

verus! {

/// The disc track type of a cue track type (`None` for an unsupported one).
pub open spec fn disc_track_type(t: TrackTypeV) -> Option<TrackType> {
    match t {
        TrackTypeV::Audio => Some(TrackType::Audio),
        TrackTypeV::Mode1_2352 => Some(TrackType::Data(1, SECTOR_SIZE)),
        TrackTypeV::Mode2_2352 => Some(TrackType::Data(2, SECTOR_SIZE)),
        TrackTypeV::Unknown(_) => None,
    }
}

/// The time of the first index numbered 1 (zero when there is none).
pub open spec fn index1_time(ix: Seq<Index>) -> DiscTime
    decreases ix.len(),
{
    if ix.len() == 0 {
        DiscTime { minutes: 0, seconds: 0, frames: 0 }
    } else if ix[0].number == 1 {
        DiscTime { minutes: ix[0].time.minute, seconds: ix[0].time.second, frames: ix[0].time.frame }
    } else {
        index1_time(ix.drop_first())
    }
}

/// The track placed after `last` for cue track `t` of file `file_id`, whose data lasts `file_time`.
pub open spec fn placed_track(last: DiscTime, file_id: u8, file_time: DiscTime, t: TrackV) -> Track {
    let start = index1_time(t.indices);
    track_spec(file_id, t.number, disc_track_type(t.track_type).unwrap(), time_add(last, start),
        time_add(last, time_add(start, file_time)))
}

/// Places the tracks of one file after the tracks `ts` ending at `last`.
pub open spec fn place_tracks(ts: Seq<Track>, last: DiscTime, file_id: u8, file_time: DiscTime, tracks: Seq<TrackV>)
    -> (Seq<Track>, DiscTime)
    decreases tracks.len(),
{
    if tracks.len() == 0 {
        (ts, last)
    } else {
        let (ts2, l2) = place_tracks(ts, last, file_id, file_time, tracks.drop_last());
        let t = placed_track(l2, file_id, file_time, tracks.last());
        (ts2.push(t), time_add(l2, track_duration(t)))
    }
}

/// Length of a data file in CD time.
pub open spec fn file_time_of(len: u32) -> DiscTime {
    time_of_lba(len / 2352)
}

/// Places the tracks of all files, one after the other.
pub open spec fn place_files(files: Seq<CueFileV>, lens: Seq<u32>) -> (Seq<Track>, DiscTime)
    decreases files.len(),
{
    if files.len() == 0 {
        (Seq::empty(), DiscTime { minutes: 0, seconds: 0, frames: 0 })
    } else {
        let (ts, l) = place_files(files.drop_last(), lens);
        let id = (files.len() - 1) as u8;
        place_tracks(ts, l, id, file_time_of(lens[files.len() - 1]), files.last().tracks)
    }
}

/// The name of the first unsupported track type among `tracks`.
pub open spec fn first_unknown(tracks: Seq<TrackV>) -> Option<Seq<char>>
    decreases tracks.len(),
{
    if tracks.len() == 0 {
        None
    } else {
        match first_unknown(tracks.drop_last()) {
            Some(n) => Some(n),
            None => match tracks.last().track_type {
                TrackTypeV::Unknown(n) => Some(n),
                _ => None,
            },
        }
    }
}

/// The name of the first unsupported track type of the sheet, files in order.
pub open spec fn first_unknown_in(files: Seq<CueFileV>) -> Option<Seq<char>>
    decreases files.len(),
{
    if files.len() == 0 {
        None
    } else {
        match first_unknown_in(files.drop_last()) {
            Some(n) => Some(n),
            None => first_unknown(files.last().tracks),
        }
    }
}

/// The message given for an unsupported track type.
pub open spec fn unsupported_message(name: Seq<char>) -> Seq<char> {
    seq!['U', 'n', 's', 'u', 'p', 'p', 'o', 'r', 't', 'e', 'd', ' ', 't', 'r', 'a', 'c', 'k', ' ', 't', 'y', 'p', 'e', ' ',
        'U', 'n', 'k', 'n', 'o', 'w', 'n', '(', '"'] + name + seq!['"', ')']
}

/// A disc image: its tracks laid out in CD time, its region and the read head.
pub struct Disc {
    pub cue_file_name: String,
    pub tracks: Vec<Track>,
    pub region: Option<Region>,
    pub head_position: DiscTime,
}

/// The region letter of a boot file name (`SxPx` Japan, `SxUx` USA, `SxEx` Europe), upper
/// cased, read from its UTF-8 bytes: at least four bytes long, starting with `S`, the region
/// letter the third byte.
pub open spec fn region_of_boot_name(upper: Seq<char>) -> Option<Region> {
    let b = vstd::utf8::encode_utf8(upper);
    if b.len() < 4 || b[0] != 0x53u8 {
        None
    } else if b[2] == 0x50u8 {
        Some(Region::Japan)
    } else if b[2] == 0x55u8 {
        Some(Region::USA)
    } else if b[2] == 0x45u8 {
        Some(Region::Europe)
    } else {
        None
    }
}

impl Disc {
    /// Lays out the tracks of a cue sheet whose data files (in order) are `file_lengths` bytes
    /// long. Each track starts at its index 1 within its file and lasts as long as the file;
    /// tracks follow each other, gaps included. An unsupported track type is refused.
    #[verifier::rlimit(40)]
    pub fn from_cue(cue_file_name: String, cue: &CueSheet, file_lengths: &Vec<u32>) -> (r: Result<Disc, String>)
        requires
            file_lengths@.len() == cue@.len(),
            cue@.len() <= 256,
        ensures
            first_unknown_in(cue@) matches Some(n) ==> (r matches Err(e) && e@ == unsupported_message(n)),
            first_unknown_in(cue@) is None ==> (r matches Ok(d) && ({
                &&& d.cue_file_name@ == cue_file_name@
                &&& d.tracks@ == place_files(cue@, file_lengths@).0
                &&& d.region is None
                &&& d.head_position == (DiscTime { minutes: 0, seconds: 0, frames: 0 })
            })),
    {
        let mut tracks: Vec<Track> = Vec::new();
        let mut last = DiscTime::new(0, 0, 0);
        let mut i: usize = 0;
        proof {
            assert(cue@.take(0) == Seq::<CueFileV>::empty());
        }
        while i < cue.files.len()
            invariant
                i <= cue.files@.len(),
                cue@.len() == cue.files@.len(),
                file_lengths@.len() == cue@.len(),
                cue@.len() <= 256,
                first_unknown_in(cue@.take(i as int)) is None,
                (tracks@, last) == place_files(cue@.take(i as int), file_lengths@),
            decreases cue.files@.len() - i,
        {
            let file = &cue.files[i];
            let ghost fv = cue@[i as int];
            let ghost before = tracks@;
            let ghost last0 = last;
            proof {
                assert(cue@.take(i as int + 1).drop_last() == cue@.take(i as int));
                assert(cue@.take(i as int + 1).last() == fv);
                assert(fv == file@);
                assert(forall|k: int| 0 <= k < fv.tracks.len() ==> fv.tracks[k] == #[trigger] file.tracks@[k]@);
            }
            let file_time = DiscTime::from_file_length(file_lengths[i]);
            let file_id = i as u8;
            let mut j: usize = 0;
            proof {
                assert(fv.tracks.take(0) == Seq::<TrackV>::empty());
            }
            while j < file.tracks.len()
                invariant
                    i < cue@.len(),
                    fv == cue@[i as int],
                    first_unknown_in(cue@.take(i as int)) is None,
                    j <= file.tracks@.len(),
                    fv.tracks.len() == file.tracks@.len(),
                    forall|k: int| 0 <= k < fv.tracks.len() ==> fv.tracks[k] == #[trigger] file.tracks@[k]@,
                    file_time == file_time_of(file_lengths@[i as int]),
                    file_id == i as u8,
                    first_unknown(fv.tracks.take(j as int)) is None,
                    (tracks@, last) == place_tracks(before, last0, file_id, file_time, fv.tracks.take(j as int)),
                decreases file.tracks@.len() - j,
            {
                let ct = &file.tracks[j];
                proof {
                    assert(fv.tracks[j as int] == ct@);
                    lemma_place_step(before, last0, file_id, file_time, fv.tracks, j as int);
                }
                match place_one(&mut tracks, &mut last, file_id, file_time, ct) {
                    Ok(()) => {},
                    Err(e) => {
                        proof {
                            let tk = fv.tracks.take(j as int + 1);
                            assert(tk.last() == ct@);
                            assert(tk.drop_last() == fv.tracks.take(j as int));
                            lemma_first_unknown_prefix(cue@, i as int, tk);
                        }
                        return Err(e);
                    },
                }
                j = j + 1;
            }
            proof {
                assert(fv.tracks.take(file.tracks@.len() as int) == fv.tracks);
            }
            i = i + 1;
        }
        proof {
            assert(cue@.take(cue@.len() as int) == cue@);
        }
        Ok(Disc { cue_file_name, tracks, region: None, head_position: DiscTime::new(0, 0, 0) })
    }

    pub fn get_cue_file_name(&self) -> (r: &String)
        ensures
            *r == self.cue_file_name,
    {
        &self.cue_file_name
    }

    pub fn get_region(&self) -> (r: Option<Region>)
        ensures
            r == self.region,
    {
        self.region
    }

    pub fn set_region(&mut self, region: Option<Region>)
        ensures
            final(self).region == region,
            final(self).tracks@ == old(self).tracks@,
            final(self).head_position == old(self).head_position,
            final(self).cue_file_name == old(self).cue_file_name,
    {
        self.region = region;
    }

    /// Whether the first track is an audio track.
    pub fn is_audio_cd(&self) -> (r: bool)
        ensures
            r == (self.tracks@.len() > 0 && self.tracks@[0].track_type == TrackType::Audio),
    {
        if self.tracks.len() > 0 {
            match self.tracks[0].track_type {
                TrackType::Audio => true,
                _ => false,
            }
        } else {
            false
        }
    }

    /// Whether the region should be read from the first file: the first track holds data.
    pub fn has_data_first_track(&self) -> (r: bool)
        ensures
            r == (self.tracks@.len() > 0 && self.tracks@[0].track_type is Data),
    {
        if self.tracks.len() > 0 {
            match self.tracks[0].track_type {
                TrackType::Data(_, _) => true,
                _ => false,
            }
        } else {
            false
        }
    }

    pub fn seek_sector(&mut self, msf: DiscTime)
        ensures
            *final(self) == (Disc { head_position: msf, ..*old(self) }),
    {
        self.head_position = msf;
    }

    pub fn get_head_position(&self) -> (r: DiscTime)
        ensures
            r == self.head_position,
    {
        self.head_position
    }

    /// Moves the head to the next sector.
    pub fn set_next_sector_head_position(&mut self)
        ensures
            final(self).head_position == time_add(old(self).head_position, DiscTime { minutes: 0, seconds: 0, frames: 1 }),
            final(self).tracks@ == old(self).tracks@,
            final(self).region == old(self).region,
            final(self).cue_file_name == old(self).cue_file_name,
    {
        self.head_position = self.head_position.add(&DiscTime::new(0, 0, 1));
    }

    pub fn get_tracks(&self) -> (r: &[Track])
        ensures
            r@ == self.tracks@,
    {
        self.tracks.as_slice()
    }

    /// The track with a number (0: the last track).
    pub fn get_track_by_number(&self, number: u8) -> (r: Option<&Track>)
        ensures
            number == 0 ==> (if self.tracks@.len() == 0 { r is None } else { r == Some(&self.tracks@.last()) }),
            number != 0 ==> match r {
                Some(t) => exists|k: int| 0 <= k < self.tracks@.len() && self.tracks@[k] == *t
                    && t.number == number
                    && forall|m: int| 0 <= m < k ==> #[trigger] self.tracks@[m].number != number,
                None => forall|k: int| 0 <= k < self.tracks@.len() ==> #[trigger] self.tracks@[k].number != number,
            },
    {
        if number == 0 {
            if self.tracks.len() == 0 {
                return None;
            }
            return Some(&self.tracks[self.tracks.len() - 1]);
        }
        let mut k: usize = 0;
        while k < self.tracks.len()
            invariant
                number != 0,
                k <= self.tracks@.len(),
                forall|m: int| 0 <= m < k ==> #[trigger] self.tracks@[m].number != number,
            decreases self.tracks@.len() - k,
        {
            if self.tracks[k].number == number {
                return Some(&self.tracks[k]);
            }
            k = k + 1;
        }
        None
    }

    /// The track holding a time (the first one whose range contains it).
    pub fn find_track(&self, msf: DiscTime) -> (r: Option<usize>)
        ensures
            match r {
                Some(k) => k < self.tracks@.len()
                    && self.tracks@[k as int].start_time.lba() <= msf.lba() < self.tracks@[k as int].end_time.lba()
                    && forall|m: int| 0 <= m < k ==> !(#[trigger] self.tracks@[m].start_time.lba() <= msf.lba()
                        < self.tracks@[m].end_time.lba()),
                None => forall|m: int| 0 <= m < self.tracks@.len() ==> !(#[trigger] self.tracks@[m].start_time.lba() <= msf.lba()
                        < self.tracks@[m].end_time.lba()),
            },
    {
        let mut k: usize = 0;
        while k < self.tracks.len()
            invariant
                k <= self.tracks@.len(),
                forall|m: int| 0 <= m < k ==> !(#[trigger] self.tracks@[m].start_time.lba() <= msf.lba()
                    < self.tracks@[m].end_time.lba()),
            decreases self.tracks@.len() - k,
        {
            if self.tracks[k].contains_msf(msf) {
                return Some(k);
            }
            k = k + 1;
        }
        None
    }
}

/// Byte offset in the track's file of the sector at `msf`, when it lies within the track
/// (from its start to its end, both included).
pub fn sector_offset_in_track(track: &Track, msf: DiscTime) -> (r: Option<u64>)
    ensures
        (msf.lba() < track.start_time.lba() || msf.lba() > track.end_time.lba()) ==> r is None,
        !(msf.lba() < track.start_time.lba() || msf.lba() > track.end_time.lba())
            ==> r == Some(((msf.lba() - track.start_time.lba()) * 2352) as u64),
{
    let l = msf.to_lba();
    let s = track.start_time.to_lba();
    if l < s || l > track.end_time.to_lba() {
        return None;
    }
    Some((l - s) as u64 * SECTOR_SIZE as u64)
}

/// The region of a disc from the text of its `SYSTEM.CNF`, given the boot file name that the
/// `BOOT = cdrom:\NAME;1` line names, upper cased.
pub fn region_of_boot_file(upper: &String) -> (r: Option<Region>)
    ensures
        r == region_of_boot_name(upper@),
{
    let v = upper.as_str().as_bytes();
    if v.len() < 4 || v[0] != 0x53u8 {
        return None;
    }
    if v[2] == 0x50u8 {
        Some(Region::Japan)
    } else if v[2] == 0x55u8 {
        Some(Region::USA)
    } else if v[2] == 0x45u8 {
        Some(Region::Europe)
    } else {
        None
    }
}

/// Places one cue track after `last`, or refuses its type.
fn place_one(tracks: &mut Vec<Track>, last: &mut DiscTime, file_id: u8, file_time: DiscTime, ct: &crate::cdrom::cue::Track)
    -> (r: Result<(), String>)
    ensures
        ct@.track_type matches TrackTypeV::Unknown(n) ==> (r matches Err(e) && e@ == unsupported_message(n)),
        !(ct@.track_type is Unknown) ==> r is Ok && ({
            let t = placed_track(*old(last), file_id, file_time, ct@);
            &&& final(tracks)@ == old(tracks)@.push(t)
            &&& *final(last) == time_add(*old(last), track_duration(t))
        }),
{
    let track_type = match &ct.track_type {
        crate::cdrom::cue::TrackType::Audio => TrackType::Audio,
        crate::cdrom::cue::TrackType::Mode1_2352 => TrackType::Data(1, SECTOR_SIZE),
        crate::cdrom::cue::TrackType::Mode2_2352 => TrackType::Data(2, SECTOR_SIZE),
        crate::cdrom::cue::TrackType::Unknown(name) => {
            return Err(unsupported(name));
        },
    };
    let start = index1(&ct.indices);
    let end = start.add(&file_time);
    let track = Track::new(file_id, ct.number, track_type, last.add(&start), last.add(&end));
    *last = last.add(&track.duration());
    tracks.push(track);
    Ok(())
}

fn index1(ix: &Vec<Index>) -> (r: DiscTime)
    ensures
        r == index1_time(ix@),
{
    let mut k: usize = 0;
    proof {
        assert(ix@.subrange(0, ix@.len() as int) == ix@);
    }
    while k < ix.len()
        invariant
            k <= ix@.len(),
            index1_time(ix@) == index1_time(ix@.subrange(k as int, ix@.len() as int)),
        decreases ix@.len() - k,
    {
        proof {
            assert(ix@.subrange(k as int, ix@.len() as int).drop_first() == ix@.subrange(k as int + 1, ix@.len() as int));
        }
        if ix[k].number == 1 {
            return DiscTime::new(ix[k].time.minute, ix[k].time.second, ix[k].time.frame);
        }
        k = k + 1;
    }
    DiscTime::new(0, 0, 0)
}

fn unsupported(name: &String) -> (r: String)
    ensures
        r@ == unsupported_message(name@),
{
    let mut s = String::new();
    append_str(&mut s, "Unsupported track type Unknown(\"");
    append_str(&mut s, name.as_str());
    append_str(&mut s, "\")");
    proof {
        reveal_strlit("Unsupported track type Unknown(\"");
        reveal_strlit("\")");
        assert(s@ == unsupported_message(name@));
    }
    s
}

proof fn lemma_first_unknown_prefix(files: Seq<CueFileV>, i: int, tracks: Seq<TrackV>)
    requires
        0 <= i < files.len(),
        tracks.len() > 0,
        tracks.len() <= files[i].tracks.len(),
        tracks == files[i].tracks.take(tracks.len() as int),
        first_unknown_in(files.take(i)) is None,
        first_unknown(tracks.drop_last()) is None,
        tracks.last().track_type is Unknown,
    ensures
        first_unknown_in(files) == Some(tracks.last().track_type->Unknown_0),
{
    let x = tracks.last().track_type->Unknown_0;
    assert(first_unknown(tracks) == Some(x));
    lemma_first_unknown_extends(files[i].tracks, tracks.len() as int, x);
    assert(files.take(i + 1).drop_last() == files.take(i));
    assert(first_unknown_in(files.take(i + 1)) == Some(x));
    lemma_first_unknown_in_extends(files, i + 1, x);
}

proof fn lemma_place_step(ts: Seq<Track>, last: DiscTime, id: u8, ft: DiscTime, tracks: Seq<TrackV>, j: int)
    requires
        0 <= j < tracks.len(),
    ensures
        place_tracks(ts, last, id, ft, tracks.take(j + 1)) == ({
            let (ts2, l2) = place_tracks(ts, last, id, ft, tracks.take(j));
            let t = placed_track(l2, id, ft, tracks[j]);
            (ts2.push(t), time_add(l2, track_duration(t)))
        }),
        first_unknown(tracks.take(j + 1)) == (match first_unknown(tracks.take(j)) {
            Some(n) => Some(n),
            None => match tracks[j].track_type {
                TrackTypeV::Unknown(n) => Some(n),
                _ => None,
            },
        }),
{
    assert(tracks.take(j + 1).drop_last() == tracks.take(j));
    assert(tracks.take(j + 1).last() == tracks[j]);
}

proof fn lemma_first_unknown_extends(s: Seq<TrackV>, n: int, x: Seq<char>)
    requires
        0 <= n <= s.len(),
        first_unknown(s.take(n)) == Some(x),
    ensures
        first_unknown(s) == Some(x),
    decreases s.len() - n,
{
    if n < s.len() {
        assert(s.take(n + 1).drop_last() == s.take(n));
        lemma_first_unknown_extends(s, n + 1, x);
    } else {
        assert(s.take(n) == s);
    }
}

proof fn lemma_first_unknown_in_extends(s: Seq<CueFileV>, n: int, x: Seq<char>)
    requires
        0 <= n <= s.len(),
        first_unknown_in(s.take(n)) == Some(x),
    ensures
        first_unknown_in(s) == Some(x),
    decreases s.len() - n,
{
    if n < s.len() {
        assert(s.take(n + 1).drop_last() == s.take(n));
        lemma_first_unknown_in_extends(s, n + 1, x);
    } else {
        assert(s.take(n) == s);
    }
}

} // verus!
