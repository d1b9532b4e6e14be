use vstd::prelude::*;
use crate::text::{push_char, append_str, dec_digits, dec_string};

verus! {

/// Bytes in a raw CD sector.
pub const SECTOR_SIZE: u16 = 2352;

/// Frames (sectors) per second of CD time.
pub const FRAMES_PER_SECOND: u32 = 75;

/// A position on a disc in minutes, seconds and frames (75 frames per second).
#[derive(Clone, Copy, Debug, PartialEq, Eq, Structural)]
pub struct DiscTime {
    pub minutes: u8,
    pub seconds: u8,
    pub frames: u8,
}

/// Logical block address of a minute/second/frame triple.
pub open spec fn lba_of(minutes: int, seconds: int, frames: int) -> int {
    (minutes * 60 + seconds) * 75 + frames
}

/// The disc time that `from_lba` builds from a logical block address.
pub open spec fn time_of_lba(n: u32) -> DiscTime {
    DiscTime {
        minutes: (n / 75 / 60) as u8,
        seconds: (n / 75 % 60) as u8,
        frames: (n % 75) as u8,
    }
}

/// Largest logical block address any `DiscTime` can have.
pub open spec fn max_lba() -> int {
    lba_of(255, 255, 255)
}

impl DiscTime {
    /// Logical block address of this time.
    pub open spec fn lba(self) -> int {
        lba_of(self.minutes as int, self.seconds as int, self.frames as int)
    }

    /// Seconds below 60 and frames below 75.
    pub open spec fn is_normalized(self) -> bool {
        self.seconds < 60 && self.frames < 75
    }

    pub fn new(minutes: u8, seconds: u8, frames: u8) -> (r: Self)
        ensures
            r == (DiscTime { minutes, seconds, frames }),
    {
        DiscTime { minutes, seconds, frames }
    }

    /// A time with minutes 00-99, seconds 00-59 and frames 00-74, or `None` for a component out of range.
    pub fn new_checked(minutes: u8, seconds: u8, frames: u8) -> (r: Option<Self>)
        ensures
            r == (if minutes < 100 && seconds < 60 && frames < 75 {
                Some(DiscTime { minutes, seconds, frames })
            } else {
                None
            }),
    {
        if minutes < 100 && seconds < 60 && frames < 75 {
            Some(Self::new(minutes, seconds, frames))
        } else {
            None
        }
    }

    pub fn m(&self) -> (r: u8)
        ensures
            r == self.minutes,
    {
        self.minutes
    }

    pub fn s(&self) -> (r: u8)
        ensures
            r == self.seconds,
    {
        self.seconds
    }

    pub fn f(&self) -> (r: u8)
        ensures
            r == self.frames,
    {
        self.frames
    }

    /// Logical block address: `(m * 60 + s) * 75 + f`.
    pub fn to_lba(&self) -> (r: u32)
        ensures
            r == self.lba(),
            r <= max_lba(),
    {
        (self.minutes as u32 * 60 + self.seconds as u32) * 75 + self.frames as u32
    }

    /// The time at a logical block address (minutes kept to their low byte).
    pub fn from_lba(total_frames: u32) -> (r: Self)
        ensures
            r == time_of_lba(total_frames),
    {
        let frames = (total_frames % 75) as u8;
        let total_seconds = total_frames / 75;
        let seconds = (total_seconds % 60) as u8;
        let minutes = (total_seconds / 60) as u8;
        DiscTime { minutes, seconds, frames }
    }

    /// Length in CD time of a file of raw sectors.
    pub fn from_file_length(file_length: u32) -> (r: Self)
        ensures
            r == time_of_lba(file_length / 2352),
    {
        Self::from_lba(file_length / SECTOR_SIZE as u32)
    }

    /// Sum of two times, through their block addresses.
    pub fn add(&self, other: &Self) -> (r: Self)
        ensures
            r == time_of_lba((self.lba() + other.lba()) as u32),
    {
        Self::from_lba(self.to_lba() + other.to_lba())
    }

    /// Difference of two times, through their block addresses, stopping at zero.
    pub fn sub(&self, other: &Self) -> (r: Self)
        ensures
            r == time_of_lba(if self.lba() >= other.lba() { (self.lba() - other.lba()) as u32 } else { 0 }),
    {
        Self::from_lba(self.to_lba().saturating_sub(other.to_lba()))
    }

    /// `DiscTime(MM:SS:FF)`, each component in decimal with at least two digits.
    pub fn to_string(&self) -> (r: String)
        ensures
            r@ == seq!['D', 'i', 's', 'c', 'T', 'i', 'm', 'e', '('] + two_digits(self.minutes as nat)
                + seq![':'] + two_digits(self.seconds as nat) + seq![':'] + two_digits(self.frames as nat)
                + seq![')'],
    {
        let mut r = String::new();
        append_str(&mut r, "DiscTime(");
        proof { reveal_strlit("DiscTime("); }
        append_two_digits(&mut r, self.minutes);
        push_char(&mut r, ':');
        append_two_digits(&mut r, self.seconds);
        push_char(&mut r, ':');
        append_two_digits(&mut r, self.frames);
        push_char(&mut r, ')');
        r
    }
}

/// Decimal digits of `v`, with a leading zero below ten (as `{:02}` formats).
pub open spec fn two_digits(v: nat) -> Seq<char> {
    if v < 10 { seq!['0'] + dec_digits(v) } else { dec_digits(v) }
}

fn append_two_digits(s: &mut String, v: u8)
    ensures
        final(s)@ == old(s)@ + two_digits(v as nat),
{
    if v < 10 {
        push_char(s, '0');
    }
    let d = dec_string(v as usize);
    append_str(s, d.as_str());
    proof {
        assert(final(s)@ =~= old(s)@ + two_digits(v as nat)) by {
            if v < 10 {
                assert(old(s)@.push('0') + d@ =~= old(s)@ + (seq!['0'] + dec_digits(v as nat)));
            }
        };
    }
}

/// Reading a normalized time back from its block address gives the time again.
pub proof fn lemma_lba_round_trip(t: DiscTime)
    requires
        t.is_normalized(),
    ensures
        0 <= t.lba() <= max_lba(),
        time_of_lba(t.lba() as u32) == t,
{
    let m = t.minutes as int;
    let s = t.seconds as int;
    let f = t.frames as int;
    let n = (m * 60 + s) * 75 + f;
    assert(n / 75 == m * 60 + s && n % 75 == f) by (nonlinear_arith)
        requires
            n == (m * 60 + s) * 75 + f,
            0 <= m < 256,
            0 <= s < 60,
            0 <= f < 75,
    ;
    assert((m * 60 + s) / 60 == m && (m * 60 + s) % 60 == s) by (nonlinear_arith)
        requires
            0 <= m < 256,
            0 <= s < 60,
    ;
    assert(0 <= n <= max_lba()) by (nonlinear_arith)
        requires
            n == (m * 60 + s) * 75 + f,
            0 <= m < 256,
            0 <= s < 60,
            0 <= f < 75,
    ;
    assert((n as u32) as int == n);
}

/// The time at a block address has that address again, for any address whose minutes fit a byte.
pub proof fn lemma_time_of_lba_round_trip(n: u32)
    requires
        n < 256 * 4500,
    ensures
        time_of_lba(n).lba() == n,
        time_of_lba(n).is_normalized(),
{
    let q = n / 75;
    let f = n % 75;
    let m = q / 60;
    let s = q % 60;
    assert(n == q * 75 + f && 0 <= f < 75) by (nonlinear_arith)
        requires q == n / 75, f == n % 75;
    assert(q == m * 60 + s && 0 <= s < 60) by (nonlinear_arith)
        requires m == q / 60, s == q % 60;
    assert(m < 256) by (nonlinear_arith)
        requires n < 256 * 4500, q == n / 75, m == q / 60;
    assert((m as u8) as int == m);
    assert((s as u8) as int == s);
    assert((f as u8) as int == f);
}

/// Adding two times adds their block addresses, while the sum stays within a byte of minutes.
pub proof fn lemma_add_lba(a: DiscTime, b: DiscTime)
    requires
        a.lba() + b.lba() < 256 * 4500,
    ensures
        time_of_lba((a.lba() + b.lba()) as u32).lba() == a.lba() + b.lba(),
{
    assert(a.lba() >= 0 && b.lba() >= 0) by (nonlinear_arith)
        requires
            a.lba() == lba_of(a.minutes as int, a.seconds as int, a.frames as int),
            b.lba() == lba_of(b.minutes as int, b.seconds as int, b.frames as int),
    ;
    lemma_time_of_lba_round_trip((a.lba() + b.lba()) as u32);
}

/// Conversions between binary and packed BCD bytes.
pub struct BCD {}

/// The value of a packed BCD byte (high nibble tens, low nibble units).
pub open spec fn bcd_decode(v: u8) -> int {
    (v / 16) * 10 + v % 16
}

/// The packed BCD byte `BCD::encode` makes of `v`: tens shifted into the high nibble (within a byte).
pub open spec fn bcd_encode(v: u8) -> int {
    ((v / 10) * 16) % 256 + v % 10
}

impl BCD {
    pub fn decode(value: u8) -> (r: u8)
        ensures
            r == bcd_decode(value),
    {
        assert((value >> 4) == value / 16 && (value & 0x0F) == value % 16) by (bit_vector);
        ((value >> 4) * 10) + (value & 0x0F)
    }

    pub fn encode(value: u8) -> (r: u8)
        ensures
            r == bcd_encode(value),
    {
        let t: u8 = value / 10;
        assert((t << 4u8) == ((t as int) * 16) % 256 && (t << 4u8) & 0x0F == 0) by (bit_vector);
        assert(((t as int) * 16) % 256 <= 240) by (nonlinear_arith)
            requires (((t as int) * 16) % 256) % 16 == 0, 0 <= ((t as int) * 16) % 256 < 256;
        (t << 4u8) + (value % 10)
    }

    pub fn is_valid(value: u8) -> (r: bool)
        ensures
            r == (value <= 0x99),
    {
        value <= 0x99
    }
}

/// Encoding a value below 100 in BCD and decoding it gives the value back.
pub proof fn lemma_bcd_round_trip(v: u8)
    requires
        v < 100,
    ensures
        0 <= bcd_encode(v) < 256,
        bcd_decode(bcd_encode(v) as u8) == v,
{
    let t = v / 10;
    let u = v % 10;
    assert(((t * 16) % 256) == t * 16);
    let e = t * 16 + u;
    assert(e / 16 == t && e % 16 == u) by (nonlinear_arith)
        requires e == t * 16 + u, 0 <= u < 10;
}

/// Decoding a BCD byte whose two digits are decimal and encoding the result gives the byte back.
pub proof fn lemma_bcd_decode_encode(b: u8)
    requires
        b / 16 < 10,
        b % 16 < 10,
    ensures
        0 <= bcd_decode(b) < 100,
        bcd_encode(bcd_decode(b) as u8) == b,
{
    let hi = b / 16;
    let lo = b % 16;
    let d = hi * 10 + lo;
    assert(d / 10 == hi && d % 10 == lo) by (nonlinear_arith)
        requires d == hi * 10 + lo, 0 <= lo < 10;
    assert(b == hi * 16 + lo);
}


/// A stereo pair of 16-bit audio samples.
#[derive(Clone, Copy, Debug, PartialEq, Eq, Structural)]
pub struct AudioLeftRight(pub u16, pub u16);

/// Kind of a track: audio, or data with its mode and sector length.
#[derive(Clone, Copy, Debug, PartialEq, Eq, Structural)]
pub enum TrackType {
    Audio,
    Data(u8, u16),
}

/// Which part of a mode 2 sector is handed to the data FIFO.
#[derive(Clone, Copy, Debug, PartialEq, Eq, Structural)]
pub enum TrackSectorDataSize {
    DataOnly,
    WholeSectorExceptSyncBytes,
}

/// A raw sector read from a disc, with its block address.
#[derive(Debug)]
pub struct DataSector {
    pub lba: u32,
    pub sector: [u8; 2352],
}

/// Little-endian 16-bit value of two bytes.
pub open spec fn le16(lo: u8, hi: u8) -> u16 {
    (lo as int + 256 * (hi as int)) as u16
}

/// The audio samples of a raw sector: one pair for each four bytes.
pub open spec fn audio_samples(s: Seq<u8>) -> Seq<AudioLeftRight> {
    Seq::new(s.len() / 4, |i: int| AudioLeftRight(le16(s[4 * i], s[4 * i + 1]), le16(s[4 * i + 2], s[4 * i + 3])))
}

/// Range of a mode 2 sector that holds the user data, by the size asked for.
pub open spec fn user_data_range(size: TrackSectorDataSize) -> (int, int) {
    match size {
        TrackSectorDataSize::DataOnly => (24int, 2072int),
        TrackSectorDataSize::WholeSectorExceptSyncBytes => (12int, 2352int),
    }
}

fn le16_of(lo: u8, hi: u8) -> (r: u16)
    ensures
        r == le16(lo, hi),
{
    lo as u16 + 256 * (hi as u16)
}

impl DataSector {
    /// An all-zero sector at a block address.
    pub fn empty(lba: u32) -> (r: Self)
        ensures
            r.lba == lba,
            forall|i: int| 0 <= i < 2352 ==> r.sector[i] == 0,
    {
        DataSector { lba, sector: [0u8; 2352] }
    }

    /*
    User data offset by mode:
      Mode 1        offset 16, 2048 bytes
      Mode 2 Form 1 offset 24, 2048 bytes
      Mode 2 Form 2 offset 24, 2324 bytes
    Mode 2 layout: 12 sync bytes, 3 bytes MSF, 1 byte mode, 8 bytes subheader (file, channel,
    submode, coding info, then the same four again).
    */
    pub fn get_mode2_user_data(&self, data_size: &TrackSectorDataSize) -> (r: &[u8])
        ensures
            r@ == self.sector@.subrange(user_data_range(*data_size).0, user_data_range(*data_size).1),
    {
        let all: &[u8] = self.sector.as_slice();
        match data_size {
            TrackSectorDataSize::DataOnly => &all[24..24 + 2048],
            TrackSectorDataSize::WholeSectorExceptSyncBytes => &all[12..2352],
        }
    }

    /// The sector as 588 stereo sample pairs.
    pub fn get_audio_data(&self) -> (r: Vec<AudioLeftRight>)
        ensures
            r@ == audio_samples(self.sector@),
    {
        let mut result: Vec<AudioLeftRight> = Vec::new();
        let n: usize = 2352 / 4;
        let mut i: usize = 0;
        while i < n
            invariant
                n == 588,
                i <= n,
                self.sector@.len() == 2352,
                result@ =~= audio_samples(self.sector@).take(i as int),
            decreases n - i,
        {
            let l = le16_of(self.sector[i * 4], self.sector[i * 4 + 1]);
            let r = le16_of(self.sector[i * 4 + 2], self.sector[i * 4 + 3]);
            result.push(AudioLeftRight(l, r));
            i += 1;
        }
        result
    }

    /// The mode byte of the sector header.
    pub fn get_data_mode(&self) -> (r: u8)
        ensures
            r == self.sector[15],
    {
        self.sector[15]
    }

    /// The time recorded in the sector header (three BCD bytes).
    pub fn get_data_msf(&self) -> (r: DiscTime)
        ensures
            r.minutes == bcd_decode(self.sector[12]),
            r.seconds == bcd_decode(self.sector[13]),
            r.frames == bcd_decode(self.sector[14]),
    {
        DiscTime::new(BCD::decode(self.sector[12]), BCD::decode(self.sector[13]), BCD::decode(self.sector[14]))
    }
}

/// Gap put before and after a track of the given type.
pub open spec fn track_gap(t: TrackType) -> DiscTime {
    match t {
        TrackType::Audio => DiscTime { minutes: 0, seconds: 0, frames: 0 },
        TrackType::Data(_, _) => DiscTime { minutes: 0, seconds: 2, frames: 0 },
    }
}

/// Sum of two times as `DiscTime::add` computes it.
pub open spec fn time_add(a: DiscTime, b: DiscTime) -> DiscTime {
    time_of_lba((a.lba() + b.lba()) as u32)
}

/// Difference of two times as `DiscTime::sub` computes it.
pub open spec fn time_sub(a: DiscTime, b: DiscTime) -> DiscTime {
    time_of_lba(if a.lba() >= b.lba() { (a.lba() - b.lba()) as u32 } else { 0 })
}

/// A track of a disc: the file it is read from, its number and type, and where it lies.
#[derive(Debug)]
pub struct Track {
    pub file_id: u8,
    pub number: u8,
    pub track_type: TrackType,
    pub start_time: DiscTime,
    pub end_time: DiscTime,
    pub pre_gap: DiscTime,
    pub post_gap: DiscTime,
}

/// The track `Track::new` builds.
pub open spec fn track_spec(file_id: u8, number: u8, track_type: TrackType, start: DiscTime, end: DiscTime) -> Track {
    Track {
        file_id,
        number,
        track_type,
        start_time: time_add(start, track_gap(track_type)),
        end_time: time_add(end, track_gap(track_type)),
        pre_gap: track_gap(track_type),
        post_gap: track_gap(track_type),
    }
}

/// The length `Track::duration` gives: end minus start, plus both gaps.
pub open spec fn track_duration(t: Track) -> DiscTime {
    time_add(time_add(time_sub(t.end_time, t.start_time), t.post_gap), t.pre_gap)
}

impl Track {
    pub fn get_file_id(&self) -> (r: u8)
        ensures
            r == self.file_id,
    {
        self.file_id
    }

    pub fn track_number(&self) -> (r: u8)
        ensures
            r == self.number,
    {
        self.number
    }

    pub fn track_type(&self) -> (r: &TrackType)
        ensures
            *r == self.track_type,
    {
        &self.track_type
    }

    pub fn start_time(&self) -> (r: &DiscTime)
        ensures
            *r == self.start_time,
    {
        &self.start_time
    }

    pub fn end_time(&self) -> (r: &DiscTime)
        ensures
            *r == self.end_time,
    {
        &self.end_time
    }

    pub fn duration(&self) -> (r: DiscTime)
        ensures
            r == track_duration(*self),
    {
        self.end_time.sub(&self.start_time).add(&self.post_gap).add(&self.pre_gap)
    }

    /// A track between two times; data tracks get a two second gap before and after.
    pub fn new(file_id: u8, number: u8, track_type: TrackType, start_time: DiscTime, end_time: DiscTime) -> (r: Self)
        ensures
            r == track_spec(file_id, number, track_type, start_time, end_time),
    {
        let gap = match track_type {
            TrackType::Audio => DiscTime::new(0, 0, 0),
            TrackType::Data(_, _) => DiscTime::new(0, 2, 0),
        };
        Track {
            file_id,
            number,
            track_type,
            start_time: start_time.add(&gap),
            end_time: end_time.add(&gap),
            pre_gap: gap,
            post_gap: gap,
        }
    }

    /// Whether a time lies in `[start, end)` of this track, by block address.
    pub fn contains_msf(&self, msf: DiscTime) -> (r: bool)
        ensures
            r == (self.start_time.lba() <= msf.lba() < self.end_time.lba()),
    {
        let l = msf.to_lba();
        l >= self.start_time.to_lba() && l < self.end_time.to_lba()
    }
}

} // verus!
