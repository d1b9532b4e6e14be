use vstd::prelude::*;
use crate::text::{chars_of, string_of, trim, trim_spec, parse_unsigned, parse_unsigned_range, append_str, push_char};

verus! {

/// A cue sheet: the data files of a disc image and their tracks.
#[derive(Debug, Clone)]
pub struct CueSheet {
    pub files: Vec<CueFile>,
}

/// One `FILE` entry. `path` is the name as written in the sheet, relative to the sheet's
/// directory.
#[derive(Debug, Clone)]
pub struct CueFile {
    pub path: String,
    pub file_type: CueFileType,
    pub tracks: Vec<Track>,
}

#[derive(Debug, Clone)]
pub enum CueFileType {
    Binary,
    Wave,
    Mp3,
    Unknown(String),
}

/// One `TRACK` entry.
#[derive(Debug, Clone)]
pub struct Track {
    pub number: u8,
    pub track_type: TrackType,
    pub indices: Vec<Index>,
}

#[derive(Debug, Clone)]
pub enum TrackType {
    Mode1_2352,
    Mode2_2352,
    Audio,
    Unknown(String),
}

/// One `INDEX` entry.
#[derive(Debug, Clone, Copy)]
pub struct Index {
    pub number: u8,
    pub time: Msf,
}

/// A minute:second:frame position.
#[derive(Debug, Clone, Copy)]
pub struct Msf {
    pub minute: u8,
    pub second: u8,
    pub frame: u8,
}

pub enum CueFileTypeV {
    Binary,
    Wave,
    Mp3,
    Unknown(Seq<char>),
}

pub enum TrackTypeV {
    Mode1_2352,
    Mode2_2352,
    Audio,
    Unknown(Seq<char>),
}

pub struct TrackV {
    pub number: u8,
    pub track_type: TrackTypeV,
    pub indices: Seq<Index>,
}

pub struct CueFileV {
    pub path: Seq<char>,
    pub file_type: CueFileTypeV,
    pub tracks: Seq<TrackV>,
}

impl View for CueFileType {
    type V = CueFileTypeV;

    open spec fn view(&self) -> CueFileTypeV {
        match self {
            CueFileType::Binary => CueFileTypeV::Binary,
            CueFileType::Wave => CueFileTypeV::Wave,
            CueFileType::Mp3 => CueFileTypeV::Mp3,
            CueFileType::Unknown(s) => CueFileTypeV::Unknown(s@),
        }
    }
}

impl View for TrackType {
    type V = TrackTypeV;

    open spec fn view(&self) -> TrackTypeV {
        match self {
            TrackType::Mode1_2352 => TrackTypeV::Mode1_2352,
            TrackType::Mode2_2352 => TrackTypeV::Mode2_2352,
            TrackType::Audio => TrackTypeV::Audio,
            TrackType::Unknown(s) => TrackTypeV::Unknown(s@),
        }
    }
}

impl View for Track {
    type V = TrackV;

    open spec fn view(&self) -> TrackV {
        TrackV { number: self.number, track_type: self.track_type@, indices: self.indices@ }
    }
}

impl View for CueFile {
    type V = CueFileV;

    open spec fn view(&self) -> CueFileV {
        CueFileV { path: self.path@, file_type: self.file_type@, tracks: self.tracks@.map_values(|t: Track| t@) }
    }
}

impl View for CueSheet {
    type V = Seq<CueFileV>;

    open spec fn view(&self) -> Seq<CueFileV> {
        self.files@.map_values(|f: CueFile| f@)
    }
}

/// Splitting a cue line: the finished words, the word being read, and whether inside quotes.
/// Quotes toggle quoting and are dropped; a space outside quotes ends a word.
pub open spec fn split_state(s: Seq<char>) -> (Seq<Seq<char>>, Seq<char>, bool)
    decreases s.len(),
{
    if s.len() == 0 {
        (Seq::empty(), Seq::empty(), false)
    } else {
        let (words, cur, quoted) = split_state(s.drop_last());
        let c = s.last();
        if c == '"' {
            (words, cur, !quoted)
        } else if c == ' ' && !quoted {
            if cur.len() > 0 { (words.push(cur), Seq::empty(), quoted) } else { (words, cur, quoted) }
        } else {
            (words, cur.push(c), quoted)
        }
    }
}

/// The words of a cue line.
pub open spec fn split_cue(s: Seq<char>) -> Seq<Seq<char>> {
    let (words, cur, _) = split_state(s);
    if cur.len() > 0 { words.push(cur) } else { words }
}

/// The pieces of `s` between colons (`str::split(':')`).
pub open spec fn colon_state(s: Seq<char>) -> (Seq<Seq<char>>, Seq<char>)
    decreases s.len(),
{
    if s.len() == 0 {
        (Seq::empty(), Seq::empty())
    } else {
        let (done, cur) = colon_state(s.drop_last());
        if s.last() == ':' { (done.push(cur), Seq::empty()) } else { (done, cur.push(s.last())) }
    }
}

pub open spec fn colon_pieces(s: Seq<char>) -> Seq<Seq<char>> {
    let (done, cur) = colon_state(s);
    done.push(cur)
}

/// A number field: its `u8` value, 0 when it does not parse.
pub open spec fn u8_or_zero(s: Seq<char>) -> u8 {
    match parse_unsigned(s, 10, 255) {
        Some(v) => v as u8,
        None => 0,
    }
}

/// Piece `k` of an `mm:ss:ff` field as a number (0 when missing or invalid).
pub open spec fn msf_piece(s: Seq<char>, k: int) -> u8 {
    let p = colon_pieces(s);
    if k < p.len() { u8_or_zero(p[k]) } else { 0 }
}

pub open spec fn msf_of(s: Seq<char>) -> Msf {
    Msf { minute: msf_piece(s, 0), second: msf_piece(s, 1), frame: msf_piece(s, 2) }
}

pub open spec fn file_type_of(s: Seq<char>) -> CueFileTypeV {
    if s == seq!['B', 'I', 'N', 'A', 'R', 'Y'] {
        CueFileTypeV::Binary
    } else if s == seq!['W', 'A', 'V', 'E'] {
        CueFileTypeV::Wave
    } else if s == seq!['M', 'P', '3'] {
        CueFileTypeV::Mp3
    } else {
        CueFileTypeV::Unknown(s)
    }
}

pub open spec fn track_type_of(s: Seq<char>) -> TrackTypeV {
    if s == seq!['M', 'O', 'D', 'E', '1', '/', '2', '3', '5', '2'] {
        TrackTypeV::Mode1_2352
    } else if s == seq!['M', 'O', 'D', 'E', '2', '/', '2', '3', '5', '2'] {
        TrackTypeV::Mode2_2352
    } else if s == seq!['A', 'U', 'D', 'I', 'O'] {
        TrackTypeV::Audio
    } else {
        TrackTypeV::Unknown(s)
    }
}

/// The parser's state: the files done, the file and the track being read.
pub struct CueParseV {
    pub files: Seq<CueFileV>,
    pub file: Option<CueFileV>,
    pub track: Option<TrackV>,
}

/// The track being read goes to the file being read (it is dropped when there is none).
pub open spec fn flush_track(st: CueParseV) -> CueParseV {
    match st.track {
        Some(t) => CueParseV {
            file: match st.file {
                Some(f) => Some(CueFileV { tracks: f.tracks.push(t), ..f }),
                None => None,
            },
            track: None,
            ..st
        },
        None => st,
    }
}

pub open spec fn flush_file(st: CueParseV) -> CueParseV {
    match st.file {
        Some(f) => CueParseV { files: st.files.push(f), file: None, ..st },
        None => st,
    }
}

pub open spec fn is_word(w: Seq<char>, k: Seq<char>) -> bool {
    w == k
}

pub open spec fn kw_file() -> Seq<char> { seq!['F', 'I', 'L', 'E'] }
pub open spec fn kw_track() -> Seq<char> { seq!['T', 'R', 'A', 'C', 'K'] }
pub open spec fn kw_index() -> Seq<char> { seq!['I', 'N', 'D', 'E', 'X'] }

/// The words of the trimmed line.
pub open spec fn line_words(line: Seq<char>) -> Seq<Seq<char>> {
    split_cue(trim_spec(line))
}

/// A line can be read in state `st`: `FILE` and `TRACK` lines, and `INDEX` lines inside a track,
/// have a keyword and two fields.
pub open spec fn line_ok(st: CueParseV, w: Seq<Seq<char>>) -> bool {
    w.len() > 0 ==> {
        &&& w[0] == kw_file() ==> w.len() >= 3
        &&& w[0] == kw_track() ==> w.len() >= 3
        &&& (w[0] == kw_index() && st.track is Some) ==> w.len() >= 3
    }
}

/// Reading one line (given by its words).
pub open spec fn cue_step(st: CueParseV, w: Seq<Seq<char>>) -> CueParseV {
    if w.len() == 0 {
        st
    } else if w[0] == kw_file() {
        let s2 = flush_file(flush_track(st));
        CueParseV { file: Some(CueFileV { path: w[1], file_type: file_type_of(w[2]), tracks: Seq::empty() }), ..s2 }
    } else if w[0] == kw_track() {
        let s2 = flush_track(st);
        CueParseV { track: Some(TrackV { number: u8_or_zero(w[1]), track_type: track_type_of(w[2]), indices: Seq::empty() }), ..s2 }
    } else if w[0] == kw_index() {
        match st.track {
            Some(t) => CueParseV {
                track: Some(TrackV { indices: t.indices.push(Index { number: u8_or_zero(w[1]), time: msf_of(w[2]) }), ..t }),
                ..st
            },
            None => st,
        }
    } else {
        st
    }
}

pub open spec fn cue_start() -> CueParseV {
    CueParseV { files: Seq::empty(), file: None, track: None }
}

/// The state after reading `lines`.
pub open spec fn cue_fold(lines: Seq<Seq<char>>) -> CueParseV
    decreases lines.len(),
{
    if lines.len() == 0 {
        cue_start()
    } else {
        cue_step(cue_fold(lines.drop_last()), line_words(lines.last()))
    }
}

/// Every line can be read in the state it is read in.
pub open spec fn cue_lines_ok(lines: Seq<Seq<char>>) -> bool
    decreases lines.len(),
{
    lines.len() == 0 || (cue_lines_ok(lines.drop_last()) && line_ok(cue_fold(lines.drop_last()), line_words(lines.last())))
}

/// The files of the sheet given by `lines`.
pub open spec fn cue_files(lines: Seq<Seq<char>>) -> Seq<CueFileV> {
    flush_file(flush_track(cue_fold(lines))).files
}

/// Splits a cue line into words (see `split_cue`).
pub fn split_cue_line(line: &str) -> (r: Vec<String>)
    ensures
        r@.map_values(|w: String| w@) == split_cue(line@),
{
    let v = chars_of(line);
    let mut result: Vec<String> = Vec::new();
    let mut current: Vec<char> = Vec::new();
    let mut in_quotes = false;
    let mut i: usize = 0;
    while i < v.len()
        invariant
            v@ == line@,
            i <= v.len(),
            (result@.map_values(|w: String| w@), current@, in_quotes) == split_state(v@.take(i as int)),
        decreases v.len() - i,
    {
        let c = v[i];
        proof {
            assert(v@.take(i as int + 1).drop_last() == v@.take(i as int));
        }
        if c == '"' {
            in_quotes = !in_quotes;
        } else if c == ' ' && !in_quotes {
            if current.len() > 0 {
                let w = string_of(&current);
                let ghost old_result = result@;
                result.push(w);
                proof {
                    assert(result@.map_values(|w: String| w@) == old_result.map_values(|w: String| w@).push(current@));
                }
                current = Vec::new();
            }
        } else {
            current.push(c);
        }
        i = i + 1;
    }
    proof {
        assert(v@.take(v.len() as int) == v@);
    }
    if current.len() > 0 {
        let w = string_of(&current);
        let ghost old_result = result@;
        result.push(w);
        proof {
            assert(result@.map_values(|w: String| w@) == old_result.map_values(|w: String| w@).push(current@));
        }
    }
    result
}

/// Compares a string with a keyword given as characters.
fn word_is(w: &String, k: &[char]) -> (r: bool)
    ensures
        r == (w@ == k@),
{
    let v = chars_of(w.as_str());
    if v.len() != k.len() {
        return false;
    }
    let mut i: usize = 0;
    while i < v.len()
        invariant
            v@ == w@,
            v.len() == k.len(),
            i <= v.len(),
            forall|j: int| 0 <= j < i ==> v@[j] == k@[j],
        decreases v.len() - i,
    {
        if v[i] != k[i] {
            return false;
        }
        i = i + 1;
    }
    proof {
        assert(v@ == k@);
    }
    true
}

/// A number field as `u8` (0 when it does not parse).
fn parse_u8_or_zero(s: &String) -> (r: u8)
    ensures
        r == u8_or_zero(s@),
{
    let v = chars_of(s.as_str());
    proof {
        assert(v@.subrange(0, v@.len() as int) == s@);
    }
    match parse_unsigned_range(&v, 0, v.len(), 10, 255) {
        Some(n) => n as u8,
        None => 0,
    }
}

pub fn parse_file_type(s: &String) -> (r: CueFileType)
    ensures
        r@ == file_type_of(s@),
{
    let k_binary: [char; 6] = ['B', 'I', 'N', 'A', 'R', 'Y'];
    let k_wave: [char; 4] = ['W', 'A', 'V', 'E'];
    let k_mp3: [char; 3] = ['M', 'P', '3'];
    if word_is(s, &k_binary) {
        CueFileType::Binary
    } else if word_is(s, &k_wave) {
        CueFileType::Wave
    } else if word_is(s, &k_mp3) {
        CueFileType::Mp3
    } else {
        CueFileType::Unknown(s.clone())
    }
}

pub fn parse_track_type(s: &String) -> (r: TrackType)
    ensures
        r@ == track_type_of(s@),
{
    let k_mode1: [char; 10] = ['M', 'O', 'D', 'E', '1', '/', '2', '3', '5', '2'];
    let k_mode2: [char; 10] = ['M', 'O', 'D', 'E', '2', '/', '2', '3', '5', '2'];
    let k_audio: [char; 5] = ['A', 'U', 'D', 'I', 'O'];
    if word_is(s, &k_mode1) {
        TrackType::Mode1_2352
    } else if word_is(s, &k_mode2) {
        TrackType::Mode2_2352
    } else if word_is(s, &k_audio) {
        TrackType::Audio
    } else {
        TrackType::Unknown(s.clone())
    }
}

/// Parses `mm:ss:ff`; a missing or invalid field is 0.
pub fn parse_msf(s: &String) -> (r: Msf)
    ensures
        r == msf_of(s@),
{
    let v = chars_of(s.as_str());
    let mut fields: [u8; 3] = [0, 0, 0];
    let mut count: usize = 0;
    let mut start: usize = 0;
    let mut i: usize = 0;
    while i < v.len()
        invariant
            v@ == s@,
            start <= i <= v.len(),
            colon_state(v@.take(i as int)).1 == v@.subrange(start as int, i as int),
            count == colon_state(v@.take(i as int)).0.len() || (count == 3 && colon_state(v@.take(i as int)).0.len() >= 3),
            count <= 3,
            forall|k: int| 0 <= k < count ==> fields[k] == u8_or_zero(#[trigger] colon_state(v@.take(i as int)).0[k]),
            forall|k: int| count <= k < 3 ==> fields[k] == 0,
        decreases v.len() - i,
    {
        proof {
            assert(v@.take(i as int + 1).drop_last() == v@.take(i as int));
        }
        if v[i] == ':' {
            if count < 3 {
                let f = string_of(&slice_chars(&v, start, i));
                fields[count] = parse_u8_or_zero(&f);
                count = count + 1;
            }
            start = i + 1;
        } else {
            proof {
                assert(v@.subrange(start as int, i as int + 1) == v@.subrange(start as int, i as int).push(v@[i as int]));
            }
        }
        i = i + 1;
    }
    proof {
        assert(v@.take(v.len() as int) == v@);
    }
    if count < 3 {
        let f = string_of(&slice_chars(&v, start, v.len()));
        fields[count] = parse_u8_or_zero(&f);
        count = count + 1;
    }
    Msf { minute: fields[0], second: fields[1], frame: fields[2] }
}

pub open spec fn opt_file_v(o: Option<CueFile>) -> Option<CueFileV> {
    match o {
        Some(f) => Some(f@),
        None => None,
    }
}

pub open spec fn opt_track_v(o: Option<Track>) -> Option<TrackV> {
    match o {
        Some(t) => Some(t@),
        None => None,
    }
}

pub open spec fn state_v(files: Seq<CueFile>, file: Option<CueFile>, track: Option<Track>) -> CueParseV {
    CueParseV { files: files.map_values(|f: CueFile| f@), file: opt_file_v(file), track: opt_track_v(track) }
}

/// The lines of a sheet as character sequences.
pub open spec fn lines_v(lines: Seq<String>) -> Seq<Seq<char>> {
    lines.map_values(|l: String| l@)
}

fn flush_track_exec(files: &Vec<CueFile>, file: &mut Option<CueFile>, track: &mut Option<Track>)
    ensures
        state_v(files@, *final(file), *final(track)) == flush_track(state_v(files@, *old(file), *old(track))),
{
    match track.take() {
        Some(t) => {
            match file.take() {
                Some(mut f) => {
                    let ghost before = f.tracks@;
                    f.tracks.push(t);
                    proof {
                        assert(f.tracks@.map_values(|x: Track| x@) == before.map_values(|x: Track| x@).push(t@));
                    }
                    *file = Some(f);
                },
                None => {},
            }
        },
        None => {},
    }
}

fn flush_file_exec(files: &mut Vec<CueFile>, file: &mut Option<CueFile>, track: &Option<Track>)
    ensures
        state_v(final(files)@, *final(file), *track) == flush_file(state_v(old(files)@, *old(file), *track)),
{
    match file.take() {
        Some(f) => {
            let ghost before = files@;
            files.push(f);
            proof {
                assert(files@.map_values(|x: CueFile| x@) == before.map_values(|x: CueFile| x@).push(f@));
            }
        },
        None => {},
    }
}

/// A file name of the sheet taken relative to the sheet's folder `dir` ('/'-separated): an
/// absolute name stays as it is, a name in an empty folder too; otherwise the folder, a '/'
/// unless the folder ends with one, and the name.
pub open spec fn joined_path(dir: Seq<char>, name: Seq<char>) -> Seq<char> {
    if name.len() > 0 && name[0] == '/' {
        name
    } else if dir.len() == 0 {
        name
    } else if dir.last() == '/' {
        dir + name
    } else {
        dir + seq!['/'] + name
    }
}

/// The path of file `name` of a sheet in folder `dir`.
pub fn join_path(dir: &str, name: &str) -> (r: String)
    ensures
        r@ == joined_path(dir@, name@),
{
    let d = chars_of(dir);
    let n = chars_of(name);
    if (n.len() > 0 && n[0] == '/') || d.len() == 0 {
        return string_of(&n);
    }
    let mut r = string_of(&d);
    if d[d.len() - 1] != '/' {
        push_char(&mut r, '/');
    }
    append_str(&mut r, name);
    r
}

/// The sheet's files with their paths taken relative to the sheet's folder `dir`.
pub open spec fn files_in_dir(files: Seq<CueFileV>, dir: Seq<char>) -> Seq<CueFileV> {
    files.map_values(|f: CueFileV| CueFileV { path: joined_path(dir, f.path), ..f })
}

/// Makes the file paths of a sheet read from folder `dir` relative to that folder.
pub fn resolve_paths(sheet: &mut CueSheet, dir: &str)
    ensures
        final(sheet)@ == files_in_dir(old(sheet)@, dir@),
{
    let mut rest: Vec<CueFile> = Vec::new();
    std::mem::swap(&mut rest, &mut sheet.files);
    let ghost all = rest@;
    let mut files: Vec<CueFile> = Vec::new();
    while rest.len() > 0
        invariant
            all.map_values(|f: CueFile| f@) == old(sheet)@,
            files@.len() + rest@.len() == all.len(),
            rest@ == all.skip(files@.len() as int),
            files@.map_values(|f: CueFile| f@) == files_in_dir(old(sheet)@, dir@).take(files@.len() as int),
        decreases rest@.len(),
    {
        let mut f = rest.remove(0);
        let ghost k = files@.len() as int;
        assert(f == all[k]);
        f.path = join_path(dir, f.path.as_str());
        files.push(f);
        proof {
            assert(rest@ == all.skip(k + 1));
            assert(files@.map_values(|f: CueFile| f@) == files_in_dir(old(sheet)@, dir@).take(k + 1));
        }
    }
    assert(files@.map_values(|f: CueFile| f@) == files_in_dir(old(sheet)@, dir@));
    sheet.files = files;
}

/// Reads a cue sheet given as its lines: `FILE`, `TRACK` and `INDEX` entries, other lines
/// being skipped.
pub fn parse_cue_lines(lines: &Vec<String>) -> (r: CueSheet)
    requires
        cue_lines_ok(lines_v(lines@)),
    ensures
        r@ == cue_files(lines_v(lines@)),
{
    let k_file: [char; 4] = ['F', 'I', 'L', 'E'];
    let k_track: [char; 5] = ['T', 'R', 'A', 'C', 'K'];
    let k_index: [char; 5] = ['I', 'N', 'D', 'E', 'X'];
    proof {
        assert(k_file@ == kw_file());
        assert(k_track@ == kw_track());
        assert(k_index@ == kw_index());
    }
    let mut files: Vec<CueFile> = Vec::new();
    let mut file: Option<CueFile> = None;
    let mut track: Option<Track> = None;
    let mut i: usize = 0;
    proof {
        assert(files@.map_values(|f: CueFile| f@) == Seq::<CueFileV>::empty());
        assert(lines_v(lines@).take(0) == Seq::<Seq<char>>::empty());
    }
    while i < lines.len()
        invariant
            i <= lines.len(),
            cue_lines_ok(lines_v(lines@)),
            k_file@ == kw_file(),
            k_track@ == kw_track(),
            k_index@ == kw_index(),
            state_v(files@, file, track) == cue_fold(lines_v(lines@).take(i as int)),
        decreases lines.len() - i,
    {
        let ghost st = state_v(files@, file, track);
        let ghost ls = lines_v(lines@);
        proof {
            assert(ls.take(i as int + 1).drop_last() == ls.take(i as int));
            assert(ls.take(i as int + 1).last() == lines@[i as int]@);
            lemma_lines_ok_prefix(ls, i as int + 1);
        }
        let trimmed = trim(lines[i].as_str());
        let parts = split_cue_line(trimmed.as_str());
        let ghost w = parts@.map_values(|x: String| x@);
        proof {
            assert(w == line_words(lines@[i as int]@));
            assert(line_ok(st, w));
        }
        if parts.len() > 0 {
            proof {
                assert(w[0] == parts@[0]@);
            }
            if word_is(&parts[0], &k_file) {
                proof {
                    assert(w[1] == parts@[1]@);
                    assert(w[2] == parts@[2]@);
                }
                flush_track_exec(&files, &mut file, &mut track);
                flush_file_exec(&mut files, &mut file, &track);
                let file_type = parse_file_type(&parts[2]);
                let nf = CueFile { path: parts[1].clone(), file_type, tracks: Vec::new() };
                proof {
                    assert(nf.tracks@.map_values(|x: Track| x@) == Seq::<TrackV>::empty());
                }
                file = Some(nf);
            } else if word_is(&parts[0], &k_track) {
                proof {
                    assert(w[1] == parts@[1]@);
                    assert(w[2] == parts@[2]@);
                }
                flush_track_exec(&files, &mut file, &mut track);
                let number = parse_u8_or_zero(&parts[1]);
                let track_type = parse_track_type(&parts[2]);
                track = Some(Track { number, track_type, indices: Vec::new() });
            } else if word_is(&parts[0], &k_index) {
                match track.take() {
                    Some(mut t) => {
                        proof {
                            assert(w[1] == parts@[1]@);
                            assert(w[2] == parts@[2]@);
                        }
                        let number = parse_u8_or_zero(&parts[1]);
                        let time = parse_msf(&parts[2]);
                        t.indices.push(Index { number, time });
                        track = Some(t);
                    },
                    None => {},
                }
            }
        }
        i = i + 1;
    }
    proof {
        assert(lines_v(lines@).take(lines@.len() as int) == lines_v(lines@));
    }
    flush_track_exec(&files, &mut file, &mut track);
    flush_file_exec(&mut files, &mut file, &track);
    CueSheet { files }
}

proof fn lemma_lines_ok_prefix(ls: Seq<Seq<char>>, n: int)
    requires
        cue_lines_ok(ls),
        0 <= n <= ls.len(),
    ensures
        cue_lines_ok(ls.take(n)),
        n > 0 ==> line_ok(cue_fold(ls.take(n - 1)), line_words(ls[n - 1])),
    decreases ls.len() - n,
{
    if n < ls.len() {
        assert(ls.drop_last().take(n) == ls.take(n));
        lemma_lines_ok_prefix(ls.drop_last(), n);
        if n > 0 {
            assert(ls.take(n - 1) == ls.drop_last().take(n - 1));
        }
    } else {
        assert(ls.take(n) == ls);
        if n > 0 {
            assert(ls.take(n - 1) == ls.drop_last());
        }
    }
}

/// Whether every line of a sheet can be read (see `cue_lines_ok`): `FILE` and `TRACK` lines,
/// and `INDEX` lines after a track, have two fields.
pub fn check_cue_lines(lines: &Vec<String>) -> (r: bool)
    ensures
        r == cue_lines_ok(lines_v(lines@)),
{
    let k_file: [char; 4] = ['F', 'I', 'L', 'E'];
    let k_track: [char; 5] = ['T', 'R', 'A', 'C', 'K'];
    let k_index: [char; 5] = ['I', 'N', 'D', 'E', 'X'];
    proof {
        assert(k_file@ == kw_file());
        assert(k_track@ == kw_track());
        assert(k_index@ == kw_index());
        assert(lines_v(lines@).take(0) == Seq::<Seq<char>>::empty());
    }
    let mut has_track = false;
    let mut i: usize = 0;
    while i < lines.len()
        invariant
            i <= lines.len(),
            k_file@ == kw_file(),
            k_track@ == kw_track(),
            k_index@ == kw_index(),
            has_track == (cue_fold(lines_v(lines@).take(i as int)).track is Some),
            cue_lines_ok(lines_v(lines@).take(i as int)),
        decreases lines.len() - i,
    {
        let ghost ls = lines_v(lines@);
        proof {
            assert(ls.take(i as int + 1).drop_last() == ls.take(i as int));
            assert(ls.take(i as int + 1).last() == lines@[i as int]@);
        }
        let trimmed = trim(lines[i].as_str());
        let parts = split_cue_line(trimmed.as_str());
        let ghost w = parts@.map_values(|x: String| x@);
        proof {
            assert(w == line_words(lines@[i as int]@));
        }
        if parts.len() > 0 {
            proof {
                assert(w[0] == parts@[0]@);
            }
            let is_file = word_is(&parts[0], &k_file);
            let is_track = word_is(&parts[0], &k_track);
            let is_index = word_is(&parts[0], &k_index);
            if (is_file || is_track || (is_index && has_track)) && parts.len() < 3 {
                proof {
                    lemma_lines_not_ok_after(ls, i as int + 1);
                }
                return false;
            }
            if is_file {
                has_track = false;
            } else if is_track {
                has_track = true;
            }
        }
        i = i + 1;
    }
    proof {
        assert(lines_v(lines@).take(lines@.len() as int) == lines_v(lines@));
    }
    true
}

/// Once a prefix cannot be read, neither can the whole sheet.
proof fn lemma_lines_not_ok_after(ls: Seq<Seq<char>>, n: int)
    requires
        0 <= n <= ls.len(),
        !cue_lines_ok(ls.take(n)),
    ensures
        !cue_lines_ok(ls),
    decreases ls.len() - n,
{
    if n < ls.len() {
        assert(ls.take(n + 1).drop_last() == ls.take(n));
        lemma_lines_not_ok_after(ls, n + 1);
    } else {
        assert(ls.take(n) == ls);
    }
}

/// Characters `from..to` of `v`.
fn slice_chars(v: &Vec<char>, from: usize, to: usize) -> (r: Vec<char>)
    requires
        from <= to <= v.len(),
    ensures
        r@ == v@.subrange(from as int, to as int),
{
    let mut r: Vec<char> = Vec::new();
    let mut i = from;
    while i < to
        invariant
            from <= i <= to <= v.len(),
            r@ == v@.subrange(from as int, i as int),
        decreases to - i,
    {
        r.push(v[i]);
        i = i + 1;
    }
    r
}

} // verus!
