use vstd::prelude::*;
use crate::cdrom::Region;
use crate::cdrom::image::{region_of_boot_file, region_of_boot_name};
use crate::text::{str_to_uppercase, str_upper};

verus! {

/// What the first capture group of `pattern` holds in its first match in `text`: `None` when
/// the pattern is invalid, does not match, or its group 1 takes no part in the match.
pub uninterp spec fn regex_first_capture(pattern: Seq<char>, text: Seq<char>) -> Option<Seq<char>>;

pub open spec fn opt_string_view(o: Option<String>) -> Option<Seq<char>> {
    match o {
        Some(s) => Some(s@),
        None => None,
    }
}

/// Group 1 of the first match of `pattern` in `text` (`regex::Regex::new`, then
/// `Regex::captures` and `Captures::get(1)`): the contract claims only that the result is
/// the same for the same pattern and text.
#[verifier::external_body]
fn regex_capture(pattern: &str, text: &str) -> (r: Option<String>)
    ensures
        opt_string_view(r) == regex_first_capture(pattern@, text@),
{
    match regex::Regex::new(pattern) {
        Ok(re) => re.captures(text).and_then(|c| c.get(1)).map(|m| m.as_str().to_string()),
        Err(_) => None,
    }
}

/// The pattern of the boot line of `SYSTEM.CNF`: `BOOT = cdrom:\NAME;...`, the name captured.
pub open spec fn boot_pattern() -> Seq<char> {
    seq!['\\', 's', '*', 'B', 'O', 'O', 'T', '\\', 's', '*', '=', '\\', 's', '*', 'c', 'd', 'r', 'o', 'm', ':', '\\',
        '\\', '(', '.', '*', ')', ';', '.', '*']
}

/// The region a `SYSTEM.CNF` text gives: from the upper-cased boot file name of its `BOOT` line.
pub open spec fn cnf_region(cnf: Seq<char>) -> Option<Region> {
    match regex_first_capture(boot_pattern(), cnf) {
        Some(name) => region_of_boot_name(str_upper(name)),
        None => None,
    }
}

/// The region of a disc from the text of its `SYSTEM.CNF` (Japan, USA or Europe, from the third
/// letter of the boot file name).
pub fn get_cd_region_from_cnf(cnf: &str) -> (r: Option<Region>)
    ensures
        r == cnf_region(cnf@),
{
    let pattern = "\\s*BOOT\\s*=\\s*cdrom:\\\\(.*);.*";
    proof {
        reveal_strlit("\\s*BOOT\\s*=\\s*cdrom:\\\\(.*);.*");
        assert(pattern@ == boot_pattern());
    }
    match regex_capture(pattern, cnf) {
        Some(name) => {
            let upper = str_to_uppercase(name.as_str());
            region_of_boot_file(&upper)
        },
        None => None,
    }
}

/// Bytes of user data in a mode 2 form 1 sector.
pub const USER_DATA_SIZE: usize = 2048;

/// The little-endian 32-bit value at `i`.
pub open spec fn le32(d: Seq<u8>, i: int) -> u32 {
    (d[i] as int + d[i + 1] as int * 256 + d[i + 2] as int * 65536 + d[i + 3] as int * 16777216) as u32
}

fn le32_at(d: &[u8], i: usize) -> (r: u32)
    requires
        i + 4 <= d@.len(),
    ensures
        r == le32(d@, i as int),
{
    let b0 = d[i] as u32;
    let b1 = d[i + 1] as u32;
    let b2 = d[i + 2] as u32;
    let b3 = d[i + 3] as u32;
    proof {
        assert(b0 + b1 * 256 + b2 * 65536 + b3 * 16777216 <= 0xFFFF_FFFF) by (nonlinear_arith)
            requires b0 <= 255, b1 <= 255, b2 <= 255, b3 <= 255;
    }
    b0 + b1 * 256 + b2 * 65536 + b3 * 16777216
}

/// Where the root directory of an ISO 9660 volume lies: its first sector and its size, read
/// from the primary volume descriptor (bytes 158 and 166).
pub fn root_directory(pvd: &[u8]) -> (r: (u32, u32))
    requires
        pvd@.len() >= 170,
    ensures
        r == (le32(pvd@, 158), le32(pvd@, 166)),
{
    (le32_at(pvd, 158), le32_at(pvd, 166))
}

/// The number of whole sectors holding `size` bytes.
pub fn sectors_for(size: u32) -> (r: usize)
    ensures
        r == (size as int + 2047) / 2048,
{
    ((size as u64 + 2047) / 2048) as usize
}

/// The name of the file that gives the boot executable and the region.
pub open spec fn system_cnf_name() -> Seq<u8> {
    seq![0x53u8, 0x59, 0x53, 0x54, 0x45, 0x4D, 0x2E, 0x43, 0x4E, 0x46, 0x3B, 0x31]
}

/// The name of the directory record at `off`.
pub open spec fn record_name(d: Seq<u8>, off: int) -> Seq<u8> {
    d.subrange(off + 33, off + 33 + d[off + 32] as int)
}

/// Every record read while scanning from `off` lies within the data.
pub open spec fn dir_scan_ok(d: Seq<u8>, size: int, off: int) -> bool
    decreases size - off,
{
    if off >= size || off < 0 {
        true
    } else if off >= d.len() {
        false
    } else if d[off] == 0 {
        off + 1 >= size || dir_scan_ok(d, size, off + 1)
    } else {
        off + 33 <= d.len() && off + 33 + d[off + 32] as int <= d.len()
            && (off + d[off] as int >= size || dir_scan_ok(d, size, off + d[off] as int))
    }
}

/// The (first sector, size) of `SYSTEM.CNF;1` found scanning the directory records from `off`
/// (a zero length byte is skipped).
pub open spec fn dir_scan(d: Seq<u8>, size: int, off: int) -> Option<(u32, u32)>
    decreases size - off,
{
    if off >= size || off < 0 || off >= d.len() {
        None
    } else if d[off] == 0 {
        if off + 1 >= size { None } else { dir_scan(d, size, off + 1) }
    } else if off + 33 <= d.len() && record_name(d, off) == system_cnf_name() {
        Some((le32(d, off + 2), le32(d, off + 10)))
    } else if off + d[off] as int >= size {
        None
    } else {
        dir_scan(d, size, off + d[off] as int)
    }
}

fn is_system_cnf(d: &[u8], from: usize, len: usize) -> (r: bool)
    requires
        from + len <= d@.len(),
    ensures
        r == (d@.subrange(from as int, (from + len) as int) == system_cnf_name()),
{
    let name: [u8; 12] = [0x53, 0x59, 0x53, 0x54, 0x45, 0x4D, 0x2E, 0x43, 0x4E, 0x46, 0x3B, 0x31];
    proof {
        assert(name@ == system_cnf_name());
    }
    if len != 12 {
        return false;
    }
    let total = d.len();
    let mut i: usize = 0;
    while i < 12
        invariant
            total == d@.len(),
            from + len <= d@.len(),
            len == 12,
            name@ == system_cnf_name(),
            i <= 12,
            forall|k: int| 0 <= k < i ==> d@[from + k] == name@[k],
        decreases 12 - i,
    {
        assert(from + i < d@.len());
        if d[from + i] != name[i] {
            return false;
        }
        i = i + 1;
    }
    proof {
        assert(d@.subrange(from as int, (from + len) as int) == name@);
    }
    true
}

/// Finds `SYSTEM.CNF;1` among the records of a root directory of `dir_size` bytes: its
/// first sector and size.
pub fn find_system_cnf(dir: &[u8], dir_size: u32) -> (r: Option<(u32, u32)>)
    requires
        dir_scan_ok(dir@, dir_size as int, 0),
    ensures
        r == dir_scan(dir@, dir_size as int, 0),
{
    let mut offset: usize = 0;
    if dir_size == 0 {
        return None;
    }
    while (offset as u64) < (dir_size as u64)
        invariant
            offset < dir_size,
            dir_scan_ok(dir@, dir_size as int, offset as int),
            dir_scan(dir@, dir_size as int, 0) == dir_scan(dir@, dir_size as int, offset as int),
        decreases dir_size - offset,
    {
        let length = dir[offset] as usize;
        if length == 0 {
            if offset as u64 + 1 >= dir_size as u64 {
                return None;
            }
            offset = offset + 1;
        } else {
            let name_len = dir[offset + 32] as usize;
            if is_system_cnf(dir, offset + 33, name_len) {
                let lba = le32_at(dir, offset + 2);
                let size = le32_at(dir, offset + 10);
                return Some((lba, size));
            }
            if offset as u64 + length as u64 >= dir_size as u64 {
                return None;
            }
            offset = offset + length;
        }
    }
    None
}

/// Whether the records of a directory of `dir_size` bytes can be scanned (see `dir_scan_ok`).
pub fn check_dir_records(dir: &[u8], dir_size: u32) -> (r: bool)
    ensures
        r == dir_scan_ok(dir@, dir_size as int, 0),
{
    let total = dir.len();
    let mut offset: usize = 0;
    if dir_size == 0 {
        return true;
    }
    while (offset as u64) < (dir_size as u64)
        invariant
            total == dir@.len(),
            offset < dir_size,
            dir_scan_ok(dir@, dir_size as int, 0) == dir_scan_ok(dir@, dir_size as int, offset as int),
        decreases dir_size - offset,
    {
        if offset >= total {
            return false;
        }
        let length = dir[offset] as usize;
        if length == 0 {
            if offset as u64 + 1 >= dir_size as u64 {
                return true;
            }
            offset = offset + 1;
        } else {
            if total - offset < 33 {
                return false;
            }
            let name_len = dir[offset + 32] as usize;
            if total - offset - 33 < name_len {
                return false;
            }
            if offset as u64 + length as u64 >= dir_size as u64 {
                return true;
            }
            offset = offset + length;
        }
    }
    true
}

/// What `String::from_utf8_lossy` makes of some bytes.
pub uninterp spec fn utf8_lossy(bytes: Seq<u8>) -> Seq<char>;

/// The text of some bytes, invalid UTF-8 sequences replaced (`String::from_utf8_lossy`): a
/// function of the bytes alone, and ASCII bytes map to the same characters.
#[verifier::external_body]
fn from_utf8_lossy(bytes: &[u8]) -> (r: String)
    ensures
        r@ == utf8_lossy(bytes@),
        (forall|i: int| 0 <= i < bytes@.len() ==> #[trigger] bytes@[i] < 128)
            ==> r@ == bytes@.map_values(|b: u8| b as char),
{
    String::from_utf8_lossy(bytes).to_string()
}

/// The text of `SYSTEM.CNF` from the sectors read for it: its first `size` bytes as UTF-8.
pub fn system_cnf_text(file_data: &Vec<u8>, size: u32) -> (r: String)
    ensures
        r@ == utf8_lossy(file_data@.take(if size as int <= file_data@.len() { size as int } else { file_data@.len() as int })),
{
    let n: usize = if (size as usize) <= file_data.len() { size as usize } else { file_data.len() };
    let s = vstd::slice::slice_subrange(file_data.as_slice(), 0, n);
    proof {
        assert(s@ == file_data@.take(n as int));
    }
    from_utf8_lossy(s)
}

} // verus!
