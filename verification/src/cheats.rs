use vstd::prelude::*;
use crate::memory::{Memory, ReadMemoryAccess, WriteMemoryAccess};
use crate::text::{
    str_upper, str_to_uppercase, chars_of, words, split_words, byte_len, char_pos, char_pos_of,
    parse_unsigned, parse_unsigned_range, utf8_len,
};

verus! {

/*
  Cheat code forms (address aaaaaa, data dd/dddd):
  30aaaaaa 00dd   8-bit write        [aaaaaa]=dd
  80aaaaaa dddd   16-bit write       [aaaaaa]=dddd
  D0..D3aaaaaa dddd  16-bit equal / not equal / less / greater: run the next code only if it holds
  E0..E3aaaaaa 00dd   8-bit  equal / not equal / less / greater
  10aaaaaa dddd   16-bit increment   [aaaaaa]=[aaaaaa]+dddd
  11aaaaaa dddd   16-bit decrement   [aaaaaa]=[aaaaaa]-dddd
  20aaaaaa 00dd   8-bit increment
  21aaaaaa 00dd   8-bit decrement
  5000nnbb dddd   slide code: for i in 0..nn, the next code applied at [aaaaaaaa+i*bb] with
  aaaaaaaa ??ee   value dddd+i*??ee
*/

/// The comparison of a conditional code.
#[derive(Debug, Clone, Copy, PartialEq, Eq, Structural)]
pub enum CheatIfOp {
    Equal,
    NotEqual,
    GreaterThan,
    LessThan,
}

/// One decoded cheat code.
#[derive(Debug)]
pub enum Cheat {
    WriteMemory { address: u32, value: u32, is_byte: bool },
    If { address: u32, value: u32, op: CheatIfOp, is_byte: bool },
    IncDec { address: u32, value: u32, is_byte: bool, is_inc: bool },
    Patch { nn: u8, bb: u8, dddd: u32, op: Option<Box<Cheat>> },
}

/// A list of cheats, applied in order.
#[derive(Debug)]
pub struct Cheats {
    pub cheats: Vec<Cheat>,
}

// ---------------------------------------------------------------------------
// Parsing
// ---------------------------------------------------------------------------

/// The list after adding a write or increment code: it goes inside a pending slide code, if any.
pub open spec fn emit(cs: Seq<Cheat>, patch: Option<(u8, u8, u32)>, c: Cheat) -> Seq<Cheat> {
    match patch {
        Some((nn, bb, dddd)) => cs.push(Cheat::Patch { nn, bb, dddd, op: Some(Box::new(c)) }),
        None => cs.push(c),
    }
}

/// The comparison a conditional code's second digit selects.
pub open spec fn if_op_of(c: char) -> CheatIfOp {
    if c == '0' {
        CheatIfOp::Equal
    } else if c == '1' {
        CheatIfOp::NotEqual
    } else if c == '2' {
        CheatIfOp::LessThan
    } else {
        CheatIfOp::GreaterThan
    }
}

/// The words of an upper-cased code can be cut where the parser cuts them: the command ends on
/// a character boundary, and a slide code has boundaries at bytes 4 and 6 of its first word.
pub open spec fn code_cuttable(u: Seq<char>) -> bool {
    let p = words(u);
    p.len() == 2 && byte_len(p[0]) >= 2 ==> {
        &&& char_pos(p[0], 2) is Some
        &&& p[0].take(char_pos(p[0], 2).unwrap()) == seq!['5', '0'] ==> {
            &&& byte_len(p[0]) >= 6
            &&& char_pos(p[0], 4) is Some
            &&& char_pos(p[0], 6) is Some
        }
    }
}

/// Cheats and pending slide code after reading one upper-cased code line.
pub open spec fn parse_code_spec(cs: Seq<Cheat>, patch: Option<(u8, u8, u32)>, u: Seq<char>) -> (Seq<Cheat>, Option<(u8, u8, u32)>) {
    let p = words(u);
    if p.len() != 2 || byte_len(p[0]) < 2 {
        (cs, patch)
    } else {
        let p0 = p[0];
        let j = char_pos(p0, 2).unwrap();
        let cmd = p0.take(j);
        let addr = parse_unsigned(p0.subrange(j, p0.len() as int), 16, 0xFFFF_FFFF);
        let val = parse_unsigned(p[1], 16, 0xFFFF_FFFF);
        if cmd == seq!['3', '0'] || cmd == seq!['8', '0'] {
            if addr is Some && val is Some {
                (emit(cs, patch, Cheat::WriteMemory {
                    address: addr.unwrap() as u32,
                    value: val.unwrap() as u32,
                    is_byte: cmd[0] == '3',
                }), None)
            } else {
                (cs, patch)
            }
        } else if cmd.len() == 2 && (cmd[0] == 'D' || cmd[0] == 'E') && ('0' <= cmd[1] <= '3') {
            if addr is Some && val is Some {
                (cs.push(Cheat::If {
                    address: addr.unwrap() as u32,
                    value: val.unwrap() as u32,
                    op: if_op_of(cmd[1]),
                    is_byte: cmd[0] == 'E',
                }), patch)
            } else {
                (cs, patch)
            }
        } else if cmd.len() == 2 && (cmd[0] == '1' || cmd[0] == '2') && (cmd[1] == '0' || cmd[1] == '1') {
            if addr is Some && val is Some {
                (emit(cs, patch, Cheat::IncDec {
                    address: addr.unwrap() as u32,
                    value: val.unwrap() as u32,
                    is_byte: cmd[0] == '2',
                    is_inc: cmd[1] == '0',
                }), None)
            } else {
                (cs, patch)
            }
        } else if cmd == seq!['5', '0'] {
            let a = char_pos(p0, 4).unwrap();
            let b = char_pos(p0, 6).unwrap();
            let nn = parse_unsigned(p0.subrange(a, b), 16, 0xFF);
            let bb = parse_unsigned(p0.subrange(b, p0.len() as int), 16, 0xFF);
            if nn is Some && bb is Some && val is Some {
                (cs, Some((nn.unwrap() as u8, bb.unwrap() as u8, val.unwrap() as u32)))
            } else {
                (cs, patch)
            }
        } else {
            (cs, patch)
        }
    }
}

/// Cheats and pending slide code after reading the given code lines in order.
pub open spec fn parse_codes_spec(codes: Seq<Seq<char>>) -> (Seq<Cheat>, Option<(u8, u8, u32)>)
    decreases codes.len(),
{
    if codes.len() == 0 {
        (Seq::empty(), None)
    } else {
        let (cs, patch) = parse_codes_spec(codes.drop_last());
        parse_code_spec(cs, patch, str_upper(codes.last()))
    }
}

/// One code line adds at most one cheat.
proof fn lemma_line_adds_at_most_one(cs: Seq<Cheat>, patch: Option<(u8, u8, u32)>, u: Seq<char>)
    ensures
        cs.len() <= parse_code_spec(cs, patch, u).0.len() <= cs.len() + 1,
{
}

/// Parsing code lines gives no more cheats than there are lines.
pub proof fn lemma_cheats_at_most_lines(codes: Seq<Seq<char>>)
    ensures
        parse_codes_spec(codes).0.len() <= codes.len(),
    decreases codes.len(),
{
    if codes.len() > 0 {
        lemma_cheats_at_most_lines(codes.drop_last());
        let (cs, patch) = parse_codes_spec(codes.drop_last());
        lemma_line_adds_at_most_one(cs, patch, str_upper(codes.last()));
    }
}

/// A line that is not two words (code and value) is skipped: the cheats and the pending slide
/// code stay as they were.
pub proof fn lemma_invalid_line_skipped(codes: Seq<Seq<char>>, line: Seq<char>)
    requires
        words(str_upper(line)).len() != 2,
    ensures
        parse_codes_spec(codes.push(line)) == parse_codes_spec(codes),
{
    assert(codes.push(line).drop_last() == codes);
}

/// The characters of each string.
pub open spec fn strings_view(v: Seq<String>) -> Seq<Seq<char>> {
    v.map_values(|s: String| s@)
}

proof fn lemma_char_pos_two(s: Seq<char>, j: int)
    requires
        char_pos(s, 2) == Some(j),
    ensures
        j == 1 || j == 2,
        j <= s.len(),
        j == 2 ==> utf8_len(s[0]) == 1 && utf8_len(s[1]) == 1,
{
    reveal_with_fuel(char_pos, 3);
    if s.len() >= 2 {
        assert(s.drop_first()[0] == s[1]);
    }
}

/// Byte length of `v`, or `cap` if that is smaller.
fn byte_len_capped(v: &Vec<char>, cap: usize) -> (r: usize)
    requires
        cap <= 1024,
    ensures
        r == (if byte_len(v@) < cap { byte_len(v@) } else { cap as nat }),
{
    let mut total: usize = 0;
    let mut i: usize = 0;
    while i < v.len() && total < cap
        invariant
            i <= v.len(),
            total == byte_len(v@.take(i as int)),
            total <= cap + 4,
            cap <= 1024,
        decreases v.len() - i,
    {
        proof {
            assert(v@.take(i as int + 1).drop_last() =~= v@.take(i as int));
        }
        let n = v[i] as u32;
        let l: usize = if n < 0x80 { 1 } else if n < 0x800 { 2 } else if n < 0x10000 { 3 } else { 4 };
        total = total + l;
        i += 1;
    }
    proof {
        lemma_byte_len_monotone(v@, i as int);
        if i == v.len() {
            assert(v@.take(i as int) =~= v@);
        }
    }
    if total < cap { total } else { cap }
}

proof fn lemma_byte_len_monotone(s: Seq<char>, i: int)
    requires
        0 <= i <= s.len(),
    ensures
        byte_len(s.take(i)) <= byte_len(s),
    decreases s.len(),
{
    if i < s.len() {
        assert(s.drop_last().take(i) =~= s.take(i));
        lemma_byte_len_monotone(s.drop_last(), i);
    } else {
        assert(s.take(i) =~= s);
    }
}

fn push_emit(cheats: &mut Vec<Cheat>, patch: &mut Option<(u8, u8, u32)>, c: Cheat)
    ensures
        final(cheats)@ == emit(old(cheats)@, *old(patch), c),
        *final(patch) == None::<(u8, u8, u32)>,
{
    match *patch {
        Some((nn, bb, dddd)) => cheats.push(Cheat::Patch { nn, bb, dddd, op: Some(Box::new(c)) }),
        None => cheats.push(c),
    }
    *patch = None;
}

impl Cheats {
    pub fn new() -> (r: Self)
        ensures
            r.cheats@.len() == 0,
    {
        Cheats { cheats: Vec::new() }
    }

    pub fn add(&mut self, cheat: Cheat)
        ensures
            final(self).cheats@ == old(self).cheats@.push(cheat),
    {
        self.cheats.push(cheat);
    }

    /// Reads one upper-cased code line: adds the cheat it codes, or keeps it as the pending
    /// slide code, or leaves everything as it was for a line that codes nothing.
    pub fn parse_code(&mut self, upper: &Vec<char>, patch: &mut Option<(u8, u8, u32)>)
        requires
            code_cuttable(upper@),
        ensures
            (final(self).cheats@, *final(patch)) == parse_code_spec(old(self).cheats@, *old(patch), upper@),
    {
        let ws = split_words(upper);
        if ws.len() != 2 {
            return;
        }
        let p0 = &ws[0];
        let p1 = &ws[1];
        proof {
            assert(p0@ == words(upper@)[0]);
            assert(p1@ == words(upper@)[1]);
        }
        if byte_len_capped(p0, 6) < 2 {
            return;
        }
        let j = match char_pos_of(p0, 2) {
            Some(j) => j,
            None => return,
        };
        proof { lemma_char_pos_two(p0@, j as int); }
        let c0 = p0[0];
        let c1 = if j == 2 { p0[1] } else { ' ' };
        let two = j == 2;
        let ghost cmd = p0@.take(j as int);
        proof {
            if two {
                assert(cmd =~= seq![c0, c1]);
            } else {
                assert(cmd.len() == 1);
            }
        }
        let addr = parse_unsigned_range(p0, j, p0.len(), 16, 0xFFFF_FFFF);
        let val = parse_unsigned_range(p1, 0, p1.len(), 16, 0xFFFF_FFFF);
        proof { assert(p1@.subrange(0, p1@.len() as int) =~= p1@); }
        if two && (c0 == '3' || c0 == '8') && c1 == '0' {
            proof {
                assert(cmd == seq!['3', '0'] || cmd == seq!['8', '0']);
            }
            match (addr, val) {
                (Some(address), Some(value)) => {
                    let cheat = Cheat::WriteMemory { address, value, is_byte: c0 == '3' };
                    push_emit(&mut self.cheats, patch, cheat);
                },
                _ => {},
            }
        } else if two && (c0 == 'D' || c0 == 'E') && ('0' <= c1 && c1 <= '3') {
            proof {
                assert(!(cmd == seq!['3', '0'] || cmd == seq!['8', '0'])) by {
                    if cmd == seq!['3', '0'] { assert(cmd[0] == '3'); }
                    if cmd == seq!['8', '0'] { assert(cmd[0] == '8'); }
                };
            }
            match (addr, val) {
                (Some(address), Some(value)) => {
                    let op = if c1 == '0' {
                        CheatIfOp::Equal
                    } else if c1 == '1' {
                        CheatIfOp::NotEqual
                    } else if c1 == '2' {
                        CheatIfOp::LessThan
                    } else {
                        CheatIfOp::GreaterThan
                    };
                    self.cheats.push(Cheat::If { address, value, op, is_byte: c0 == 'E' });
                },
                _ => {},
            }
        } else if two && (c0 == '1' || c0 == '2') && (c1 == '0' || c1 == '1') {
            proof {
                assert(!(cmd == seq!['3', '0'] || cmd == seq!['8', '0'])) by {
                    if cmd == seq!['3', '0'] { assert(cmd[0] == '3'); }
                    if cmd == seq!['8', '0'] { assert(cmd[0] == '8'); }
                };
            }
            match (addr, val) {
                (Some(address), Some(value)) => {
                    let cheat = Cheat::IncDec { address, value, is_byte: c0 == '2', is_inc: c1 == '0' };
                    push_emit(&mut self.cheats, patch, cheat);
                },
                _ => {},
            }
        } else if two && c0 == '5' && c1 == '0' {
            proof {
                assert(cmd == seq!['5', '0']);
                assert(!(cmd == seq!['3', '0'] || cmd == seq!['8', '0'])) by {
                    if cmd == seq!['3', '0'] { assert(cmd[0] == '3'); }
                    if cmd == seq!['8', '0'] { assert(cmd[0] == '8'); }
                };
            }
            let a = match char_pos_of(p0, 4) {
                Some(a) => a,
                None => return,
            };
            let b = match char_pos_of(p0, 6) {
                Some(b) => b,
                None => return,
            };
            proof { lemma_char_pos_order(p0@, 4, 6); }
            let nn = parse_unsigned_range(p0, a, b, 16, 0xFF);
            let bb = parse_unsigned_range(p0, b, p0.len(), 16, 0xFF);
            match (nn, bb, val) {
                (Some(nn), Some(bb), Some(dddd)) => {
                    *patch = Some((nn as u8, bb as u8, dddd));
                },
                _ => {},
            }
        } else {
            proof {
                if two {
                    assert(!(cmd == seq!['3', '0'] || cmd == seq!['8', '0'])) by {
                        if cmd == seq!['3', '0'] { assert(cmd[0] == '3' && cmd[1] == '0'); }
                        if cmd == seq!['8', '0'] { assert(cmd[0] == '8' && cmd[1] == '0'); }
                    };
                    assert(cmd != seq!['5', '0']) by {
                        if cmd == seq!['5', '0'] { assert(cmd[0] == '5' && cmd[1] == '0'); }
                    };
                } else {
                    assert(cmd != seq!['3', '0'] && cmd != seq!['8', '0'] && cmd != seq!['5', '0']) by {
                        assert(seq!['3', '0'].len() == 2);
                    };
                }
            }
        }
    }

    /// Decodes cheat code lines ("AAAAAAAA VVVV", hexadecimal, any letter case). Lines that
    /// do not code a supported cheat are skipped; a slide code applies to the next write or
    /// increment code.
    pub fn parse(codes: &Vec<String>) -> (r: Self)
        requires
            forall|i: int| 0 <= i < codes@.len() ==> code_cuttable(str_upper(#[trigger] codes@[i]@)),
        ensures
            r.cheats@ == parse_codes_spec(strings_view(codes@)).0,
    {
        let mut cheats = Cheats::new();
        let mut patch: Option<(u8, u8, u32)> = None;
        let mut i: usize = 0;
        while i < codes.len()
            invariant
                i <= codes.len(),
                forall|k: int| 0 <= k < codes@.len() ==> code_cuttable(str_upper(#[trigger] codes@[k]@)),
                (cheats.cheats@, patch) == parse_codes_spec(strings_view(codes@).take(i as int)),
            decreases codes.len() - i,
        {
            let upper = str_to_uppercase(codes[i].as_str());
            let chars = chars_of(upper.as_str());
            proof {
                let v = strings_view(codes@);
                assert(v.take(i as int + 1).drop_last() =~= v.take(i as int));
                assert(v.take(i as int + 1).last() == codes@[i as int]@);
            }
            cheats.parse_code(&chars, &mut patch);
            i += 1;
        }
        proof { assert(strings_view(codes@).take(codes.len() as int) =~= strings_view(codes@)); }
        cheats
    }
}

proof fn lemma_char_pos_order(s: Seq<char>, a: int, b: int)
    requires
        0 <= a <= b,
        char_pos(s, a) is Some,
        char_pos(s, b) is Some,
    ensures
        0 <= char_pos(s, a).unwrap() <= char_pos(s, b).unwrap() <= s.len(),
    decreases s.len(),
{
    if a > 0 {
        lemma_char_pos_order(s.drop_first(), a - utf8_len(s[0]), b - utf8_len(s[0]));
    } else if b > 0 {
        lemma_char_pos_order(s.drop_first(), 0, b - utf8_len(s[0]));
    }
}

// ---------------------------------------------------------------------------
// Applying
// ---------------------------------------------------------------------------

/// The cached RAM address a cheat address stands for.
pub open spec fn cheat_address(a: u32) -> u32 {
    (a & 0xFF_FFFF) | 0x8000_0000
}

/// A cheat value cut to the size of the access (8 or 16 bits).
pub open spec fn adjusted(value: u32, is_byte: bool) -> u32 {
    if is_byte { value & 0xFF } else { value & 0xFFFF }
}

/// Bits of an access.
pub open spec fn access_size(is_byte: bool) -> usize {
    if is_byte { 8 } else { 16 }
}

/// The value a read gives, zero when it fails.
pub open spec fn read_value(r: ReadMemoryAccess) -> u32 {
    match r {
        ReadMemoryAccess::Read(v, _) => v,
        _ => 0,
    }
}

/// Whether a conditional code's test holds for the value read.
pub open spec fn compare_spec(read: u32, op: CheatIfOp, cmp: u32) -> bool {
    match op {
        CheatIfOp::Equal => read == cmp,
        CheatIfOp::NotEqual => read != cmp,
        CheatIfOp::GreaterThan => cmp > read,
        CheatIfOp::LessThan => cmp < read,
    }
}

/// The value an increment or decrement code writes back, given the value read (modulo the
/// access size).
pub open spec fn incdec_value(read: u32, value: u32, is_byte: bool, is_inc: bool) -> u32 {
    let a = adjusted(value, is_byte);
    if is_inc {
        adjusted((read + a) as u32, is_byte)
    } else {
        adjusted(read.saturating_sub(a), is_byte)
    }
}

/// `new` is `old` after writing the adjusted value at the cheat address.
pub open spec fn write_applied<M: Memory>(old: M, new: M, address: u32, value: u32, is_byte: bool) -> bool {
    exists|r: WriteMemoryAccess| #[trigger] old.writes(new, cheat_address(address), access_size(is_byte), adjusted(value, is_byte), r)
}

/// `new` is `old` after reading the cheat address and writing back the incremented or
/// decremented value.
pub open spec fn incdec_applied<M: Memory>(old: M, new: M, address: u32, value: u32, is_byte: bool, is_inc: bool) -> bool {
    exists|mid: M, rr: ReadMemoryAccess, wr: WriteMemoryAccess|
        #[trigger] old.reads(mid, cheat_address(address), access_size(is_byte), false, rr)
            && #[trigger] mid.writes(new, cheat_address(address), access_size(is_byte), incdec_value(read_value(rr), value, is_byte, is_inc), wr)
}

/// Step `i` of a slide code: the inner code moved by `i * bb` bytes with value `dddd + i * value`.
pub open spec fn slide_item_applied<M: Memory>(old: M, new: M, inner: Cheat, i: int, bb: u8, dddd: u32) -> bool {
    match inner {
        Cheat::WriteMemory { address, value, is_byte } =>
            write_applied(old, new, (address + i * bb) as u32, (dddd + i * value) as u32, is_byte),
        Cheat::IncDec { address, value, is_byte, is_inc } =>
            incdec_applied(old, new, (address + i * bb) as u32, (dddd + i * value) as u32, is_byte, is_inc),
        _ => new == old,
    }
}

/// `new` is `old` after the `nn` steps of a slide code, in order.
pub open spec fn patch_applied<M: Memory>(old: M, new: M, nn: u8, bb: u8, dddd: u32, inner: Cheat) -> bool {
    exists|ss: Seq<M>|
        #![trigger ss.len(), ss[0]]
        ss.len() == nn + 1 && ss[0] == old && ss[nn as int] == new
            && forall|i: int| 0 <= i < nn ==> #[trigger] slide_item_applied(ss[i], ss[i + 1], inner, i, bb, dddd)
}

/// `new` is `old` after applying cheat `c`, which moves on `delta` codes (2 when a conditional
/// code's test fails, so the next code is skipped).
pub open spec fn cheat_applied<M: Memory>(old: M, new: M, c: Cheat, delta: int) -> bool {
    match c {
        Cheat::WriteMemory { address, value, is_byte } => delta == 1 && write_applied(old, new, address, value, is_byte),
        Cheat::If { address, value, op, is_byte } =>
            exists|rr: ReadMemoryAccess|
                #[trigger] old.reads(new, cheat_address(address), access_size(is_byte), false, rr)
                    && delta == (if compare_spec(read_value(rr), op, adjusted(value, is_byte)) { 1int } else { 2int }),
        Cheat::IncDec { address, value, is_byte, is_inc } => delta == 1 && incdec_applied(old, new, address, value, is_byte, is_inc),
        Cheat::Patch { nn, bb, dddd, op } => delta == 1 && match op {
            Some(inner) => patch_applied(old, new, nn, bb, dddd, *inner),
            None => false,
        },
    }
}

/// States `ss` and code indices `idx` trace a run of the cheat list: it starts at code 0, each
/// step applies the code it stands on, and it ends past the last code.
pub open spec fn cheat_run<M: Memory>(ss: Seq<M>, idx: Seq<int>, cheats: Seq<Cheat>) -> bool {
    &&& ss.len() == idx.len()
    &&& ss.len() >= 1
    &&& idx[0] == 0
    &&& idx.last() >= cheats.len()
    &&& forall|t: int| 0 <= t < ss.len() - 1 ==> 0 <= #[trigger] idx[t] < cheats.len()
        && cheat_applied(ss[t], ss[t + 1], cheats[idx[t]], idx[t + 1] - idx[t])
}

/// A slide code has its inner code, and its addresses and values stay within 32 bits.
pub open spec fn cheat_in_range(c: Cheat) -> bool {
    match c {
        Cheat::Patch { nn, bb, dddd, op } => match op {
            Some(inner) => nn > 0 ==> match *inner {
                Cheat::WriteMemory { address, value, .. } =>
                    address + (nn - 1) * bb <= 0xFFFF_FFFF && dddd + (nn - 1) * value <= 0xFFFF_FFFF,
                Cheat::IncDec { address, value, .. } =>
                    address + (nn - 1) * bb <= 0xFFFF_FFFF && dddd + (nn - 1) * value <= 0xFFFF_FFFF,
                _ => true,
            },
            None => false,
        },
        _ => true,
    }
}

/// The memory serves 8 and 16-bit accesses at every cheat address.
pub open spec fn accepts_cheat_addresses<M: Memory>(m: M) -> bool {
    forall|a: u32, s: usize| 0x8000_0000 <= a <= 0x80FF_FFFF && (s == 8 || s == 16) ==> #[trigger] m.accepts(a, s)
}

proof fn lemma_cheat_address(a: u32)
    ensures
        0x8000_0000 <= cheat_address(a) <= 0x80FF_FFFF,
{
    assert(0x8000_0000 <= ((a & 0xFF_FFFF) | 0x8000_0000) <= 0x80FF_FFFF) by (bit_vector);
}

fn get_address(a: u32) -> (r: u32)
    ensures
        r == cheat_address(a),
{
    a & 0xFF_FFFF | 0x8000_0000
}

fn adjust_value(value: u32, is_byte: bool) -> (r: u32)
    ensures
        r == adjusted(value, is_byte),
        r <= 0xFFFF,
{
    assert(value & 0xFF <= 0xFFFF && value & 0xFFFF <= 0xFFFF) by (bit_vector);
    if is_byte { value & 0xFF } else { value & 0xFFFF }
}

fn compare(read_value: u32, op: &CheatIfOp, cmp: u32) -> (r: bool)
    ensures
        r == compare_spec(read_value, *op, cmp),
{
    match op {
        CheatIfOp::Equal => read_value == cmp,
        CheatIfOp::NotEqual => read_value != cmp,
        CheatIfOp::GreaterThan => cmp > read_value,
        CheatIfOp::LessThan => cmp < read_value,
    }
}

fn write_memory<M: Memory>(mem: &mut M, address: u32, value: u32, is_byte: bool)
    requires
        accepts_cheat_addresses(*old(mem)),
    ensures
        exists|r: WriteMemoryAccess| #[trigger] old(mem).writes(*final(mem), cheat_address(address), access_size(is_byte), value, r),
        forall|a: u32, s: usize| final(mem).accepts(a, s) == old(mem).accepts(a, s),
{
    let target = get_address(address);
    proof { lemma_cheat_address(address); }
    assert(mem.accepts(target, 8) && mem.accepts(target, 16));
    if is_byte {
        let r = mem.write::<8>(target, value);
        assert(old(mem).writes(*mem, cheat_address(address), access_size(is_byte), value, r));
    } else {
        let r = mem.write::<16>(target, value);
        assert(old(mem).writes(*mem, cheat_address(address), access_size(is_byte), value, r));
    }
}

fn read_memory<M: Memory>(mem: &mut M, address: u32, is_byte: bool) -> (v: u32)
    requires
        accepts_cheat_addresses(*old(mem)),
    ensures
        exists|rr: ReadMemoryAccess| #[trigger] old(mem).reads(*final(mem), cheat_address(address), access_size(is_byte), false, rr)
            && v == read_value(rr),
        v <= 0xFFFF,
        forall|a: u32, s: usize| final(mem).accepts(a, s) == old(mem).accepts(a, s),
{
    let target = get_address(address);
    proof { lemma_cheat_address(address); }
    assert(mem.accepts(target, 8) && mem.accepts(target, 16));
    let read = if is_byte { mem.read::<8>(target, false) } else { mem.read::<16>(target, false) };
    assert(old(mem).reads(*mem, cheat_address(address), access_size(is_byte), false, read));
    match read {
        ReadMemoryAccess::Read(value, _) => value,
        ReadMemoryAccess::BusError => 0,
        ReadMemoryAccess::MemoryError => 0,
        ReadMemoryAccess::Wait => 0,
    }
}

fn apply_write<M: Memory>(mem: &mut M, address: u32, value: u32, is_byte: bool)
    requires
        accepts_cheat_addresses(*old(mem)),
    ensures
        write_applied(*old(mem), *final(mem), address, value, is_byte),
        forall|a: u32, s: usize| final(mem).accepts(a, s) == old(mem).accepts(a, s),
{
    let v = adjust_value(value, is_byte);
    write_memory(mem, address, v, is_byte);
}

fn apply_incdec<M: Memory>(mem: &mut M, address: u32, value: u32, is_byte: bool, is_inc: bool)
    requires
        accepts_cheat_addresses(*old(mem)),
    ensures
        incdec_applied(*old(mem), *final(mem), address, value, is_byte, is_inc),
        forall|a: u32, s: usize| final(mem).accepts(a, s) == old(mem).accepts(a, s),
{
    let ghost m0 = *mem;
    let current = read_memory(mem, address, is_byte);
    let ghost m1 = *mem;
    let ghost rr = choose|rr: ReadMemoryAccess| #[trigger] m0.reads(m1, cheat_address(address), access_size(is_byte), false, rr)
        && current == read_value(rr);
    let a = adjust_value(value, is_byte);
    let write_value = if is_inc {
        adjust_value(current + a, is_byte)
    } else {
        adjust_value(current.saturating_sub(a), is_byte)
    };
    assert(write_value == incdec_value(read_value(rr), value, is_byte, is_inc));
    write_memory(mem, address, write_value, is_byte);
    proof {
        let wr = choose|wr: WriteMemoryAccess| #[trigger] m1.writes(*mem, cheat_address(address), access_size(is_byte), write_value, wr);
        assert(m0.reads(m1, cheat_address(address), access_size(is_byte), false, rr)
            && m1.writes(*mem, cheat_address(address), access_size(is_byte), incdec_value(read_value(rr), value, is_byte, is_inc), wr));
    }
}

impl Cheats {
    fn apply_patch<M: Memory>(mem: &mut M, nn: u8, bb: u8, dddd: u32, inner: &Cheat)
        requires
            accepts_cheat_addresses(*old(mem)),
            cheat_in_range(Cheat::Patch { nn, bb, dddd, op: Some(Box::new(*inner)) }),
        ensures
            patch_applied(*old(mem), *final(mem), nn, bb, dddd, *inner),
            forall|a: u32, s: usize| final(mem).accepts(a, s) == old(mem).accepts(a, s),
    {
        let ghost m0 = *mem;
        let ghost mut ss: Seq<M> = seq![*mem];
        let mut i: u8 = 0;
        while i < nn
            invariant
                i <= nn,
                ss.len() == i + 1,
                ss[0] == m0,
                ss[i as int] == *mem,
                forall|t: int| 0 <= t < i ==> #[trigger] slide_item_applied(ss[t], ss[t + 1], *inner, t, bb, dddd),
                forall|a: u32, s: usize| mem.accepts(a, s) == m0.accepts(a, s),
                accepts_cheat_addresses(m0),
                cheat_in_range(Cheat::Patch { nn, bb, dddd, op: Some(Box::new(*inner)) }),
            decreases nn - i,
        {
            let ghost before = *mem;
            assert(accepts_cheat_addresses(*mem)) by {
                assert forall|a: u32, s: usize| 0x8000_0000 <= a <= 0x80FF_FFFF && (s == 8 || s == 16) implies #[trigger] mem.accepts(a, s) by {
                    assert(m0.accepts(a, s));
                };
            };
            assert((i as int) * (bb as int) <= 255 * 255) by (nonlinear_arith)
                requires i < 256, bb < 256;
            let delta_address = i as u32 * (bb as u32);
            match inner {
                Cheat::WriteMemory { address, value, is_byte } => {
                    assert((i as int) * (*value as int) <= (nn - 1) * (*value as int)) by (nonlinear_arith)
                        requires i <= nn - 1, *value >= 0;
                    assert((i as int) * (bb as int) <= (nn - 1) * (bb as int)) by (nonlinear_arith)
                        requires i <= nn - 1, bb >= 0;
                    let delta_value = i as u32 * *value;
                    apply_write(mem, *address + delta_address, dddd + delta_value, *is_byte);
                },
                Cheat::IncDec { address, value, is_byte, is_inc } => {
                    assert((i as int) * (*value as int) <= (nn - 1) * (*value as int)) by (nonlinear_arith)
                        requires i <= nn - 1, *value >= 0;
                    assert((i as int) * (bb as int) <= (nn - 1) * (bb as int)) by (nonlinear_arith)
                        requires i <= nn - 1, bb >= 0;
                    let delta_value = i as u32 * *value;
                    apply_incdec(mem, *address + delta_address, dddd + delta_value, *is_byte, *is_inc);
                },
                _ => {},
            }
            proof {
                ss = ss.push(*mem);
                assert(slide_item_applied(ss[i as int], ss[i + 1], *inner, i as int, bb, dddd));
            }
            i += 1;
        }
        proof {
            assert(ss.len() == nn + 1 && ss[0] == m0 && ss[nn as int] == *mem);
        }
    }

    fn apply_cheat<M: Memory>(mem: &mut M, cheat: &Cheat) -> (delta: usize)
        requires
            accepts_cheat_addresses(*old(mem)),
            cheat_in_range(*cheat),
        ensures
            cheat_applied(*old(mem), *final(mem), *cheat, delta as int),
            delta == 1 || delta == 2,
            forall|a: u32, s: usize| final(mem).accepts(a, s) == old(mem).accepts(a, s),
    {
        match cheat {
            Cheat::WriteMemory { address, value, is_byte } => {
                apply_write(mem, *address, *value, *is_byte);
                1
            },
            Cheat::If { address, value, op, is_byte } => {
                let read = read_memory(mem, *address, *is_byte);
                if compare(read, op, adjust_value(*value, *is_byte)) {
                    1
                } else {
                    2
                }
            },
            Cheat::IncDec { address, value, is_byte, is_inc } => {
                apply_incdec(mem, *address, *value, *is_byte, *is_inc);
                1
            },
            Cheat::Patch { nn, bb, dddd, op } => {
                match op {
                    Some(inner) => {
                        Self::apply_patch(mem, *nn, *bb, *dddd, inner);
                    },
                    None => {},
                }
                1
            },
        }
    }

    /// Applies the cheats in order to memory; a conditional code whose test fails skips the code
    /// after it.
    #[verifier::rlimit(40)]
    pub fn apply<M: Memory>(&self, mem: &mut M)
        requires
            accepts_cheat_addresses(*old(mem)),
            forall|k: int| 0 <= k < self.cheats@.len() ==> cheat_in_range(#[trigger] self.cheats@[k]),
            self.cheats@.len() < usize::MAX,
        ensures
            exists|ss: Seq<M>, idx: Seq<int>|
                #![trigger cheat_run(ss, idx, self.cheats@)]
                cheat_run(ss, idx, self.cheats@) && ss[0] == *old(mem) && ss.last() == *final(mem),
            forall|a: u32, s: usize| final(mem).accepts(a, s) == old(mem).accepts(a, s),
    {
        let ghost m0 = *mem;
        let ghost mut ss: Seq<M> = seq![*mem];
        let ghost mut idx: Seq<int> = seq![0int];
        let mut index: usize = 0;
        while index < self.cheats.len()
            invariant
                ss.len() == idx.len(),
                ss.len() >= 1,
                idx[0] == 0,
                idx.last() == index,
                index <= self.cheats@.len() + 1,
                self.cheats@.len() < usize::MAX,
                ss[0] == m0,
                ss.last() == *mem,
                forall|t: int| 0 <= t < ss.len() - 1 ==> 0 <= #[trigger] idx[t] < self.cheats@.len()
                    && cheat_applied(ss[t], ss[t + 1], self.cheats@[idx[t]], idx[t + 1] - idx[t]),
                forall|a: u32, s: usize| mem.accepts(a, s) == m0.accepts(a, s),
                accepts_cheat_addresses(m0),
                forall|k: int| 0 <= k < self.cheats@.len() ==> cheat_in_range(#[trigger] self.cheats@[k]),
            decreases self.cheats.len() + 2 - index,
        {
            assert(accepts_cheat_addresses(*mem)) by {
                assert forall|a: u32, s: usize| 0x8000_0000 <= a <= 0x80FF_FFFF && (s == 8 || s == 16) implies #[trigger] mem.accepts(a, s) by {
                    assert(m0.accepts(a, s));
                };
            };
            let ghost before = *mem;
            let delta = Self::apply_cheat(mem, &self.cheats[index]);
            proof {
                let t = ss.len() - 1;
                ss = ss.push(*mem);
                idx = idx.push(index + delta);
                assert(idx[t] == index);
                assert(cheat_applied(ss[t], ss[t + 1], self.cheats@[idx[t]], idx[t + 1] - idx[t]));
            }
            index += delta;
        }
        proof {
            assert(cheat_run(ss, idx, self.cheats@));
        }
    }
}

fn slide_fits(nn: u8, bb: u8, dddd: u32, address: u32, value: u32) -> (r: bool)
    ensures
        r == (nn > 0 ==> address + (nn - 1) * bb <= 0xFFFF_FFFF && dddd + (nn - 1) * value <= 0xFFFF_FFFF),
{
    if nn == 0 {
        return true;
    }
    let k = (nn - 1) as u64;
    assert(k * (bb as u64) <= 255 * 255) by (nonlinear_arith)
        requires k < 256, bb < 256;
    assert(k * (value as u64) <= 255 * 0xFFFF_FFFF) by (nonlinear_arith)
        requires k < 256, value <= 0xFFFF_FFFF;
    address as u64 + k * (bb as u64) <= 0xFFFF_FFFF && dddd as u64 + k * (value as u64) <= 0xFFFF_FFFF
}

fn cheat_fits(c: &Cheat) -> (r: bool)
    ensures
        r == cheat_in_range(*c),
{
    match c {
        Cheat::Patch { nn, bb, dddd, op } => match op {
            Some(inner) => match &**inner {
                Cheat::WriteMemory { address, value, .. } => slide_fits(*nn, *bb, *dddd, *address, *value),
                Cheat::IncDec { address, value, .. } => slide_fits(*nn, *bb, *dddd, *address, *value),
                _ => true,
            },
            None => false,
        },
        _ => true,
    }
}

impl Cheats {
    /// Whether every slide code has its inner code and stays within 32-bit addresses and values,
    /// as `apply` needs.
    pub fn can_apply(&self) -> (r: bool)
        ensures
            r == (forall|k: int| 0 <= k < self.cheats@.len() ==> cheat_in_range(#[trigger] self.cheats@[k])),
    {
        let mut i: usize = 0;
        while i < self.cheats.len()
            invariant
                i <= self.cheats@.len(),
                forall|k: int| 0 <= k < i ==> cheat_in_range(#[trigger] self.cheats@[k]),
            decreases self.cheats.len() - i,
        {
            if !cheat_fits(&self.cheats[i]) {
                return false;
            }
            i += 1;
        }
        true
    }
}

/// Whether the parser can cut the words of an upper-cased code line (see `code_cuttable`).
pub fn is_code_cuttable(upper: &Vec<char>) -> (r: bool)
    ensures
        r == code_cuttable(upper@),
{
    let ws = split_words(upper);
    if ws.len() != 2 {
        return true;
    }
    let p0 = &ws[0];
    proof { assert(p0@ == words(upper@)[0]); }
    let len = byte_len_capped(p0, 6);
    if len < 2 {
        return true;
    }
    let j = match char_pos_of(p0, 2) {
        Some(j) => j,
        None => return false,
    };
    proof { lemma_char_pos_two(p0@, j as int); }
    let ghost cmd = p0@.take(j as int);
    let is_slide = j == 2 && p0[0] == '5' && p0[1] == '0';
    proof {
        if j == 2 {
            assert(cmd =~= seq![p0@[0], p0@[1]]);
        } else {
            assert(cmd.len() == 1);
            assert(seq!['5', '0'].len() == 2);
        }
        assert(is_slide == (cmd == seq!['5', '0'])) by {
            if cmd == seq!['5', '0'] { assert(cmd[0] == '5' && cmd[1] == '0'); }
        };
    }
    if !is_slide {
        return true;
    }
    len >= 6 && char_pos_of(p0, 4).is_some() && char_pos_of(p0, 6).is_some()
}

impl Cheats {
    /// Decodes cheat code lines as `parse` does, or `None` when a line would have to be cut
    /// inside a character.
    pub fn try_parse(codes: &Vec<String>) -> (r: Option<Self>)
        ensures
            r is Some <==> forall|i: int| 0 <= i < codes@.len() ==> code_cuttable(str_upper(#[trigger] codes@[i]@)),
            r matches Some(c) ==> c.cheats@ == parse_codes_spec(strings_view(codes@)).0,
    {
        let mut i: usize = 0;
        while i < codes.len()
            invariant
                i <= codes.len(),
                forall|k: int| 0 <= k < i ==> code_cuttable(str_upper(#[trigger] codes@[k]@)),
            decreases codes.len() - i,
        {
            let upper = str_to_uppercase(codes[i].as_str());
            let chars = chars_of(upper.as_str());
            if !is_code_cuttable(&chars) {
                return None;
            }
            i += 1;
        }
        Some(Self::parse(codes))
    }
}


/// A conditional code (D0-D3, E0-E3) only reads: the memory is left as the read leaves it, and
/// the next code runs (a step of one) exactly when its test holds on the value read and the
/// code's value cut to the access size; otherwise it is skipped (a step of two). Equal: they
/// are equal; not equal: they differ; less: the code's value is below the value read;
/// greater: it is above.
pub proof fn lemma_conditional_code<M: Memory>(old: M, new: M, c: Cheat, delta: int)
    requires
        c is If,
        cheat_applied(old, new, c, delta),
    ensures
        delta == 1 || delta == 2,
        exists|rr: ReadMemoryAccess| #![trigger old.reads(new, cheat_address(c->If_address), access_size(c->If_is_byte), false, rr)]
            old.reads(new, cheat_address(c->If_address), access_size(c->If_is_byte), false, rr) && ({
                let read = read_value(rr);
                let v = if c->If_is_byte { c->If_value & 0xFFu32 } else { c->If_value & 0xFFFFu32 };
                (delta == 1) == match c->If_op {
                    CheatIfOp::Equal => read == v,
                    CheatIfOp::NotEqual => read != v,
                    CheatIfOp::GreaterThan => v > read,
                    CheatIfOp::LessThan => v < read,
                }
            }),
{
}


/// An increment code writes back the value read plus the code's value, modulo the access size;
/// a decrement code the value read minus the code's value, or zero when that would go below
/// zero (for values read that fit the access size; the code's value is cut to it first).
pub proof fn lemma_incdec_value(read: u32, value: u32, is_byte: bool, is_inc: bool)
    requires
        read < (if is_byte { 0x100u32 } else { 0x10000u32 }),
    ensures
        ({
            let m: int = if is_byte { 0x100 } else { 0x10000 };
            let a = value as int % m;
            incdec_value(read, value, is_byte, is_inc) as int
                == if is_inc { (read as int + a) % m } else if read as int >= a { read as int - a } else { 0 }
        }),
{
    crate::memory::bus::lemma_bus_bits(0, 0, 0, 0, 0, 0, 0, 0, 0, 0, 0, value, 0, 0, 0);
    let a = adjusted(value, is_byte);
    assert(a as int == value as int % (if is_byte { 0x100int } else { 0x10000int }));
    let t: u32 = if is_inc { (read + a) as u32 } else { read.saturating_sub(a) };
    crate::memory::bus::lemma_bus_bits(0, 0, 0, 0, 0, 0, 0, 0, 0, 0, 0, t, 0, 0, 0);
}

/// A constant write (80, 30 codes) stores the code's value cut to the access size.
pub proof fn lemma_write_value(value: u32, is_byte: bool)
    ensures
        adjusted(value, is_byte) as int == value as int % (if is_byte { 0x100int } else { 0x10000int }),
{
    crate::memory::bus::lemma_bus_bits(0, 0, 0, 0, 0, 0, 0, 0, 0, 0, 0, value, 0, 0, 0);
}


/// The code type of a line is its first two characters: D0-D3 (16-bit) and E0-E3 (8-bit) are
/// conditional codes testing equal, not equal, less and greater in that order; 10/20 increment
/// and 11/21 decrement (16-bit, 8-bit); 80 and 30 write (16-bit, 8-bit). A well-formed line of
/// one of these types adds exactly that code, with the address and value it spells in hex (a
/// slide code pending, the increment and write codes go inside it).
pub proof fn lemma_code_type(cs: Seq<Cheat>, patch: Option<(u8, u8, u32)>, u: Seq<char>)
    requires
        words(u).len() == 2,
        byte_len(words(u)[0]) >= 2,
        parse_unsigned(words(u)[0].subrange(char_pos(words(u)[0], 2).unwrap(), words(u)[0].len() as int), 16, 0xFFFF_FFFF) is Some,
        parse_unsigned(words(u)[1], 16, 0xFFFF_FFFF) is Some,
    ensures
        ({
            let p0 = words(u)[0];
            let j = char_pos(p0, 2).unwrap();
            let cmd = p0.take(j);
            let addr = parse_unsigned(p0.subrange(j, p0.len() as int), 16, 0xFFFF_FFFF).unwrap() as u32;
            let val = parse_unsigned(words(u)[1], 16, 0xFFFF_FFFF).unwrap() as u32;
            let r = parse_code_spec(cs, patch, u).0;
            let code = match patch {
                Some((nn, bb, dddd)) => match r.last() { Cheat::Patch { op: Some(inner), .. } => *inner, other => other },
                None => r.last(),
            };
            &&& (cmd.len() == 2 && (cmd[0] == 'D' || cmd[0] == 'E') && '0' <= cmd[1] <= '3') ==>
                r == cs.push(Cheat::If { address: addr, value: val, is_byte: cmd[0] == 'E',
                    op: if cmd[1] == '0' { CheatIfOp::Equal } else if cmd[1] == '1' { CheatIfOp::NotEqual }
                        else if cmd[1] == '2' { CheatIfOp::LessThan } else { CheatIfOp::GreaterThan } })
            &&& (cmd.len() == 2 && (cmd[0] == '1' || cmd[0] == '2') && (cmd[1] == '0' || cmd[1] == '1')) ==>
                r.len() == cs.len() + 1 && r.drop_last() == cs
                && code == (Cheat::IncDec { address: addr, value: val, is_byte: cmd[0] == '2', is_inc: cmd[1] == '0' })
            &&& (cmd == seq!['8', '0'] || cmd == seq!['3', '0']) ==>
                r.len() == cs.len() + 1 && r.drop_last() == cs
                && code == (Cheat::WriteMemory { address: addr, value: val, is_byte: cmd[0] == '3' })
        }),
{
    let p0 = words(u)[0];
    let j = char_pos(p0, 2).unwrap();
    let cmd = p0.take(j);
    let r = parse_code_spec(cs, patch, u).0;
    if r.len() == cs.len() + 1 {
        assert(r.drop_last() =~= cs);
    }
}

} // verus!
