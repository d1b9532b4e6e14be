use vstd::prelude::*;
use std::collections::HashSet;
use vstd::std_specs::hash::spec_hash_keys_iter;
use vstd::std_specs::iter::IteratorSpec;
use crate::cpu::disassembler::{Disassembled, register_alias, cop_register_alias, reg_text, cop_reg_text};
use crate::text::{push_char, append_str, append_padded, hex_upper, hex_padded, pad_right, str_eq, chars_of,
    parse_unsigned, parse_unsigned_range};

verus! {

broadcast use vstd::std_specs::hash::group_hash_axioms;

/// Memory dumps show this many values per line.
pub const DUMP_MEMORY_COLUMNS: usize = 16;

/// Addresses and opcode that stop a run in break mode.
#[derive(Debug)]
pub struct BreakPoints {
    pub execute: HashSet<u32>,
    pub read: HashSet<u32>,
    pub write: HashSet<u32>,
    pub opcode: Option<u32>,
}

/// How the emulator runs under the debugger.
#[derive(Debug)]
pub enum RunMode {
    FreeMode,
    StepByStepMode,
    BreakMode(BreakPoints),
}

impl BreakPoints {
    pub fn new() -> (r: Self)
        ensures
            r@.execute.is_empty() && r@.read.is_empty() && r@.write.is_empty(),
            r.opcode is None,
    {
        BreakPoints { execute: HashSet::new(), read: HashSet::new(), write: HashSet::new(), opcode: None }
    }

    pub fn is_empty(&self) -> (r: bool)
        ensures
            r == (self@.execute.is_empty() && self@.read.is_empty() && self@.write.is_empty() && self.opcode is None),
    {
        self.execute.is_empty() && self.read.is_empty() && self.write.is_empty() && self.opcode.is_none()
    }
}


/// General purpose registers as the debugger shows them.
#[derive(Debug)]
pub struct CpuRegisters {
    pub pc: u32,
    pub regs: [u32; 32],
    pub lo: u32,
    pub hi: u32,
    pub dma_in_progress: bool,
}

/// Coprocessor 0 registers as the debugger shows them.
#[derive(Debug)]
pub struct Cop0Registers {
    pub regs: [u32; 32],
}

pub open spec fn bool_text(b: bool) -> Seq<char> {
    if b { seq!['t', 'r', 'u', 'e'] } else { seq!['f', 'a', 'l', 's', 'e'] }
}

/// Register `n` of a dump line: its padded name, `=`, eight hex digits and a space; a line
/// ends after every eighth register.
pub open spec fn reg_cell(name: Seq<char>, width: nat, v: u32, n: int) -> Seq<char> {
    pad_right(name, width) + seq!['='] + hex_padded(v as nat, 8) + seq![' '] + (if n % 8 == 7 { seq!['\n'] } else { Seq::empty() })
}

/// The first `n` registers of a CPU register dump.
pub open spec fn cpu_regs_text(regs: Seq<u32>, n: int) -> Seq<char>
    decreases n,
{
    if n <= 0 { Seq::empty() } else { cpu_regs_text(regs, n - 1) + reg_cell(reg_text(n - 1), 5, regs[n - 1], n - 1) }
}

/// The first `n` registers of a coprocessor 0 register dump.
pub open spec fn cop0_regs_text(regs: Seq<u32>, n: int) -> Seq<char>
    decreases n,
{
    if n <= 0 { Seq::empty() } else { cop0_regs_text(regs, n - 1) + reg_cell(cop_reg_text(0, n - 1, false), 14, regs[n - 1], n - 1) }
}

pub open spec fn cpu_dump_header(r: CpuRegisters) -> Seq<char> {
    seq!['P', 'C', '='] + hex_padded(r.pc as nat, 8) + seq![' ', 'L', 'O', '='] + hex_padded(r.lo as nat, 8)
        + seq![' ', 'H', 'I', '='] + hex_padded(r.hi as nat, 8) + seq![' ', 'D', 'M', 'A', '=']
        + bool_text(r.dma_in_progress) + seq!['\n']
}

pub open spec fn cpu_dump_text(r: CpuRegisters) -> Seq<char> {
    cpu_dump_header(r) + cpu_regs_text(r.regs@, 32)
}

fn append_bool(s: &mut String, b: bool)
    ensures
        final(s)@ == old(s)@ + bool_text(b),
{
    if b {
        append_str(s, "true");
        proof {
            reveal_strlit("true");
        }
    } else {
        append_str(s, "false");
        proof {
            reveal_strlit("false");
        }
    }
}

fn append_reg_cell(s: &mut String, name: &String, width: usize, v: u32, n: usize)
    ensures
        final(s)@ == old(s)@ + reg_cell(name@, width as nat, v, n as int),
{
    let ghost s0 = s@;
    append_padded(s, name.as_str(), width);
    push_char(s, '=');
    let h = hex_upper(v, 8);
    append_str(s, h.as_str());
    push_char(s, ' ');
    if n % 8 == 7 {
        push_char(s, '\n');
    }
    proof {
        assert(s@ == s0 + reg_cell(name@, width as nat, v, n as int));
    }
}

impl CpuRegisters {
    /// `PC=… LO=… HI=… DMA=…` and a line end.
    fn dump_header(&self) -> (r: String)
        ensures
            r@ == cpu_dump_header(*self),
    {
        let mut s = lit("PC=");
        let h = hex_upper(self.pc, 8);
        append_str(&mut s, h.as_str());
        append_str(&mut s, " LO=");
        let h = hex_upper(self.lo, 8);
        append_str(&mut s, h.as_str());
        append_str(&mut s, " HI=");
        let h = hex_upper(self.hi, 8);
        append_str(&mut s, h.as_str());
        append_str(&mut s, " DMA=");
        append_bool(&mut s, self.dma_in_progress);
        push_char(&mut s, '\n');
        proof {
            reveal_strlit("PC=");
            reveal_strlit(" LO=");
            reveal_strlit(" HI=");
            reveal_strlit(" DMA=");
        }
        s
    }

    /// `PC=… LO=… HI=… DMA=…`, then each register as `name=value`, eight per line.
    pub fn dump(&self) -> (r: String)
        ensures
            r@ == cpu_dump_text(*self),
    {
        let mut s = self.dump_header();
        let ghost head = s@;
        let mut r: usize = 0;
        while r < 32
            invariant
                r <= 32,
                s@ == head + cpu_regs_text(self.regs@, r as int),
            decreases 32 - r,
        {
            let name = register_alias(r);
            let ghost before = s@;
            append_reg_cell(&mut s, &name, 5, self.regs[r], r);
            proof {
                assert(s@ == head + cpu_regs_text(self.regs@, r as int + 1));
            }
            r = r + 1;
        }
        s
    }
}

impl Cop0Registers {
    /// Each register as `name=value` (names padded to 14), eight per line.
    pub fn dump(&self) -> (r: String)
        ensures
            r@ == cop0_regs_text(self.regs@, 32),
    {
        let mut s = String::new();
        let mut r: usize = 0;
        while r < 32
            invariant
                r <= 32,
                s@ == cop0_regs_text(self.regs@, r as int),
            decreases 32 - r,
        {
            let name = cop_register_alias(0, r, false);
            append_reg_cell(&mut s, &name, 14, self.regs[r], r);
            r = r + 1;
        }
        s
    }
}

/// What the debugger console asks of the emulator.
#[derive(Debug)]
pub enum DebuggerCommand {
    RunModeChanged(RunMode),
    Step,
    ReqCop0Regs,
    ReqCpuRegs,
    /// Address, number of values, bits per value.
    ReadMemory(u32, usize, usize),
    Log(String),
}

/// What the emulator answers the debugger console.
#[derive(Debug)]
pub enum DebuggerResponse {
    CpuRegs(Disassembled, CpuRegisters, usize),
    Cop0Regs(Cop0Registers),
    Memory(u32, Vec<u32>),
    BreakAt(u32),
}

/// A memory length rounded up to whole dump lines.
pub open spec fn adjusted_len(n: int) -> int {
    if n % 16 == 0 { n } else { n + 16 - n % 16 }
}


/// The breakpoints as sets.
pub struct BreakPointsV {
    pub execute: Set<u32>,
    pub read: Set<u32>,
    pub write: Set<u32>,
    pub opcode: Option<u32>,
}

impl View for BreakPoints {
    type V = BreakPointsV;

    open spec fn view(&self) -> BreakPointsV {
        BreakPointsV { execute: self.execute@, read: self.read@, write: self.write@, opcode: self.opcode }
    }
}

/// A console command as the emulator gets it.
pub enum CommandV {
    RunFree,
    RunBreak(BreakPointsV),
    Step,
    ReqCop0Regs,
    ReqCpuRegs,
    ReadMemory(u32, usize, usize),
    Log(Seq<char>),
}

/// What the console does with a line.
pub enum ActionV {
    Send(CommandV, Option<Seq<char>>),
    SendAndShow(CommandV, Seq<char>),
    ListBreakPoints,
    Error(Seq<char>),
    Info(Seq<char>),
    Nothing,
}

/// What the console does after reading a line.
#[derive(Debug)]
pub enum DebuggerAction {
    /// Sends a command, and reports the message if there is one.
    Send(DebuggerCommand, Option<String>),
    /// Sends a command, waits for the answer and shows it as the named console command does.
    SendAndShow(DebuggerCommand, String),
    /// Lists the breakpoints.
    ListBreakPoints,
    Error(String),
    Info(String),
    Nothing,
}

pub open spec fn command_view(c: DebuggerCommand) -> CommandV {
    match c {
        DebuggerCommand::RunModeChanged(RunMode::BreakMode(bp)) => CommandV::RunBreak(bp@),
        DebuggerCommand::RunModeChanged(_) => CommandV::RunFree,
        DebuggerCommand::Step => CommandV::Step,
        DebuggerCommand::ReqCop0Regs => CommandV::ReqCop0Regs,
        DebuggerCommand::ReqCpuRegs => CommandV::ReqCpuRegs,
        DebuggerCommand::ReadMemory(a, n, b) => CommandV::ReadMemory(a, n, b),
        DebuggerCommand::Log(s) => CommandV::Log(s@),
    }
}

/// Free mode is only ever sent as `FreeMode`.
pub open spec fn command_is_free_mode(c: DebuggerCommand) -> bool {
    c matches DebuggerCommand::RunModeChanged(RunMode::FreeMode)
}

pub open spec fn action_view(a: DebuggerAction) -> ActionV {
    match a {
        DebuggerAction::Send(c, m) => ActionV::Send(command_view(c), match m { Some(s) => Some(s@), None => None }),
        DebuggerAction::SendAndShow(c, k) => ActionV::SendAndShow(command_view(c), k@),
        DebuggerAction::ListBreakPoints => ActionV::ListBreakPoints,
        DebuggerAction::Error(m) => ActionV::Error(m@),
        DebuggerAction::Info(m) => ActionV::Info(m@),
        DebuggerAction::Nothing => ActionV::Nothing,
    }
}

pub open spec fn hex_arg(w: Seq<char>) -> Option<nat> {
    parse_unsigned(w, 16, 0xFFFF_FFFF)
}

pub open spec fn len_arg(w: Seq<char>) -> Option<nat> {
    parse_unsigned(w, 10, usize::MAX as nat)
}

pub open spec fn read_bits(c: Seq<char>) -> usize {
    if c == "rw"@ { 32 } else if c == "rh"@ { 16 } else { 8 }
}

pub open spec fn is_read_cmd(c: Seq<char>) -> bool {
    c == "rw"@ || c == "rh"@ || c == "rb"@
}

pub open spec fn is_break_cmd(c: Seq<char>) -> bool {
    c == "break"@ || c == "b"@
}

/// The console word: the first one, or the empty word for an empty line.
pub open spec fn console_word(ws: Seq<Seq<char>>) -> Seq<char> {
    if ws.len() == 0 { Seq::empty() } else { ws[0] }
}

/// A line whose number arguments are well formed where they are read.
pub open spec fn command_ok(ws: Seq<Seq<char>>) -> bool {
    &&& (ws.len() == 3 && is_read_cmd(ws[0])) ==> hex_arg(ws[1]) is Some
        && (len_arg(ws[2]) matches Some(n) && n <= usize::MAX - 16)
    &&& (ws.len() == 4 && is_break_cmd(ws[0])) ==> hex_arg(ws[3]) is Some
}

pub open spec fn kind_word(t: Seq<char>) -> Seq<char> {
    if t == "x"@ { "execute"@ } else if t == "r"@ { "read"@ } else { "write"@ }
}

/// What a line does: the new breakpoints, the new step mode and the action.
pub open spec fn command_spec(bp: BreakPointsV, step: bool, ws: Seq<Seq<char>>) -> (BreakPointsV, bool, ActionV) {
    let c = console_word(ws);
    if c == "log"@ {
        if ws.len() != 2 {
            (bp, step, ActionV::Error("Wrong number of arguments for 'log' command: expected <level>"@))
        } else {
            (bp, step, ActionV::Send(CommandV::Log(ws[1]), None))
        }
    } else if c == "regs"@ {
        (bp, step, ActionV::SendAndShow(CommandV::ReqCpuRegs, c))
    } else if c == ""@ || c == "r"@ {
        (bp, step, ActionV::SendAndShow(CommandV::Step, c))
    } else if c == "cop0"@ {
        (bp, step, ActionV::SendAndShow(CommandV::ReqCop0Regs, c))
    } else if c == "go"@ {
        if bp.execute.is_empty() && bp.read.is_empty() && bp.write.is_empty() && bp.opcode is None {
            (bp, step, ActionV::Send(CommandV::RunFree, Some("No breakpoints set, switching to Free Mode"@)))
        } else {
            (bp, false, ActionV::Send(CommandV::RunBreak(bp), Some("Breakpoints set, switching to Break Mode"@)))
        }
    } else if is_read_cmd(c) {
        if ws.len() != 3 {
            (bp, step, ActionV::Error(if c == "rw"@ {
                "Wrong number of arguments for 'rw' command: expected <hex address> <length>"@
            } else if c == "rh"@ {
                "Wrong number of arguments for 'rh' command: expected <hex address> <length>"@
            } else {
                "Wrong number of arguments for 'rb' command: expected <hex address> <length>"@
            }))
        } else {
            (bp, step, ActionV::SendAndShow(CommandV::ReadMemory(hex_arg(ws[1]).unwrap() as u32,
                adjusted_len(len_arg(ws[2]).unwrap() as int) as usize, read_bits(c)), c))
        }
    } else if is_break_cmd(c) {
        if ws.len() == 1 {
            (bp, step, ActionV::ListBreakPoints)
        } else if ws.len() != 4 {
            (bp, step, ActionV::Error("Wrong number of arguments for 'break' command: expected <add/remove> <o|x|r|w> <hex address|opcode>"@))
        } else {
            let action = ws[1];
            let t = ws[2];
            let addr = hex_arg(ws[3]).unwrap() as u32;
            let add = action == "add"@ || action == "a"@;
            if !add && !(action == "remove"@ || action == "r"@) {
                (bp, step, ActionV::Error("Unrecognized breakpoint action: "@ + action))
            } else if t == "o"@ {
                (BreakPointsV { opcode: if add { Some(addr) } else { None }, ..bp }, step, ActionV::Nothing)
            } else if t == "x"@ || t == "r"@ || t == "w"@ {
                let msg = (if add { "Add"@ } else { "Remove"@ }) + " "@ + kind_word(t) + " breakpoint at "@ + hex_padded(addr as nat, 8);
                let upd = |s: Set<u32>| if add { s.insert(addr) } else { s.remove(addr) };
                (if t == "x"@ {
                    BreakPointsV { execute: upd(bp.execute), ..bp }
                } else if t == "r"@ {
                    BreakPointsV { read: upd(bp.read), ..bp }
                } else {
                    BreakPointsV { write: upd(bp.write), ..bp }
                }, step, ActionV::Info(msg))
            } else {
                (bp, step, ActionV::Error("Unrecognized breakpoint type: "@ + t))
            }
        }
    } else {
        (bp, step, ActionV::Error("Unrecognized command "@ + c))
    }
}

pub open spec fn words_view(ws: Seq<String>) -> Seq<Seq<char>> {
    ws.map_values(|w: String| w@)
}


/// A copy of a set of addresses, without `skip` when it is given.
fn copy_without(s: &HashSet<u32>, skip: Option<u32>) -> (r: HashSet<u32>)
    ensures
        r@ == (match skip { Some(a) => s@.remove(a), None => s@ }),
{
    let mut r: HashSet<u32> = HashSet::new();
    let ghost keys = spec_hash_keys_iter(s).remaining().unref();
    let ghost target = match skip { Some(a) => s@.remove(a), None => s@ };
    for x in it: s.iter()
        invariant
            it.seq().unref() == keys,
            keys.to_set() == s@,
            target == (match skip { Some(a) => s@.remove(a), None => s@ }),
            r@ == keys.take(it.index() as int).to_set().filter(|k: u32| skip != Some(k)),
    {
        let ghost before = r@;
        let ghost i = it.index() as int;
        proof {
            assert(*x == keys[i]);
            assert(keys.take(i + 1) == keys.take(i).push(*x));
        }
        let keep = match skip {
            Some(a) => *x != a,
            None => true,
        };
        if keep {
            r.insert(*x);
        }
        proof {
            assert forall|k: u32| r@.contains(k) == keys.take(i + 1).to_set().filter(|k: u32| skip != Some(k)).contains(k) by {
                keys.take(i).lemma_push_to_set_commute(*x);
                assert(keys.take(i + 1).to_set().contains(k) == (keys.take(i).to_set().contains(k) || k == *x));
            }
            assert(r@ =~= keys.take(i + 1).to_set().filter(|k: u32| skip != Some(k)));
        }
    }
    proof {
        assert(keys.take(keys.len() as int) == keys);
        assert forall|k: u32| r@.contains(k) == target.contains(k) by {
            assert(keys.to_set().contains(k) == s@.contains(k));
        }
        assert(r@ =~= target);
    }
    r
}

impl BreakPoints {
    /// A copy of the breakpoints.
    pub fn duplicate(&self) -> (r: BreakPoints)
        ensures
            r@ == self@,
    {
        BreakPoints { execute: copy_without(&self.execute, None), read: copy_without(&self.read, None),
            write: copy_without(&self.write, None), opcode: self.opcode }
    }
}

/// A string holding a literal.
fn lit(s: &str) -> (r: String)
    ensures
        r@ == s@,
{
    let mut r = String::new();
    append_str(&mut r, s);
    proof {
        assert(Seq::<char>::empty() + s@ == s@);
    }
    r
}

/// Parses a hex argument known to be well formed.
fn hex_value(w: &String) -> (r: u32)
    requires
        hex_arg(w@) is Some,
    ensures
        r as nat == hex_arg(w@).unwrap(),
{
    let v = chars_of(w.as_str());
    proof {
        assert(v@.subrange(0, v@.len() as int) == w@);
    }
    match parse_unsigned_range(&v, 0, v.len(), 16, 0xFFFF_FFFF) {
        Some(x) => x,
        None => 0,
    }
}

/// Parses a length argument known to be well formed.
fn len_value(w: &String) -> (r: usize)
    requires
        len_arg(w@) is Some,
    ensures
        r as nat == len_arg(w@).unwrap(),
{
    let v = chars_of(w.as_str());
    proof {
        assert(v@.subrange(0, v@.len() as int) == w@);
    }
    match crate::text::parse_unsigned_range_u64(&v, 0, v.len(), 10, usize::MAX as u64) {
        Some(x) => x as usize,
        None => 0,
    }
}


/// Whether a hex argument is well formed (at most FFFFFFFFh).
fn hex_ok(w: &String) -> (r: bool)
    ensures
        r == hex_arg(w@) is Some,
{
    let v = chars_of(w.as_str());
    proof {
        assert(v@.subrange(0, v@.len() as int) == w@);
    }
    parse_unsigned_range(&v, 0, v.len(), 16, 0xFFFF_FFFF).is_some()
}

/// Whether a console line can be handed to `Debugger::command`: a memory dump (`rw`, `rh`,
/// `rb`) with three words has a hex address and a length that leaves room for rounding; a
/// breakpoint command (`break`, `b`) with four words has a hex address.
pub fn command_is_ok(words: &Vec<String>) -> (b: bool)
    ensures
        b == command_ok(words_view(words@)),
{
    let ghost ws = words_view(words@);
    let n = words.len();
    if n == 3 {
        assert(ws[0] == words@[0]@ && ws[1] == words@[1]@ && ws[2] == words@[2]@);
        let c = words[0].as_str();
        if str_eq(c, "rw") || str_eq(c, "rh") || str_eq(c, "rb") {
            if !hex_ok(&words[1]) {
                return false;
            }
            let v = chars_of(words[2].as_str());
            proof {
                assert(v@.subrange(0, v@.len() as int) == ws[2]);
            }
            return match crate::text::parse_unsigned_range_u64(&v, 0, v.len(), 10, usize::MAX as u64) {
                Some(x) => x <= usize::MAX as u64 - 16,
                None => false,
            };
        }
        return true;
    }
    if n == 4 {
        assert(ws[0] == words@[0]@ && ws[3] == words@[3]@);
        let c = words[0].as_str();
        if str_eq(c, "break") || str_eq(c, "b") {
            return hex_ok(&words[3]);
        }
    }
    true
}

/// How far the address moves per value of a memory dump.
pub open spec fn dump_step(cmd: Seq<char>) -> int {
    if cmd == "rw"@ { 4 } else if cmd == "rh"@ { 2 } else { 1 }
}

/// The character a byte shows as in a byte dump: itself when graphic ASCII or a space, `.` else.
pub open spec fn ascii_shown(b: u8) -> char {
    if (0x21 <= b && b <= 0x7E) || b == 0x20 { b as char } else { '.' }
}

/// The text of one value of a dump and what it adds to the ASCII column.
pub open spec fn dump_elem(cmd: Seq<char>, v: u32) -> (Seq<char>, Seq<char>) {
    if cmd == "rw"@ {
        (hex_padded(v as nat, 8) + seq![' '], Seq::empty())
    } else if cmd == "rh"@ {
        (hex_padded((v as u16) as nat, 4) + seq![' '], Seq::empty())
    } else if cmd == "rb"@ {
        (hex_padded((v as u8) as nat, 2) + seq![' '], seq![ascii_shown(v as u8)])
    } else {
        (Seq::empty(), Seq::empty())
    }
}

/// A dump line: its address, the values and the ASCII column.
pub open spec fn dump_line(base: int, buf: Seq<char>, ascii: Seq<char>) -> Seq<char> {
    hex_padded(base as nat, 8) + seq![' '] + buf + seq![' '] + ascii
}

/// After `n` values: the lines done, the values and ASCII of the open line, and its address.
pub open spec fn dump_state(cmd: Seq<char>, address: int, mem: Seq<u32>, n: int) -> (Seq<Seq<char>>, Seq<char>, Seq<char>, int)
    decreases n,
{
    if n <= 0 {
        (Seq::empty(), Seq::empty(), Seq::empty(), address)
    } else {
        let (ls, buf, asc, base) = dump_state(cmd, address, mem, n - 1);
        let (e, a) = dump_elem(cmd, mem[n - 1]);
        if n % 16 == 0 {
            (ls.push(dump_line(base, buf + e, asc + a)), Seq::empty(), Seq::empty(), address + n * dump_step(cmd))
        } else {
            (ls, buf + e, asc + a, base)
        }
    }
}

/// The lines of a memory dump: sixteen values per line, each line led by its address.
pub open spec fn dump_lines(cmd: Seq<char>, address: int, mem: Seq<u32>) -> Seq<Seq<char>> {
    let (ls, buf, asc, base) = dump_state(cmd, address, mem, mem.len() as int);
    if buf.len() > 0 { ls.push(dump_line(base, buf, asc)) } else { ls }
}

fn append_dump_line(lines: &mut Vec<String>, base: u32, buf: &String, ascii: &String)
    ensures
        words_view(final(lines)@) == words_view(old(lines)@).push(dump_line(base as int, buf@, ascii@)),
{
    let mut l = hex_upper(base, 8);
    push_char(&mut l, ' ');
    append_str(&mut l, buf.as_str());
    push_char(&mut l, ' ');
    append_str(&mut l, ascii.as_str());
    proof {
        assert(l@ == dump_line(base as int, buf@, ascii@));
    }
    let ghost before = lines@;
    lines.push(l);
    proof {
        assert(words_view(lines@) =~= words_view(before).push(l@));
    }
}

/// The lines showing a memory read answered for console command `cmd` (`rw`, `rh` or `rb`).
pub fn memory_dump_lines(cmd: &str, address: u32, mem: &Vec<u32>) -> (r: Vec<String>)
    requires
        address + dump_step(cmd@) * mem@.len() <= u32::MAX,
    ensures
        words_view(r@) == dump_lines(cmd@, address as int, mem@),
{
    let is_rw = str_eq(cmd, "rw");
    let is_rh = str_eq(cmd, "rh");
    let is_rb = str_eq(cmd, "rb");
    let step: u32 = if is_rw { 4 } else if is_rh { 2 } else { 1 };
    let mut lines: Vec<String> = Vec::new();
    let mut buffer = String::new();
    let mut ascii = String::new();
    let mut addr = address;
    let mut base = address;
    let mut filled = false;
    let mut i: usize = 0;
    proof {
        assert(words_view(lines@) == Seq::<Seq<char>>::empty());
    }
    while i < mem.len()
        invariant
            i <= mem@.len(),
            step == dump_step(cmd@),
            is_rw == (cmd@ == "rw"@) && is_rh == (cmd@ == "rh"@) && is_rb == (cmd@ == "rb"@),
            address + dump_step(cmd@) * mem@.len() <= u32::MAX,
            addr == address + i * step,
            filled == (buffer@.len() > 0),
            (words_view(lines@), buffer@, ascii@, base as int) == dump_state(cmd@, address as int, mem@, i as int),
        decreases mem@.len() - i,
    {
        let v = mem[i];
        proof {
            assert(address + (i + 1) * step <= address + mem@.len() * step) by (nonlinear_arith)
                requires i + 1 <= mem@.len(), step >= 1;
        }
        let ghost buf0 = buffer@;
        let ghost asc0 = ascii@;
        let ghost e = dump_elem(cmd@, v);
        if is_rw {
            let h = hex_upper(v, 8);
            append_str(&mut buffer, h.as_str());
            push_char(&mut buffer, ' ');
            filled = true;
        } else if is_rh {
            let h = hex_upper((v as u16) as u32, 4);
            append_str(&mut buffer, h.as_str());
            push_char(&mut buffer, ' ');
            filled = true;
        } else if is_rb {
            let byte = v as u8;
            let shown = if (0x21 <= byte && byte <= 0x7E) || byte == 0x20 { byte as char } else { '.' };
            push_char(&mut ascii, shown);
            let h = hex_upper(byte as u32, 2);
            append_str(&mut buffer, h.as_str());
            push_char(&mut buffer, ' ');
            filled = true;
        }
        addr = addr + step;
        proof {
            assert(buffer@ == buf0 + e.0);
            assert(ascii@ == asc0 + e.1);
            assert(addr == address + (i + 1) * step) by (nonlinear_arith)
                requires addr == address + i * step + step;
        }
        if i != 0 && (i + 1) % 16 == 0 {
            append_dump_line(&mut lines, base, &buffer, &ascii);
            buffer = String::new();
            ascii = String::new();
            filled = false;
            base = addr;
        }
        i = i + 1;
    }
    if filled {
        append_dump_line(&mut lines, base, &buffer, &ascii);
    }
    lines
}

/// The debugger console's state: its breakpoints and whether it steps.
pub struct Debugger {
    pub break_points: BreakPoints,
    pub step_by_step_mode: bool,
}

impl Debugger {
    pub fn new() -> (r: Self)
        ensures
            r.break_points@.execute.is_empty() && r.break_points@.read.is_empty() && r.break_points@.write.is_empty(),
            r.break_points.opcode is None,
            r.step_by_step_mode,
    {
        Debugger { break_points: BreakPoints::new(), step_by_step_mode: true }
    }

    /// Reads one console line, given as its words: `log <level>`, `regs`, `r` or an empty line
    /// (step), `cop0`, `go`, `rw|rh|rb <hex address> <length>`, and
    /// `break|b [add|a|remove|r] [o|x|r|w] <hex>`.
    pub fn command(&mut self, words: &Vec<String>) -> (r: DebuggerAction)
        requires
            command_ok(words_view(words@)),
        ensures
            (final(self).break_points@, final(self).step_by_step_mode, action_view(r))
                == command_spec(old(self).break_points@, old(self).step_by_step_mode, words_view(words@)),
            r matches DebuggerAction::Send(c, _) ==> (command_view(c) == CommandV::RunFree ==> command_is_free_mode(c)),
    {
        let ghost ws = words_view(words@);
        let empty = String::new();
        let c: &String = if words.len() == 0 { &empty } else { &words[0] };
        proof {
            assert(c@ == console_word(ws));
            reveal_strlit("");
        }
        let n = words.len();
        if str_eq(c.as_str(), "log") {
            if n != 2 {
                return DebuggerAction::Error(lit("Wrong number of arguments for 'log' command: expected <level>"));
            }
            return DebuggerAction::Send(DebuggerCommand::Log(lit(words[1].as_str())), None);
        }
        if str_eq(c.as_str(), "regs") {
            return DebuggerAction::SendAndShow(DebuggerCommand::ReqCpuRegs, lit(c.as_str()));
        }
        if str_eq(c.as_str(), "") || str_eq(c.as_str(), "r") {
            return DebuggerAction::SendAndShow(DebuggerCommand::Step, lit(c.as_str()));
        }
        if str_eq(c.as_str(), "cop0") {
            return DebuggerAction::SendAndShow(DebuggerCommand::ReqCop0Regs, lit(c.as_str()));
        }
        if str_eq(c.as_str(), "go") {
            if self.break_points.is_empty() {
                return DebuggerAction::Send(DebuggerCommand::RunModeChanged(RunMode::FreeMode),
                    Some(lit("No breakpoints set, switching to Free Mode")));
            }
            let bp = self.break_points.duplicate();
            self.step_by_step_mode = false;
            return DebuggerAction::Send(DebuggerCommand::RunModeChanged(RunMode::BreakMode(bp)),
                Some(lit("Breakpoints set, switching to Break Mode")));
        }
        let is_rw = str_eq(c.as_str(), "rw");
        let is_rh = str_eq(c.as_str(), "rh");
        let is_rb = str_eq(c.as_str(), "rb");
        if is_rw || is_rh || is_rb {
            if n != 3 {
                if is_rw {
                    return DebuggerAction::Error(lit("Wrong number of arguments for 'rw' command: expected <hex address> <length>"));
                } else if is_rh {
                    return DebuggerAction::Error(lit("Wrong number of arguments for 'rh' command: expected <hex address> <length>"));
                } else {
                    return DebuggerAction::Error(lit("Wrong number of arguments for 'rb' command: expected <hex address> <length>"));
                }
            }
            proof {
                assert(ws[1] == words@[1]@ && ws[2] == words@[2]@);
            }
            let address = hex_value(&words[1]);
            let len = len_value(&words[2]);
            let adjusted = self.adjust_mem_len(len);
            let bits: usize = if is_rw { 32 } else if is_rh { 16 } else { 8 };
            return DebuggerAction::SendAndShow(DebuggerCommand::ReadMemory(address, adjusted, bits), lit(c.as_str()));
        }
        if str_eq(c.as_str(), "break") || str_eq(c.as_str(), "b") {
            if n == 1 {
                return DebuggerAction::ListBreakPoints;
            }
            if n != 4 {
                return DebuggerAction::Error(lit(
                    "Wrong number of arguments for 'break' command: expected <add/remove> <o|x|r|w> <hex address|opcode>"));
            }
            proof {
                assert(ws[1] == words@[1]@ && ws[2] == words@[2]@ && ws[3] == words@[3]@);
            }
            let action = &words[1];
            let t = &words[2];
            let address = hex_value(&words[3]);
            let add = str_eq(action.as_str(), "add") || str_eq(action.as_str(), "a");
            if !add && !(str_eq(action.as_str(), "remove") || str_eq(action.as_str(), "r")) {
                let mut m = lit("Unrecognized breakpoint action: ");
                append_str(&mut m, action.as_str());
                return DebuggerAction::Error(m);
            }
            if str_eq(t.as_str(), "o") {
                if add {
                    self.break_points.opcode = Some(address);
                } else {
                    self.break_points.opcode = None;
                }
                return DebuggerAction::Nothing;
            }
            let is_x = str_eq(t.as_str(), "x");
            let is_r = str_eq(t.as_str(), "r");
            let is_w = str_eq(t.as_str(), "w");
            if is_x || is_r || is_w {
                let mut m = if add { lit("Add") } else { lit("Remove") };
                push_char(&mut m, ' ');
                if is_x {
                    append_str(&mut m, "execute");
                    if add { self.break_points.execute.insert(address); } else { self.break_points.execute = copy_without(&self.break_points.execute, Some(address)); }
                } else if is_r {
                    append_str(&mut m, "read");
                    if add { self.break_points.read.insert(address); } else { self.break_points.read = copy_without(&self.break_points.read, Some(address)); }
                } else {
                    append_str(&mut m, "write");
                    if add { self.break_points.write.insert(address); } else { self.break_points.write = copy_without(&self.break_points.write, Some(address)); }
                }
                append_str(&mut m, " breakpoint at ");
                let h = hex_upper(address, 8);
                append_str(&mut m, h.as_str());
                proof {
                    reveal_strlit(" ");
                    let addv = ws[1] == "add"@ || ws[1] == "a"@;
                    assert(add == addv);
                    assert(m@ == (if add { "Add"@ } else { "Remove"@ }) + " "@ + kind_word(t@) + " breakpoint at "@ + hex_padded(address as nat, 8));
                    assert(address == hex_arg(ws[3]).unwrap() as u32);
                    if is_x {
                        assert(self.break_points@.execute == (if add { old(self).break_points@.execute.insert(address) } else { old(self).break_points@.execute.remove(address) }));
                    }
                }
                return DebuggerAction::Info(m);
            }
            let mut m = lit("Unrecognized breakpoint type: ");
            append_str(&mut m, t.as_str());
            return DebuggerAction::Error(m);
        }
        let mut m = lit("Unrecognized command ");
        append_str(&mut m, c.as_str());
        DebuggerAction::Error(m)
    }

    /// The lines showing an answer of the emulator to console command `cmd`, and whether the
    /// console must wait for a further answer (after a break, when it also goes back to
    /// stepping).
    pub fn handle_response(&mut self, resp: &DebuggerResponse, cmd: &str) -> (r: (Vec<String>, bool))
        requires
            resp matches DebuggerResponse::Memory(a, m) ==> a + dump_step(cmd@) * m@.len() <= u32::MAX,
        ensures
            final(self).break_points == old(self).break_points,
            match resp {
                DebuggerResponse::BreakAt(a) => final(self).step_by_step_mode && r.1
                    && words_view(r.0@) == seq!["Break at "@ + hex_padded(*a as nat, 8)],
                DebuggerResponse::CpuRegs(dis, regs, cycles) => final(self).step_by_step_mode == old(self).step_by_step_mode && !r.1
                    && words_view(r.0@) == (if cmd@ == "r"@ || cmd@ == "regs"@ {
                        seq!["CPU Registers ["@ + crate::text::dec_digits(*cycles as nat) + "]:\n"@ + cpu_dump_text(*regs)]
                    } else {
                        Seq::empty()
                    }) + (if cmd@ != "regs"@ { seq![dis.formatted@] } else { Seq::empty() }),
                DebuggerResponse::Cop0Regs(regs) => final(self).step_by_step_mode == old(self).step_by_step_mode && !r.1
                    && words_view(r.0@) == seq!["Cop0 Registers:\n"@ + cop0_regs_text(regs.regs@, 32)],
                DebuggerResponse::Memory(a, m) => final(self).step_by_step_mode == old(self).step_by_step_mode && !r.1
                    && words_view(r.0@) == dump_lines(cmd@, *a as int, m@),
            },
    {
        match resp {
            DebuggerResponse::BreakAt(address) => {
                let mut l = lit("Break at ");
                let h = hex_upper(*address, 8);
                append_str(&mut l, h.as_str());
                self.step_by_step_mode = true;
                let mut v: Vec<String> = Vec::new();
                v.push(l);
                proof {
                    assert(words_view(v@) =~= seq![l@]);
                }
                (v, true)
            },
            DebuggerResponse::CpuRegs(dis, regs, cycles) => {
                let mut v: Vec<String> = Vec::new();
                let ghost e: Seq<Seq<char>> = Seq::empty();
                proof {
                    assert(words_view(v@) =~= e);
                }
                if str_eq(cmd, "r") || str_eq(cmd, "regs") {
                    let mut l = lit("CPU Registers [");
                    let d = crate::text::dec_string(*cycles);
                    append_str(&mut l, d.as_str());
                    append_str(&mut l, "]:\n");
                    let dump = regs.dump();
                    append_str(&mut l, dump.as_str());
                    v.push(l);
                    proof {
                        assert(words_view(v@) =~= seq![l@]);
                    }
                }
                let ghost first = words_view(v@);
                if !str_eq(cmd, "regs") {
                    v.push(lit(dis.formatted.as_str()));
                    proof {
                        assert(words_view(v@) =~= first + seq![dis.formatted@]);
                    }
                } else {
                    proof {
                        assert(words_view(v@) =~= first + Seq::<Seq<char>>::empty());
                    }
                }
                (v, false)
            },
            DebuggerResponse::Cop0Regs(regs) => {
                let mut l = lit("Cop0 Registers:\n");
                let dump = regs.dump();
                append_str(&mut l, dump.as_str());
                let mut v: Vec<String> = Vec::new();
                v.push(l);
                proof {
                    assert(words_view(v@) =~= seq![l@]);
                }
                (v, false)
            },
            DebuggerResponse::Memory(address, mem) => {
                (memory_dump_lines(cmd, *address, mem), false)
            },
        }
    }

    /// Rounds a length up to a multiple of the dump width.
    pub fn adjust_mem_len(&self, n: usize) -> (r: usize)
        requires
            n <= usize::MAX - DUMP_MEMORY_COLUMNS,
        ensures
            r == adjusted_len(n as int),
    {
        let rem = n % DUMP_MEMORY_COLUMNS;
        if rem == 0 {
            n
        } else {
            n + DUMP_MEMORY_COLUMNS - rem
        }
    }
}

} // verus!
