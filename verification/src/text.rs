use vstd::prelude::*;

verus! {

/// Appends a character to a string (`String::push`).
#[verifier::external_body]
pub(crate) fn push_char(s: &mut String, c: char)
    ensures
        final(s)@ == old(s)@.push(c),
{
    s.push(c);
}

/// The characters of a string slice, in order.
pub fn chars_of(s: &str) -> (r: Vec<char>)
    ensures
        r@ == s@,
{
    let mut r: Vec<char> = Vec::new();
    for c in it: s.chars()
        invariant
            r@ == it.seq().take(it.index() as int),
    {
        r.push(c);
    }
    r
}


/// A string holding the given characters.
pub fn string_of(v: &Vec<char>) -> (r: String)
    ensures
        r@ == v@,
{
    let mut r = String::new();
    let mut i: usize = 0;
    while i < v.len()
        invariant
            i <= v.len(),
            r@ == v@.take(i as int),
        decreases v.len() - i,
    {
        push_char(&mut r, v[i]);
        i += 1;
        proof { assert(v@.take(i as int) =~= v@.take((i - 1) as int).push(v@[i - 1])); }
    }
    proof { assert(v@.take(v.len() as int) =~= v@); }
    r
}

/// Appends the characters of `t` to `s`.
pub(crate) fn append_str(s: &mut String, t: &str)
    ensures
        final(s)@ == old(s)@ + t@,
{
    let v = chars_of(t);
    let mut i: usize = 0;
    while i < v.len()
        invariant
            i <= v.len(),
            v@ == t@,
            s@ == old(s)@ + v@.take(i as int),
        decreases v.len() - i,
    {
        push_char(s, v[i]);
        i += 1;
        proof { assert(v@.take(i as int) =~= v@.take((i - 1) as int).push(v@[i - 1])); }
    }
    proof { assert(v@.take(v.len() as int) =~= v@); }
}

/// The upper-case hexadecimal digit of `n` (0..15).
pub open spec fn hex_digit(n: int) -> char {
    if n < 10 { (48 + n) as char } else { (55 + n) as char }
}

/// Upper-case hexadecimal digits of `v`, without leading zeros (at least one digit).
pub open spec fn hex_digits(v: nat) -> Seq<char>
    decreases v,
{
    if v < 16 { seq![hex_digit(v as int)] } else { hex_digits(v / 16).push(hex_digit((v % 16) as int)) }
}

/// `n` zero characters.
pub open spec fn zeros(n: int) -> Seq<char> {
    Seq::new(if n > 0 { n as nat } else { 0 }, |i: int| '0')
}

/// Upper-case hexadecimal of `v` padded with zeros to at least `width` digits (as `{:0width$X}`).
pub open spec fn hex_padded(v: nat, width: nat) -> Seq<char> {
    zeros(width - hex_digits(v).len()) + hex_digits(v)
}

fn hex_digit_char(n: u32) -> (c: char)
    requires
        n < 16,
    ensures
        c == hex_digit(n as int),
{
    if n < 10 { (48 + n) as u8 as char } else { (55 + n) as u8 as char }
}

proof fn lemma_hex_digits_len(v: nat)
    ensures
        hex_digits(v).len() >= 1,
        v < 16 ==> hex_digits(v).len() == 1,
    decreases v,
{
    if v >= 16 {
        lemma_hex_digits_len(v / 16);
    }
}

/// Upper-case hexadecimal of `v` padded with zeros to at least `width` digits.
pub fn hex_upper(v: u32, width: usize) -> (r: String)
    ensures
        r@ == hex_padded(v as nat, width as nat),
{
    // digits, least significant first
    let mut rev: Vec<char> = Vec::new();
    let mut x: u32 = v;
    while x >= 16
        invariant
            hex_digits(v as nat) == hex_digits(x as nat) + rev@.reverse(),
        decreases x,
    {
        let d = hex_digit_char(x % 16);
        proof {
            assert(rev@.push(d).reverse() =~= seq![d] + rev@.reverse());
            assert(hex_digits(x as nat) == hex_digits((x / 16) as nat).push(d));
            assert(hex_digits(x as nat) + rev@.reverse() =~= hex_digits((x / 16) as nat) + (seq![d] + rev@.reverse()));
        }
        rev.push(d);
        x = x / 16;
    }
    let d = hex_digit_char(x);
    proof {
        assert(rev@.push(d).reverse() =~= seq![d] + rev@.reverse());
        assert(hex_digits(x as nat) =~= seq![d]);
    }
    rev.push(d);
    let ghost digits = rev@.reverse();
    let mut r = String::new();
    let n = rev.len();
    let mut k: usize = n;
    while k < width
        invariant
            n <= k,
            k <= width || k == n,
            r@ == zeros(k - n),
        decreases width - k,
    {
        push_char(&mut r, '0');
        proof { assert(zeros(k - n).push('0') =~= zeros(k + 1 - n)); }
        k += 1;
    }
    let ghost pad = r@;
    proof { assert(pad =~= zeros(width - digits.len())); }
    let mut j: usize = n;
    while j > 0
        invariant
            j <= n,
            n == rev.len(),
            digits == rev@.reverse(),
            r@ == pad + digits.take((n - j) as int),
        decreases j,
    {
        j -= 1;
        push_char(&mut r, rev[j]);
        proof {
            assert(digits[(n - j - 1) as int] == rev@[j as int]);
            assert(digits.take((n - j) as int) =~= digits.take((n - j - 1) as int).push(rev@[j as int]));
        }
    }
    proof { assert(digits.take(n as int) =~= digits); }
    r
}


/// The decimal digit of `n` (0..9).
pub open spec fn dec_digit(n: int) -> char {
    (48 + n) as char
}

/// Decimal digits of `v`, without leading zeros (at least one digit).
pub open spec fn dec_digits(v: nat) -> Seq<char>
    decreases v,
{
    if v < 10 { seq![dec_digit(v as int)] } else { dec_digits(v / 10).push(dec_digit((v % 10) as int)) }
}

/// Decimal representation of `v` (as `{}` formats an unsigned integer).
pub fn dec_string(v: usize) -> (r: String)
    ensures
        r@ == dec_digits(v as nat),
{
    let mut rev: Vec<char> = Vec::new();
    let mut x: usize = v;
    while x >= 10
        invariant
            dec_digits(v as nat) == dec_digits(x as nat) + rev@.reverse(),
        decreases x,
    {
        let d = ((x % 10) as u8 + 48) as char;
        proof {
            assert(rev@.push(d).reverse() =~= seq![d] + rev@.reverse());
            assert(dec_digits(x as nat) == dec_digits((x / 10) as nat).push(d));
            assert(dec_digits(x as nat) + rev@.reverse() =~= dec_digits((x / 10) as nat) + (seq![d] + rev@.reverse()));
        }
        rev.push(d);
        x = x / 10;
    }
    let d = (x as u8 + 48) as char;
    proof {
        assert(rev@.push(d).reverse() =~= seq![d] + rev@.reverse());
        assert(dec_digits(x as nat) =~= seq![d]);
    }
    rev.push(d);
    let ghost digits = rev@.reverse();
    let mut r = String::new();
    let n = rev.len();
    let mut j: usize = n;
    while j > 0
        invariant
            j <= n,
            n == rev.len(),
            digits == rev@.reverse(),
            r@ == digits.take((n - j) as int),
        decreases j,
    {
        j -= 1;
        push_char(&mut r, rev[j]);
        proof {
            assert(digits[(n - j - 1) as int] == rev@[j as int]);
            assert(digits.take((n - j) as int) =~= digits.take((n - j - 1) as int).push(rev@[j as int]));
        }
    }
    proof { assert(digits.take(n as int) =~= digits); }
    r
}

/// The characters `char::is_whitespace` accepts.
pub open spec fn is_white(c: char) -> bool {
    let n = c as u32;
    (9 <= n <= 13) || n == 32 || n == 0x85 || n == 0xA0 || n == 0x1680 || (0x2000 <= n <= 0x200A)
        || n == 0x2028 || n == 0x2029 || n == 0x202F || n == 0x205F || n == 0x3000
}

pub(crate) fn is_white_char(c: char) -> (r: bool)
    ensures
        r == is_white(c),
{
    let n = c as u32;
    (9 <= n && n <= 13) || n == 32 || n == 0x85 || n == 0xA0 || n == 0x1680 || (0x2000 <= n && n <= 0x200A)
        || n == 0x2028 || n == 0x2029 || n == 0x202F || n == 0x205F || n == 0x3000
}

/// Number of leading white characters of `s`.
pub open spec fn lead_white(s: Seq<char>) -> nat
    decreases s.len(),
{
    if s.len() > 0 && is_white(s[0]) { 1 + lead_white(s.drop_first()) } else { 0 }
}

/// Number of trailing white characters of `s`.
pub open spec fn trail_white(s: Seq<char>) -> nat
    decreases s.len(),
{
    if s.len() > 0 && is_white(s.last()) { 1 + trail_white(s.drop_last()) } else { 0 }
}

/// `s` without leading and trailing white characters (as `str::trim`).
pub open spec fn trim_spec(s: Seq<char>) -> Seq<char> {
    let t = s.subrange(lead_white(s) as int, s.len() as int);
    t.subrange(0, t.len() - trail_white(t))
}

proof fn lemma_lead_white(s: Seq<char>, i: int)
    requires
        0 <= i <= s.len(),
        forall|k: int| 0 <= k < i ==> is_white(#[trigger] s[k]),
        i == s.len() || !is_white(s[i]),
    ensures
        lead_white(s) == i,
    decreases i,
{
    if i > 0 {
        assert forall|k: int| 0 <= k < i - 1 implies is_white(#[trigger] s.drop_first()[k]) by {
            assert(s.drop_first()[k] == s[k + 1]);
        }
        if i - 1 < s.drop_first().len() {
            assert(s.drop_first()[i - 1] == s[i]);
        }
        lemma_lead_white(s.drop_first(), i - 1);
    }
}

proof fn lemma_trail_white(s: Seq<char>, j: int)
    requires
        0 <= j <= s.len(),
        forall|k: int| j <= k < s.len() ==> is_white(#[trigger] s[k]),
        j == 0 || !is_white(s[j - 1]),
    ensures
        trail_white(s) == s.len() - j,
    decreases s.len() - j,
{
    if j < s.len() {
        assert forall|k: int| j <= k < s.drop_last().len() implies is_white(#[trigger] s.drop_last()[k]) by {
            assert(s.drop_last()[k] == s[k]);
        }
        if j > 0 {
            assert(s.drop_last()[j - 1] == s[j - 1]);
        }
        lemma_trail_white(s.drop_last(), j);
    }
}

/// Characters `from..to` of `v` as a string.
fn string_of_range(v: &Vec<char>, from: usize, to: usize) -> (r: String)
    requires
        from <= to <= v.len(),
    ensures
        r@ == v@.subrange(from as int, to as int),
{
    let mut r = String::new();
    let mut i: usize = from;
    while i < to
        invariant
            from <= i <= to,
            to <= v.len(),
            r@ == v@.subrange(from as int, i as int),
        decreases to - i,
    {
        push_char(&mut r, v[i]);
        i += 1;
        proof { assert(v@.subrange(from as int, i as int) =~= v@.subrange(from as int, (i - 1) as int).push(v@[i - 1])); }
    }
    r
}

/// `s` without leading and trailing white characters.
pub fn trim(s: &str) -> (r: String)
    ensures
        r@ == trim_spec(s@),
{
    let v = chars_of(s);
    let mut i: usize = 0;
    while i < v.len() && is_white_char(v[i])
        invariant
            i <= v.len(),
            v@ == s@,
            forall|k: int| 0 <= k < i ==> is_white(#[trigger] v@[k]),
        decreases v.len() - i,
    {
        i += 1;
    }
    proof { lemma_lead_white(v@, i as int); }
    let mut j: usize = v.len();
    while j > i && is_white_char(v[j - 1])
        invariant
            i <= j <= v.len(),
            v@ == s@,
            forall|k: int| j <= k < v@.len() ==> is_white(#[trigger] v@[k]),
        decreases j,
    {
        j -= 1;
    }
    let ghost t = v@.subrange(i as int, v@.len() as int);
    proof {
        assert forall|k: int| j - i <= k < t.len() implies is_white(#[trigger] t[k]) by {
            assert(t[k] == v@[i + k]);
        }
        if j > i {
            assert(t[j - i - 1] == v@[j - 1]);
        }
        lemma_trail_white(t, j - i);
        assert(t.subrange(0, t.len() - trail_white(t)) =~= v@.subrange(i as int, j as int));
    }
    string_of_range(&v, i, j)
}

/// `s` padded with spaces on the right to at least `width` characters (as `{:<width$}`).
pub open spec fn pad_right(s: Seq<char>, width: nat) -> Seq<char> {
    s + Seq::new(if width > s.len() { (width - s.len()) as nat } else { 0 }, |i: int| ' ')
}

/// Appends `t` padded with spaces on the right to at least `width` characters.
pub(crate) fn append_padded(s: &mut String, t: &str, width: usize)
    ensures
        final(s)@ == old(s)@ + pad_right(t@, width as nat),
{
    let v = chars_of(t);
    append_str(s, t);
    let mut k: usize = v.len();
    let ghost base = s@;
    while k < width
        invariant
            v@ == t@,
            v.len() <= k,
            k <= width || k == v.len(),
            base == old(s)@ + t@,
            s@ == base + Seq::new((k - v.len()) as nat, |i: int| ' '),
        decreases width - k,
    {
        push_char(s, ' ');
        proof {
            assert(Seq::new((k - v.len()) as nat, |i: int| ' ').push(' ') =~= Seq::new((k + 1 - v.len()) as nat, |i: int| ' '));
        }
        k += 1;
    }
    proof {
        assert(s@ =~= old(s)@ + pad_right(t@, width as nat));
    }
}

/// The lower-case form of an ASCII upper-case letter; any other character unchanged.
pub open spec fn ascii_lower(c: char) -> char {
    if 'A' <= c <= 'Z' { ((c as u32) + 32) as char } else { c }
}

/// The upper-case form of an ASCII lower-case letter; any other character unchanged.
pub open spec fn ascii_upper(c: char) -> char {
    if 'a' <= c <= 'z' { ((c as u32) - 32) as char } else { c }
}


/// Bytes of the UTF-8 encoding of a character.
pub open spec fn utf8_len(c: char) -> nat {
    let n = c as u32;
    if n < 0x80 { 1 } else if n < 0x800 { 2 } else if n < 0x10000 { 3 } else { 4 }
}

/// Bytes of the UTF-8 encoding of a character sequence.
pub open spec fn byte_len(s: Seq<char>) -> nat
    decreases s.len(),
{
    if s.len() == 0 { 0 } else { byte_len(s.drop_last()) + utf8_len(s.last()) }
}

/// Index of the character that starts at byte `k` of the UTF-8 encoding of `s`
/// (`s.len()` for the end), or `None` when byte `k` is not on a character boundary.
pub open spec fn char_pos(s: Seq<char>, k: int) -> Option<int>
    decreases s.len(),
{
    if k == 0 {
        Some(0)
    } else if s.len() == 0 || k < utf8_len(s[0]) {
        None
    } else {
        match char_pos(s.drop_first(), k - utf8_len(s[0])) {
            Some(j) => Some(j + 1),
            None => None,
        }
    }
}

fn utf8_len_of(c: char) -> (r: usize)
    ensures
        r == utf8_len(c),
{
    let n = c as u32;
    if n < 0x80 { 1 } else if n < 0x800 { 2 } else if n < 0x10000 { 3 } else { 4 }
}

proof fn lemma_char_pos_step(s: Seq<char>, i: int, k: int)
    requires
        0 <= i < s.len(),
        k >= utf8_len(s[i]),
    ensures
        char_pos(s.subrange(i, s.len() as int), k) == (match char_pos(s.subrange(i + 1, s.len() as int), k - utf8_len(s[i])) {
            Some(j) => Some(j + 1),
            None => if k == 0 { Some(0int) } else { None },
        }),
{
    let t = s.subrange(i, s.len() as int);
    assert(t.drop_first() =~= s.subrange(i + 1, s.len() as int));
    assert(t[0] == s[i]);
}

/// Character index of byte `k` of the UTF-8 encoding of `v`, when that byte starts a character
/// (or is the end).
pub(crate) fn char_pos_of(v: &Vec<char>, k: usize) -> (r: Option<usize>)
    ensures
        r matches Some(j) ==> char_pos(v@, k as int) == Some(j as int),
        r is None ==> char_pos(v@, k as int) is None,
{
    let mut i: usize = 0;
    let mut rem: usize = k;
    assert(v@.subrange(0, v@.len() as int) =~= v@);
    while i < v.len() && rem > 0
        invariant
            i <= v.len(),
            char_pos(v@, k as int) == (match char_pos(v@.subrange(i as int, v@.len() as int), rem as int) {
                Some(j) => Some(j + i),
                None => None,
            }),
        decreases v.len() - i,
    {
        let l = utf8_len_of(v[i]);
        if rem < l {
            proof {
                let t = v@.subrange(i as int, v@.len() as int);
                assert(t[0] == v@[i as int]);
            }
            return None;
        }
        proof { lemma_char_pos_step(v@, i as int, rem as int); }
        rem -= l;
        i += 1;
    }
    if rem == 0 {
        Some(i)
    } else {
        proof {
            assert(v@.subrange(i as int, v@.len() as int).len() == 0);
        }
        None
    }
}

/// Value of a digit in base 10 or 16 (either letter case), if it is one.
pub open spec fn digit_value(c: char, radix: nat) -> Option<nat> {
    let n = c as u32;
    if 48 <= n <= 57 && n - 48 < radix {
        Some((n - 48) as nat)
    } else if radix == 16 && 65 <= n <= 70 {
        Some((n - 55) as nat)
    } else if radix == 16 && 97 <= n <= 102 {
        Some((n - 87) as nat)
    } else {
        None
    }
}

/// Value of a run of digits, or `None` if any character is not a digit.
pub open spec fn digits_value(s: Seq<char>, radix: nat) -> Option<nat>
    decreases s.len(),
{
    if s.len() == 0 {
        Some(0)
    } else {
        match (digits_value(s.drop_last(), radix), digit_value(s.last(), radix)) {
            (Some(a), Some(d)) => Some(a * radix + d),
            _ => None,
        }
    }
}

/// What `from_str_radix` (and `str::parse`) of an unsigned integer type with maximum `max`
/// gives: an optional `+` followed by at least one digit, and a value that fits.
pub open spec fn parse_unsigned(s: Seq<char>, radix: nat, max: nat) -> Option<nat> {
    let digits = if s.len() > 0 && s[0] == '+' { s.drop_first() } else { s };
    if digits.len() == 0 {
        None
    } else {
        match digits_value(digits, radix) {
            Some(v) => if v <= max { Some(v) } else { None },
            None => None,
        }
    }
}

fn digit_value_of(c: char, radix: u32) -> (r: Option<u32>)
    requires
        radix == 10 || radix == 16,
    ensures
        r matches Some(d) ==> digit_value(c, radix as nat) == Some(d as nat) && d < radix,
        r is None ==> digit_value(c, radix as nat) is None,
{
    let n = c as u32;
    if 48 <= n && n <= 57 && n - 48 < radix {
        Some(n - 48)
    } else if radix == 16 && 65 <= n && n <= 70 {
        Some(n - 55)
    } else if radix == 16 && 97 <= n && n <= 102 {
        Some(n - 87)
    } else {
        None
    }
}

proof fn lemma_digits_value_grows(s: Seq<char>, radix: nat, i: int)
    requires
        radix >= 1,
        0 <= i <= s.len(),
        digits_value(s, radix) is Some,
    ensures
        digits_value(s.take(i), radix) is Some,
        digits_value(s.take(i), radix).unwrap() <= digits_value(s, radix).unwrap(),
    decreases s.len(),
{
    if i < s.len() {
        assert(s.drop_last().take(i) =~= s.take(i));
        lemma_digits_value_grows(s.drop_last(), radix, i);
        let a = digits_value(s.drop_last(), radix).unwrap();
        let d = digit_value(s.last(), radix).unwrap();
        assert(a * radix + d >= a) by (nonlinear_arith)
            requires radix >= 1, d >= 0, a >= 0;
    } else {
        assert(s.take(i) =~= s);
    }
}

/// Parses characters `from..to` of `v` as an unsigned number in base 10 or 16 no larger than
/// `max`, as `from_str_radix` does.
pub(crate) fn parse_unsigned_range_u64(v: &Vec<char>, from: usize, to: usize, radix: u32, max: u64) -> (r: Option<u64>)
    requires
        from <= to <= v.len(),
        radix == 10 || radix == 16,
    ensures
        r matches Some(x) ==> parse_unsigned(v@.subrange(from as int, to as int), radix as nat, max as nat) == Some(x as nat),
        r is None ==> parse_unsigned(v@.subrange(from as int, to as int), radix as nat, max as nat) is None,
{
    let ghost s = v@.subrange(from as int, to as int);
    let mut start = from;
    if from < to && v[from] == '+' {
        start = from + 1;
    }
    let ghost digits = v@.subrange(start as int, to as int);
    proof {
        if from < to && v@[from as int] == '+' {
            assert(digits =~= s.drop_first());
        } else {
            assert(digits =~= s);
        }
    }
    if start == to {
        return None;
    }
    let mut acc: u128 = 0;
    let mut i: usize = start;
    assert(parse_unsigned(s, radix as nat, max as nat) == (match digits_value(digits, radix as nat) {
        Some(x) => if x <= max { Some(x) } else { None },
        None => None,
    }));
    while i < to
        invariant
            start <= i <= to <= v.len(),
            digits == v@.subrange(start as int, to as int),
            parse_unsigned(v@.subrange(from as int, to as int), radix as nat, max as nat) == (match digits_value(digits, radix as nat) {
                Some(x) => if x <= max { Some(x) } else { None },
                None => None,
            }),
            radix == 10 || radix == 16,
            digits_value(digits.take(i - start), radix as nat) == Some(acc as nat),
            acc <= max,
        decreases to - i,
    {
        assert(digits.take(i - start + 1).drop_last() =~= digits.take(i - start));
        assert(digits.take(i - start + 1).last() == v@[i as int]);
        match digit_value_of(v[i], radix) {
            None => {
                proof {
                    assert(digits_value(digits.take(i - start + 1), radix as nat) is None);
                    if digits_value(digits, radix as nat) is Some {
                        lemma_digits_value_grows(digits, radix as nat, i - start + 1);
                    }
                    assert(digits_value(digits, radix as nat) is None);
                }
                return None;
            },
            Some(d) => {
                assert(acc * (radix as u128) + d as u128 <= 0xFFFF_FFFF_FFFF_FFFFu128 * 16 + 15) by (nonlinear_arith)
                    requires acc <= 0xFFFF_FFFF_FFFF_FFFFu128, radix <= 16, d < 16;
                let next = acc * (radix as u128) + d as u128;
                if next > max as u128 {
                    proof {
                        assert(digits_value(digits.take(i - start + 1), radix as nat) == Some(next as nat));
                        if digits_value(digits, radix as nat) is Some {
                            lemma_digits_value_grows(digits, radix as nat, i - start + 1);
                        }
                        assert(digits_value(digits, radix as nat) is None || digits_value(digits, radix as nat).unwrap() > max);
                    }
                    return None;
                }
                acc = next;
            },
        }
        i += 1;
    }
    assert(digits.take(to - start) =~= digits);
    Some(acc as u64)
}

/// Parses characters `from..to` of `v` as an unsigned number in base 10 or 16 no larger than
/// `max`, as `from_str_radix` does.
pub(crate) fn parse_unsigned_range(v: &Vec<char>, from: usize, to: usize, radix: u32, max: u32) -> (r: Option<u32>)
    requires
        from <= to <= v.len(),
        radix == 10 || radix == 16,
    ensures
        r matches Some(x) ==> parse_unsigned(v@.subrange(from as int, to as int), radix as nat, max as nat) == Some(x as nat),
        r is None ==> parse_unsigned(v@.subrange(from as int, to as int), radix as nat, max as nat) is None,
{
    match parse_unsigned_range_u64(v, from, to, radix, max as u64) {
        Some(x) => Some(x as u32),
        None => None,
    }
}

/// Maximal runs of non-white characters of `s`, in order (as `str::split_whitespace`), with the
/// run still open at the end.
pub open spec fn words_state(s: Seq<char>) -> (Seq<Seq<char>>, Seq<char>)
    decreases s.len(),
{
    if s.len() == 0 {
        (Seq::empty(), Seq::empty())
    } else {
        let (ws, cur) = words_state(s.drop_last());
        if is_white(s.last()) {
            if cur.len() > 0 { (ws.push(cur), Seq::empty()) } else { (ws, cur) }
        } else {
            (ws, cur.push(s.last()))
        }
    }
}

/// The whitespace-separated words of `s` (as `str::split_whitespace`).
pub open spec fn words(s: Seq<char>) -> Seq<Seq<char>> {
    let (ws, cur) = words_state(s);
    if cur.len() > 0 { ws.push(cur) } else { ws }
}

/// The whitespace-separated words of a character sequence.
pub(crate) fn split_words(v: &Vec<char>) -> (r: Vec<Vec<char>>)
    ensures
        r@.len() == words(v@).len(),
        forall|i: int| 0 <= i < r@.len() ==> (#[trigger] r@[i])@ == words(v@)[i],
{
    let mut ws: Vec<Vec<char>> = Vec::new();
    let mut cur: Vec<char> = Vec::new();
    let mut i: usize = 0;
    while i < v.len()
        invariant
            i <= v.len(),
            words_state(v@.take(i as int)).0.len() == ws@.len(),
            forall|k: int| 0 <= k < ws@.len() ==> (#[trigger] ws@[k])@ == words_state(v@.take(i as int)).0[k],
            cur@ == words_state(v@.take(i as int)).1,
        decreases v.len() - i,
    {
        let c = v[i];
        proof {
            assert(v@.take(i as int + 1).drop_last() =~= v@.take(i as int));
            assert(v@.take(i as int + 1).last() == c);
        }
        if is_white_char(c) {
            if cur.len() > 0 {
                let done = cur;
                ws.push(done);
                cur = Vec::new();
            }
        } else {
            cur.push(c);
        }
        i += 1;
    }
    proof { assert(v@.take(v.len() as int) =~= v@); }
    if cur.len() > 0 {
        ws.push(cur);
    }
    ws
}

/// The upper-case form of a string, as `str::to_uppercase` gives it.
pub uninterp spec fn str_upper(s: Seq<char>) -> Seq<char>;

/// Upper-cases a string (`str::to_uppercase`): a function of the characters alone; an ASCII
/// string has each of its letters mapped to the upper-case letter and every other character kept.
#[verifier::external_body]
pub(crate) fn str_to_uppercase(s: &str) -> (r: String)
    ensures
        r@ == str_upper(s@),
        (forall|i: int| 0 <= i < s@.len() ==> (#[trigger] s@[i] as u32) < 128) ==> r@ == s@.map_values(|c: char| ascii_upper(c)),
{
    s.to_uppercase()
}

/// The character with scalar value `n`, if it is one (`char::from_u32`).
#[verifier::external_body]
pub(crate) fn char_from_u32(n: u32) -> (r: Option<char>)
    ensures
        r matches Some(c) ==> c as u32 == n,
        r is None <==> !(n < 0xD800 || (0xE000 <= n && n <= 0x10FFFF)),
{
    char::from_u32(n)
}

/// A character is the character of its code.
pub(crate) proof fn lemma_char_of_code(c: char, n: u32)
    requires
        c as u32 == n,
    ensures
        c == n as char,
{
}

/// Whether two strings hold the same characters.
pub(crate) fn str_eq(a: &str, b: &str) -> (r: bool)
    ensures
        r == (a@ == b@),
{
    let x = chars_of(a);
    let y = chars_of(b);
    if x.len() != y.len() {
        return false;
    }
    let mut i: usize = 0;
    while i < x.len()
        invariant
            x@ == a@,
            y@ == b@,
            x.len() == y.len(),
            i <= x.len(),
            forall|j: int| 0 <= j < i ==> x@[j] == y@[j],
        decreases x.len() - i,
    {
        if x[i] != y[i] {
            return false;
        }
        i = i + 1;
    }
    proof {
        assert(x@ == y@);
    }
    true
}

} // verus!
