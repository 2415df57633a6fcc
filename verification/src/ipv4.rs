//! IPv4 addresses and their dotted-decimal text.
//!
//! An address has exactly one text: its four octets in decimal, without
//! leading zeros, joined by dots. Reading accepts that text and nothing else.

use crate::error::{AppError, AppErrorView, AppResult, ErrorKind};
use vstd::prelude::*;

verus! {

/// The IPv4 address `a.b.c.d`.
#[derive(Clone, Copy, Debug, PartialEq, Eq, Hash, Structural)]
pub struct Ipv4 {
    pub a: u8,
    pub b: u8,
    pub c: u8,
    pub d: u8,
}

/// The character of the decimal digit `n`, for `0 <= n <= 9`.
pub open spec fn digit_char(n: int) -> char {
    (n + 48) as char
}

/// Whether `c` is one of `'0'` to `'9'`.
pub open spec fn is_digit(c: char) -> bool {
    48 <= c as int <= 57
}

/// The decimal text of an octet: one to three digits, no leading zero.
pub open spec fn octet_text(n: u8) -> Seq<char> {
    if n < 10 {
        seq![digit_char(n as int)]
    } else if n < 100 {
        seq![digit_char(n as int / 10), digit_char(n as int % 10)]
    } else {
        seq![digit_char(n as int / 100), digit_char((n as int / 10) % 10), digit_char(n as int % 10)]
    }
}

/// The text of an address: its four octets joined by dots.
pub open spec fn ipv4_text(ip: Ipv4) -> Seq<char> {
    octet_text(ip.a) + seq!['.'] + octet_text(ip.b) + seq!['.'] + octet_text(ip.c) + seq!['.']
        + octet_text(ip.d)
}

/// The address that `s` is the text of, if there is one.
pub open spec fn parse_ipv4(s: Seq<char>) -> Option<Ipv4> {
    if exists|ip: Ipv4| ipv4_text(ip) == s {
        Some(choose|ip: Ipv4| ipv4_text(ip) == s)
    } else {
        None
    }
}

/// The error for text that is not the text of an address.
pub open spec fn malformed_address() -> AppErrorView {
    AppErrorView { kind: ErrorKind::Format, message: "IP address format Error"@, cause: None }
}

/// What reading `s` as an address gives: the address it is the text of, or
/// the format error when it is the text of none.
pub open spec fn reads_as(s: Seq<char>, r: AppResult<Ipv4>) -> bool {
    match r {
        Ok(ip) => parse_ipv4(s) == Some(ip),
        Err(e) => parse_ipv4(s) is None && e@ == malformed_address(),
    }
}

impl Ipv4 {
    /// The address `a.b.c.d`.
    pub fn new(a: u8, b: u8, c: u8, d: u8) -> (ip: Self)
        ensures
            ip == (Ipv4 { a, b, c, d }),
    {
        Ipv4 { a, b, c, d }
    }

    /// Reads an address from characters: the address that they are the text
    /// of, or a format error when they are the text of none.
    pub fn from_chars(t: &[char]) -> (r: AppResult<Self>)
        ensures
            reads_as(t@, r),
    {
        match scan_chars(t) {
            Some(ip) => Ok(ip),
            None => Err(AppError::new(ErrorKind::Format, "IP address format Error")),
        }
    }

    /// Reads an address from its text: the address that `text` is the text
    /// of, or a format error when it is the text of none.
    pub fn parse(text: &str) -> (r: AppResult<Self>)
        ensures
            reads_as(text@, r),
    {
        let chars = chars_of(text);
        Self::from_chars(chars.as_slice())
    }

    /// The text of the address.
    pub fn to_string(&self) -> (line: String)
        ensures
            line@ == ipv4_text(*self),
    {
        let mut line = String::new();
        push_octet(&mut line, self.a);
        push_dot(&mut line);
        push_octet(&mut line, self.b);
        push_dot(&mut line);
        push_octet(&mut line, self.c);
        push_dot(&mut line);
        push_octet(&mut line, self.d);
        line
    }
}

/// Reading the text of an address gives that address back.
pub proof fn lemma_parse_of_text(ip: Ipv4)
    ensures
        parse_ipv4(ipv4_text(ip)) == Some(ip),
{
    lemma_scan_complete(ip);
    lemma_scan_is_parse(ipv4_text(ip));
}

/// Whatever reads as an address is the text of that address.
pub proof fn lemma_text_of_parse(s: Seq<char>)
    requires
        parse_ipv4(s) is Some,
    ensures
        ipv4_text(parse_ipv4(s)->0) == s,
{
}

/// Two addresses with the same text are the same address.
pub proof fn lemma_text_is_injective(x: Ipv4, y: Ipv4)
    requires
        ipv4_text(x) == ipv4_text(y),
    ensures
        x == y,
{
    lemma_parse_of_text(x);
    lemma_parse_of_text(y);
}

/// The characters of `s`, in order.
pub(crate) fn chars_of(s: &str) -> (v: Vec<char>)
    ensures
        v@ == s@,
{
    let mut v: Vec<char> = Vec::new();
    for c in it: s.chars()
        invariant
            it.seq() == s@,
            v@ == it.seq().take(it.index()),
    {
        v.push(c);
    }
    v
}

fn is_digit_char(c: char) -> (r: bool)
    ensures
        r == is_digit(c),
{
    '0' <= c && c <= '9'
}

fn digit_value(c: char) -> (n: u8)
    requires
        is_digit(c),
    ensures
        n == c as int - 48,
{
    (c as u32 - 48) as u8
}

/// Reads the octet whose digits start at `i`, taking every digit that is
/// there.
fn read_octet(t: &[char], i: usize) -> (r: Option<(u8, usize)>)
    requires
        i <= t@.len(),
    ensures
        match r {
            Some((n, j)) => j <= t@.len() && octet_at(t@, i as int) == Some((n, j as int)),
            None => octet_at(t@, i as int) is None,
        },
{
    proof {
        reveal(octet_at);
    }
    let len = t.len();
    if i >= len || !is_digit_char(t[i]) {
        return None;
    }
    let v0 = digit_value(t[i]);
    if i + 1 >= len || !is_digit_char(t[i + 1]) {
        return Some((v0, i + 1));
    }
    if v0 == 0 {
        return None;
    }
    let v1 = digit_value(t[i + 1]);
    if i + 2 >= len || !is_digit_char(t[i + 2]) {
        return Some((10 * v0 + v1, i + 2));
    }
    if i + 3 < len && is_digit_char(t[i + 3]) {
        return None;
    }
    let v2 = digit_value(t[i + 2]);
    let n: u16 = 100 * (v0 as u16) + 10 * (v1 as u16) + (v2 as u16);
    if n > 255 {
        None
    } else {
        Some((n as u8, i + 3))
    }
}

/// Reads the octet at `i` and the dot after it.
fn read_octet_dot(t: &[char], i: usize) -> (r: Option<(u8, usize)>)
    requires
        i <= t@.len(),
    ensures
        match r {
            Some((n, j)) => j <= t@.len() && octet_dot_at(t@, i as int) == Some((n, j as int)),
            None => octet_dot_at(t@, i as int) is None,
        },
{
    match read_octet(t, i) {
        Some((n, j)) => if j < t.len() && t[j] == '.' {
            Some((n, j + 1))
        } else {
            None
        },
        None => None,
    }
}

/// Reads four octets with dots between them, and nothing else.
fn scan_chars(t: &[char]) -> (r: Option<Ipv4>)
    ensures
        r == parse_ipv4(t@),
{
    proof {
        lemma_scan_is_parse(t@);
    }
    let (a, i) = match read_octet_dot(t, 0) {
        Some(x) => x,
        None => { return None; },
    };
    let (b, j) = match read_octet_dot(t, i) {
        Some(x) => x,
        None => { return None; },
    };
    let (c, k) = match read_octet_dot(t, j) {
        Some(x) => x,
        None => { return None; },
    };
    let (d, m) = match read_octet(t, k) {
        Some(x) => x,
        None => { return None; },
    };
    if m == t.len() {
        Some(Ipv4 { a, b, c, d })
    } else {
        None
    }
}

fn digit_str(d: u8) -> (r: &'static str)
    requires
        d < 10,
    ensures
        r@ == seq![digit_char(d as int)],
{
    proof {
        reveal_strlit("0");
        reveal_strlit("1");
        reveal_strlit("2");
        reveal_strlit("3");
        reveal_strlit("4");
        reveal_strlit("5");
        reveal_strlit("6");
        reveal_strlit("7");
        reveal_strlit("8");
        reveal_strlit("9");
    }
    let r = match d {
        0 => "0",
        1 => "1",
        2 => "2",
        3 => "3",
        4 => "4",
        5 => "5",
        6 => "6",
        7 => "7",
        8 => "8",
        _ => "9",
    };
    assert(r@ =~= seq![digit_char(d as int)]);
    r
}

fn push_octet(line: &mut String, n: u8)
    ensures
        final(line)@ == old(line)@ + octet_text(n),
{
    if n >= 100 {
        line.append(digit_str(n / 100));
    }
    if n >= 10 {
        line.append(digit_str((n / 10) % 10));
    }
    line.append(digit_str(n % 10));
    assert(line@ =~= old(line)@ + octet_text(n));
}

fn push_dot(line: &mut String)
    ensures
        final(line)@ == old(line)@ + seq!['.'],
{
    proof {
        reveal_strlit(".");
    }
    line.append(".");
    assert(line@ =~= old(line)@ + seq!['.']);
}

// The reader goes through the text once, from left to right. The functions
// below say what it finds, and the lemmas after them show that this is the
// address whose text it was given, whenever there is one.

spec fn digit_at(s: Seq<char>, i: int) -> bool {
    0 <= i < s.len() && is_digit(s[i])
}

spec fn dot_at(s: Seq<char>, i: int) -> bool {
    0 <= i < s.len() && s[i] == '.'
}

spec fn value_at(s: Seq<char>, i: int) -> int {
    s[i] as int - 48
}

/// The octet whose digits start at `i` and the position after them, reading
/// as many digits as there are.
#[verifier::opaque]
spec fn octet_at(s: Seq<char>, i: int) -> Option<(u8, int)> {
    if !digit_at(s, i) {
        None
    } else if !digit_at(s, i + 1) {
        Some((value_at(s, i) as u8, i + 1))
    } else if value_at(s, i) == 0 {
        None
    } else if !digit_at(s, i + 2) {
        Some(((10 * value_at(s, i) + value_at(s, i + 1)) as u8, i + 2))
    } else if digit_at(s, i + 3) {
        None
    } else {
        let n = 100 * value_at(s, i) + 10 * value_at(s, i + 1) + value_at(s, i + 2);
        if n > 255 {
            None
        } else {
            Some((n as u8, i + 3))
        }
    }
}

/// The octet at `i` when a dot follows it, and the position after the dot.
spec fn octet_dot_at(s: Seq<char>, i: int) -> Option<(u8, int)> {
    match octet_at(s, i) {
        Some((n, j)) => if dot_at(s, j) {
            Some((n, j + 1))
        } else {
            None
        },
        None => None,
    }
}

/// Reading `s` from left to right as four octets with dots between them.
spec fn scan(s: Seq<char>) -> Option<Ipv4> {
    match octet_dot_at(s, 0) {
        Some((a, i)) => match octet_dot_at(s, i) {
            Some((b, j)) => match octet_dot_at(s, j) {
                Some((c, k)) => match octet_at(s, k) {
                    Some((d, m)) => if m == s.len() {
                        Some(Ipv4 { a, b, c, d })
                    } else {
                        None
                    },
                    None => None,
                },
                None => None,
            },
            None => None,
        },
        None => None,
    }
}

/// What is read as an octet is the text of that octet.
proof fn lemma_octet_at_sound(s: Seq<char>, i: int)
    requires
        octet_at(s, i) is Some,
    ensures
        ({
            let (n, j) = octet_at(s, i)->0;
            &&& 0 <= i < j <= s.len()
            &&& s.subrange(i, j) == octet_text(n)
        }),
{
    reveal(octet_at);
    let (n, j) = octet_at(s, i)->0;
    assert(s.subrange(i, j) =~= octet_text(n));
}

/// The text of an octet, with no digit after it, is read as that octet.
proof fn lemma_octet_at_complete(s: Seq<char>, i: int, n: u8)
    requires
        0 <= i,
        i + octet_text(n).len() <= s.len(),
        s.subrange(i, i + octet_text(n).len()) == octet_text(n),
        !digit_at(s, i + octet_text(n).len()),
    ensures
        octet_at(s, i) == Some((n, i + octet_text(n).len())),
{
    reveal(octet_at);
    let len = octet_text(n).len() as int;
    let digits = s.subrange(i, i + len);
    assert(s[i] == digits[0]);
    if len >= 2 {
        assert(s[i + 1] == digits[1]);
    }
    if len >= 3 {
        assert(s[i + 2] == digits[2]);
    }
}

/// What is read as an address is the text of that address.
proof fn lemma_scan_sound(s: Seq<char>)
    requires
        scan(s) is Some,
    ensures
        s == ipv4_text(scan(s)->0),
{
    let (a, i) = octet_dot_at(s, 0)->0;
    let (b, j) = octet_dot_at(s, i)->0;
    let (c, k) = octet_dot_at(s, j)->0;
    let (d, m) = octet_at(s, k)->0;
    lemma_octet_at_sound(s, 0);
    lemma_octet_at_sound(s, i);
    lemma_octet_at_sound(s, j);
    lemma_octet_at_sound(s, k);
    assert(s =~= s.subrange(0, i - 1) + seq!['.'] + s.subrange(i, j - 1) + seq!['.'] + s.subrange(
        j,
        k - 1,
    ) + seq!['.'] + s.subrange(k, m));
}

/// The text of an address is read as that address.
proof fn lemma_scan_complete(ip: Ipv4)
    ensures
        scan(ipv4_text(ip)) == Some(ip),
{
    let s = ipv4_text(ip);
    let i = octet_text(ip.a).len() as int + 1;
    let j = i + octet_text(ip.b).len() + 1;
    let k = j + octet_text(ip.c).len() + 1;
    let m = k + octet_text(ip.d).len();
    assert(s.subrange(0, i - 1) =~= octet_text(ip.a));
    assert(s.subrange(i, j - 1) =~= octet_text(ip.b));
    assert(s.subrange(j, k - 1) =~= octet_text(ip.c));
    assert(s.subrange(k, m) =~= octet_text(ip.d));
    lemma_octet_at_complete(s, 0, ip.a);
    lemma_octet_at_complete(s, i, ip.b);
    lemma_octet_at_complete(s, j, ip.c);
    lemma_octet_at_complete(s, k, ip.d);
}

/// Reading from left to right finds exactly the address that `s` is the text
/// of.
proof fn lemma_scan_is_parse(s: Seq<char>)
    ensures
        scan(s) == parse_ipv4(s),
{
    if scan(s) is Some {
        lemma_scan_sound(s);
        lemma_scan_complete(choose|ip: Ipv4| ipv4_text(ip) == s);
    } else if exists|ip: Ipv4| ipv4_text(ip) == s {
        lemma_scan_complete(choose|ip: Ipv4| ipv4_text(ip) == s);
    }
}

} // verus!
