//! Text helpers: character-level views of strings, equality, and decimal
//! rendering and parsing of integers.
use vstd::prelude::*;

verus! {

/// Appends one character to a string (`String::push`).
#[verifier::external_body]
pub fn push_char(s: &mut String, c: char)
    ensures
        final(s)@ == old(s)@.push(c),
{
    s.push(c);
}

/// The characters of `s`, in order.
pub fn chars_of(s: &str) -> (r: Vec<char>)
    ensures
        r@ == s@,
{
    let mut r: Vec<char> = Vec::new();
    for c in it: s.chars()
        invariant
            r@ == it.seq().take(it.index() as int),
            it.seq() == s@,
    {
        r.push(c);
    }
    r
}

/// A string made of the characters of `cs`.
pub fn string_of(cs: &Vec<char>) -> (r: String)
    ensures
        r@ == cs@,
{
    let mut r = String::new();
    let mut i: usize = 0;
    while i < cs.len()
        invariant
            i <= cs.len(),
            r@ == cs@.take(i as int),
        decreases cs.len() - i,
    {
        push_char(&mut r, cs[i]);
        i = i + 1;
        assert(r@ == cs@.take(i as int));
    }
    assert(cs@.take(cs.len() as int) == cs@);
    r
}

/// An owned copy of `s`.
pub fn owned(s: &str) -> (r: String)
    ensures
        r@ == s@,
{
    String::from_str(s)
}

/// The concatenation of `a` and `b`.
pub fn cat(a: &str, b: &str) -> (r: String)
    ensures
        r@ == a@ + b@,
{
    let mut r = String::from_str(a);
    r.append(b);
    r
}

/// The concatenation of `a`, `b` and `c`.
pub fn cat3(a: &str, b: &str, c: &str) -> (r: String)
    ensures
        r@ == a@ + b@ + c@,
{
    let mut r = String::from_str(a);
    r.append(b);
    r.append(c);
    r
}

/// Whether two strings hold the same characters.
pub fn same(a: &str, b: &str) -> (r: bool)
    ensures
        r == (a@ == b@),
{
    let x = String::from_str(a);
    let y = String::from_str(b);
    x == y
}

/// Whether `s` starts with `p`.
pub open spec fn has_prefix(s: Seq<char>, p: Seq<char>) -> bool {
    p.len() <= s.len() && s.subrange(0, p.len() as int) == p
}

/// Whether `s` ends with `p`.
pub open spec fn has_suffix(s: Seq<char>, p: Seq<char>) -> bool {
    p.len() <= s.len() && s.subrange(s.len() - p.len(), s.len() as int) == p
}

/// Whether `s` starts with `p`.
pub fn starts_with(s: &str, p: &str) -> (r: bool)
    ensures
        r == has_prefix(s@, p@),
{
    let sc = chars_of(s);
    let pc = chars_of(p);
    if pc.len() > sc.len() {
        return false;
    }
    let mut i: usize = 0;
    while i < pc.len()
        invariant
            pc.len() <= sc.len(),
            i <= pc.len(),
            sc@ == s@,
            pc@ == p@,
            forall|j: int| 0 <= j < i ==> sc@[j] == pc@[j],
        decreases pc.len() - i,
    {
        if sc[i] != pc[i] {
            assert(sc@.subrange(0, pc@.len() as int)[i as int] != pc@[i as int]);
            return false;
        }
        i = i + 1;
    }
    assert(sc@.subrange(0, pc@.len() as int) =~= pc@);
    true
}

/// Whether `s` ends with `p`.
pub fn ends_with(s: &str, p: &str) -> (r: bool)
    ensures
        r == has_suffix(s@, p@),
{
    let sc = chars_of(s);
    let pc = chars_of(p);
    if pc.len() > sc.len() {
        return false;
    }
    let off = sc.len() - pc.len();
    let mut i: usize = 0;
    while i < pc.len()
        invariant
            pc.len() <= sc.len(),
            off == sc.len() - pc.len(),
            i <= pc.len(),
            sc@ == s@,
            pc@ == p@,
            forall|j: int| 0 <= j < i ==> sc@[off + j] == pc@[j],
        decreases pc.len() - i,
    {
        if sc[off + i] != pc[i] {
            assert(sc@.subrange(off as int, sc@.len() as int)[i as int] != pc@[i as int]);
            return false;
        }
        i = i + 1;
    }
    assert(sc@.subrange(off as int, sc@.len() as int) =~= pc@);
    true
}

/// The decimal digit character for `d < 10`.
pub open spec fn digit_char(d: nat) -> char {
    if d == 0 { '0' }
    else if d == 1 { '1' }
    else if d == 2 { '2' }
    else if d == 3 { '3' }
    else if d == 4 { '4' }
    else if d == 5 { '5' }
    else if d == 6 { '6' }
    else if d == 7 { '7' }
    else if d == 8 { '8' }
    else { '9' }
}

/// The value of a decimal digit character, if it is one.
pub open spec fn digit_value(c: char) -> Option<nat> {
    if c == '0' { Some(0) }
    else if c == '1' { Some(1) }
    else if c == '2' { Some(2) }
    else if c == '3' { Some(3) }
    else if c == '4' { Some(4) }
    else if c == '5' { Some(5) }
    else if c == '6' { Some(6) }
    else if c == '7' { Some(7) }
    else if c == '8' { Some(8) }
    else if c == '9' { Some(9) }
    else { None }
}

/// Decimal rendering of a natural number, without leading zeros.
pub open spec fn decimal(n: nat) -> Seq<char>
    decreases n,
{
    if n < 10 {
        seq![digit_char(n)]
    } else {
        decimal(n / 10).push(digit_char(n % 10))
    }
}

/// Decimal rendering of an integer, with a leading `-` when negative
/// (what `Display` prints for Rust integers).
pub open spec fn decimal_int(i: int) -> Seq<char> {
    if i < 0 {
        seq!['-'] + decimal((-i) as nat)
    } else {
        decimal(i as nat)
    }
}

fn digit_to_char(d: u64) -> (c: char)
    requires
        d < 10,
    ensures
        c == digit_char(d as nat),
{
    if d == 0 { '0' }
    else if d == 1 { '1' }
    else if d == 2 { '2' }
    else if d == 3 { '3' }
    else if d == 4 { '4' }
    else if d == 5 { '5' }
    else if d == 6 { '6' }
    else if d == 7 { '7' }
    else if d == 8 { '8' }
    else { '9' }
}

/// Decimal rendering of `n` (`n.to_string()`).
pub fn u64_text(n: u64) -> (r: String)
    ensures
        r@ == decimal(n as nat),
    decreases n,
{
    if n < 10 {
        let mut s = String::new();
        push_char(&mut s, digit_to_char(n));
        s
    } else {
        let mut s = u64_text(n / 10);
        push_char(&mut s, digit_to_char(n % 10));
        s
    }
}

/// Decimal rendering of `i` (`i.to_string()`).
pub fn i64_text(i: i64) -> (r: String)
    ensures
        r@ == decimal_int(i as int),
{
    if i < 0 {
        let m: u64 = if i == i64::MIN { 9223372036854775808u64 } else { (-i) as u64 };
        let d = u64_text(m);
        proof {
            reveal_strlit("-");
        }
        cat("-", d.as_str())
    } else {
        u64_text(i as u64)
    }
}

/// `"true"` or `"false"` (what `bool::to_string` gives).
pub open spec fn bool_word(b: bool) -> Seq<char> {
    if b { "true"@ } else { "false"@ }
}

/// `"true"` or `"false"`.
pub fn bool_text(b: bool) -> (r: String)
    ensures
        r@ == bool_word(b),
{
    if b { owned("true") } else { owned("false") }
}

/// Why a decimal integer could not be read (the cases of
/// `std::num::IntErrorKind` that decimal parsing can produce).
#[derive(Debug, Clone, Copy, PartialEq, Eq)]
pub enum IntErrorKind {
    Empty,
    InvalidDigit,
    PosOverflow,
    NegOverflow,
}

/// Left-to-right accumulation of decimal digits into `acc`, failing at the
/// first character that is not a digit or at the first step that leaves
/// `[lo, hi]`; digits are subtracted when `neg` holds.
pub open spec fn scan_digits(ds: Seq<char>, acc: int, lo: int, hi: int, neg: bool) -> Result<int, IntErrorKind>
    decreases ds.len(),
{
    if ds.len() == 0 {
        Ok(acc)
    } else {
        match digit_value(ds[0]) {
            None => Err(IntErrorKind::InvalidDigit),
            Some(d) => {
                let next = if neg { acc * 10 - d } else { acc * 10 + d };
                if next < lo {
                    Err(IntErrorKind::NegOverflow)
                } else if next > hi {
                    Err(IntErrorKind::PosOverflow)
                } else {
                    scan_digits(ds.drop_first(), next, lo, hi, neg)
                }
            }
        }
    }
}

/// What `from_str` gives for an integer type with range `[lo, hi]`: an
/// optional sign (`-` only for signed types), then decimal digits.
pub open spec fn parse_decimal(s: Seq<char>, lo: int, hi: int) -> Result<int, IntErrorKind> {
    if s.len() == 0 {
        Err(IntErrorKind::Empty)
    } else if (s[0] == '+' || s[0] == '-') && s.len() == 1 {
        Err(IntErrorKind::InvalidDigit)
    } else if s[0] == '+' {
        scan_digits(s.drop_first(), 0, lo, hi, false)
    } else if s[0] == '-' && lo < 0 {
        scan_digits(s.drop_first(), 0, lo, hi, true)
    } else {
        scan_digits(s, 0, lo, hi, false)
    }
}

fn char_digit(c: char) -> (r: Option<i128>)
    ensures
        match digit_value(c) {
            Some(d) => r == Some(d as i128),
            None => r is None,
        },
{
    if c == '0' { Some(0) }
    else if c == '1' { Some(1) }
    else if c == '2' { Some(2) }
    else if c == '3' { Some(3) }
    else if c == '4' { Some(4) }
    else if c == '5' { Some(5) }
    else if c == '6' { Some(6) }
    else if c == '7' { Some(7) }
    else if c == '8' { Some(8) }
    else if c == '9' { Some(9) }
    else { None }
}

fn scan_exec(ds: &Vec<char>, start: usize, lo: i128, hi: i128, neg: bool) -> (r: Result<i128, IntErrorKind>)
    requires
        start <= ds.len(),
        -0x1_0000_0000_0000_0000 <= lo <= 0 <= hi <= 0x1_0000_0000_0000_0000,
    ensures
        match r {
            Ok(v) => scan_digits(ds@.subrange(start as int, ds@.len() as int), 0, lo as int, hi as int, neg) == Ok::<int, IntErrorKind>(v as int) && lo <= v <= hi,
            Err(e) => scan_digits(ds@.subrange(start as int, ds@.len() as int), 0, lo as int, hi as int, neg) == Err::<int, IntErrorKind>(e),
        },
{
    let mut acc: i128 = 0;
    let mut i = start;
    while i < ds.len()
        invariant
            start <= i <= ds.len(),
            -0x1_0000_0000_0000_0000 <= lo <= 0 <= hi <= 0x1_0000_0000_0000_0000,
            lo <= acc <= hi,
            scan_digits(ds@.subrange(start as int, ds@.len() as int), 0, lo as int, hi as int, neg)
                == scan_digits(ds@.subrange(i as int, ds@.len() as int), acc as int, lo as int, hi as int, neg),
        decreases ds.len() - i,
    {
        let ghost rest = ds@.subrange(i as int, ds@.len() as int);
        assert(rest[0] == ds@[i as int]);
        assert(rest.drop_first() =~= ds@.subrange(i + 1, ds@.len() as int));
        match char_digit(ds[i]) {
            None => {
                return Err(IntErrorKind::InvalidDigit);
            },
            Some(d) => {
                let next: i128 = if neg { acc * 10 - d } else { acc * 10 + d };
                if next < lo {
                    return Err(IntErrorKind::NegOverflow);
                }
                if next > hi {
                    return Err(IntErrorKind::PosOverflow);
                }
                acc = next;
            },
        }
        i = i + 1;
    }
    Ok(acc)
}

fn parse_range(s: &str, lo: i128, hi: i128) -> (r: Result<i128, IntErrorKind>)
    requires
        -0x1_0000_0000_0000_0000 <= lo <= 0 <= hi <= 0x1_0000_0000_0000_0000,
    ensures
        match r {
            Ok(v) => parse_decimal(s@, lo as int, hi as int) == Ok::<int, IntErrorKind>(v as int) && lo <= v <= hi,
            Err(e) => parse_decimal(s@, lo as int, hi as int) == Err::<int, IntErrorKind>(e),
        },
{
    let ds = chars_of(s);
    assert(ds@.subrange(0, ds@.len() as int) =~= ds@);
    if ds.len() == 0 {
        return Err(IntErrorKind::Empty);
    }
    if (ds[0] == '+' || ds[0] == '-') && ds.len() == 1 {
        return Err(IntErrorKind::InvalidDigit);
    }
    assert(ds@.drop_first() =~= ds@.subrange(1, ds@.len() as int));
    if ds[0] == '+' {
        scan_exec(&ds, 1, lo, hi, false)
    } else if ds[0] == '-' && lo < 0 {
        scan_exec(&ds, 1, lo, hi, true)
    } else {
        scan_exec(&ds, 0, lo, hi, false)
    }
}

/// Reads a decimal `i64` (`str::parse::<i64>`).
pub fn parse_i64(s: &str) -> (r: Result<i64, IntErrorKind>)
    ensures
        match r {
            Ok(v) => parse_decimal(s@, i64::MIN as int, i64::MAX as int) == Ok::<int, IntErrorKind>(v as int),
            Err(e) => parse_decimal(s@, i64::MIN as int, i64::MAX as int) == Err::<int, IntErrorKind>(e),
        },
{
    match parse_range(s, i64::MIN as i128, i64::MAX as i128) {
        Ok(v) => Ok(v as i64),
        Err(e) => Err(e),
    }
}

/// Reads a decimal `u64` (`str::parse::<u64>`).
pub fn parse_u64(s: &str) -> (r: Result<u64, IntErrorKind>)
    ensures
        match r {
            Ok(v) => parse_decimal(s@, 0, u64::MAX as int) == Ok::<int, IntErrorKind>(v as int),
            Err(e) => parse_decimal(s@, 0, u64::MAX as int) == Err::<int, IntErrorKind>(e),
        },
{
    match parse_range(s, 0, u64::MAX as i128) {
        Ok(v) => Ok(v as u64),
        Err(e) => Err(e),
    }
}

} // verus!
