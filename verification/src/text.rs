//! Character-level text primitives shared by the kernel-interface parsers.
//!
//! Every kernel file, tool output and compositor string is handled as a
//! sequence of `char`s. The spec functions below state the exact meaning of the
//! standard-library text operations the parsers rely on (`trim`, `lines`,
//! `split_whitespace`, `split_once`, integer `parse`), and the executable
//! functions are proved against them.
use vstd::prelude::*;
use vstd::string::*;

verus! {

/// Unicode `White_Space`, the set that `char::is_whitespace` recognizes.
pub open spec fn is_ws(c: char) -> bool {
    let u = c as u32;
    ||| 0x09 <= u <= 0x0D
    ||| u == 0x20
    ||| u == 0x85
    ||| u == 0xA0
    ||| u == 0x1680
    ||| 0x2000 <= u <= 0x200A
    ||| u == 0x2028
    ||| u == 0x2029
    ||| u == 0x202F
    ||| u == 0x205F
    ||| u == 0x3000
}

/// `char::is_whitespace`.
pub fn is_ws_char(c: char) -> (b: bool)
    ensures
        b == is_ws(c),
{
    let u = c as u32;
    (0x09 <= u && u <= 0x0D) || u == 0x20 || u == 0x85 || u == 0xA0 || u == 0x1680 || (0x2000
        <= u && u <= 0x200A) || u == 0x2028 || u == 0x2029 || u == 0x202F || u == 0x205F || u
        == 0x3000
}

/// `str::trim_start`.
pub open spec fn trim_start(s: Seq<char>) -> Seq<char>
    decreases s.len(),
{
    if s.len() > 0 && is_ws(s[0]) {
        trim_start(s.drop_first())
    } else {
        s
    }
}

/// `str::trim_end`.
pub open spec fn trim_end(s: Seq<char>) -> Seq<char>
    decreases s.len(),
{
    if s.len() > 0 && is_ws(s.last()) {
        trim_end(s.drop_last())
    } else {
        s
    }
}

/// `str::trim`.
pub open spec fn trim(s: Seq<char>) -> Seq<char> {
    trim_end(trim_start(s))
}

/// The chars of a `&str`, in order.
pub fn chars_of(s: &str) -> (v: Vec<char>)
    ensures
        v@ == s@,
{
    let mut v: Vec<char> = Vec::new();
    for c in it: s.chars()
        invariant
            v@ == it.seq().take(it.index() as int),
    {
        v.push(c);
    }
    v
}

/// Bounds of `trim` applied to `cs[lo..hi]`.
pub fn trim_bounds(cs: &Vec<char>, lo: usize, hi: usize) -> (r: (usize, usize))
    requires
        lo <= hi <= cs@.len(),
    ensures
        lo <= r.0 <= r.1 <= hi,
        cs@.subrange(r.0 as int, r.1 as int) == trim(cs@.subrange(lo as int, hi as int)),
{
    let mut start = lo;
    while start < hi && is_ws_char(cs[start])
        invariant
            lo <= start <= hi <= cs@.len(),
            trim_start(cs@.subrange(lo as int, hi as int)) == trim_start(
                cs@.subrange(start as int, hi as int),
            ),
        decreases hi - start,
    {
        assert(cs@.subrange(start as int, hi as int).drop_first() =~= cs@.subrange(
            start + 1,
            hi as int,
        ));
        start = start + 1;
    }
    let mut end = hi;
    while end > start && is_ws_char(cs[end - 1])
        invariant
            lo <= start <= end <= hi <= cs@.len(),
            trim_start(cs@.subrange(lo as int, hi as int)) == cs@.subrange(start as int, hi as int),
            trim_end(cs@.subrange(start as int, hi as int)) == trim_end(
                cs@.subrange(start as int, end as int),
            ),
        decreases end - start,
    {
        assert(cs@.subrange(start as int, end as int).drop_last() =~= cs@.subrange(
            start as int,
            end - 1,
        ));
        end = end - 1;
    }
    (start, end)
}

/// A `String` holding `cs[lo..hi]`.
pub fn string_of(cs: &Vec<char>, lo: usize, hi: usize) -> (s: String)
    requires
        lo <= hi <= cs@.len(),
    ensures
        s@ == cs@.subrange(lo as int, hi as int),
{
    let mut s = String::new();
    let mut i = lo;
    while i < hi
        invariant
            lo <= i <= hi <= cs@.len(),
            s@ == cs@.subrange(lo as int, i as int),
        decreases hi - i,
    {
        push_char(&mut s, cs[i]);
        assert(cs@.subrange(lo as int, i + 1) =~= cs@.subrange(lo as int, i as int).push(cs@[i as int]));
        i = i + 1;
    }
    s
}

/// `String::push`: appends one char to the end of the string.
#[verifier::external_body]
pub(crate) fn push_char(s: &mut String, c: char)
    ensures
        final(s)@ == old(s)@.push(c),
{
    s.push(c);
}

/// `a + b` as a new `String`.
pub fn concat2(a: &str, b: &str) -> (s: String)
    ensures
        s@ == a@ + b@,
{
    let x = a.to_owned();
    x.concat(b)
}

/// `a + b + c` as a new `String`.
pub fn concat3(a: &str, b: &str, c: &str) -> (s: String)
    ensures
        s@ == a@ + b@ + c@,
{
    let x = a.to_owned();
    let y = x.concat(b);
    y.concat(c)
}

/// Whether two chars sequences are equal (`str == str`).
pub fn chars_eq(cs: &Vec<char>, lo: usize, hi: usize, lit: &str) -> (b: bool)
    requires
        lo <= hi <= cs@.len(),
    ensures
        b == (cs@.subrange(lo as int, hi as int) == lit@),
{
    let l = chars_of(lit);
    if hi - lo != l.len() {
        assert(cs@.subrange(lo as int, hi as int).len() != lit@.len());
        return false;
    }
    let mut i: usize = 0;
    while i < l.len()
        invariant
            lo <= hi <= cs@.len(),
            hi - lo == l@.len(),
            l@ == lit@,
            0 <= i <= l@.len(),
            forall|k: int| 0 <= k < i ==> cs@[lo + k] == l@[k],
        decreases l@.len() - i,
    {
        if cs[lo + i] != l[i] {
            assert(cs@.subrange(lo as int, hi as int)[i as int] != lit@[i as int]);
            return false;
        }
        i = i + 1;
    }
    assert(cs@.subrange(lo as int, hi as int) =~= lit@);
    true
}

/// Whether `s` equals `lit`.
pub fn str_eq(s: &str, lit: &str) -> (b: bool)
    ensures
        b == (s@ == lit@),
{
    let cs = chars_of(s);
    let b = chars_eq(&cs, 0, cs.len(), lit);
    assert(cs@.subrange(0, cs@.len() as int) =~= cs@);
    b
}

/// `str::trim` of a whole string, as a new `String`.
pub fn trimmed(s: &str) -> (t: String)
    ensures
        t@ == trim(s@),
{
    let cs = chars_of(s);
    let (a, b) = trim_bounds(&cs, 0, cs.len());
    assert(cs@.subrange(0, cs@.len() as int) =~= cs@);
    string_of(&cs, a, b)
}


/// Why an integer literal did not parse (`core::num::IntErrorKind`).
#[derive(Debug, Clone, Copy, PartialEq, Eq)]
pub enum IntErrorKind {
    /// The text is empty.
    Empty,
    /// A character is not a digit of the radix (or a lone sign).
    InvalidDigit,
    /// The value is larger than the target type allows.
    PosOverflow,
    /// The value is smaller than the target type allows.
    NegOverflow,
}

impl IntErrorKind {
    /// `ParseIntError`'s `Display` text.
    pub fn text(self) -> (t: &'static str)
        ensures
            t@ == int_error_text(self),
    {
        match self {
            IntErrorKind::Empty => "cannot parse integer from empty string",
            IntErrorKind::InvalidDigit => "invalid digit found in string",
            IntErrorKind::PosOverflow => "number too large to fit in target type",
            IntErrorKind::NegOverflow => "number too small to fit in target type",
        }
    }
}

/// `ParseIntError`'s `Display` text.
pub open spec fn int_error_text(k: IntErrorKind) -> Seq<char> {
    match k {
        IntErrorKind::Empty => "cannot parse integer from empty string"@,
        IntErrorKind::InvalidDigit => "invalid digit found in string"@,
        IntErrorKind::PosOverflow => "number too large to fit in target type"@,
        IntErrorKind::NegOverflow => "number too small to fit in target type"@,
    }
}

/// Whether `c` is a digit in base `radix` (10 or 16).
pub open spec fn is_digit_of(c: char, radix: nat) -> bool {
    let u = c as u32;
    ||| 0x30 <= u <= 0x39
    ||| radix == 16 && 0x61 <= u <= 0x66
    ||| radix == 16 && 0x41 <= u <= 0x46
}

/// The value of a digit `c`.
pub open spec fn digit_of(c: char) -> nat {
    let u = c as u32;
    if 0x30 <= u <= 0x39 {
        (u - 0x30) as nat
    } else if 0x61 <= u <= 0x66 {
        (u - 0x61 + 10) as nat
    } else {
        (u - 0x41 + 10) as nat
    }
}

/// The digit loop of `from_str_radix`: digits are consumed left to right and
/// the first invalid digit or the first step beyond `max` ends the scan.
pub open spec fn scan_digits(d: Seq<char>, radix: nat, max: nat, over: IntErrorKind) -> Result<
    nat,
    IntErrorKind,
>
    decreases d.len(),
{
    if d.len() == 0 {
        Ok(0)
    } else {
        match scan_digits(d.drop_last(), radix, max, over) {
            Err(e) => Err(e),
            Ok(v) => if !is_digit_of(d.last(), radix) {
                Err(IntErrorKind::InvalidDigit)
            } else if v * radix + digit_of(d.last()) > max {
                Err(over)
            } else {
                Ok(v * radix + digit_of(d.last()))
            },
        }
    }
}

/// `<uN>::from_str_radix(s, radix)` where `max` is `uN::MAX`: an optional `+`
/// followed by at least one digit.
pub open spec fn parse_unsigned(s: Seq<char>, radix: nat, max: nat) -> Result<nat, IntErrorKind> {
    if s.len() == 0 {
        Err(IntErrorKind::Empty)
    } else if (s[0] == '+' || s[0] == '-') && s.len() == 1 {
        Err(IntErrorKind::InvalidDigit)
    } else if s[0] == '+' {
        scan_digits(s.drop_first(), radix, max, IntErrorKind::PosOverflow)
    } else {
        scan_digits(s, radix, max, IntErrorKind::PosOverflow)
    }
}

/// `i32::from_str(s)`: an optional sign followed by at least one digit.
pub open spec fn parse_i32(s: Seq<char>) -> Result<int, IntErrorKind> {
    if s.len() == 0 {
        Err(IntErrorKind::Empty)
    } else if (s[0] == '+' || s[0] == '-') && s.len() == 1 {
        Err(IntErrorKind::InvalidDigit)
    } else if s[0] == '-' {
        match scan_digits(s.drop_first(), 10, 0x8000_0000, IntErrorKind::NegOverflow) {
            Ok(v) => Ok(-v),
            Err(e) => Err(e),
        }
    } else if s[0] == '+' {
        match scan_digits(s.drop_first(), 10, 0x7fff_ffff, IntErrorKind::PosOverflow) {
            Ok(v) => Ok(v as int),
            Err(e) => Err(e),
        }
    } else {
        match scan_digits(s, 10, 0x7fff_ffff, IntErrorKind::PosOverflow) {
            Ok(v) => Ok(v as int),
            Err(e) => Err(e),
        }
    }
}

/// A successful scan never exceeds `max`.
proof fn lemma_scan_bound(d: Seq<char>, radix: nat, max: nat, over: IntErrorKind)
    ensures
        scan_digits(d, radix, max, over) matches Ok(v) ==> v <= max,
    decreases d.len(),
{
    if d.len() > 0 {
        lemma_scan_bound(d.drop_last(), radix, max, over);
    }
}

/// Once the scan of a prefix fails, the scan of every extension fails the same way.
proof fn lemma_scan_err_sticks(d: Seq<char>, k: int, radix: nat, max: nat, over: IntErrorKind)
    requires
        0 <= k <= d.len(),
        scan_digits(d.take(k), radix, max, over) is Err,
    ensures
        scan_digits(d, radix, max, over) == scan_digits(d.take(k), radix, max, over),
    decreases d.len(),
{
    if k < d.len() {
        assert(d.drop_last().take(k) =~= d.take(k));
        lemma_scan_err_sticks(d.drop_last(), k, radix, max, over);
    } else {
        assert(d.take(k) =~= d);
    }
}

fn is_digit_exec(c: char, radix: u32) -> (b: bool)
    requires
        radix == 10 || radix == 16,
    ensures
        b == is_digit_of(c, radix as nat),
{
    let u = c as u32;
    (0x30 <= u && u <= 0x39) || (radix == 16 && 0x61 <= u && u <= 0x66) || (radix == 16 && 0x41
        <= u && u <= 0x46)
}

fn digit_exec(c: char, radix: u32) -> (v: u64)
    requires
        radix == 10 || radix == 16,
        is_digit_of(c, radix as nat),
    ensures
        v == digit_of(c),
        v < radix,
{
    let u = c as u32;
    if 0x30 <= u && u <= 0x39 {
        (u - 0x30) as u64
    } else if 0x61 <= u && u <= 0x66 {
        (u - 0x61 + 10) as u64
    } else {
        (u - 0x41 + 10) as u64
    }
}

/// Run the digit loop over `cs[lo..hi]`.
fn scan_exec(cs: &Vec<char>, lo: usize, hi: usize, radix: u32, max: u64, over: IntErrorKind) -> (r:
    Result<u64, IntErrorKind>)
    requires
        lo <= hi <= cs@.len(),
        radix == 10 || radix == 16,
        max >= 15,
    ensures
        match scan_digits(cs@.subrange(lo as int, hi as int), radix as nat, max as nat, over) {
            Ok(v) => r == Ok::<u64, IntErrorKind>(v as u64),
            Err(e) => r == Err::<u64, IntErrorKind>(e),
        },
{
    let ghost d = cs@.subrange(lo as int, hi as int);
    let mut acc: u64 = 0;
    let mut i = lo;
    assert(d.take(0) =~= Seq::<char>::empty());
    while i < hi
        invariant
            lo <= i <= hi <= cs@.len(),
            radix == 10 || radix == 16,
            max >= 15,
            d == cs@.subrange(lo as int, hi as int),
            scan_digits(d.take(i - lo), radix as nat, max as nat, over) == Ok::<nat, IntErrorKind>(
                acc as nat,
            ),
        decreases hi - i,
    {
        let c = cs[i];
        assert(d.take(i - lo + 1).drop_last() =~= d.take(i - lo));
        assert(d.take(i - lo + 1).last() == c);
        if !is_digit_exec(c, radix) {
            proof {
                lemma_scan_err_sticks(d, i - lo + 1, radix as nat, max as nat, over);
            }
            return Err(IntErrorKind::InvalidDigit);
        }
        let dv = digit_exec(c, radix);
        proof {
            lemma_scan_bound(d.take(i - lo), radix as nat, max as nat, over);
        }
        let lim = (max - dv) / (radix as u64);
        let ghost a = acc as int;
        let ghost r = radix as int;
        let ghost m = max as int;
        let ghost dd = dv as int;
        let ghost l = lim as int;
        assert(l == (m - dd) / r);
        if acc > lim {
            assert(a * r + dd > m) by (nonlinear_arith)
                requires
                    a > l,
                    l == (m - dd) / r,
                    r > 0,
                    dd >= 0,
            {
            }
            proof {
                lemma_scan_err_sticks(d, i - lo + 1, radix as nat, max as nat, over);
            }
            return Err(over);
        }
        assert(a * r + dd <= m) by (nonlinear_arith)
            requires
                a <= l,
                l == (m - dd) / r,
                r > 0,
                dd >= 0,
                m - dd >= 0,
        {
        }
        acc = acc * (radix as u64) + dv;
        i = i + 1;
    }
    assert(d.take(hi - lo) =~= d);
    r_ok(acc)
}

/// `from_str_radix` on `cs[lo..hi]` for an unsigned type whose maximum is `max`.
pub fn parse_unsigned_at(cs: &Vec<char>, lo: usize, hi: usize, radix: u32, max: u64) -> (r: Result<
    u64,
    IntErrorKind,
>)
    requires
        lo <= hi <= cs@.len(),
        radix == 10 || radix == 16,
        max >= 15,
    ensures
        match parse_unsigned(cs@.subrange(lo as int, hi as int), radix as nat, max as nat) {
            Ok(v) => r == Ok::<u64, IntErrorKind>(v as u64),
            Err(e) => r == Err::<u64, IntErrorKind>(e),
        },
{
    let ghost s = cs@.subrange(lo as int, hi as int);
    if lo == hi {
        return Err(IntErrorKind::Empty);
    }
    let c0 = cs[lo];
    if (c0 == '+' || c0 == '-') && hi - lo == 1 {
        return Err(IntErrorKind::InvalidDigit);
    }
    if c0 == '+' {
        assert(s.drop_first() =~= cs@.subrange(lo + 1, hi as int));
        scan_exec(cs, lo + 1, hi, radix, max, IntErrorKind::PosOverflow)
    } else {
        scan_exec(cs, lo, hi, radix, max, IntErrorKind::PosOverflow)
    }
}

/// `i32::from_str` on `cs[lo..hi]`.
pub fn parse_i32_at(cs: &Vec<char>, lo: usize, hi: usize) -> (r: Result<i32, IntErrorKind>)
    requires
        lo <= hi <= cs@.len(),
    ensures
        match parse_i32(cs@.subrange(lo as int, hi as int)) {
            Ok(v) => r == Ok::<i32, IntErrorKind>(v as i32),
            Err(e) => r == Err::<i32, IntErrorKind>(e),
        },
        r matches Ok(v) ==> parse_i32(cs@.subrange(lo as int, hi as int)) == Ok::<int, IntErrorKind>(v as int),
{
    let ghost s = cs@.subrange(lo as int, hi as int);
    if lo == hi {
        return Err(IntErrorKind::Empty);
    }
    let c0 = cs[lo];
    if (c0 == '+' || c0 == '-') && hi - lo == 1 {
        return Err(IntErrorKind::InvalidDigit);
    }
    if c0 == '-' {
        assert(s.drop_first() =~= cs@.subrange(lo + 1, hi as int));
        let r = scan_exec(cs, lo + 1, hi, 10, 0x8000_0000, IntErrorKind::NegOverflow);
        proof {
            lemma_scan_bound(s.drop_first(), 10, 0x8000_0000, IntErrorKind::NegOverflow);
        }
        match r {
            Ok(v) => {
                let neg: i64 = 0 - (v as i64);
                Ok(neg as i32)
            },
            Err(e) => Err(e),
        }
    } else {
        let start = if c0 == '+' {
            lo + 1
        } else {
            lo
        };
        if c0 == '+' {
            assert(s.drop_first() =~= cs@.subrange(lo + 1, hi as int));
        }
        let r = scan_exec(cs, start, hi, 10, 0x7fff_ffff, IntErrorKind::PosOverflow);
        proof {
            lemma_scan_bound(cs@.subrange(start as int, hi as int), 10, 0x7fff_ffff, IntErrorKind::PosOverflow);
        }
        match r {
            Ok(v) => Ok(v as i32),
            Err(e) => Err(e),
        }
    }
}

/// `s.parse::<u64>()`.
pub fn parse_u64_str(s: &str) -> (r: Result<u64, IntErrorKind>)
    ensures
        match parse_unsigned(s@, 10, u64::MAX as nat) {
            Ok(v) => r == Ok::<u64, IntErrorKind>(v as u64),
            Err(e) => r == Err::<u64, IntErrorKind>(e),
        },
{
    let cs = chars_of(s);
    assert(cs@.subrange(0, cs@.len() as int) =~= cs@);
    parse_unsigned_at(&cs, 0, cs.len(), 10, u64::MAX)
}

/// Index of the first `c` in `s`, or `-1`.
pub open spec fn index_of(s: Seq<char>, c: char) -> int
    decreases s.len(),
{
    if s.len() == 0 {
        -1
    } else if s[0] == c {
        0
    } else {
        let r = index_of(s.drop_first(), c);
        if r < 0 {
            -1
        } else {
            r + 1
        }
    }
}

/// `index_of` is either `-1` (absent) or the position of the first `c`.
pub proof fn lemma_index_of(s: Seq<char>, c: char)
    ensures
        -1 <= index_of(s, c) < s.len(),
        index_of(s, c) >= 0 ==> s[index_of(s, c)] == c,
        forall|k: int| 0 <= k < s.len() && (index_of(s, c) < 0 || k < index_of(s, c)) ==> s[k] != c,
    decreases s.len(),
{
    if s.len() > 0 {
        lemma_index_of(s.drop_first(), c);
        assert forall|k: int|
            0 <= k < s.len() && (index_of(s, c) < 0 || k < index_of(s, c)) implies s[k] != c by {
            if k > 0 {
                assert(s[k] == s.drop_first()[k - 1]);
            }
        }
    }
}

/// Position of the first `c` in `cs[lo..hi]`.
pub fn find_char(cs: &Vec<char>, lo: usize, hi: usize, c: char) -> (r: Option<usize>)
    requires
        lo <= hi <= cs@.len(),
    ensures
        match r {
            Some(i) => lo <= i < hi && i - lo == index_of(cs@.subrange(lo as int, hi as int), c),
            None => index_of(cs@.subrange(lo as int, hi as int), c) == -1,
        },
{
    let ghost s = cs@.subrange(lo as int, hi as int);
    let mut i = lo;
    proof {
        lemma_index_of(s, c);
    }
    while i < hi
        invariant
            lo <= i <= hi <= cs@.len(),
            s == cs@.subrange(lo as int, hi as int),
            -1 <= index_of(s, c) < s.len(),
            index_of(s, c) >= 0 ==> s[index_of(s, c)] == c,
            forall|k: int| 0 <= k < s.len() && (index_of(s, c) < 0 || k < index_of(s, c)) ==> s[k] != c,
            index_of(s, c) < 0 || index_of(s, c) >= i - lo,
        decreases hi - i,
    {
        if cs[i] == c {
            assert(s[i - lo] == c);
            return Some(i);
        }
        assert(s[i - lo] != c);
        i = i + 1;
    }
    None
}

/// `str::lines`: split at `\n`; a `\r` directly before a `\n` is dropped; a
/// final empty line is not produced.
pub open spec fn lines(s: Seq<char>) -> Seq<Seq<char>>
    decreases s.len(),
{
    if s.len() == 0 {
        seq![]
    } else {
        let i = index_of(s, '\n');
        if i < 0 || i >= s.len() {
            seq![s]
        } else {
            seq![strip_cr(s.take(i))] + lines(s.skip(i + 1))
        }
    }
}

/// Drop one trailing `\r`.
pub open spec fn strip_cr(l: Seq<char>) -> Seq<char> {
    if l.len() > 0 && l.last() == '\r' {
        l.drop_last()
    } else {
        l
    }
}

/// The first line of `cs[pos..n]` and where the rest starts.
pub fn next_line(cs: &Vec<char>, pos: usize, n: usize) -> (r: (usize, usize, usize))
    requires
        pos < n <= cs@.len(),
    ensures
        pos <= r.0 <= r.1 <= r.2 <= n,
        r.2 > pos,
        lines(cs@.subrange(pos as int, n as int)) == seq![cs@.subrange(r.0 as int, r.1 as int)]
            + lines(cs@.subrange(r.2 as int, n as int)),
{
    let ghost s = cs@.subrange(pos as int, n as int);
    match find_char(cs, pos, n, '\n') {
        Some(i) => {
            assert(s.skip(i - pos + 1) =~= cs@.subrange(i + 1, n as int));
            let end = if i > pos && cs[i - 1] == '\r' {
                i - 1
            } else {
                i
            };
            assert(strip_cr(s.take(i - pos)) =~= cs@.subrange(pos as int, end as int));
            (pos, end, i + 1)
        },
        None => {
            assert(cs@.subrange(n as int, n as int) =~= Seq::<char>::empty());
            assert(lines(cs@.subrange(n as int, n as int)) =~= Seq::<Seq<char>>::empty());
            assert(seq![s] + Seq::<Seq<char>>::empty() =~= seq![s]);
            (pos, n, n)
        },
    }
}

/// Length of the leading run of non-whitespace chars.
pub open spec fn word_len(s: Seq<char>) -> int
    decreases s.len(),
{
    if s.len() == 0 || is_ws(s[0]) {
        0
    } else {
        1 + word_len(s.drop_first())
    }
}

/// `word_len` stays within the sequence and ends at whitespace.
pub proof fn lemma_word_len(s: Seq<char>)
    ensures
        0 <= word_len(s) <= s.len(),
        word_len(s) < s.len() ==> is_ws(s[word_len(s)]),
        forall|k: int| 0 <= k < word_len(s) ==> !is_ws(s[k]),
    decreases s.len(),
{
    if s.len() > 0 && !is_ws(s[0]) {
        lemma_word_len(s.drop_first());
        assert forall|k: int| 0 <= k < word_len(s) implies !is_ws(s[k]) by {
            if k > 0 {
                assert(s[k] == s.drop_first()[k - 1]);
            }
        }
    }
}

/// `str::split_whitespace`: the maximal runs of non-whitespace chars.
pub open spec fn words(s: Seq<char>) -> Seq<Seq<char>>
    decreases s.len(),
{
    if s.len() == 0 {
        seq![]
    } else if is_ws(s[0]) {
        words(s.drop_first())
    } else {
        proof {
            lemma_word_len(s);
        }
        seq![s.take(word_len(s))] + words(s.skip(word_len(s)))
    }
}

/// The next word of `cs[pos..n]`, if any, and its bounds.
pub fn next_word(cs: &Vec<char>, pos: usize, n: usize) -> (r: Option<(usize, usize)>)
    requires
        pos <= n <= cs@.len(),
    ensures
        match r {
            Some((a, b)) => pos <= a < b <= n && words(cs@.subrange(pos as int, n as int)) == seq![
                cs@.subrange(a as int, b as int),
            ] + words(cs@.subrange(b as int, n as int)),
            None => words(cs@.subrange(pos as int, n as int)).len() == 0,
        },
{
    let mut a = pos;
    while a < n && is_ws_char(cs[a])
        invariant
            pos <= a <= n <= cs@.len(),
            words(cs@.subrange(pos as int, n as int)) == words(cs@.subrange(a as int, n as int)),
        decreases n - a,
    {
        assert(cs@.subrange(a as int, n as int).drop_first() =~= cs@.subrange(a + 1, n as int));
        a = a + 1;
    }
    if a == n {
        assert(cs@.subrange(a as int, n as int).len() == 0);
        return None;
    }
    let ghost t = cs@.subrange(a as int, n as int);
    let mut b = a;
    proof {
        lemma_word_len(t);
    }
    while b < n && !is_ws_char(cs[b])
        invariant
            pos <= a <= b <= n <= cs@.len(),
            t == cs@.subrange(a as int, n as int),
            0 <= word_len(t) <= t.len(),
            word_len(t) < t.len() ==> is_ws(t[word_len(t)]),
            forall|k: int| 0 <= k < word_len(t) ==> !is_ws(t[k]),
            b - a <= word_len(t),
        decreases n - b,
    {
        assert(t[b - a] == cs@[b as int]);
        b = b + 1;
    }
    assert(b - a == word_len(t)) by {
        if b < n {
            assert(t[b - a] == cs@[b as int]);
        }
    }
    assert(t.take(word_len(t)) =~= cs@.subrange(a as int, b as int));
    assert(t.skip(word_len(t)) =~= cs@.subrange(b as int, n as int));
    Some((a, b))
}

/// Decimal digits of `n` (no leading zeros; `"0"` for zero).
pub open spec fn decimal(n: nat) -> Seq<char>
    decreases n,
{
    if n < 10 {
        seq![(0x30 + n) as char]
    } else {
        decimal(n / 10).push((0x30 + n % 10) as char)
    }
}

fn decimal_digit(d: u64) -> (c: char)
    requires
        d < 10,
    ensures
        c == (0x30 + d) as char,
{
    let cs: [char; 10] = ['0', '1', '2', '3', '4', '5', '6', '7', '8', '9'];
    let c = cs[d as usize];
    assert(c == (0x30 + d) as char) by {
        assert(cs@[d as int] == (0x30 + d) as char);
    }
    c
}

/// `n.to_string()`.
pub fn to_decimal(n: u64) -> (s: String)
    ensures
        s@ == decimal(n as nat),
    decreases n,
{
    if n < 10 {
        let mut s = String::new();
        push_char(&mut s, decimal_digit(n));
        assert(s@ =~= seq![(0x30 + n) as char]);
        s
    } else {
        let mut s = to_decimal(n / 10);
        push_char(&mut s, decimal_digit(n % 10));
        s
    }
}

/// `b.to_string()`.
pub open spec fn bool_text(b: bool) -> Seq<char> {
    if b {
        "true"@
    } else {
        "false"@
    }
}

/// `b.to_string()`.
pub fn bool_to_text(b: bool) -> (s: &'static str)
    ensures
        s@ == bool_text(b),
{
    if b {
        "true"
    } else {
        "false"
    }
}

/// `format!("{:?}", o)` for an `Option<bool>`.
pub open spec fn opt_bool_debug(o: Option<bool>) -> Seq<char> {
    match o {
        Some(b) => "Some("@ + bool_text(b) + ")"@,
        None => "None"@,
    }
}

/// `format!("{:?}", o)` for an `Option<bool>`.
pub fn opt_bool_to_debug(o: Option<bool>) -> (s: String)
    ensures
        s@ == opt_bool_debug(o),
{
    match o {
        Some(b) => concat3("Some(", bool_to_text(b), ")"),
        None => "None".to_owned(),
    }
}

/// `format!("{:?}", o)` for an `Option<u64>`.
pub open spec fn opt_u64_debug(o: Option<u64>) -> Seq<char> {
    match o {
        Some(v) => "Some("@ + decimal(v as nat) + ")"@,
        None => "None"@,
    }
}

/// `format!("{:?}", o)` for an `Option<u64>`.
pub fn opt_u64_to_debug(o: Option<u64>) -> (s: String)
    ensures
        s@ == opt_u64_debug(o),
{
    match o {
        Some(v) => {
            let d = to_decimal(v);
            concat3("Some(", d.as_str(), ")")
        },
        None => "None".to_owned(),
    }
}

/// The views of a sequence of strings.
pub open spec fn strs(v: Seq<String>) -> Seq<Seq<char>> {
    v.map_values(|s: String| s@)
}

/// A copy of a vector of strings.
pub fn clone_strings(v: &Vec<String>) -> (r: Vec<String>)
    ensures
        r@ == v@,
        strs(r@) == strs(v@),
{
    let mut r: Vec<String> = Vec::new();
    let mut i: usize = 0;
    while i < v.len()
        invariant
            0 <= i <= v@.len(),
            r@ == v@.take(i as int),
        decreases v@.len() - i,
    {
        let c = v[i].clone();
        r.push(c);
        assert(r@ =~= v@.take(i + 1));
        i = i + 1;
    }
    assert(v@.take(v@.len() as int) =~= v@);
    r
}

/// A vector holding one string literal.
pub fn one_string(lit: &str) -> (r: Vec<String>)
    ensures
        strs(r@) == seq![lit@],
{
    let mut r: Vec<String> = Vec::new();
    r.push(lit.to_owned());
    assert(strs(r@) =~= seq![lit@]);
    r
}

/// `format!("{:?}", v)` for a list of strings (the `Debug` quoting and
/// escaping of `str`). The text is a function of the strings alone.
pub uninterp spec fn debug_strings(v: Seq<Seq<char>>) -> Seq<char>;

/// `format!("{:?}", v)` for a `Vec<String>`: a bracketed, comma-separated list
/// of the `Debug` forms of the strings. The text is named by `debug_strings`.
#[verifier::external_body]
pub(crate) fn debug_string_list(v: &Vec<String>) -> (s: String)
    ensures
        s@ == debug_strings(strs(v@)),
{
    format!("{:?}", v)
}

fn r_ok(v: u64) -> (r: Result<u64, IntErrorKind>)
    ensures
        r == Ok::<u64, IntErrorKind>(v),
{
    Ok(v)
}

/// Whether `t` occurs in `s` as a contiguous run (`str::contains`).
pub open spec fn contains_seq(s: Seq<char>, t: Seq<char>) -> bool {
    exists|i: int| 0 <= i && i + t.len() <= s.len() && #[trigger] s.subrange(i, i + t.len()) == t
}

/// Whether `cs[lo..hi]` starts with `lit`.
pub fn starts_with_at(cs: &Vec<char>, lo: usize, hi: usize, lit: &str) -> (b: bool)
    requires
        lo <= hi <= cs@.len(),
    ensures
        b == lit@.is_prefix_of(cs@.subrange(lo as int, hi as int)),
{
    let l = chars_of(lit);
    if l.len() > hi - lo {
        return false;
    }
    let ghost s = cs@.subrange(lo as int, hi as int);
    let mut i: usize = 0;
    while i < l.len()
        invariant
            lo <= hi <= cs@.len(),
            l@ == lit@,
            l@.len() <= hi - lo,
            s == cs@.subrange(lo as int, hi as int),
            0 <= i <= l@.len(),
            forall|k: int| 0 <= k < i ==> s[k] == l@[k],
        decreases l@.len() - i,
    {
        if cs[lo + i] != l[i] {
            assert(s[i as int] != lit@[i as int]);
            return false;
        }
        i = i + 1;
    }
    assert(s.subrange(0, lit@.len() as int) =~= lit@);
    true
}

/// `str::starts_with` with a literal prefix.
pub fn starts_with_str(s: &str, lit: &str) -> (b: bool)
    ensures
        b == lit@.is_prefix_of(s@),
{
    let cs = chars_of(s);
    assert(cs@.subrange(0, cs@.len() as int) =~= cs@);
    starts_with_at(&cs, 0, cs.len(), lit)
}

/// Whether `cs[lo..hi]` contains `lit`.
pub fn contains_at(cs: &Vec<char>, lo: usize, hi: usize, lit: &str) -> (b: bool)
    requires
        lo <= hi <= cs@.len(),
    ensures
        b == contains_seq(cs@.subrange(lo as int, hi as int), lit@),
{
    let ghost s = cs@.subrange(lo as int, hi as int);
    let n = lit.unicode_len();
    if n > hi - lo {
        assert forall|i: int| 0 <= i && i + lit@.len() <= s.len() implies #[trigger] s.subrange(
            i,
            i + lit@.len(),
        ) != lit@ by {}
        return false;
    }
    let mut start = lo;
    while start <= hi - n
        invariant
            lo <= start <= hi <= cs@.len(),
            n == lit@.len(),
            n <= hi - lo,
            s == cs@.subrange(lo as int, hi as int),
            forall|i: int| 0 <= i < start - lo ==> #[trigger] s.subrange(i, i + n) != lit@,
        decreases hi - start,
    {
        if starts_with_at(cs, start, hi, lit) {
            assert(s.subrange(start - lo, start - lo + n) =~= cs@.subrange(
                start as int,
                hi as int,
            ).subrange(0, n as int));
            return true;
        }
        assert(s.subrange(start - lo, start - lo + n) =~= cs@.subrange(
            start as int,
            hi as int,
        ).subrange(0, n as int));
        start = start + 1;
    }
    assert forall|i: int| 0 <= i && i + lit@.len() <= s.len() implies #[trigger] s.subrange(
        i,
        i + lit@.len(),
    ) != lit@ by {
        assert(i < start - lo);
    }
    false
}

/// `str::contains` with a literal needle.
pub fn contains_str(s: &str, lit: &str) -> (b: bool)
    ensures
        b == contains_seq(s@, lit@),
{
    let cs = chars_of(s);
    assert(cs@.subrange(0, cs@.len() as int) =~= cs@);
    contains_at(&cs, 0, cs.len(), lit)
}

/// `str::split(c)`: the pieces between occurrences of `c`; there is always
/// at least one piece.
pub open spec fn split_char(s: Seq<char>, c: char) -> Seq<Seq<char>>
    decreases s.len(),
{
    let i = index_of(s, c);
    if i < 0 || i >= s.len() {
        seq![s]
    } else {
        seq![s.take(i)] + split_char(s.skip(i + 1), c)
    }
}

/// `char::to_ascii_lowercase`.
pub open spec fn ascii_lower_char(c: char) -> char {
    if 'A' <= c <= 'Z' {
        ((c as u32) + 32) as char
    } else {
        c
    }
}

/// `str::to_ascii_lowercase`.
pub open spec fn ascii_lower(s: Seq<char>) -> Seq<char> {
    s.map_values(|c: char| ascii_lower_char(c))
}

fn lower_char(c: char) -> (r: char)
    ensures
        r == ascii_lower_char(c),
{
    if 'A' <= c && c <= 'Z' {
        let u = (c as u32) + 32;
        let cs: [char; 26] = [
            'a', 'b', 'c', 'd', 'e', 'f', 'g', 'h', 'i', 'j', 'k', 'l', 'm', 'n', 'o', 'p', 'q',
            'r', 's', 't', 'u', 'v', 'w', 'x', 'y', 'z',
        ];
        let r = cs[(u - 0x61) as usize];
        assert(r == (u as char)) by {
            assert(cs@[(u - 0x61) as int] == (u as char));
        }
        r
    } else {
        c
    }
}

/// `s.to_ascii_lowercase()`.
pub fn to_ascii_lowercase(s: &str) -> (r: String)
    ensures
        r@ == ascii_lower(s@),
{
    let cs = chars_of(s);
    let mut r = String::new();
    let mut i: usize = 0;
    while i < cs.len()
        invariant
            0 <= i <= cs@.len(),
            cs@ == s@,
            r@ == ascii_lower(s@.take(i as int)),
        decreases cs@.len() - i,
    {
        push_char(&mut r, lower_char(cs[i]));
        assert(ascii_lower(s@.take(i + 1)) =~= ascii_lower(s@.take(i as int)).push(
            ascii_lower_char(s@[i as int]),
        ));
        i = i + 1;
    }
    assert(s@.take(cs@.len() as int) =~= s@);
    r
}

/// `s.parse::<i32>()`.
pub fn parse_i32_str(s: &str) -> (r: Result<i32, IntErrorKind>)
    ensures
        match parse_i32(s@) {
            Ok(v) => r == Ok::<i32, IntErrorKind>(v as i32),
            Err(e) => r == Err::<i32, IntErrorKind>(e),
        },
        r matches Ok(v) ==> parse_i32(s@) == Ok::<int, IntErrorKind>(v as int),
{
    let cs = chars_of(s);
    assert(cs@.subrange(0, cs@.len() as int) =~= cs@);
    parse_i32_at(&cs, 0, cs.len())
}

/// `format!("{:?}", s)` for one string (the `Debug` quoting and escaping of
/// `str`). The text is a function of the string alone.
pub uninterp spec fn debug_str(s: Seq<char>) -> Seq<char>;

/// `format!("{:?}", s)`: the `Debug` form of a string. The text is named by
/// `debug_str`.
#[verifier::external_body]
pub(crate) fn debug_text(s: &str) -> (d: String)
    ensures
        d@ == debug_str(s@),
{
    format!("{:?}", s)
}

/// Lexicographic order of char sequences (the order of `str::cmp`, since
/// UTF-8 byte order is code-point order).
pub open spec fn lex_le(a: Seq<char>, b: Seq<char>) -> bool
    decreases a.len(),
{
    if a.len() == 0 {
        true
    } else if b.len() == 0 {
        false
    } else if a[0] < b[0] {
        true
    } else if a[0] == b[0] {
        lex_le(a.drop_first(), b.drop_first())
    } else {
        false
    }
}

/// `lex_le` is total.
pub proof fn lemma_lex_total(a: Seq<char>, b: Seq<char>)
    ensures
        lex_le(a, b) || lex_le(b, a),
    decreases a.len(),
{
    if a.len() > 0 && b.len() > 0 && a[0] == b[0] {
        lemma_lex_total(a.drop_first(), b.drop_first());
    }
}

/// `lex_le` is transitive.
pub proof fn lemma_lex_trans(a: Seq<char>, b: Seq<char>, c: Seq<char>)
    requires
        lex_le(a, b),
        lex_le(b, c),
    ensures
        lex_le(a, c),
    decreases a.len(),
{
    if a.len() > 0 && b.len() > 0 && c.len() > 0 && a[0] == b[0] && b[0] == c[0] {
        lemma_lex_trans(a.drop_first(), b.drop_first(), c.drop_first());
    }
}

/// `lex_le` is antisymmetric.
pub proof fn lemma_lex_antisym(a: Seq<char>, b: Seq<char>)
    requires
        lex_le(a, b),
        lex_le(b, a),
    ensures
        a == b,
    decreases a.len(),
{
    if a.len() > 0 && b.len() > 0 {
        lemma_lex_antisym(a.drop_first(), b.drop_first());
        assert(a =~= seq![a[0]] + a.drop_first());
        assert(b =~= seq![b[0]] + b.drop_first());
    } else {
        assert(a =~= b);
    }
}

/// Whether `a` sorts before or equal to `b`.
pub fn lex_le_exec(a: &str, b: &str) -> (r: bool)
    ensures
        r == lex_le(a@, b@),
{
    let x = chars_of(a);
    let y = chars_of(b);
    let mut i: usize = 0;
    assert(a@.skip(0) =~= a@);
    assert(b@.skip(0) =~= b@);
    while i < x.len() && i < y.len()
        invariant
            0 <= i <= x@.len(),
            i <= y@.len(),
            x@ == a@,
            y@ == b@,
            lex_le(a@, b@) == lex_le(a@.skip(i as int), b@.skip(i as int)),
        decreases x@.len() - i,
    {
        assert(a@.skip(i as int).drop_first() =~= a@.skip(i + 1));
        assert(b@.skip(i as int).drop_first() =~= b@.skip(i + 1));
        assert(a@.skip(i as int)[0] == x@[i as int]);
        assert(b@.skip(i as int)[0] == y@[i as int]);
        if x[i] < y[i] {
            return true;
        }
        if x[i] != y[i] {
            return false;
        }
        i = i + 1;
    }
    if i == x.len() {
        true
    } else {
        false
    }
}


/// Whether strings are in ascending order.
pub open spec fn sorted_strings(v: Seq<String>) -> bool {
    forall|i: int, j: int| 0 <= i < j < v.len() ==> lex_le((#[trigger] v[i])@, (#[trigger] v[j])@)
}

/// The strings in ascending order; equal strings keep their order.
pub fn sort_strings(v: &Vec<String>) -> (r: Vec<String>)
    ensures
        sorted_strings(r@),
        r@.to_multiset() == v@.to_multiset(),
{
    broadcast use vstd::seq_lib::group_to_multiset_ensures;

    let mut r: Vec<String> = Vec::new();
    let mut k: usize = 0;
    assert(v@.take(0) =~= Seq::<String>::empty());
    while k < v.len()
        invariant
            0 <= k <= v@.len(),
            sorted_strings(r@),
            r@.to_multiset() == v@.take(k as int).to_multiset(),
        decreases v@.len() - k,
    {
        let x = v[k].clone();
        let mut p: usize = 0;
        while p < r.len() && lex_le_exec(r[p].as_str(), x.as_str())
            invariant
                0 <= p <= r@.len(),
                forall|i: int| 0 <= i < p ==> lex_le((#[trigger] r@[i])@, x@),
            decreases r@.len() - p,
        {
            p = p + 1;
        }
        let ghost old_r = r@;
        proof {
            if p < r@.len() {
                lemma_lex_total(r@[p as int]@, x@);
            }
        }
        r.insert(p, x);
        proof {
            assert(r@ == old_r.insert(p as int, x));
            assert forall|i: int, j: int| 0 <= i < j < r@.len() implies lex_le(
                (#[trigger] r@[i])@,
                (#[trigger] r@[j])@,
            ) by {
                if j < p {
                    assert(r@[i] == old_r[i] && r@[j] == old_r[j]);
                } else if j == p {
                    assert(r@[i] == old_r[i]);
                } else if i < p {
                    assert(r@[i] == old_r[i] && r@[j] == old_r[j - 1]);
                    lemma_lex_trans(old_r[i]@, x@, old_r[p as int]@);
                    if j - 1 > p {
                        lemma_lex_trans(old_r[i]@, old_r[p as int]@, old_r[j - 1]@);
                    }
                } else if i == p {
                    assert(r@[j] == old_r[j - 1]);
                    if j - 1 > p {
                        lemma_lex_trans(x@, old_r[p as int]@, old_r[j - 1]@);
                    }
                } else {
                    assert(r@[i] == old_r[i - 1] && r@[j] == old_r[j - 1]);
                }
            }
            assert(v@.take(k + 1) =~= v@.take(k as int).push(v@[k as int]));
            vstd::seq_lib::to_multiset_insert(old_r, p as int, x);
            vstd::seq_lib::to_multiset_build(v@.take(k as int), v@[k as int]);
        }
        k = k + 1;
    }
    assert(v@.take(v@.len() as int) =~= v@);
    r
}


/// `str::split_whitespace`, collected.
pub fn split_words(s: &str) -> (v: Vec<String>)
    ensures
        strs(v@) == words(s@),
{
    let cs = chars_of(s);
    let n = cs.len();
    assert(cs@.subrange(0, n as int) =~= s@);
    let mut v: Vec<String> = Vec::new();
    let mut pos: usize = 0;
    assert(strs(v@) =~= Seq::<Seq<char>>::empty());
    loop
        invariant
            0 <= pos <= n == cs@.len(),
            cs@ == s@,
            words(s@) == strs(v@) + words(cs@.subrange(pos as int, n as int)),
        decreases n - pos,
    {
        match next_word(&cs, pos, n) {
            None => {
                assert(words(s@) =~= strs(v@));
                return v;
            },
            Some((a, b)) => {
                let w = string_of(&cs, a, b);
                let ghost before = v@;
                v.push(w);
                assert(strs(v@) =~= strs(before).push(w@));
                assert(words(s@) =~= strs(v@) + words(cs@.subrange(b as int, n as int)));
                pos = b;
            },
        }
    }
}

} // verus!
