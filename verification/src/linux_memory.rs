//! Linux read-only RAM/swap/PSI/zram/zswap telemetry.
//!
//! Sources are fixed kernel interfaces chosen by the provider; no
//! caller-supplied path is accepted by the production constructor and
//! nothing is written. The host reads the files; this module parses them.
use vstd::prelude::*;

use crate::diagnostics::DiagnosticEntry;
use vstd::string::*;

use crate::error::{IoErrorKind, IoFailure, ProviderError, ProviderErrorView};
use crate::text::{
    chars_of, concat2, concat3, find_char, index_of, int_error_text, is_digit_of, lines, next_line,
    next_word, parse_unsigned, parse_unsigned_at, str_eq, string_of, trim, trim_bounds, trimmed, words,
    chars_eq, lex_le, lex_le_exec, lemma_lex_total, lemma_lex_trans,
};

verus! {

/// Pressure-stall averages and total of one PSI line.
#[derive(Debug, Clone, Copy, PartialEq, Eq, Structural)]
pub struct PsiPressureLine {
    /// 10-second average, in basis points of a percent (0..=10000).
    pub avg10_basis_points: u16,
    /// 60-second average, in basis points.
    pub avg60_basis_points: u16,
    /// 300-second average, in basis points.
    pub avg300_basis_points: u16,
    /// Total stall time in microseconds.
    pub total_us: u64,
}

/// Memory pressure.
#[derive(Debug, Clone, Copy, PartialEq, Eq, Structural)]
pub struct MemoryPressureTelemetry {
    /// Some tasks stalled.
    pub some: PsiPressureLine,
    /// All tasks stalled, when reported.
    pub full: Option<PsiPressureLine>,
}

/// RAM and swap.
#[derive(Debug, Clone, Copy, PartialEq, Eq, Structural)]
pub struct SystemMemoryTelemetry {
    /// Total RAM (KiB).
    pub total_kib: u64,
    /// Available RAM (KiB), when reported.
    pub available_kib: Option<u64>,
    /// Total swap (KiB).
    pub swap_total_kib: u64,
    /// Free swap (KiB).
    pub swap_free_kib: u64,
    /// Memory pressure, when the kernel exposes PSI.
    pub pressure: Option<MemoryPressureTelemetry>,
}

/// One zram device.
#[derive(Debug, Clone, PartialEq, Eq)]
pub struct ZramTelemetry {
    /// Device name (`zramN`).
    pub device: String,
    /// Configured disk size.
    pub disk_size_bytes: Option<u64>,
    /// Uncompressed data stored.
    pub original_data_bytes: Option<u64>,
    /// Compressed data stored.
    pub compressed_data_bytes: Option<u64>,
    /// Memory used.
    pub memory_used_bytes: Option<u64>,
}

/// zswap state.
#[derive(Debug, Clone, Copy, PartialEq, Eq, Structural)]
pub struct ZswapTelemetry {
    /// Whether zswap is enabled, when the parameter exists and is set.
    pub enabled: Option<bool>,
}

// ---------------------------------------------------------------------------
// Kernel boolean parameters
// ---------------------------------------------------------------------------

/// A kernel boolean parameter: `Y`/`y`/`1` true, `N`/`n`/`0` false, empty
/// unknown, anything else an error.
pub open spec fn bool_parameter(raw: Seq<char>) -> Result<Option<bool>, ProviderErrorView> {
    let t = trim(raw);
    if t == "Y"@ || t == "y"@ || t == "1"@ {
        Ok(Some(true))
    } else if t == "N"@ || t == "n"@ || t == "0"@ {
        Ok(Some(false))
    } else if t.len() == 0 {
        Ok(None)
    } else {
        Err(ProviderErrorView::Internal("unexpected boolean kernel parameter '"@ + t + "'"@))
    }
}

/// Parse a kernel boolean parameter strictly.
pub fn parse_bool_parameter(raw: &str) -> (r: Result<Option<bool>, ProviderError>)
    ensures
        match bool_parameter(raw@) {
            Ok(v) => r == Ok::<Option<bool>, ProviderError>(v),
            Err(e) => r matches Err(err) && err@ == e,
        },
{
    let t = trimmed(raw);
    let s = t.as_str();
    if str_eq(s, "Y") || str_eq(s, "y") || str_eq(s, "1") {
        Ok(Some(true))
    } else if str_eq(s, "N") || str_eq(s, "n") || str_eq(s, "0") {
        Ok(Some(false))
    } else if t.unicode_len() == 0 {
        Ok(None)
    } else {
        Err(ProviderError::Internal(concat3("unexpected boolean kernel parameter '", s, "'")))
    }
}

// ---------------------------------------------------------------------------
// PSI
// ---------------------------------------------------------------------------

/// Whether every char is a decimal digit.
pub open spec fn all_decimal_digits(s: Seq<char>) -> bool {
    forall|j: int| 0 <= j < s.len() ==> is_digit_of(#[trigger] s[j], 10)
}

/// A PSI percentage (`W` or `W.F` or `W.FF`) in basis points: the whole part
/// must be at most 100, the fraction at most two decimal digits, and the
/// result at most 10000.
pub open spec fn basis_points(raw: Seq<char>) -> Result<u16, ProviderErrorView> {
    let i = index_of(raw, '.');
    let whole = if i < 0 {
        raw
    } else {
        raw.take(i)
    };
    let frac = if i < 0 {
        Seq::<char>::empty()
    } else {
        raw.skip(i + 1)
    };
    match parse_unsigned(whole, 10, u16::MAX as nat) {
        Err(k) => Err(ProviderErrorView::Internal("invalid PSI percent: "@ + int_error_text(k))),
        Ok(w) => if w > 100 {
            Err(ProviderErrorView::Internal("PSI percentage out of range: "@ + raw))
        } else if frac.len() > 2 || !all_decimal_digits(frac) {
            Err(ProviderErrorView::Internal("invalid PSI fractional percentage: "@ + raw))
        } else {
            let f = if frac.len() == 0 {
                0
            } else if frac.len() == 1 {
                crate::text::digit_of(frac[0]) * 10
            } else {
                crate::text::digit_of(frac[0]) * 10 + crate::text::digit_of(frac[1])
            };
            if w * 100 + f > 10000 {
                Err(ProviderErrorView::Internal("PSI percentage out of range: "@ + raw))
            } else {
                Ok((w * 100 + f) as u16)
            }
        },
    }
}

fn digit_value(c: char) -> (v: u16)
    requires
        is_digit_of(c, 10),
    ensures
        v == crate::text::digit_of(c),
        v < 10,
{
    ((c as u32) - 0x30) as u16
}

/// Parse a PSI percentage into basis points.
pub fn parse_percent_basis_points(raw: &str) -> (r: Result<u16, ProviderError>)
    ensures
        match basis_points(raw@) {
            Ok(v) => r == Ok::<u16, ProviderError>(v),
            Err(e) => r matches Err(err) && err@ == e,
        },
{
    let cs = chars_of(raw);
    let n = cs.len();
    proof {
        crate::text::lemma_index_of(raw@, '.');
    }
    assert(cs@.subrange(0, n as int) =~= raw@);
    let dot = find_char(&cs, 0, n, '.');
    let (we, fs) = match dot {
        Some(i) => (i, i + 1),
        None => (n, n),
    };
    assert(match dot {
        Some(i) => raw@.take(i as int) =~= cs@.subrange(0, we as int) && raw@.skip(i + 1) =~= cs@.subrange(fs as int, n as int),
        None => raw@ =~= cs@.subrange(0, we as int) && Seq::<char>::empty() =~= cs@.subrange(fs as int, n as int),
    });
    let w = match parse_unsigned_at(&cs, 0, we, 10, 0xffff) {
        Ok(v) => v,
        Err(k) => {
            return Err(ProviderError::Internal(concat2("invalid PSI percent: ", k.text())));
        },
    };
    if w > 100 {
        return Err(ProviderError::Internal(concat2("PSI percentage out of range: ", raw)));
    }
    let ghost frac = cs@.subrange(fs as int, n as int);
    let flen = n - fs;
    let mut all_digits = true;
    let mut j = fs;
    while j < n
        invariant
            fs <= j <= n == cs@.len(),
            frac == cs@.subrange(fs as int, n as int),
            all_digits == forall|k: int| 0 <= k < j - fs ==> is_digit_of(#[trigger] frac[k], 10),
        decreases n - j,
    {
        let c = cs[j];
        let u = c as u32;
        let d = 0x30 <= u && u <= 0x39;
        assert(frac[j - fs] == c);
        proof {
            if !d {
                assert(!is_digit_of(frac[j - fs], 10));
            }
        }
        all_digits = all_digits && d;
        j = j + 1;
    }
    if flen > 2 || !all_digits {
        proof {
            let i = index_of(raw@, '.');
            let sf = if i < 0 {
                Seq::<char>::empty()
            } else {
                raw@.skip(i + 1)
            };
            assert(sf == frac);
            if !all_digits {
                let k = choose|k: int| 0 <= k < flen && !is_digit_of(#[trigger] frac[k], 10);
                assert(!is_digit_of(sf[k], 10));
            }
            let whole = if i < 0 {
                raw@
            } else {
                raw@.take(i)
            };
            assert(whole == cs@.subrange(0, we as int));
            assert(parse_unsigned(whole, 10, u16::MAX as nat) == Ok::<nat, crate::text::IntErrorKind>(w as nat));
            assert(sf.len() > 2 || !all_decimal_digits(sf));
        }
        return Err(ProviderError::Internal(concat2("invalid PSI fractional percentage: ", raw)));
    }
    let f: u16 = if flen == 0 {
        0
    } else if flen == 1 {
        digit_value(cs[fs]) * 10
    } else {
        digit_value(cs[fs]) * 10 + digit_value(cs[fs + 1])
    };
    let bp = (w as u16) * 100 + f;
    if bp > 10000 {
        return Err(ProviderError::Internal(concat2("PSI percentage out of range: ", raw)));
    }
    Ok(bp)
}

/// The PSI fields read so far.
pub struct PsiFields {
    /// `avg10`.
    pub avg10: Option<u16>,
    /// `avg60`.
    pub avg60: Option<u16>,
    /// `avg300`.
    pub avg300: Option<u16>,
    /// `total`.
    pub total: Option<u64>,
}

/// One `key=value` word of a PSI line: known keys set their field (a later
/// one replaces an earlier one); words without `=` and unknown keys are
/// ignored; the first malformed value ends the parse with its error.
pub open spec fn psi_field_step(
    st: Result<PsiFields, ProviderErrorView>,
    w: Seq<char>,
) -> Result<PsiFields, ProviderErrorView> {
    match st {
        Err(e) => Err(e),
        Ok(f) => {
            let i = index_of(w, '=');
            if i < 0 {
                Ok(f)
            } else {
                let key = w.take(i);
                let val = w.skip(i + 1);
                if key == "avg10"@ {
                    match basis_points(val) {
                        Ok(v) => Ok(PsiFields { avg10: Some(v), ..f }),
                        Err(e) => Err(e),
                    }
                } else if key == "avg60"@ {
                    match basis_points(val) {
                        Ok(v) => Ok(PsiFields { avg60: Some(v), ..f }),
                        Err(e) => Err(e),
                    }
                } else if key == "avg300"@ {
                    match basis_points(val) {
                        Ok(v) => Ok(PsiFields { avg300: Some(v), ..f }),
                        Err(e) => Err(e),
                    }
                } else if key == "total"@ {
                    match parse_unsigned(val, 10, u64::MAX as nat) {
                        Ok(v) => Ok(PsiFields { total: Some(v as u64), ..f }),
                        Err(k) => Err(ProviderErrorView::Internal("invalid PSI total: "@ + int_error_text(k))),
                    }
                } else {
                    Ok(f)
                }
            }
        },
    }
}

/// The fields of the words of a PSI line after its kind.
pub open spec fn psi_fields(ws: Seq<Seq<char>>) -> Result<PsiFields, ProviderErrorView> {
    ws.fold_left(
        Ok(PsiFields { avg10: None, avg60: None, avg300: None, total: None }),
        |st: Result<PsiFields, ProviderErrorView>, w: Seq<char>| psi_field_step(st, w),
    )
}

/// One PSI line of the expected kind with all four fields.
pub open spec fn psi_line(line: Seq<char>, expected: Seq<char>) -> Result<PsiPressureLine, ProviderErrorView> {
    let ws = words(line);
    if ws.len() == 0 {
        Err(ProviderErrorView::Internal("PSI line is empty"@))
    } else if ws[0] != expected {
        Err(ProviderErrorView::Internal("expected PSI '"@ + expected + "' line, got '"@ + ws[0] + "'"@))
    } else {
        match psi_fields(ws.skip(1)) {
            Err(e) => Err(e),
            Ok(f) => if f.avg10 is None {
                Err(ProviderErrorView::Internal("PSI avg10 missing"@))
            } else if f.avg60 is None {
                Err(ProviderErrorView::Internal("PSI avg60 missing"@))
            } else if f.avg300 is None {
                Err(ProviderErrorView::Internal("PSI avg300 missing"@))
            } else if f.total is None {
                Err(ProviderErrorView::Internal("PSI total missing"@))
            } else {
                Ok(
                    PsiPressureLine {
                        avg10_basis_points: f.avg10.unwrap(),
                        avg60_basis_points: f.avg60.unwrap(),
                        avg300_basis_points: f.avg300.unwrap(),
                        total_us: f.total.unwrap(),
                    },
                )
            },
        }
    }
}

struct PsiAcc {
    avg10: Option<u16>,
    avg60: Option<u16>,
    avg300: Option<u16>,
    total: Option<u64>,
}

spec fn psi_acc(a: PsiAcc) -> PsiFields {
    PsiFields { avg10: a.avg10, avg60: a.avg60, avg300: a.avg300, total: a.total }
}

fn apply_psi_word(acc: &mut PsiAcc, cs: &Vec<char>, a: usize, b: usize) -> (r: Result<(), ProviderError>)
    requires
        a <= b <= cs@.len(),
    ensures
        match psi_field_step(Ok(psi_acc(*old(acc))), cs@.subrange(a as int, b as int)) {
            Ok(f) => r is Ok && psi_acc(*final(acc)) == f,
            Err(e) => r matches Err(err) && err@ == e,
        },
{
    let ghost w = cs@.subrange(a as int, b as int);
    let eq = match find_char(cs, a, b, '=') {
        Some(i) => i,
        None => {
            return Ok(());
        },
    };
    assert(w.take(eq - a) =~= cs@.subrange(a as int, eq as int));
    assert(w.skip(eq - a + 1) =~= cs@.subrange(eq + 1, b as int));
    let val = string_of(cs, eq + 1, b);
    if chars_eq(cs, a, eq, "avg10") {
        match parse_percent_basis_points(val.as_str()) {
            Ok(v) => {
                acc.avg10 = Some(v);
                Ok(())
            },
            Err(e) => Err(e),
        }
    } else if chars_eq(cs, a, eq, "avg60") {
        match parse_percent_basis_points(val.as_str()) {
            Ok(v) => {
                acc.avg60 = Some(v);
                Ok(())
            },
            Err(e) => Err(e),
        }
    } else if chars_eq(cs, a, eq, "avg300") {
        match parse_percent_basis_points(val.as_str()) {
            Ok(v) => {
                acc.avg300 = Some(v);
                Ok(())
            },
            Err(e) => Err(e),
        }
    } else if chars_eq(cs, a, eq, "total") {
        match parse_unsigned_at(cs, eq + 1, b, 10, u64::MAX) {
            Ok(v) => {
                acc.total = Some(v);
                Ok(())
            },
            Err(k) => Err(ProviderError::Internal(concat2("invalid PSI total: ", k.text()))),
        }
    } else {
        Ok(())
    }
}

/// Parse one PSI line of the expected kind.
pub fn parse_psi_line(line: &str, expected_kind: &str) -> (r: Result<PsiPressureLine, ProviderError>)
    ensures
        match psi_line(line@, expected_kind@) {
            Ok(p) => r == Ok::<PsiPressureLine, ProviderError>(p),
            Err(e) => r matches Err(err) && err@ == e,
        },
{
    let cs = chars_of(line);
    let n = cs.len();
    assert(cs@.subrange(0, n as int) =~= line@);
    let (ka, kb) = match next_word(&cs, 0, n) {
        Some(bounds) => bounds,
        None => {
            return Err(ProviderError::Internal("PSI line is empty".to_owned()));
        },
    };
    let ghost ws = words(line@);
    assert(ws[0] == cs@.subrange(ka as int, kb as int));
    if !chars_eq(&cs, ka, kb, expected_kind) {
        let kind = string_of(&cs, ka, kb);
        let mut m = concat3("expected PSI '", expected_kind, "' line, got '");
        m.append(kind.as_str());
        m.append("'");
        return Err(ProviderError::Internal(m));
    }
    let ghost rest = ws.skip(1);
    assert(rest =~= words(cs@.subrange(kb as int, n as int)));
    let mut acc = PsiAcc { avg10: None, avg60: None, avg300: None, total: None };
    let mut pos = kb;
    let ghost mut seen: Seq<Seq<char>> = seq![];
    let ghost init = PsiFields { avg10: None, avg60: None, avg300: None, total: None };
    while pos < n
        invariant
            kb <= pos <= n == cs@.len(),
            init == (PsiFields { avg10: None, avg60: None, avg300: None, total: None }),
            rest == seen + words(cs@.subrange(pos as int, n as int)),
            rest == words(line@).skip(1),
            words(line@).len() > 0,
            words(line@)[0] == expected_kind@,
            seen.fold_left(Ok(init), |st: Result<PsiFields, ProviderErrorView>, w: Seq<char>| psi_field_step(st, w))
                == Ok::<PsiFields, ProviderErrorView>(psi_acc(acc)),
        decreases n - pos,
    {
        match next_word(&cs, pos, n) {
            None => {
                assert(rest =~= seen);
                pos = n;
            },
            Some((a, b)) => {
                let ghost w = cs@.subrange(a as int, b as int);
                let ghost before = psi_acc(acc);
                let ghost ns = seen.push(w);
                assert(ns.drop_last() =~= seen);
                match apply_psi_word(&mut acc, &cs, a, b) {
                    Ok(()) => {},
                    Err(e) => {
                        proof {
                            assert(rest =~= ns + words(cs@.subrange(b as int, n as int)));
                            assert(ns.last() == w);
                            assert(ns.fold_left(Ok(init), |st: Result<PsiFields, ProviderErrorView>, w: Seq<char>| psi_field_step(st, w))
                                == psi_field_step(Ok(before), w));
                            lemma_psi_error_sticks(ns, words(cs@.subrange(b as int, n as int)), init);
                            assert(psi_fields(rest) == psi_field_step(Ok(before), w));
                        }
                        return Err(e);
                    },
                }
                proof {
                    assert(rest =~= ns + words(cs@.subrange(b as int, n as int)));
                    seen = ns;
                }
                pos = b;
            },
        }
    }
    proof {
        assert(words(cs@.subrange(n as int, n as int)) =~= Seq::<Seq<char>>::empty()) by {
            assert(cs@.subrange(n as int, n as int).len() == 0);
        }
        assert(rest =~= seen);
    }
    let a10 = match acc.avg10 {
        Some(v) => v,
        None => {
            return Err(ProviderError::Internal("PSI avg10 missing".to_owned()));
        },
    };
    let a60 = match acc.avg60 {
        Some(v) => v,
        None => {
            return Err(ProviderError::Internal("PSI avg60 missing".to_owned()));
        },
    };
    let a300 = match acc.avg300 {
        Some(v) => v,
        None => {
            return Err(ProviderError::Internal("PSI avg300 missing".to_owned()));
        },
    };
    let total = match acc.total {
        Some(v) => v,
        None => {
            return Err(ProviderError::Internal("PSI total missing".to_owned()));
        },
    };
    Ok(PsiPressureLine { avg10_basis_points: a10, avg60_basis_points: a60, avg300_basis_points: a300, total_us: total })
}

/// Once a PSI word fails, later words keep that error.
proof fn lemma_psi_error_sticks(done: Seq<Seq<char>>, more: Seq<Seq<char>>, init: PsiFields)
    requires
        done.fold_left(Ok(init), |st: Result<PsiFields, ProviderErrorView>, w: Seq<char>| psi_field_step(st, w)) is Err,
    ensures
        (done + more).fold_left(Ok(init), |st: Result<PsiFields, ProviderErrorView>, w: Seq<char>| psi_field_step(st, w))
            == done.fold_left(Ok(init), |st: Result<PsiFields, ProviderErrorView>, w: Seq<char>| psi_field_step(st, w)),
    decreases more.len(),
{
    if more.len() > 0 {
        lemma_psi_error_sticks(done, more.drop_last(), init);
        assert((done + more).drop_last() =~= done + more.drop_last());
    } else {
        assert(done + more =~= done);
    }
}

/// The `some` and `full` lines read so far.
pub struct PressureLines {
    /// `some`.
    pub some: Option<PsiPressureLine>,
    /// `full`.
    pub full: Option<PsiPressureLine>,
}

/// One line of `/proc/pressure/memory`: blank lines are skipped; a line
/// starting with `some ` or `full ` must parse as that PSI kind (a later
/// line replaces an earlier one); other lines are ignored.
pub open spec fn pressure_step(
    st: Result<PressureLines, ProviderErrorView>,
    line: Seq<char>,
) -> Result<PressureLines, ProviderErrorView> {
    match st {
        Err(e) => Err(e),
        Ok(p) => if trim(line).len() == 0 {
            Ok(p)
        } else if "some "@.is_prefix_of(line) {
            match psi_line(line, "some"@) {
                Ok(l) => Ok(PressureLines { some: Some(l), ..p }),
                Err(e) => Err(e),
            }
        } else if "full "@.is_prefix_of(line) {
            match psi_line(line, "full"@) {
                Ok(l) => Ok(PressureLines { full: Some(l), ..p }),
                Err(e) => Err(e),
            }
        } else {
            Ok(p)
        },
    }
}

/// The parse of `/proc/pressure/memory`: the `some` line is required.
pub open spec fn memory_pressure(raw: Seq<char>) -> Result<MemoryPressureTelemetry, ProviderErrorView> {
    match lines(raw).fold_left(
        Ok(PressureLines { some: None, full: None }),
        |st: Result<PressureLines, ProviderErrorView>, l: Seq<char>| pressure_step(st, l),
    ) {
        Err(e) => Err(e),
        Ok(p) => match p.some {
            None => Err(ProviderErrorView::Internal("PSI some line missing"@)),
            Some(s) => Ok(MemoryPressureTelemetry { some: s, full: p.full }),
        },
    }
}

proof fn lemma_pressure_error_sticks(
    done: Seq<Seq<char>>,
    more: Seq<Seq<char>>,
    init: Result<PressureLines, ProviderErrorView>,
)
    requires
        done.fold_left(init, |st: Result<PressureLines, ProviderErrorView>, l: Seq<char>| pressure_step(st, l)) is Err,
    ensures
        (done + more).fold_left(init, |st: Result<PressureLines, ProviderErrorView>, l: Seq<char>| pressure_step(st, l))
            == done.fold_left(init, |st: Result<PressureLines, ProviderErrorView>, l: Seq<char>| pressure_step(st, l)),
    decreases more.len(),
{
    if more.len() > 0 {
        lemma_pressure_error_sticks(done, more.drop_last(), init);
        assert((done + more).drop_last() =~= done + more.drop_last());
    } else {
        assert(done + more =~= done);
    }
}

/// Parse Linux `/proc/pressure/memory`.
pub fn parse_memory_pressure(raw: &str) -> (r: Result<MemoryPressureTelemetry, ProviderError>)
    ensures
        match memory_pressure(raw@) {
            Ok(p) => r == Ok::<MemoryPressureTelemetry, ProviderError>(p),
            Err(e) => r matches Err(err) && err@ == e,
        },
{
    let cs = chars_of(raw);
    let n = cs.len();
    assert(cs@.subrange(0, n as int) =~= raw@);
    let mut some: Option<PsiPressureLine> = None;
    let mut full: Option<PsiPressureLine> = None;
    let ghost init = Ok::<PressureLines, ProviderErrorView>(PressureLines { some: None, full: None });
    let ghost mut seen: Seq<Seq<char>> = seq![];
    let mut pos: usize = 0;
    while pos < n
        invariant
            0 <= pos <= n == cs@.len(),
            cs@ == raw@,
            init == Ok::<PressureLines, ProviderErrorView>(PressureLines { some: None, full: None }),
            lines(raw@) == seen + lines(cs@.subrange(pos as int, n as int)),
            seen.fold_left(init, |st: Result<PressureLines, ProviderErrorView>, l: Seq<char>| pressure_step(st, l))
                == Ok::<PressureLines, ProviderErrorView>(PressureLines { some, full }),
        decreases n - pos,
    {
        let (a, b, next) = next_line(&cs, pos, n);
        let l = string_of(&cs, a, b);
        let ghost ns = seen.push(l@);
        assert(ns.drop_last() =~= seen);
        assert(lines(raw@) =~= ns + lines(cs@.subrange(next as int, n as int)));
        let t = trimmed(l.as_str());
        if t.unicode_len() != 0 {
            if crate::text::starts_with_str(l.as_str(), "some ") {
                match parse_psi_line(l.as_str(), "some") {
                    Ok(p) => {
                        some = Some(p);
                    },
                    Err(e) => {
                        proof {
                            lemma_pressure_error_sticks(ns, lines(cs@.subrange(next as int, n as int)), init);
                        }
                        return Err(e);
                    },
                }
            } else if crate::text::starts_with_str(l.as_str(), "full ") {
                match parse_psi_line(l.as_str(), "full") {
                    Ok(p) => {
                        full = Some(p);
                    },
                    Err(e) => {
                        proof {
                            lemma_pressure_error_sticks(ns, lines(cs@.subrange(next as int, n as int)), init);
                        }
                        return Err(e);
                    },
                }
            }
        }
        proof {
            seen = ns;
        }
        pos = next;
    }
    proof {
        assert(lines(cs@.subrange(n as int, n as int)) =~= Seq::<Seq<char>>::empty()) by {
            assert(cs@.subrange(n as int, n as int).len() == 0);
        }
        assert(lines(raw@) =~= seen);
    }
    match some {
        None => Err(ProviderError::Internal("PSI some line missing".to_owned())),
        Some(s) => Ok(MemoryPressureTelemetry { some: s, full }),
    }
}

/// A `/proc/meminfo` value: its first word as KiB, optionally followed by
/// the unit `kB`.
pub open spec fn kib_value(v: Seq<char>) -> Result<u64, ProviderErrorView> {
    let ws = words(v);
    if ws.len() == 0 {
        Err(ProviderErrorView::Internal("meminfo value missing"@))
    } else {
        match parse_unsigned(ws[0], 10, u64::MAX as nat) {
            Err(k) => Err(ProviderErrorView::Internal("invalid meminfo integer: "@ + int_error_text(k))),
            Ok(x) => if ws.len() > 1 && ws[1] != "kB"@ {
                Err(ProviderErrorView::Internal("unexpected meminfo unit '"@ + ws[1] + "'"@))
            } else {
                Ok(x as u64)
            },
        }
    }
}

/// The `/proc/meminfo` fields read so far.
pub struct MeminfoFields {
    /// `MemTotal`.
    pub total: Option<u64>,
    /// `MemAvailable`.
    pub available: Option<u64>,
    /// `SwapTotal`.
    pub swap_total: Option<u64>,
    /// `SwapFree`.
    pub swap_free: Option<u64>,
}

/// One `/proc/meminfo` line `Key: value`: the four known keys set their
/// field; lines without `:` and other keys are ignored; the first malformed
/// value ends the parse.
pub open spec fn meminfo_step(
    st: Result<MeminfoFields, ProviderErrorView>,
    line: Seq<char>,
) -> Result<MeminfoFields, ProviderErrorView> {
    match st {
        Err(e) => Err(e),
        Ok(f) => {
            let i = index_of(line, ':');
            if i < 0 {
                Ok(f)
            } else {
                let key = line.take(i);
                let v = kib_value(line.skip(i + 1));
                if key == "MemTotal"@ {
                    match v {
                        Ok(x) => Ok(MeminfoFields { total: Some(x), ..f }),
                        Err(e) => Err(e),
                    }
                } else if key == "MemAvailable"@ {
                    match v {
                        Ok(x) => Ok(MeminfoFields { available: Some(x), ..f }),
                        Err(e) => Err(e),
                    }
                } else if key == "SwapTotal"@ {
                    match v {
                        Ok(x) => Ok(MeminfoFields { swap_total: Some(x), ..f }),
                        Err(e) => Err(e),
                    }
                } else if key == "SwapFree"@ {
                    match v {
                        Ok(x) => Ok(MeminfoFields { swap_free: Some(x), ..f }),
                        Err(e) => Err(e),
                    }
                } else {
                    Ok(f)
                }
            }
        },
    }
}

/// The parse of `/proc/meminfo`: `MemTotal`, `SwapTotal` and `SwapFree` are
/// required (reported missing in that order), `MemAvailable` is optional.
pub open spec fn meminfo(raw: Seq<char>) -> Result<SystemMemoryTelemetry, ProviderErrorView> {
    match lines(raw).fold_left(
        Ok(MeminfoFields { total: None, available: None, swap_total: None, swap_free: None }),
        |st: Result<MeminfoFields, ProviderErrorView>, l: Seq<char>| meminfo_step(st, l),
    ) {
        Err(e) => Err(e),
        Ok(f) => if f.total is None {
            Err(ProviderErrorView::Internal("MemTotal missing from meminfo"@))
        } else if f.swap_total is None {
            Err(ProviderErrorView::Internal("SwapTotal missing from meminfo"@))
        } else if f.swap_free is None {
            Err(ProviderErrorView::Internal("SwapFree missing from meminfo"@))
        } else {
            Ok(
                SystemMemoryTelemetry {
                    total_kib: f.total.unwrap(),
                    available_kib: f.available,
                    swap_total_kib: f.swap_total.unwrap(),
                    swap_free_kib: f.swap_free.unwrap(),
                    pressure: None,
                },
            )
        },
    }
}

fn read_kib_value(cs: &Vec<char>, lo: usize, hi: usize) -> (r: Result<u64, ProviderError>)
    requires
        lo <= hi <= cs@.len(),
    ensures
        match kib_value(cs@.subrange(lo as int, hi as int)) {
            Ok(x) => r == Ok::<u64, ProviderError>(x),
            Err(e) => r matches Err(err) && err@ == e,
        },
{
    let ghost ws = words(cs@.subrange(lo as int, hi as int));
    let (a, b) = match next_word(cs, lo, hi) {
        Some(x) => x,
        None => {
            return Err(ProviderError::Internal("meminfo value missing".to_owned()));
        },
    };
    assert(ws[0] == cs@.subrange(a as int, b as int));
    let x = match parse_unsigned_at(cs, a, b, 10, u64::MAX) {
        Ok(x) => x,
        Err(k) => {
            return Err(ProviderError::Internal(concat2("invalid meminfo integer: ", k.text())));
        },
    };
    match next_word(cs, b, hi) {
        Some((c, d)) => {
            assert(ws.skip(1) == words(cs@.subrange(b as int, hi as int)));
            assert(ws[1] == cs@.subrange(c as int, d as int));
            if !chars_eq(cs, c, d, "kB") {
                let unit = string_of(cs, c, d);
                return Err(ProviderError::Internal(concat3("unexpected meminfo unit '", unit.as_str(), "'")));
            }
        },
        None => {
            assert(ws.skip(1) == words(cs@.subrange(b as int, hi as int)));
        },
    }
    Ok(x)
}

proof fn lemma_meminfo_error_sticks(
    done: Seq<Seq<char>>,
    more: Seq<Seq<char>>,
    init: Result<MeminfoFields, ProviderErrorView>,
)
    requires
        done.fold_left(init, |st: Result<MeminfoFields, ProviderErrorView>, l: Seq<char>| meminfo_step(st, l)) is Err,
    ensures
        (done + more).fold_left(init, |st: Result<MeminfoFields, ProviderErrorView>, l: Seq<char>| meminfo_step(st, l))
            == done.fold_left(init, |st: Result<MeminfoFields, ProviderErrorView>, l: Seq<char>| meminfo_step(st, l)),
    decreases more.len(),
{
    if more.len() > 0 {
        lemma_meminfo_error_sticks(done, more.drop_last(), init);
        assert((done + more).drop_last() =~= done + more.drop_last());
    } else {
        assert(done + more =~= done);
    }
}

struct MeminfoAcc {
    total: Option<u64>,
    available: Option<u64>,
    swap_total: Option<u64>,
    swap_free: Option<u64>,
}

spec fn meminfo_acc(a: MeminfoAcc) -> MeminfoFields {
    MeminfoFields { total: a.total, available: a.available, swap_total: a.swap_total, swap_free: a.swap_free }
}

fn apply_meminfo_line(acc: &mut MeminfoAcc, cs: &Vec<char>, a: usize, b: usize) -> (r: Result<(), ProviderError>)
    requires
        a <= b <= cs@.len(),
    ensures
        match meminfo_step(Ok(meminfo_acc(*old(acc))), cs@.subrange(a as int, b as int)) {
            Ok(f) => r is Ok && meminfo_acc(*final(acc)) == f,
            Err(e) => r matches Err(err) && err@ == e,
        },
{
    let ghost line = cs@.subrange(a as int, b as int);
    let colon = match find_char(cs, a, b, ':') {
        Some(i) => i,
        None => {
            return Ok(());
        },
    };
    assert(line.take(colon - a) =~= cs@.subrange(a as int, colon as int));
    assert(line.skip(colon - a + 1) =~= cs@.subrange(colon + 1, b as int));
    if chars_eq(cs, a, colon, "MemTotal") {
        let v = read_kib_value(cs, colon + 1, b)?;
        acc.total = Some(v);
    } else if chars_eq(cs, a, colon, "MemAvailable") {
        let v = read_kib_value(cs, colon + 1, b)?;
        acc.available = Some(v);
    } else if chars_eq(cs, a, colon, "SwapTotal") {
        let v = read_kib_value(cs, colon + 1, b)?;
        acc.swap_total = Some(v);
    } else if chars_eq(cs, a, colon, "SwapFree") {
        let v = read_kib_value(cs, colon + 1, b)?;
        acc.swap_free = Some(v);
    }
    Ok(())
}

/// Parse Linux `/proc/meminfo`.
pub fn parse_meminfo(raw: &str) -> (r: Result<SystemMemoryTelemetry, ProviderError>)
    ensures
        match meminfo(raw@) {
            Ok(m) => r == Ok::<SystemMemoryTelemetry, ProviderError>(m),
            Err(e) => r matches Err(err) && err@ == e,
        },
{
    let cs = chars_of(raw);
    let n = cs.len();
    assert(cs@.subrange(0, n as int) =~= raw@);
    let mut acc = MeminfoAcc { total: None, available: None, swap_total: None, swap_free: None };
    let ghost init = Ok::<MeminfoFields, ProviderErrorView>(
        MeminfoFields { total: None, available: None, swap_total: None, swap_free: None },
    );
    let ghost mut seen: Seq<Seq<char>> = seq![];
    let mut pos: usize = 0;
    while pos < n
        invariant
            0 <= pos <= n == cs@.len(),
            cs@ == raw@,
            init == Ok::<MeminfoFields, ProviderErrorView>(
                MeminfoFields { total: None, available: None, swap_total: None, swap_free: None },
            ),
            lines(raw@) == seen + lines(cs@.subrange(pos as int, n as int)),
            seen.fold_left(init, |st: Result<MeminfoFields, ProviderErrorView>, l: Seq<char>| meminfo_step(st, l))
                == Ok::<MeminfoFields, ProviderErrorView>(meminfo_acc(acc)),
        decreases n - pos,
    {
        let (a, b, next) = next_line(&cs, pos, n);
        let ghost ns = seen.push(cs@.subrange(a as int, b as int));
        assert(ns.drop_last() =~= seen);
        assert(lines(raw@) =~= ns + lines(cs@.subrange(next as int, n as int)));
        match apply_meminfo_line(&mut acc, &cs, a, b) {
            Ok(()) => {},
            Err(e) => {
                proof {
                    lemma_meminfo_error_sticks(ns, lines(cs@.subrange(next as int, n as int)), init);
                }
                return Err(e);
            },
        }
        proof {
            seen = ns;
        }
        pos = next;
    }
    proof {
        assert(lines(cs@.subrange(n as int, n as int)) =~= Seq::<Seq<char>>::empty()) by {
            assert(cs@.subrange(n as int, n as int).len() == 0);
        }
        assert(lines(raw@) =~= seen);
    }
    let total = match acc.total {
        Some(v) => v,
        None => {
            return Err(ProviderError::Internal("MemTotal missing from meminfo".to_owned()));
        },
    };
    let swap_total = match acc.swap_total {
        Some(v) => v,
        None => {
            return Err(ProviderError::Internal("SwapTotal missing from meminfo".to_owned()));
        },
    };
    let swap_free = match acc.swap_free {
        Some(v) => v,
        None => {
            return Err(ProviderError::Internal("SwapFree missing from meminfo".to_owned()));
        },
    };
    Ok(
        SystemMemoryTelemetry {
            total_kib: total,
            available_kib: acc.available,
            swap_total_kib: swap_total,
            swap_free_kib: swap_free,
            pressure: None,
        },
    )
}

// ---------------------------------------------------------------------------
// zram
// ---------------------------------------------------------------------------

/// Whether a `/sys/block` entry names a zram device: `zram` followed by at
/// least one ASCII digit and nothing else.
pub open spec fn is_zram_name(name: Seq<char>) -> bool {
    "zram"@.is_prefix_of(name) && name.len() > 4 && all_decimal_digits(name.skip(4))
}

/// Whether a `/sys/block` entry names a zram device.
pub fn is_zram_device(name: &str) -> (b: bool)
    ensures
        b == is_zram_name(name@),
{
    let cs = chars_of(name);
    let n = cs.len();
    assert(cs@.subrange(0, n as int) =~= name@);
    if !crate::text::starts_with_at(&cs, 0, n, "zram") {
        return false;
    }
    proof {
        reveal_strlit("zram");
    }
    if n <= 4 {
        return false;
    }
    let ghost idx = name@.skip(4);
    let mut i: usize = 4;
    while i < n
        invariant
            4 <= i <= n == cs@.len(),
            cs@ == name@,
            idx == name@.skip(4),
            forall|k: int| 0 <= k < i - 4 ==> is_digit_of(#[trigger] idx[k], 10),
        decreases n - i,
    {
        let u = cs[i] as u32;
        if !(0x30 <= u && u <= 0x39) {
            assert(!is_digit_of(idx[i - 4], 10));
            return false;
        }
        assert(is_digit_of(idx[i - 4], 10));
        i = i + 1;
    }
    true
}

/// An optional unsigned file: absent when not found, the trimmed content
/// parsed as `u64` (its error prefixed with the path) otherwise.
pub open spec fn optional_u64_file(path: Seq<char>, r: Result<String, IoFailure>) -> Result<
    Option<u64>,
    ProviderErrorView,
> {
    match r {
        Err(f) => if f.kind == IoErrorKind::NotFound {
            Ok(None)
        } else {
            Err(ProviderErrorView::Io(f@))
        },
        Ok(raw) => match parse_unsigned(trim(raw@), 10, u64::MAX as nat) {
            Ok(v) => Ok(Some(v as u64)),
            Err(k) => Err(ProviderErrorView::Internal(path + ": "@ + int_error_text(k))),
        },
    }
}

/// Read an optional unsigned file.
pub fn read_optional_u64(path: &str, r: &Result<String, IoFailure>) -> (v: Result<Option<u64>, ProviderError>)
    ensures
        match optional_u64_file(path@, *r) {
            Ok(x) => v == Ok::<Option<u64>, ProviderError>(x),
            Err(e) => v matches Err(err) && err@ == e,
        },
{
    match r {
        Err(f) => match f.kind {
            IoErrorKind::NotFound => Ok(None),
            _ => Err(ProviderError::Io(f.clone_failure())),
        },
        Ok(raw) => {
            let t = trimmed(raw.as_str());
            let cs = chars_of(t.as_str());
            assert(cs@.subrange(0, cs@.len() as int) =~= cs@);
            match parse_unsigned_at(&cs, 0, cs.len(), 10, u64::MAX) {
                Ok(x) => Ok(Some(x)),
                Err(k) => {
                    let mut m = concat2(path, ": ");
                    m.append(k.text());
                    Err(ProviderError::Internal(m))
                },
            }
        },
    }
}

/// `mm_stat`: its first three words as `u64` (original, compressed and used
/// bytes). A malformed word among the first three fails first; fewer than
/// three words fail afterwards.
pub open spec fn mm_stat(name: Seq<char>, raw: Seq<char>) -> Result<(u64, u64, u64), ProviderErrorView> {
    let ws = words(raw);
    let k = if ws.len() < 3 {
        ws.len()
    } else {
        3
    };
    let bad = first_bad_word(ws.take(k as int));
    if bad >= 0 {
        match parse_unsigned(ws[bad], 10, u64::MAX as nat) {
            Err(e) => Err(ProviderErrorView::Internal("invalid "@ + name + "/mm_stat value: "@ + int_error_text(e))),
            Ok(_) => Err(ProviderErrorView::Internal(seq![])),
        }
    } else if ws.len() < 3 {
        Err(ProviderErrorView::Internal(name + "/mm_stat has fewer than 3 fields"@))
    } else {
        Ok(
            (
                parse_unsigned(ws[0], 10, u64::MAX as nat).unwrap() as u64,
                parse_unsigned(ws[1], 10, u64::MAX as nat).unwrap() as u64,
                parse_unsigned(ws[2], 10, u64::MAX as nat).unwrap() as u64,
            ),
        )
    }
}

/// Index of the first word that is not a `u64`, or `-1`.
pub open spec fn first_bad_word(ws: Seq<Seq<char>>) -> int
    decreases ws.len(),
{
    if ws.len() == 0 {
        -1
    } else {
        let r = first_bad_word(ws.drop_last());
        if r >= 0 {
            r
        } else if parse_unsigned(ws.last(), 10, u64::MAX as nat) is Err {
            ws.len() - 1
        } else {
            -1
        }
    }
}

proof fn lemma_first_bad_word(ws: Seq<Seq<char>>)
    ensures
        -1 <= first_bad_word(ws) < ws.len(),
        first_bad_word(ws) >= 0 ==> parse_unsigned(ws[first_bad_word(ws)], 10, u64::MAX as nat) is Err,
        forall|j: int|
            0 <= j < ws.len() && (first_bad_word(ws) < 0 || j < first_bad_word(ws)) ==> parse_unsigned(
                #[trigger] ws[j],
                10,
                u64::MAX as nat,
            ) is Ok,
    decreases ws.len(),
{
    if ws.len() > 0 {
        lemma_first_bad_word(ws.drop_last());
        assert forall|j: int| 0 <= j < ws.len() - 1 implies ws[j] == ws.drop_last()[j] by {}
    }
}

/// Parse the content of a zram `mm_stat` file.
pub fn parse_mm_stat(name: &str, raw: &str) -> (r: Result<(u64, u64, u64), ProviderError>)
    ensures
        match mm_stat(name@, raw@) {
            Ok(v) => r == Ok::<(u64, u64, u64), ProviderError>(v),
            Err(e) => r matches Err(err) && err@ == e,
        },
{
    let cs = chars_of(raw);
    let n = cs.len();
    assert(cs@.subrange(0, n as int) =~= raw@);
    let ghost ws = words(raw@);
    let mut vals: Vec<u64> = Vec::new();
    let mut pos: usize = 0;
    let ghost mut seen: Seq<Seq<char>> = seq![];
    while vals.len() < 3
        invariant
            0 <= pos <= n == cs@.len(),
            cs@ == raw@,
            ws == words(raw@),
            ws == seen + words(cs@.subrange(pos as int, n as int)),
            vals@.len() == seen.len() <= 3,
            first_bad_word(seen) == -1,
            forall|j: int| 0 <= j < seen.len() ==> parse_unsigned(#[trigger] seen[j], 10, u64::MAX as nat)
                == Ok::<nat, crate::text::IntErrorKind>(vals@[j] as nat),
        decreases 3 - vals@.len(),
    {
        let (a, b) = match next_word(&cs, pos, n) {
            Some(x) => x,
            None => {
                proof {
                    assert(ws =~= seen);
                    assert(ws.take(ws.len() as int) =~= seen);
                }
                let len = vals.len();
                return Err(ProviderError::Internal(concat2(name, "/mm_stat has fewer than 3 fields")));
            },
        };
        let ghost w = cs@.subrange(a as int, b as int);
        let ghost ns = seen.push(w);
        assert(ns.drop_last() =~= seen);
        assert(ws =~= ns + words(cs@.subrange(b as int, n as int)));
        match parse_unsigned_at(&cs, a, b, 10, u64::MAX) {
            Ok(x) => {
                vals.push(x);
                proof {
                    assert forall|j: int| 0 <= j < ns.len() implies parse_unsigned(
                        #[trigger] ns[j],
                        10,
                        u64::MAX as nat,
                    ) == Ok::<nat, crate::text::IntErrorKind>(vals@[j] as nat) by {
                        if j < seen.len() {
                            assert(ns[j] == seen[j]);
                        }
                    }
                    seen = ns;
                }
            },
            Err(k) => {
                proof {
                    let kk = if ws.len() < 3 {
                        ws.len()
                    } else {
                        3
                    };
                    assert(ws.take(kk as int).take(ns.len() as int) =~= ns);
                    assert(first_bad_word(ns) == seen.len());
                    lemma_first_bad_prefix(ws.take(kk as int), ns.len() as int);
                }
                let mut m = concat3("invalid ", name, "/mm_stat value: ");
                m.append(k.text());
                return Err(ProviderError::Internal(m));
            },
        }
        pos = b;
    }
    proof {
        assert(ws.take(3) =~= seen);
    }
    Ok((vals[0], vals[1], vals[2]))
}

proof fn lemma_first_bad_prefix(ws: Seq<Seq<char>>, k: int)
    requires
        0 <= k <= ws.len(),
        first_bad_word(ws.take(k)) >= 0,
    ensures
        first_bad_word(ws) == first_bad_word(ws.take(k)),
    decreases ws.len(),
{
    if k < ws.len() {
        assert(ws.drop_last().take(k) =~= ws.take(k));
        lemma_first_bad_prefix(ws.drop_last(), k);
    } else {
        assert(ws.take(k) =~= ws);
    }
}

/// The files of one zram device.
#[derive(Debug)]
pub struct ZramReadings {
    /// Device name (`/sys/block` entry).
    pub name: String,
    /// `disksize`.
    pub disksize: Result<String, IoFailure>,
    /// `mm_stat`.
    pub mm_stat: Result<String, IoFailure>,
}

/// Spec view of a zram device.
pub struct ZramView {
    /// Device name.
    pub device: Seq<char>,
    /// Disk size.
    pub disk_size_bytes: Option<u64>,
    /// Original data.
    pub original_data_bytes: Option<u64>,
    /// Compressed data.
    pub compressed_data_bytes: Option<u64>,
    /// Memory used.
    pub memory_used_bytes: Option<u64>,
}

impl View for ZramTelemetry {
    type V = ZramView;

    open spec fn view(&self) -> ZramView {
        ZramView {
            device: self.device@,
            disk_size_bytes: self.disk_size_bytes,
            original_data_bytes: self.original_data_bytes,
            compressed_data_bytes: self.compressed_data_bytes,
            memory_used_bytes: self.memory_used_bytes,
        }
    }
}

/// One zram device from its files: `disksize` is optional; `mm_stat` is
/// optional as a whole but, when present, must hold three values.
pub open spec fn zram_device(dir: Seq<char>, r: ZramReadings) -> Result<ZramView, ProviderErrorView> {
    match optional_u64_file(crate::paths::join(dir, "disksize"@), r.disksize) {
        Err(e) => Err(e),
        Ok(size) => match r.mm_stat {
            Err(f) => if f.kind == IoErrorKind::NotFound {
                Ok(
                    ZramView {
                        device: r.name@,
                        disk_size_bytes: size,
                        original_data_bytes: None,
                        compressed_data_bytes: None,
                        memory_used_bytes: None,
                    },
                )
            } else {
                Err(ProviderErrorView::Io(f@))
            },
            Ok(raw) => match mm_stat(r.name@, raw@) {
                Err(e) => Err(e),
                Ok((o, c, m)) => Ok(
                    ZramView {
                        device: r.name@,
                        disk_size_bytes: size,
                        original_data_bytes: Some(o),
                        compressed_data_bytes: Some(c),
                        memory_used_bytes: Some(m),
                    },
                ),
            },
        },
    }
}

/// Judge the files of one zram device below `dir` (its `/sys/block` path).
pub fn read_zram_device(dir: &str, r: &ZramReadings) -> (v: Result<ZramTelemetry, ProviderError>)
    ensures
        match zram_device(dir@, *r) {
            Ok(z) => v matches Ok(t) && t@ == z,
            Err(e) => v matches Err(err) && err@ == e,
        },
{
    let p = crate::paths::join_path(dir, "disksize");
    let size = match read_optional_u64(p.as_str(), &r.disksize) {
        Ok(s) => s,
        Err(e) => {
            return Err(e);
        },
    };
    match &r.mm_stat {
        Err(f) => match f.kind {
            IoErrorKind::NotFound => Ok(
                ZramTelemetry {
                    device: r.name.clone(),
                    disk_size_bytes: size,
                    original_data_bytes: None,
                    compressed_data_bytes: None,
                    memory_used_bytes: None,
                },
            ),
            _ => Err(ProviderError::Io(f.clone_failure())),
        },
        Ok(raw) => match parse_mm_stat(r.name.as_str(), raw.as_str()) {
            Err(e) => Err(e),
            Ok((o, c, m)) => Ok(
                ZramTelemetry {
                    device: r.name.clone(),
                    disk_size_bytes: size,
                    original_data_bytes: Some(o),
                    compressed_data_bytes: Some(c),
                    memory_used_bytes: Some(m),
                },
            ),
        },
    }
}

/// Whether devices are sorted by name.
pub open spec fn sorted_by_device(v: Seq<ZramTelemetry>) -> bool {
    forall|i: int, j: int| 0 <= i < j < v.len() ==> lex_le((#[trigger] v[i]).device@, (#[trigger] v[j]).device@)
}

fn clone_zram(z: &ZramTelemetry) -> (c: ZramTelemetry)
    ensures
        c == *z,
{
    ZramTelemetry {
        device: z.device.clone(),
        disk_size_bytes: z.disk_size_bytes,
        original_data_bytes: z.original_data_bytes,
        compressed_data_bytes: z.compressed_data_bytes,
        memory_used_bytes: z.memory_used_bytes,
    }
}

/// Sort devices by name; devices with equal names keep their order.
pub fn sort_zram_devices(v: &Vec<ZramTelemetry>) -> (r: Vec<ZramTelemetry>)
    ensures
        sorted_by_device(r@),
        r@.to_multiset() == v@.to_multiset(),
{
    broadcast use vstd::seq_lib::group_to_multiset_ensures;

    let mut r: Vec<ZramTelemetry> = Vec::new();
    let mut k: usize = 0;
    assert(v@.take(0) =~= Seq::<ZramTelemetry>::empty());
    while k < v.len()
        invariant
            0 <= k <= v@.len(),
            sorted_by_device(r@),
            r@.to_multiset() == v@.take(k as int).to_multiset(),
        decreases v@.len() - k,
    {
        let x = clone_zram(&v[k]);
        let mut p: usize = 0;
        while p < r.len() && lex_le_exec(r[p].device.as_str(), x.device.as_str())
            invariant
                0 <= p <= r@.len(),
                forall|i: int| 0 <= i < p ==> lex_le((#[trigger] r@[i]).device@, x.device@),
            decreases r@.len() - p,
        {
            p = p + 1;
        }
        let ghost old_r = r@;
        proof {
            if p < r@.len() {
                lemma_lex_total(r@[p as int].device@, x.device@);
            }
        }
        r.insert(p, x);
        proof {
            assert(r@ == old_r.insert(p as int, x));
            assert forall|i: int, j: int| 0 <= i < j < r@.len() implies lex_le(
                (#[trigger] r@[i]).device@,
                (#[trigger] r@[j]).device@,
            ) by {
                if j < p {
                    assert(r@[i] == old_r[i] && r@[j] == old_r[j]);
                } else if j == p {
                    assert(r@[i] == old_r[i]);
                } else if i < p {
                    assert(r@[i] == old_r[i] && r@[j] == old_r[j - 1]);
                    lemma_lex_trans(old_r[i].device@, x.device@, old_r[p as int].device@);
                    if j - 1 > p {
                        lemma_lex_trans(old_r[i].device@, old_r[p as int].device@, old_r[j - 1].device@);
                    }
                } else if i == p {
                    assert(r@[j] == old_r[j - 1]);
                    if j - 1 > p {
                        lemma_lex_trans(x.device@, old_r[p as int].device@, old_r[j - 1].device@);
                    }
                } else {
                    assert(r@[i] == old_r[i - 1] && r@[j] == old_r[j - 1]);
                }
            }
            assert(v@.take(k + 1) =~= v@.take(k as int).push(v@[k as int]));
            vstd::seq_lib::to_multiset_insert(old_r, p as int, x);
            vstd::seq_lib::to_multiset_build(v@.take(k as int), v@[k as int]);
        }
        k = k + 1;
    }
    assert(v@.take(v@.len() as int) =~= v@);
    r
}

/// The views of a list of zram devices.
pub open spec fn zram_views(v: Seq<ZramTelemetry>) -> Seq<ZramView> {
    v.map_values(|z: ZramTelemetry| z@)
}

/// The zram devices among the `/sys/block` entries, in entry order, or the
/// first failure.
pub open spec fn zram_collect(sys_block: Seq<char>, entries: Seq<ZramReadings>) -> Result<
    Seq<ZramView>,
    ProviderErrorView,
>
    decreases entries.len(),
{
    if entries.len() == 0 {
        Ok(seq![])
    } else {
        match zram_collect(sys_block, entries.drop_last()) {
            Err(e) => Err(e),
            Ok(vs) => {
                let e = entries.last();
                if !is_zram_name(e.name@) {
                    Ok(vs)
                } else {
                    match zram_device(crate::paths::join(sys_block, e.name@), e) {
                        Err(err) => Err(err),
                        Ok(z) => Ok(vs.push(z)),
                    }
                }
            },
        }
    }
}

proof fn lemma_zram_error_sticks(sys_block: Seq<char>, entries: Seq<ZramReadings>, k: int)
    requires
        0 <= k <= entries.len(),
        zram_collect(sys_block, entries.take(k)) is Err,
    ensures
        zram_collect(sys_block, entries) == zram_collect(sys_block, entries.take(k)),
    decreases entries.len(),
{
    if k < entries.len() {
        assert(entries.drop_last().take(k) =~= entries.take(k));
        lemma_zram_error_sticks(sys_block, entries.drop_last(), k);
    } else {
        assert(entries.take(k) =~= entries);
    }
}

/// The zram devices among the `/sys/block` entries, in entry order.
pub fn collect_zram_devices(sys_block: &str, entries: &Vec<ZramReadings>) -> (r: Result<Vec<ZramTelemetry>, ProviderError>)
    ensures
        match zram_collect(sys_block@, entries@) {
            Ok(vs) => r matches Ok(ds) && zram_views(ds@) == vs,
            Err(e) => r matches Err(err) && err@ == e,
        },
{
    let ghost all = entries@;
    let mut devices: Vec<ZramTelemetry> = Vec::new();
    let mut k: usize = 0;
    let n = entries.len();
    proof {
        assert(zram_views(devices@) =~= Seq::<ZramView>::empty());
        assert(all.take(0) =~= Seq::<ZramReadings>::empty());
    }
    while k < n
        invariant
            0 <= k <= n == all.len(),
            all == entries@,
            zram_collect(sys_block@, all.take(k as int)) == Ok::<Seq<ZramView>, ProviderErrorView>(zram_views(devices@)),
        decreases n - k,
    {
        let e = &entries[k];
        assert(all.take(k + 1).drop_last() =~= all.take(k as int));
        assert(all.take(k + 1).last() == all[k as int]);
        if is_zram_device(e.name.as_str()) {
            let dir = crate::paths::join_path(sys_block, e.name.as_str());
            match read_zram_device(dir.as_str(), e) {
                Ok(z) => {
                    let ghost before = zram_views(devices@);
                    devices.push(z);
                    assert(zram_views(devices@) =~= before.push(z@));
                },
                Err(err) => {
                    proof {
                        lemma_zram_error_sticks(sys_block@, all, k + 1);
                    }
                    return Err(err);
                },
            }
        }
        k = k + 1;
    }
    assert(all.take(n as int) =~= all);
    Ok(devices)
}

/// The zram devices among the `/sys/block` entries, sorted by name, or the
/// first failure.
pub fn zram_devices(sys_block: &str, entries: &Vec<ZramReadings>) -> (r: Result<Vec<ZramTelemetry>, ProviderError>)
    ensures
        match zram_collect(sys_block@, entries@) {
            Ok(vs) => r matches Ok(ds) && sorted_by_device(ds@) && exists|u: Seq<ZramTelemetry>|
                zram_views(u) == vs && #[trigger] u.to_multiset() == ds@.to_multiset(),
            Err(e) => r matches Err(err) && err@ == e,
        },
{
    match collect_zram_devices(sys_block, entries) {
        Ok(ds) => {
            let sorted = sort_zram_devices(&ds);
            assert(ds@.to_multiset() == sorted@.to_multiset());
            Ok(sorted)
        },
        Err(e) => Err(e),
    }
}

// ---------------------------------------------------------------------------
// Snapshots
// ---------------------------------------------------------------------------

/// zswap from its `enabled` parameter file: a missing file means unknown.
pub open spec fn zswap_of(r: Result<String, IoFailure>) -> Result<ZswapTelemetry, ProviderErrorView> {
    match r {
        Ok(raw) => match bool_parameter(raw@) {
            Ok(b) => Ok(ZswapTelemetry { enabled: b }),
            Err(e) => Err(e),
        },
        Err(f) => if f.kind == IoErrorKind::NotFound {
            Ok(ZswapTelemetry { enabled: None })
        } else {
            Err(ProviderErrorView::Io(f@))
        },
    }
}

/// zswap from its `enabled` parameter file.
pub fn zswap_from(r: &Result<String, IoFailure>) -> (v: Result<ZswapTelemetry, ProviderError>)
    ensures
        match zswap_of(*r) {
            Ok(z) => v == Ok::<ZswapTelemetry, ProviderError>(z),
            Err(e) => v matches Err(err) && err@ == e,
        },
{
    match r {
        Ok(raw) => match parse_bool_parameter(raw.as_str()) {
            Ok(b) => Ok(ZswapTelemetry { enabled: b }),
            Err(e) => Err(e),
        },
        Err(f) => match f.kind {
            IoErrorKind::NotFound => Ok(ZswapTelemetry { enabled: None }),
            _ => Err(ProviderError::Io(f.clone_failure())),
        },
    }
}

/// RAM/swap from `/proc/meminfo` (required) and memory pressure from
/// `/proc/pressure/memory` (optional: absent when the file does not exist).
pub open spec fn memory_snapshot_of(meminfo_read: Result<String, IoFailure>, pressure_read: Result<String, IoFailure>) -> Result<
    SystemMemoryTelemetry,
    ProviderErrorView,
> {
    match meminfo_read {
        Err(f) => Err(ProviderErrorView::Io(f@)),
        Ok(raw) => match meminfo(raw@) {
            Err(e) => Err(e),
            Ok(m) => match pressure_read {
                Ok(p) => match memory_pressure(p@) {
                    Ok(pr) => Ok(SystemMemoryTelemetry { pressure: Some(pr), ..m }),
                    Err(e) => Err(e),
                },
                Err(f) => if f.kind == IoErrorKind::NotFound {
                    Ok(SystemMemoryTelemetry { pressure: None, ..m })
                } else {
                    Err(ProviderErrorView::Io(f@))
                },
            },
        },
    }
}

/// RAM/swap and memory pressure from the two files.
pub fn memory_snapshot_from(
    meminfo_read: &Result<String, IoFailure>,
    pressure_read: &Result<String, IoFailure>,
) -> (v: Result<SystemMemoryTelemetry, ProviderError>)
    ensures
        match memory_snapshot_of(*meminfo_read, *pressure_read) {
            Ok(m) => v == Ok::<SystemMemoryTelemetry, ProviderError>(m),
            Err(e) => v matches Err(err) && err@ == e,
        },
{
    let raw = match meminfo_read {
        Err(f) => {
            return Err(ProviderError::Io(f.clone_failure()));
        },
        Ok(raw) => raw,
    };
    let mut m = match parse_meminfo(raw.as_str()) {
        Ok(m) => m,
        Err(e) => {
            return Err(e);
        },
    };
    m.pressure = match pressure_read {
        Ok(p) => match parse_memory_pressure(p.as_str()) {
            Ok(pr) => Some(pr),
            Err(e) => {
                return Err(e);
            },
        },
        Err(f) => match f.kind {
            IoErrorKind::NotFound => None,
            _ => {
                return Err(ProviderError::Io(f.clone_failure()));
            },
        },
    };
    Ok(m)
}

/// Fixed paths for Linux system memory telemetry.
#[derive(Debug, Clone)]
pub struct LinuxMemoryPaths {
    /// `/proc/meminfo`.
    pub meminfo: String,
    /// `/proc/pressure/memory`.
    pub pressure_memory: String,
    /// `/sys/block`.
    pub sys_block: String,
    /// `/sys/module/zswap/parameters/enabled`.
    pub zswap_enabled: String,
}

impl Default for LinuxMemoryPaths {
    fn default() -> (p: Self)
        ensures
            p.meminfo@ == "/proc/meminfo"@,
            p.pressure_memory@ == "/proc/pressure/memory"@,
            p.sys_block@ == "/sys/block"@,
            p.zswap_enabled@ == "/sys/module/zswap/parameters/enabled"@,
    {
        LinuxMemoryPaths {
            meminfo: "/proc/meminfo".to_owned(),
            pressure_memory: "/proc/pressure/memory".to_owned(),
            sys_block: "/sys/block".to_owned(),
            zswap_enabled: "/sys/module/zswap/parameters/enabled".to_owned(),
        }
    }
}

/// Linux read-only memory telemetry provider over the fixed kernel paths.
#[derive(Debug, Clone)]
pub struct LinuxSystemMemoryProvider {
    /// The kernel paths read.
    pub paths: LinuxMemoryPaths,
}

impl LinuxSystemMemoryProvider {
    /// Provider diagnostics.
    pub fn diagnostics(&self) -> (v: Vec<DiagnosticEntry>)
        ensures
            v@.len() == 1,
            v@[0].key@ == "provider.linux-system-memory"@,
            v@[0].value@ == "read-only /proc and /sys memory telemetry"@,
    {
        let mut v = Vec::new();
        v.push(DiagnosticEntry::new("provider.linux-system-memory", "read-only /proc and /sys memory telemetry"));
        v
    }

    /// The production provider over the canonical kernel paths.
    pub fn new() -> (p: Self)
        ensures
            p.paths.meminfo@ == "/proc/meminfo"@,
            p.paths.pressure_memory@ == "/proc/pressure/memory"@,
            p.paths.sys_block@ == "/sys/block"@,
            p.paths.zswap_enabled@ == "/sys/module/zswap/parameters/enabled"@,
    {
        LinuxSystemMemoryProvider { paths: LinuxMemoryPaths::default() }
    }
}

impl Default for LinuxSystemMemoryProvider {
    fn default() -> (p: Self)
        ensures
            p.paths.meminfo@ == "/proc/meminfo"@,
            p.paths.pressure_memory@ == "/proc/pressure/memory"@,
            p.paths.sys_block@ == "/sys/block"@,
            p.paths.zswap_enabled@ == "/sys/module/zswap/parameters/enabled"@,
    {
        LinuxSystemMemoryProvider::new()
    }
}

/// Splitting `key=value` at the first `=` gives the key back when the key
/// has no `=` of its own.
proof fn lemma_split_key_value(k: Seq<char>, v: Seq<char>)
    requires
        forall|i: int| 0 <= i < k.len() ==> k[i] != '=',
    ensures
        index_of(k + seq!['='] + v, '=') == k.len(),
        (k + seq!['='] + v).take(k.len() as int) == k,
        (k + seq!['='] + v).skip(k.len() as int + 1) == v,
    decreases k.len(),
{
    let w = k + seq!['='] + v;
    assert(w.take(k.len() as int) =~= k);
    assert(w.skip(k.len() as int + 1) =~= v);
    if k.len() > 0 {
        assert(w.drop_first() =~= k.drop_first() + seq!['='] + v);
        lemma_split_key_value(k.drop_first(), v);
    }
}

/// Each PSI average is taken from the word with its own key: a line whose
/// words after its kind are `avg10=a avg60=b avg300=c total=t`, all valid,
/// reads as `a`, `b` and `c` in basis points and `t` microseconds.
pub proof fn lemma_psi_fields_by_key(line: Seq<char>, kind: Seq<char>, a: Seq<char>, b: Seq<char>, c: Seq<char>, t: Seq<char>)
    requires
        words(line) == seq![kind, "avg10="@ + a, "avg60="@ + b, "avg300="@ + c, "total="@ + t],
        basis_points(a) is Ok,
        basis_points(b) is Ok,
        basis_points(c) is Ok,
        parse_unsigned(t, 10, u64::MAX as nat) is Ok,
    ensures
        psi_line(line, kind) == Ok::<PsiPressureLine, ProviderErrorView>(
            PsiPressureLine {
                avg10_basis_points: basis_points(a)->Ok_0,
                avg60_basis_points: basis_points(b)->Ok_0,
                avg300_basis_points: basis_points(c)->Ok_0,
                total_us: parse_unsigned(t, 10, u64::MAX as nat)->Ok_0 as u64,
            },
        ),
{
    reveal_strlit("avg10=");
    reveal_strlit("avg60=");
    reveal_strlit("avg300=");
    reveal_strlit("total=");
    reveal_strlit("avg10");
    reveal_strlit("avg60");
    reveal_strlit("avg300");
    reveal_strlit("total");
    assert("avg10="@ =~= "avg10"@ + seq!['=']);
    assert("avg60="@ =~= "avg60"@ + seq!['=']);
    assert("avg300="@ =~= "avg300"@ + seq!['=']);
    assert("total="@ =~= "total"@ + seq!['=']);
    lemma_split_key_value("avg10"@, a);
    lemma_split_key_value("avg60"@, b);
    lemma_split_key_value("avg300"@, c);
    lemma_split_key_value("total"@, t);
    let w1 = "avg10="@ + a;
    let w2 = "avg60="@ + b;
    let w3 = "avg300="@ + c;
    let w4 = "total="@ + t;
    assert(w1 =~= "avg10"@ + seq!['='] + a);
    assert(w2 =~= "avg60"@ + seq!['='] + b);
    assert(w3 =~= "avg300"@ + seq!['='] + c);
    assert(w4 =~= "total"@ + seq!['='] + t);
    let ws = words(line).skip(1);
    let init = Ok::<PsiFields, ProviderErrorView>(PsiFields { avg10: None, avg60: None, avg300: None, total: None });
    let q0 = Seq::<Seq<char>>::empty();
    let q1 = q0.push(w1);
    let q2 = q1.push(w2);
    let q3 = q2.push(w3);
    let q4 = q3.push(w4);
    assert(ws =~= q4);
    assert(q1.drop_last() =~= q0);
    assert(q2.drop_last() =~= q1);
    assert(q3.drop_last() =~= q2);
    assert(q4.drop_last() =~= q3);
    assert(psi_fields(q0) == init);
    let s1 = psi_field_step(init, w1);
    let s2 = psi_field_step(s1, w2);
    let s3 = psi_field_step(s2, w3);
    let s4 = psi_field_step(s3, w4);
    let pa = basis_points(a)->Ok_0;
    let pb = basis_points(b)->Ok_0;
    let pc = basis_points(c)->Ok_0;
    let pt = parse_unsigned(t, 10, u64::MAX as nat)->Ok_0 as u64;
    assert(index_of(w1, '=') == 5 && w1.take(5) == "avg10"@ && w1.skip(6) == a);
    assert(index_of(w2, '=') == 5 && w2.take(5) == "avg60"@ && w2.skip(6) == b);
    assert(index_of(w3, '=') == 6 && w3.take(6) == "avg300"@ && w3.skip(7) == c);
    assert(index_of(w4, '=') == 5 && w4.take(5) == "total"@ && w4.skip(6) == t);
    assert("avg60"@[3] != "avg10"@[3]);
    assert("avg300"@.len() != "avg10"@.len() && "avg300"@.len() != "avg60"@.len());
    assert("total"@[0] != "avg10"@[0] && "total"@[0] != "avg60"@[0] && "total"@[0] != "avg300"@[0]);
    assert(s1 == Ok::<PsiFields, ProviderErrorView>(PsiFields { avg10: Some(pa), avg60: None, avg300: None, total: None }));
    assert(s2 == Ok::<PsiFields, ProviderErrorView>(PsiFields { avg10: Some(pa), avg60: Some(pb), avg300: None, total: None }));
    assert(s3 == Ok::<PsiFields, ProviderErrorView>(PsiFields { avg10: Some(pa), avg60: Some(pb), avg300: Some(pc), total: None }));
    assert(s4 == Ok::<PsiFields, ProviderErrorView>(PsiFields { avg10: Some(pa), avg60: Some(pb), avg300: Some(pc), total: Some(pt) }));
    assert(psi_fields(q1) == s1);
    assert(psi_fields(q2) == s2);
    assert(psi_fields(q3) == s3);
    assert(psi_fields(q4) == s4);
    assert(psi_fields(ws) == s4);
}

} // verus!
