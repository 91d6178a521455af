//! Read-only evidence parser for the fixed RyzenAdj `--info` contract.
//!
//! RyzenAdj is never run from here and no setter exists. The `--info` table
//! can provide current values, but it does not establish authoritative
//! min/max/step metadata or a read-back contract, so the mutation capability
//! stays blocked.
use vstd::prelude::*;

use crate::diagnostics::DiagnosticEntry;
use crate::telemetry::opt_str;
use crate::text::{
    chars_of, find_char, lines, next_line, parse_unsigned, parse_unsigned_at, starts_with_at,
    string_of, str_eq, trim, trim_bounds, lex_le, lex_le_exec, lemma_lex_total, lemma_lex_trans,
};

verus! {

/// Explicit executable path used by the audited host.
pub const RYZENADJ_EXECUTABLE: &'static str = "/usr/bin/ryzenadj";

/// The only argument of the evidence probe; it does not mutate.
pub const RYZENADJ_INFO_ARG: &'static str = "--info";

/// The arguments of the evidence probe.
pub fn ryzenadj_info_args() -> (v: Vec<&'static str>)
    ensures
        v@.len() == 1,
        v@[0]@ == RYZENADJ_INFO_ARG@,
{
    let mut v: Vec<&'static str> = Vec::new();
    v.push(RYZENADJ_INFO_ARG);
    v
}

/// A current value parsed from one known RyzenAdj power/thermal table row.
#[derive(Debug, Clone, PartialEq, Eq)]
pub struct RyzenAdjCurrentValue {
    /// RyzenAdj CLI parameter name, for example `stapm-limit`.
    pub parameter: String,
    /// Raw value reported by RyzenAdj (`mW`, `mA`, degrees C, seconds, etc.).
    pub value: u32,
}

/// Structured, read-only result of parsing one `ryzenadj --info` attempt.
#[derive(Debug, Clone, PartialEq, Eq)]
pub struct RyzenAdjInfoEvidence {
    /// Reported RyzenAdj version, when present.
    pub version: Option<String>,
    /// Detected SMU kernel module, when present.
    pub kernel_module: Option<String>,
    /// Current values from the table, one per parameter, in parameter
    /// order; empty when initialization fails.
    pub current_values: Vec<RyzenAdjCurrentValue>,
    /// Initialization or command failure reported by the tool.
    pub failure: Option<String>,
    /// Exit status of the fixed `--info` invocation.
    pub exit_code: Option<i32>,
}

impl RyzenAdjInfoEvidence {
    /// `--info` does not expose authoritative min/max/step metadata.
    pub fn has_authoritative_metadata(&self) -> (b: bool)
        ensures
            !b,
    {
        false
    }

    /// Whether the evidence is sufficient to expose a write backend: never.
    pub fn supports_typed_mutation(&self) -> (b: bool)
        ensures
            !b,
    {
        false
    }

    /// The current value of `parameter`, if the table reported one.
    pub fn current_value(&self, parameter: &str) -> (r: Option<u32>)
        ensures
            r == lookup(value_pairs(self.current_values@), parameter@),
    {
        let mut i: usize = 0;
        while i < self.current_values.len()
            invariant
                0 <= i <= self.current_values@.len(),
                forall|k: int| 0 <= k < i ==> (#[trigger] value_pairs(self.current_values@)[k]).0 != parameter@,
            decreases self.current_values@.len() - i,
        {
            if str_eq(self.current_values[i].parameter.as_str(), parameter) {
                proof {
                    lemma_lookup_first(value_pairs(self.current_values@), parameter@, i as int);
                }
                return Some(self.current_values[i].value);
            }
            i = i + 1;
        }
        proof {
            lemma_lookup_absent(value_pairs(self.current_values@), parameter@);
        }
        None
    }
}

// ---------------------------------------------------------------------------
// Table of values in key order
// ---------------------------------------------------------------------------

/// The table as `(parameter, value)` pairs.
pub open spec fn value_pairs(v: Seq<RyzenAdjCurrentValue>) -> Seq<(Seq<char>, u32)> {
    v.map_values(|c: RyzenAdjCurrentValue| (c.parameter@, c.value))
}

/// Index of the first pair with key `k`, or `-1`.
pub open spec fn key_index(s: Seq<(Seq<char>, u32)>, k: Seq<char>) -> int
    decreases s.len(),
{
    if s.len() == 0 {
        -1
    } else {
        let r = key_index(s.drop_last(), k);
        if r >= 0 {
            r
        } else if s.last().0 == k {
            s.len() - 1
        } else {
            -1
        }
    }
}

/// The value of the first pair with key `k`.
pub open spec fn lookup(s: Seq<(Seq<char>, u32)>, k: Seq<char>) -> Option<u32> {
    let i = key_index(s, k);
    if 0 <= i < s.len() {
        Some(s[i].1)
    } else {
        None
    }
}

/// Where a new key `k` goes among entries in key order: after every entry
/// whose key sorts before or equal to it.
pub open spec fn insert_pos(s: Seq<(Seq<char>, u32)>, k: Seq<char>) -> int
    decreases s.len(),
{
    if s.len() == 0 {
        0
    } else if lex_le(s[0].0, k) {
        1 + insert_pos(s.drop_first(), k)
    } else {
        0
    }
}

/// Record `v` for `k`: replace the value of an existing key in place, or
/// insert a new pair at its place in key order.
pub open spec fn upsert(s: Seq<(Seq<char>, u32)>, k: Seq<char>, v: u32) -> Seq<(Seq<char>, u32)> {
    let i = key_index(s, k);
    if 0 <= i < s.len() {
        s.update(i, (k, v))
    } else {
        s.insert(insert_pos(s, k), (k, v))
    }
}

/// Keys strictly ascend, as in a map ordered by key.
pub open spec fn keys_sorted(s: Seq<(Seq<char>, u32)>) -> bool {
    forall|i: int, j: int| 0 <= i < j < s.len() ==> lex_le((#[trigger] s[i]).0, (#[trigger] s[j]).0) && s[i].0 != s[j].0
}

proof fn lemma_insert_pos(s: Seq<(Seq<char>, u32)>, k: Seq<char>)
    ensures
        0 <= insert_pos(s, k) <= s.len(),
        forall|j: int| 0 <= j < insert_pos(s, k) ==> lex_le((#[trigger] s[j]).0, k),
        insert_pos(s, k) < s.len() ==> !lex_le(s[insert_pos(s, k)].0, k),
    decreases s.len(),
{
    if s.len() > 0 && lex_le(s[0].0, k) {
        lemma_insert_pos(s.drop_first(), k);
        assert forall|j: int| 0 <= j < insert_pos(s, k) implies lex_le((#[trigger] s[j]).0, k) by {
            if j > 0 {
                assert(s[j] == s.drop_first()[j - 1]);
            }
        }
    }
}

proof fn lemma_insert_pos_is(s: Seq<(Seq<char>, u32)>, k: Seq<char>, p: int)
    requires
        0 <= p <= s.len(),
        forall|j: int| 0 <= j < p ==> lex_le((#[trigger] s[j]).0, k),
        p < s.len() ==> !lex_le(s[p].0, k),
    ensures
        insert_pos(s, k) == p,
    decreases p,
{
    if p > 0 {
        assert(lex_le(s[0].0, k));
        assert forall|j: int| 0 <= j < p - 1 implies lex_le((#[trigger] s.drop_first()[j]).0, k) by {
            assert(s.drop_first()[j] == s[j + 1]);
        }
        if p < s.len() {
            assert(s.drop_first()[p - 1] == s[p]);
        }
        lemma_insert_pos_is(s.drop_first(), k, p - 1);
    }
}

/// No key occurs twice.
pub open spec fn keys_unique(s: Seq<(Seq<char>, u32)>) -> bool {
    forall|i: int, j: int| 0 <= i < j < s.len() ==> (#[trigger] s[i]).0 != (#[trigger] s[j]).0
}

proof fn lemma_key_index(s: Seq<(Seq<char>, u32)>, k: Seq<char>)
    ensures
        -1 <= key_index(s, k) < s.len(),
        key_index(s, k) >= 0 ==> s[key_index(s, k)].0 == k,
        key_index(s, k) < 0 ==> forall|j: int| 0 <= j < s.len() ==> (#[trigger] s[j]).0 != k,
        forall|j: int| 0 <= j < key_index(s, k) ==> (#[trigger] s[j]).0 != k,
    decreases s.len(),
{
    if s.len() > 0 {
        lemma_key_index(s.drop_last(), k);
        assert forall|j: int| 0 <= j < s.len() - 1 implies s[j] == s.drop_last()[j] by {}
    }
}

proof fn lemma_lookup_first(s: Seq<(Seq<char>, u32)>, k: Seq<char>, i: int)
    requires
        0 <= i < s.len(),
        s[i].0 == k,
        forall|j: int| 0 <= j < i ==> (#[trigger] s[j]).0 != k,
    ensures
        lookup(s, k) == Some(s[i].1),
{
    lemma_key_index(s, k);
}

proof fn lemma_lookup_absent(s: Seq<(Seq<char>, u32)>, k: Seq<char>)
    requires
        forall|j: int| 0 <= j < s.len() ==> (#[trigger] s[j]).0 != k,
    ensures
        lookup(s, k) is None,
{
    lemma_key_index(s, k);
}

proof fn lemma_lookup_at(s: Seq<(Seq<char>, u32)>, i: int)
    requires
        keys_unique(s),
        0 <= i < s.len(),
    ensures
        lookup(s, s[i].0) == Some(s[i].1),
{
    assert forall|j: int| 0 <= j < i implies (#[trigger] s[j]).0 != s[i].0 by {
        assert(s[j].0 != s[i].0);
    }
    lemma_lookup_first(s, s[i].0, i);
}

/// Looking a key up in unique entries: the entry holding it, or nothing.
proof fn lemma_lookup_unique(s: Seq<(Seq<char>, u32)>, r: Seq<(Seq<char>, u32)>, key: Seq<char>)
    requires
        keys_unique(s),
        keys_unique(r),
        forall|j: int| 0 <= j < s.len() && (#[trigger] s[j]).0 == key ==> r.contains(s[j]),
        forall|j: int| 0 <= j < r.len() && (#[trigger] r[j]).0 == key ==> s.contains(r[j]),
    ensures
        lookup(r, key) == lookup(s, key),
{
    lemma_key_index(s, key);
    lemma_key_index(r, key);
    let a = key_index(s, key);
    let b = key_index(r, key);
    if a >= 0 {
        lemma_lookup_at(s, a);
        let jr = choose|j: int| 0 <= j < r.len() && r[j] == s[a];
        lemma_lookup_at(r, jr);
    } else if b >= 0 {
        let js = choose|j: int| 0 <= j < s.len() && s[j] == r[b];
        assert(s[js].0 == key);
    }
}

/// Recording a value keeps the keys in strictly ascending order (so unique),
/// makes the key look up to the new value, and leaves every other key's
/// value unchanged.
pub proof fn lemma_upsert(s: Seq<(Seq<char>, u32)>, k: Seq<char>, v: u32, other: Seq<char>)
    requires
        keys_sorted(s),
        other != k,
    ensures
        keys_sorted(upsert(s, k, v)),
        lookup(upsert(s, k, v), k) == Some(v),
        lookup(upsert(s, k, v), other) == lookup(s, other),
{
    lemma_key_index(s, k);
    let r = upsert(s, k, v);
    let i = key_index(s, k);
    if 0 <= i < s.len() {
        assert forall|a: int, b: int| 0 <= a < b < r.len() implies lex_le((#[trigger] r[a]).0, (#[trigger] r[b]).0)
            && r[a].0 != r[b].0 by {
            assert(s[a].0 == r[a].0 && s[b].0 == r[b].0);
        }
        assert(r[i] == (k, v));
        lemma_lookup_at(r, i);
        assert forall|j: int| 0 <= j < s.len() && (#[trigger] s[j]).0 == other implies r.contains(s[j]) by {
            assert(j != i);
            assert(r[j] == s[j]);
        }
        assert forall|j: int| 0 <= j < r.len() && (#[trigger] r[j]).0 == other implies s.contains(r[j]) by {
            assert(j != i);
            assert(r[j] == s[j]);
        }
        lemma_lookup_unique(s, r, other);
    } else {
        lemma_insert_pos(s, k);
        let p = insert_pos(s, k);
        assert forall|j: int| p <= j < s.len() implies lex_le(k, (#[trigger] s[j]).0) && s[j].0 != k by {
            lemma_lex_total(s[p].0, k);
            if j > p {
                assert(lex_le(s[p].0, s[j].0));
                if lex_le(s[j].0, k) {
                    lemma_lex_trans(s[p].0, s[j].0, k);
                }
                lemma_lex_total(s[j].0, k);
            }
        }
        assert forall|a: int, b: int| 0 <= a < b < r.len() implies lex_le((#[trigger] r[a]).0, (#[trigger] r[b]).0)
            && r[a].0 != r[b].0 by {
            if b < p {
                assert(r[a] == s[a] && r[b] == s[b]);
            } else if b == p {
                assert(r[a] == s[a]);
            } else if a < p {
                assert(r[a] == s[a] && r[b] == s[b - 1]);
                lemma_lex_trans(s[a].0, k, s[b - 1].0);
            } else if a == p {
                assert(r[b] == s[b - 1]);
            } else {
                assert(r[a] == s[a - 1] && r[b] == s[b - 1]);
            }
        }
        assert(r[p] == (k, v));
        lemma_lookup_at(r, p);
        assert forall|j: int| 0 <= j < s.len() && (#[trigger] s[j]).0 == other implies r.contains(s[j]) by {
            if j < p {
                assert(r[j] == s[j]);
            } else {
                assert(r[j + 1] == s[j]);
            }
        }
        assert forall|j: int| 0 <= j < r.len() && (#[trigger] r[j]).0 == other implies s.contains(r[j]) by {
            if j < p {
                assert(r[j] == s[j]);
            } else if j > p {
                assert(r[j] == s[j - 1]);
            }
        }
        lemma_lookup_unique(s, r, other);
    }
}

// ---------------------------------------------------------------------------
// Meaning of the output
// ---------------------------------------------------------------------------

/// What the parse has collected so far.
pub struct InfoState {
    /// Version text.
    pub version: Option<Seq<char>>,
    /// Kernel module name.
    pub kernel_module: Option<Seq<char>>,
    /// Table values.
    pub values: Seq<(Seq<char>, u32)>,
    /// Failure line.
    pub failure: Option<Seq<char>>,
}

/// Whether a table parameter token is a lowercase CLI parameter name.
pub open spec fn is_parameter(p: Seq<char>) -> bool {
    p.len() > 0 && forall|i: int| 0 <= i < p.len() ==> ('a' <= #[trigger] p[i] <= 'z' || p[i] == '-')
}

/// `split('|')` of a table row after its leading `|`.
pub open spec fn row_cells(line: Seq<char>) -> Seq<Seq<char>> {
    crate::text::split_char(line.skip(1), '|')
}

/// One output line. Its trimmed text may set the version (`Version:`), the
/// kernel module (`detected compatible <m> kernel module`; a line without
/// the suffix clears it) or the failure (`Unable to ...`, the whole line).
/// A table row (`| name | value | parameter |`) with a lowercase parameter
/// token and a `u32` value records that value for the parameter.
pub open spec fn info_step(st: InfoState, raw: Seq<char>) -> InfoState {
    let line = trim(raw);
    let st1 = if "Version:"@.is_prefix_of(line) {
        InfoState { version: Some(trim(line.skip(8))), ..st }
    } else if "detected compatible "@.is_prefix_of(line) {
        let rest = line.skip(20);
        InfoState {
            kernel_module: if " kernel module"@.is_suffix_of(rest) {
                Some(rest.take(rest.len() - 14))
            } else {
                None
            },
            ..st
        }
    } else if "Unable to "@.is_prefix_of(line) {
        InfoState { failure: Some(line), ..st }
    } else {
        st
    };
    if line.len() > 0 && line[0] == '|' && row_cells(line).len() >= 3 {
        let param = trim(row_cells(line)[2]);
        let value = parse_unsigned(trim(row_cells(line)[1]), 10, u32::MAX as nat);
        if is_parameter(param) && value is Ok {
            InfoState { values: upsert(st1.values, param, value.unwrap() as u32), ..st1 }
        } else {
            st1
        }
    } else {
        st1
    }
}

/// The state after some lines.
pub open spec fn info_fold(st: InfoState, ls: Seq<Seq<char>>) -> InfoState {
    ls.fold_left(st, |s: InfoState, l: Seq<char>| info_step(s, l))
}

/// The state after the lines of stdout, then those of stderr.
pub open spec fn info_state(stdout: Seq<char>, stderr: Seq<char>) -> InfoState {
    info_fold(
        InfoState { version: None, kernel_module: None, values: seq![], failure: None },
        lines(stdout) + lines(stderr),
    )
}

/// A line keeps the table in key order.
proof fn lemma_info_step_sorted(st: InfoState, raw: Seq<char>)
    requires
        keys_sorted(st.values),
    ensures
        keys_sorted(info_step(st, raw).values),
{
    let line = trim(raw);
    if line.len() > 0 && line[0] == '|' && row_cells(line).len() >= 3 {
        let param = trim(row_cells(line)[2]);
        let value = parse_unsigned(trim(row_cells(line)[1]), 10, u32::MAX as nat);
        if is_parameter(param) && value is Ok {
            lemma_upsert(st.values, param, value.unwrap() as u32, param.push('x'));
        }
    }
}

// ---------------------------------------------------------------------------
// Executable parser
// ---------------------------------------------------------------------------

struct InfoAcc {
    version: Option<String>,
    kernel_module: Option<String>,
    values: Vec<RyzenAdjCurrentValue>,
    failure: Option<String>,
}

spec fn acc_state(a: InfoAcc) -> InfoState {
    InfoState {
        version: opt_str(a.version),
        kernel_module: opt_str(a.kernel_module),
        values: value_pairs(a.values@),
        failure: opt_str(a.failure),
    }
}

fn upsert_value(values: &mut Vec<RyzenAdjCurrentValue>, parameter: String, value: u32)
    ensures
        value_pairs(final(values)@) == upsert(value_pairs(old(values)@), parameter@, value),
{
    let ghost s = value_pairs(values@);
    proof {
        lemma_key_index(s, parameter@);
    }
    let mut i: usize = 0;
    while i < values.len()
        invariant
            0 <= i <= values@.len(),
            s == value_pairs(values@),
            s == value_pairs(old(values)@),
            -1 <= key_index(s, parameter@) < s.len(),
            key_index(s, parameter@) >= 0 ==> s[key_index(s, parameter@)].0 == parameter@,
            key_index(s, parameter@) < 0 ==> forall|j: int|
                0 <= j < s.len() ==> (#[trigger] s[j]).0 != parameter@,
            forall|j: int| 0 <= j < key_index(s, parameter@) ==> (#[trigger] s[j]).0 != parameter@,
            forall|j: int| 0 <= j < i ==> (#[trigger] s[j]).0 != parameter@,
        decreases values@.len() - i,
    {
        if str_eq(values[i].parameter.as_str(), parameter.as_str()) {
            assert(s[i as int].0 == parameter@);
            assert(key_index(s, parameter@) == i as int);
            let ghost entry = (parameter@, value);
            values.set(i, RyzenAdjCurrentValue { parameter, value });
            assert(value_pairs(values@) =~= s.update(i as int, entry));
            return;
        }
        i = i + 1;
    }
    let mut p: usize = 0;
    while p < values.len() && lex_le_exec(values[p].parameter.as_str(), parameter.as_str())
        invariant
            0 <= p <= values@.len(),
            s == value_pairs(values@),
            forall|j: int| 0 <= j < p ==> lex_le((#[trigger] s[j]).0, parameter@),
        decreases values@.len() - p,
    {
        p = p + 1;
    }
    proof {
        lemma_insert_pos_is(s, parameter@, p as int);
    }
    let ghost entry = (parameter@, value);
    values.insert(p, RyzenAdjCurrentValue { parameter, value });
    assert(value_pairs(values@) =~= s.insert(p as int, entry));
}

/// The bounds of the second and third cell of a table row `cs[0..n]` that
/// starts with `|`, when the row has at least three cells.
fn table_cells(cs: &Vec<char>, n: usize) -> (r: Option<((usize, usize), (usize, usize))>)
    requires
        0 < n == cs@.len(),
        cs@[0] == '|',
    ensures
        match r {
            Some(((a1, b1), (a2, b2))) => row_cells(cs@).len() >= 3 && a1 <= b1 <= n && a2 <= b2 <= n
                && row_cells(cs@)[1] == cs@.subrange(a1 as int, b1 as int) && row_cells(cs@)[2]
                == cs@.subrange(a2 as int, b2 as int),
            None => row_cells(cs@).len() < 3,
        },
{
    let ghost s = cs@.skip(1);
    assert(s =~= cs@.subrange(1, n as int));
    let j1 = match find_char(cs, 1, n, '|') {
        Some(j) => j,
        None => {
            assert(row_cells(cs@) =~= seq![s]);
            return None;
        },
    };
    let ghost s1 = s.skip(j1 - 1 + 1);
    assert(s1 =~= cs@.subrange(j1 + 1, n as int));
    assert(row_cells(cs@) == seq![s.take(j1 - 1)] + crate::text::split_char(s1, '|'));
    let j2 = match find_char(cs, j1 + 1, n, '|') {
        Some(j) => j,
        None => {
            assert(crate::text::split_char(s1, '|') =~= seq![s1]);
            return None;
        },
    };
    let ghost s2 = s1.skip(j2 - (j1 + 1) + 1);
    assert(s2 =~= cs@.subrange(j2 + 1, n as int));
    assert(crate::text::split_char(s1, '|') == seq![s1.take(j2 - (j1 + 1))]
        + crate::text::split_char(s2, '|'));
    assert(s1.take(j2 - (j1 + 1)) =~= cs@.subrange(j1 + 1, j2 as int));
    let end = match find_char(cs, j2 + 1, n, '|') {
        Some(j) => {
            assert(s2.take(j - (j2 + 1)) =~= cs@.subrange(j2 + 1, j as int));
            assert(crate::text::split_char(s2, '|')[0] == cs@.subrange(j2 + 1, j as int));
            j
        },
        None => {
            assert(crate::text::split_char(s2, '|')[0] == s2);
            n
        },
    };
    assert(row_cells(cs@)[1] == cs@.subrange(j1 + 1, j2 as int));
    assert(row_cells(cs@)[2] == cs@.subrange(j2 + 1, end as int));
    Some(((j1 + 1, j2), (j2 + 1, end)))
}

fn is_parameter_at(cs: &Vec<char>, a: usize, b: usize) -> (r: bool)
    requires
        a <= b <= cs@.len(),
    ensures
        r == is_parameter(cs@.subrange(a as int, b as int)),
{
    let ghost p = cs@.subrange(a as int, b as int);
    if a == b {
        return false;
    }
    let mut i = a;
    while i < b
        invariant
            a <= i <= b <= cs@.len(),
            p == cs@.subrange(a as int, b as int),
            forall|k: int| 0 <= k < i - a ==> ('a' <= #[trigger] p[k] <= 'z' || p[k] == '-'),
        decreases b - i,
    {
        let c = cs[i];
        if !(('a' <= c && c <= 'z') || c == '-') {
            assert(p[i - a] == c);
            return false;
        }
        i = i + 1;
    }
    true
}

fn apply_line(acc: &mut InfoAcc, raw: &str)
    ensures
        acc_state(*final(acc)) == info_step(acc_state(*old(acc)), raw@),
{
    let cs0 = chars_of(raw);
    let (ta, tb) = trim_bounds(&cs0, 0, cs0.len());
    assert(cs0@.subrange(0, cs0@.len() as int) =~= raw@);
    let t = string_of(&cs0, ta, tb);
    let cs = chars_of(t.as_str());
    let n = cs.len();
    let ghost line = trim(raw@);
    assert(cs@ == line);
    assert(cs@.subrange(0, n as int) =~= cs@);
    if starts_with_at(&cs, 0, n, "Version:") {
        proof {
            reveal_strlit("Version:");
        }
        let v = string_of(&cs, 8, n);
        assert(line.skip(8) =~= v@);
        acc.version = Some(crate::text::trimmed(v.as_str()));
    } else if starts_with_at(&cs, 0, n, "detected compatible ") {
        proof {
            reveal_strlit("detected compatible ");
            reveal_strlit(" kernel module");
        }
        let ghost rest = line.skip(20);
        assert(rest =~= cs@.subrange(20, n as int));
        if n - 20 >= 14 && starts_with_at(&cs, n - 14, n, " kernel module") {
            assert(cs@.subrange(n - 14, n as int) =~= " kernel module"@);
            assert(rest.subrange(rest.len() - 14, rest.len() as int) =~= cs@.subrange(n - 14, n as int));
            assert(rest.take(rest.len() - 14) =~= cs@.subrange(20, n - 14));
            acc.kernel_module = Some(string_of(&cs, 20, n - 14));
        } else {
            if n - 20 >= 14 {
                assert(rest.subrange(rest.len() - 14, rest.len() as int) =~= cs@.subrange(n - 14, n as int));
                assert(!(" kernel module"@.is_prefix_of(cs@.subrange(n - 14, n as int))));
                assert(cs@.subrange(n - 14, n as int) != " kernel module"@) by {
                    if cs@.subrange(n - 14, n as int) == " kernel module"@ {
                        assert(" kernel module"@.is_prefix_of(cs@.subrange(n - 14, n as int)));
                    }
                }
            }
            acc.kernel_module = None;
        }
    } else if starts_with_at(&cs, 0, n, "Unable to ") {
        acc.failure = Some(string_of(&cs, 0, n));
    }
    let ghost st1 = acc_state(*acc);
    if n > 0 && cs[0] == '|' {
        match table_cells(&cs, n) {
            Some(((a1, b1), (a2, b2))) => {
                let (pa, pb) = trim_bounds(&cs, a2, b2);
                let (va, vb) = trim_bounds(&cs, a1, b1);
                let param_ok = is_parameter_at(&cs, pa, pb);
                let value = parse_unsigned_at(&cs, va, vb, 10, 0xffff_ffff);
                if param_ok {
                    match value {
                        Ok(v) => {
                            let p = string_of(&cs, pa, pb);
                            upsert_value(&mut acc.values, p, v as u32);
                        },
                        Err(_) => {},
                    }
                }
            },
            None => {},
        }
    }
}

/// Parse the bounded output of the fixed `ryzenadj --info` invocation.
///
/// Only known table rows with a lowercase CLI parameter token and an integer
/// value are accepted. Free-form output is kept only as a short failure
/// detail; a run that did not exit with 0 and reported no failure line is
/// recorded as an unsuccessful exit.
pub fn parse_info_output(stdout: &str, stderr: &str, exit_code: Option<i32>) -> (e: RyzenAdjInfoEvidence)
    ensures
        opt_str(e.version) == info_state(stdout@, stderr@).version,
        opt_str(e.kernel_module) == info_state(stdout@, stderr@).kernel_module,
        value_pairs(e.current_values@) == info_state(stdout@, stderr@).values,
        keys_sorted(value_pairs(e.current_values@)),
        opt_str(e.failure) == if info_state(stdout@, stderr@).failure is None && exit_code != Some(
            0i32,
        ) {
            Some("ryzenadj --info exited unsuccessfully"@)
        } else {
            info_state(stdout@, stderr@).failure
        },
        e.exit_code == exit_code,
{
    let mut acc = InfoAcc { version: None, kernel_module: None, values: Vec::new(), failure: None };
    let ghost all = lines(stdout@) + lines(stderr@);
    let ghost init = InfoState { version: None, kernel_module: None, values: seq![], failure: None };
    assert(acc_state(acc) =~= init) by {
        assert(value_pairs(acc.values@) =~= Seq::<(Seq<char>, u32)>::empty());
    }
    assert(keys_sorted(value_pairs(acc.values@)));
    let ghost mut done: Seq<Seq<char>> = seq![];
    let mut stream: usize = 0;
    while stream < 2
        invariant
            0 <= stream <= 2,
            acc_state(acc) == info_fold(init, done),
            keys_sorted(value_pairs(acc.values@)),
            stream == 0 ==> done.len() == 0,
            stream == 1 ==> done == lines(stdout@),
            stream == 2 ==> done == all,
            all == lines(stdout@) + lines(stderr@),
        decreases 2 - stream,
    {
        let text = if stream == 0 {
            stdout
        } else {
            stderr
        };
        let cs = chars_of(text);
        let n = cs.len();
        let mut pos: usize = 0;
        let ghost base = done;
        assert(cs@.subrange(0, n as int) =~= text@);
        while pos < n
            invariant
                0 <= pos <= n == cs@.len(),
                acc_state(acc) == info_fold(init, done),
                keys_sorted(value_pairs(acc.values@)),
                lines(text@) == done.subrange(base.len() as int, done.len() as int) + lines(
                    cs@.subrange(pos as int, n as int),
                ),
                base.is_prefix_of(done),
            decreases n - pos,
        {
            let (a, b, next) = next_line(&cs, pos, n);
            let l = string_of(&cs, a, b);
            let ghost before = acc_state(acc);
            apply_line(&mut acc, l.as_str());
            proof {
                lemma_info_step_sorted(before, l@);
                let nd = done.push(l@);
                assert(nd.drop_last() =~= done);
                assert(nd.subrange(base.len() as int, nd.len() as int) + lines(
                    cs@.subrange(next as int, n as int),
                ) =~= done.subrange(base.len() as int, done.len() as int) + (seq![l@] + lines(
                    cs@.subrange(next as int, n as int),
                )));
                done = nd;
            }
            pos = next;
        }
        proof {
            assert(lines(cs@.subrange(n as int, n as int)) =~= Seq::<Seq<char>>::empty()) by {
                assert(cs@.subrange(n as int, n as int).len() == 0);
            }
            assert(done =~= base + lines(text@));
        }
        stream = stream + 1;
    }
    let failure = if acc.failure.is_none() && !matches!(exit_code, Some(0)) {
        Some("ryzenadj --info exited unsuccessfully".to_owned())
    } else {
        acc.failure
    };
    RyzenAdjInfoEvidence {
        version: acc.version,
        kernel_module: acc.kernel_module,
        current_values: acc.values,
        failure,
        exit_code,
    }
}

/// Diagnostic entries that make the blocked mutation decision explicit.
pub fn diagnostics() -> (v: Vec<DiagnosticEntry>)
    ensures
        v@.len() == 2,
        v@[0].key@ == "backend.ryzenadj.contract"@,
        v@[0].value@ == "read-only candidate: executable=/usr/bin/ryzenadj; args=ryzenadj --info; no Orbis typed writer"@,
        v@[1].key@ == "backend.ryzenadj.write-status"@,
        v@[1].value@ == "blocked: --info has no authoritative min/max/step metadata and no proven read-back; no sudo/generic command path"@,
{
    let mut v: Vec<DiagnosticEntry> = Vec::new();
    v.push(
        DiagnosticEntry::new(
            "backend.ryzenadj.contract",
            "read-only candidate: executable=/usr/bin/ryzenadj; args=ryzenadj --info; no Orbis typed writer",
        ),
    );
    v.push(
        DiagnosticEntry::new(
            "backend.ryzenadj.write-status",
            "blocked: --info has no authoritative min/max/step metadata and no proven read-back; no sudo/generic command path",
        ),
    );
    v
}

} // verus!
