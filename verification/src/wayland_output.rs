//! Read-only Wayland display outputs (a compositor session concern).
//!
//! Two layers:
//! 1. a pure aggregator ([`WaylandOutputAggregator`]): a deterministic state
//!    machine over typed events ([`OutputEvent`]) that mirror `wl_output`;
//! 2. the compositor adapter, where the host connects, binds `wl_output`
//!    globals and hands each event to [`WaylandState::event`].
//!
//! The `wl_output` contract (wayland.xml):
//! - `mode` carries flags (current = 0x1, preferred = 0x2), width and height
//!   in hardware units and refresh in mHz;
//! - the current mode is always the last mode received with the current
//!   flag set; non-current modes are optional;
//! - refresh 0 means "not meaningful for this output";
//! - `name` (v4+) is a runtime identity, not necessarily a DRM connector;
//! - `done` (v2+) closes an atomic batch of events.
//!
//! Nothing here configures or sets a mode.
use vstd::prelude::*;
use vstd::string::*;

use crate::diagnostics::DiagnosticEntry;
use crate::error::{ProviderError, ProviderErrorView};
use crate::keyed::{distinct_keys, lemma_lookup_absent, lemma_lookup_distinct, lemma_lookup_remove, lemma_lookup_update, lookup};
use crate::text::{concat2, decimal, lex_le, lex_le_exec, lemma_lex_total, lemma_lex_trans, str_eq, to_decimal};

verus! {

/// A refresh rate in millihertz, kept exactly (0 means not meaningful).
#[derive(Debug, Clone, Copy, PartialEq, Eq, Structural)]
pub struct RefreshMilliHz(pub u32);

impl RefreshMilliHz {
    /// The rate.
    pub open spec fn value(self) -> u32 {
        self.0
    }

    /// A rate.
    pub fn new(millihertz: u32) -> (r: Self)
        ensures
            r.value() == millihertz,
    {
        RefreshMilliHz(millihertz)
    }

    /// The rate in millihertz.
    pub fn get(&self) -> (v: u32)
        ensures
            v == self.value(),
    {
        self.0
    }
}

/// A display mode.
#[derive(Debug, Clone, Copy, PartialEq, Eq, Structural)]
pub struct DisplayMode {
    /// Width in hardware units.
    pub width: u32,
    /// Height in hardware units.
    pub height: u32,
    /// Refresh rate.
    pub refresh: RefreshMilliHz,
}

impl DisplayMode {
    /// A mode.
    pub fn new(width: u32, height: u32, refresh: RefreshMilliHz) -> (m: Self)
        ensures
            m == (DisplayMode { width, height, refresh }),
    {
        DisplayMode { width, height, refresh }
    }
}

/// A typed `wl_output` event.
#[derive(Debug, Clone, PartialEq, Eq)]
pub enum OutputEvent {
    /// `wl_output.mode`.
    Mode {
        /// The `current` flag (0x1).
        current: bool,
        /// The `preferred` flag (0x2).
        preferred: bool,
        /// Width in hardware units.
        width: u32,
        /// Height in hardware units.
        height: u32,
        /// Refresh in mHz.
        refresh: u32,
    },
    /// `wl_output.name` (v4+).
    Name(String),
    /// `wl_output.done` (v2+).
    Done,
}

/// What the aggregator knows of one output.
pub struct AccView {
    /// Runtime name, if the compositor sent one.
    pub name: Option<Seq<char>>,
    /// The last mode received with the current flag.
    pub current: Option<DisplayMode>,
    /// The last mode received with the preferred flag.
    pub preferred: Option<DisplayMode>,
    /// Every mode received without the current flag, in order.
    pub available: Seq<DisplayMode>,
}

/// An output before any event.
pub open spec fn empty_acc() -> AccView {
    AccView { name: None, current: None, preferred: None, available: Seq::empty() }
}

/// One event applied to an output: a current mode replaces the current one,
/// a preferred mode replaces the preferred one, a non-current mode is
/// recorded as available, a name replaces the name, `done` changes nothing.
pub open spec fn acc_apply(a: AccView, e: OutputEvent) -> AccView {
    match e {
        OutputEvent::Mode { current, preferred, width, height, refresh } => {
            let m = DisplayMode { width, height, refresh: RefreshMilliHz(refresh) };
            AccView {
                name: a.name,
                current: if current {
                    Some(m)
                } else {
                    a.current
                },
                preferred: if preferred {
                    Some(m)
                } else {
                    a.preferred
                },
                available: if !current {
                    a.available.push(m)
                } else {
                    a.available
                },
            }
        },
        OutputEvent::Name(n) => AccView { name: Some(n@), ..a },
        OutputEvent::Done => a,
    }
}

/// Accumulated state of one output.
#[derive(Debug, Clone, PartialEq, Eq)]
struct OutputAccumulator {
    name: Option<String>,
    current: Option<DisplayMode>,
    preferred: Option<DisplayMode>,
    available: Vec<DisplayMode>,
}

impl View for OutputAccumulator {
    type V = AccView;

    closed spec fn view(&self) -> AccView {
        AccView {
            name: match self.name {
                Some(n) => Some(n@),
                None => None,
            },
            current: self.current,
            preferred: self.preferred,
            available: self.available@,
        }
    }
}

/// A copy of a list of modes.
fn copy_modes(v: &Vec<DisplayMode>) -> (r: Vec<DisplayMode>)
    ensures
        r@ == v@,
{
    let mut r: Vec<DisplayMode> = Vec::new();
    let mut i: usize = 0;
    while i < v.len()
        invariant
            0 <= i <= v@.len(),
            r@ == v@.take(i as int),
        decreases v@.len() - i,
    {
        r.push(v[i]);
        assert(v@.take(i + 1) =~= v@.take(i as int).push(v@[i as int]));
        i = i + 1;
    }
    assert(v@.take(v@.len() as int) =~= v@);
    r
}

impl OutputAccumulator {
    fn clone_acc(&self) -> (c: Self)
        ensures
            c@ == self@,
    {
        OutputAccumulator {
            name: match &self.name {
                Some(n) => Some(n.clone()),
                None => None,
            },
            current: self.current,
            preferred: self.preferred,
            available: copy_modes(&self.available),
        }
    }

    fn new() -> (a: Self)
        ensures
            a@ == empty_acc(),
    {
        OutputAccumulator { name: None, current: None, preferred: None, available: Vec::new() }
    }

    fn apply(&mut self, event: &OutputEvent)
        ensures
            final(self)@ == acc_apply(old(self)@, *event),
    {
        match event {
            OutputEvent::Mode { current, preferred, width, height, refresh } => {
                let mode = DisplayMode::new(*width, *height, RefreshMilliHz::new(*refresh));
                if *current {
                    self.current = Some(mode);
                }
                if *preferred {
                    self.preferred = Some(mode);
                }
                if !*current {
                    self.available.push(mode);
                }
            },
            OutputEvent::Name(name) => {
                self.name = Some(name.clone());
            },
            OutputEvent::Done => {},
        }
    }
}

/// Identity of a display output.
#[derive(Debug, Clone, PartialEq, Eq)]
pub struct DisplayOutputId(String);

impl View for DisplayOutputId {
    type V = Seq<char>;

    closed spec fn view(&self) -> Seq<char> {
        self.0@
    }
}

impl DisplayOutputId {
    /// An identity.
    pub fn new(id: String) -> (r: Self)
        ensures
            r@ == id@,
    {
        DisplayOutputId(id)
    }

    /// A copy of the identity.
    pub fn clone_id(&self) -> (c: Self)
        ensures
            c@ == self@,
    {
        DisplayOutputId(self.0.clone())
    }

    /// The identity text.
    pub fn as_str(&self) -> (s: &str)
        ensures
            s@ == self@,
    {
        self.0.as_str()
    }
}

/// The current mode of an output and its preferred mode, if any.
#[derive(Debug, Clone, Copy, PartialEq, Eq, Structural)]
pub struct CurrentDisplayMode {
    /// Current mode.
    pub current: DisplayMode,
    /// Preferred mode.
    pub preferred: Option<DisplayMode>,
}

/// One published output.
#[derive(Debug, Clone, PartialEq, Eq)]
pub struct DisplayOutputState {
    /// Runtime identity.
    pub id: DisplayOutputId,
    /// Current and preferred mode.
    pub current_mode: CurrentDisplayMode,
    /// Non-current modes the compositor sent.
    pub available_modes: Vec<DisplayMode>,
}

/// Spec view of a published output.
pub struct OutputStateView {
    /// Identity.
    pub id: Seq<char>,
    /// Current and preferred mode.
    pub current_mode: CurrentDisplayMode,
    /// Non-current modes.
    pub available_modes: Seq<DisplayMode>,
}

impl View for DisplayOutputState {
    type V = OutputStateView;

    open spec fn view(&self) -> OutputStateView {
        OutputStateView {
            id: self.id@,
            current_mode: self.current_mode,
            available_modes: self.available_modes@,
        }
    }
}

/// A snapshot of the published outputs.
#[derive(Debug, Clone, PartialEq, Eq)]
pub struct DisplayOutputSnapshot {
    /// Outputs, ordered by identity.
    pub outputs: Vec<DisplayOutputState>,
}

/// The views of a list of outputs.
pub open spec fn state_views(v: Seq<DisplayOutputState>) -> Seq<OutputStateView> {
    v.map_values(|s: DisplayOutputState| s@)
}

/// Whether outputs are ordered by identity.
pub open spec fn sorted_by_id(v: Seq<OutputStateView>) -> bool {
    forall|i: int, j: int| 0 <= i < j < v.len() ==> lex_le((#[trigger] v[i]).id, (#[trigger] v[j]).id)
}

/// The outputs of `v` with identity `id`, in their order.
pub open spec fn with_id(v: Seq<OutputStateView>, id: Seq<char>) -> Seq<OutputStateView>
    decreases v.len(),
{
    if v.len() == 0 {
        v
    } else {
        with_id(v.drop_last(), id) + if v.last().id == id {
            seq![v.last()]
        } else {
            Seq::<OutputStateView>::empty()
        }
    }
}

proof fn lemma_with_id_concat(a: Seq<OutputStateView>, b: Seq<OutputStateView>, id: Seq<char>)
    ensures
        with_id(a + b, id) == with_id(a, id) + with_id(b, id),
    decreases b.len(),
{
    if b.len() == 0 {
        assert(a + b =~= a);
        assert(with_id(a, id) + with_id(b, id) =~= with_id(a, id));
    } else {
        assert((a + b).drop_last() =~= a + b.drop_last());
        lemma_with_id_concat(a, b.drop_last(), id);
        assert((a + b).last() == b.last());
        let tail = if b.last().id == id {
            seq![b.last()]
        } else {
            Seq::<OutputStateView>::empty()
        };
        assert(with_id(a, id) + with_id(b.drop_last(), id) + tail =~= with_id(a, id) + (with_id(
            b.drop_last(),
            id,
        ) + tail));
    }
}

proof fn lemma_with_id_none(b: Seq<OutputStateView>, id: Seq<char>)
    requires
        forall|j: int| 0 <= j < b.len() ==> (#[trigger] b[j]).id != id,
    ensures
        with_id(b, id) =~= Seq::<OutputStateView>::empty(),
    decreases b.len(),
{
    if b.len() > 0 {
        lemma_with_id_none(b.drop_last(), id);
    }
}

/// Inserting `x` where every later entry has another identity keeps every
/// identity's outputs in order, with `x` last among its own.
proof fn lemma_with_id_insert(r: Seq<OutputStateView>, p: int, x: OutputStateView, id: Seq<char>)
    requires
        0 <= p <= r.len(),
        forall|j: int| p <= j < r.len() ==> (#[trigger] r[j]).id != x.id,
    ensures
        with_id(r.insert(p, x), id) == with_id(r, id) + if x.id == id {
            seq![x]
        } else {
            Seq::<OutputStateView>::empty()
        },
{
    let pre = r.take(p);
    let post = r.skip(p);
    assert(r =~= pre + post);
    assert(r.insert(p, x) =~= pre + seq![x] + post);
    let tail = if x.id == id {
        seq![x]
    } else {
        Seq::<OutputStateView>::empty()
    };
    lemma_with_id_concat(pre + seq![x], post, id);
    lemma_with_id_concat(pre, seq![x], id);
    lemma_with_id_concat(pre, post, id);
    assert(seq![x].drop_last() =~= Seq::<OutputStateView>::empty());
    assert(with_id(seq![x].drop_last(), id) =~= Seq::<OutputStateView>::empty());
    assert(seq![x].last() == x);
    assert(with_id(seq![x], id) =~= Seq::<OutputStateView>::empty() + tail);
    assert(with_id(seq![x], id) =~= tail);
    if x.id == id {
        assert forall|j: int| 0 <= j < post.len() implies (#[trigger] post[j]).id != id by {
            assert(post[j] == r[p + j]);
        }
        lemma_with_id_none(post, id);
        assert(with_id(r, id) =~= with_id(pre, id));
        assert(with_id(r.insert(p, x), id) =~= with_id(pre, id) + tail);
    } else {
        assert(with_id(r.insert(p, x), id) =~= with_id(pre, id) + with_id(post, id));
        assert(with_id(r, id) + tail =~= with_id(r, id));
    }
}

/// The placeholder identity of an output without a name.
pub open spec fn unnamed() -> Seq<char> {
    "<unnamed>"@
}

/// The published form of an output kept under `key`: none without a current
/// mode (the protocol always sends one, so its absence is contradictory
/// evidence); the identity is the name, or the key when the name is absent
/// or is the placeholder.
pub open spec fn finish(key: Seq<char>, a: AccView) -> Option<OutputStateView> {
    match a.current {
        None => None,
        Some(c) => {
            let named = match a.name {
                Some(n) => n,
                None => unnamed(),
            };
            Some(
                OutputStateView {
                    id: if named == unnamed() {
                        key
                    } else {
                        named
                    },
                    current_mode: CurrentDisplayMode { current: c, preferred: a.preferred },
                    available_modes: a.available,
                },
            )
        },
    }
}

/// The published outputs of the entries, in entry order.
pub open spec fn published(entries: Seq<(Seq<char>, AccView)>) -> Seq<OutputStateView>
    decreases entries.len(),
{
    if entries.len() == 0 {
        Seq::empty()
    } else {
        match finish(entries.last().0, entries.last().1) {
            Some(s) => published(entries.drop_last()).push(s),
            None => published(entries.drop_last()),
        }
    }
}

/// Pure aggregator of `wl_output` events, one accumulator per runtime key.
#[derive(Debug)]
pub struct WaylandOutputAggregator {
    keys: Vec<String>,
    accs: Vec<OutputAccumulator>,
}

impl View for WaylandOutputAggregator {
    type V = Seq<(Seq<char>, AccView)>;

    closed spec fn view(&self) -> Seq<(Seq<char>, AccView)> {
        Seq::new(self.keys@.len(), |i: int| (self.keys@[i]@, self.accs@[i]@))
    }
}

impl WaylandOutputAggregator {
    /// Keys and accumulators line up and no key occurs twice.
    pub closed spec fn wf(&self) -> bool {
        &&& self.keys@.len() == self.accs@.len()
        &&& distinct_keys(self@)
    }

    /// An empty aggregator.
    pub fn new() -> (a: Self)
        ensures
            a.wf(),
            a@ == Seq::<(Seq<char>, AccView)>::empty(),
    {
        WaylandOutputAggregator { keys: Vec::new(), accs: Vec::new() }
    }

    fn position(&self, key: &str) -> (r: Option<usize>)
        requires
            self.wf(),
        ensures
            match r {
                Some(i) => i < self@.len() && self@[i as int].0 == key@,
                None => forall|i: int| 0 <= i < self@.len() ==> (#[trigger] self@[i]).0 != key@,
            },
    {
        let mut i: usize = 0;
        while i < self.keys.len()
            invariant
                0 <= i <= self.keys@.len(),
                self.keys@.len() == self.accs@.len(),
                forall|j: int| 0 <= j < i ==> (#[trigger] self@[j]).0 != key@,
            decreases self.keys@.len() - i,
        {
            if str_eq(self.keys[i].as_str(), key) {
                return Some(i);
            }
            i = i + 1;
        }
        None
    }

    /// Apply an event to the output with runtime key `output_key`, creating
    /// it if it is new; every other output is left as it was.
    pub fn apply(&mut self, output_key: &str, event: &OutputEvent)
        requires
            old(self).wf(),
        ensures
            final(self).wf(),
            lookup(final(self)@, output_key@) == Some(
                acc_apply(
                    match lookup(old(self)@, output_key@) {
                        Some(a) => a,
                        None => empty_acc(),
                    },
                    *event,
                ),
            ),
            forall|k: Seq<char>| k != output_key@ ==> lookup(final(self)@, k) == lookup(old(self)@, k),
    {
        let ghost before = self@;
        proof {
            lemma_lookup_distinct(before);
        }
        match self.position(output_key) {
            Some(i) => {
                let mut acc = self.accs[i].clone_acc();
                assert(acc@ == before[i as int].1);
                acc.apply(event);
                self.accs.set(i, acc);
                assert(self@ =~= before.update(i as int, (output_key@, acc@)));
                proof {
                    lemma_lookup_update(before, i as int, output_key@, acc@);
                    assert forall|a: int, b: int| 0 <= a < b < self@.len() implies (#[trigger] self@[a]).0 != (
                    #[trigger] self@[b]).0 by {
                        assert(before[a].0 != before[b].0);
                    }
                }
            },
            None => {
                let mut acc = OutputAccumulator::new();
                acc.apply(event);
                self.keys.push(output_key.to_owned());
                self.accs.push(acc);
                assert(self@ =~= before.push((output_key@, acc@)));
                proof {
                    assert(lookup(before, output_key@) is None) by {
                        lemma_lookup_absent(before, output_key@);
                    }
                    assert(self@.drop_last() =~= before);
                    assert forall|a: int, b: int| 0 <= a < b < self@.len() implies (#[trigger] self@[a]).0 != (
                    #[trigger] self@[b]).0 by {
                        if b < before.len() {
                            assert(before[a].0 != before[b].0);
                        }
                    }
                }
            },
        }
    }

    /// Forget the output with runtime key `output_key` (hotplug removal);
    /// every other output is left as it was.
    pub fn remove_output(&mut self, output_key: &str)
        requires
            old(self).wf(),
        ensures
            final(self).wf(),
            lookup(final(self)@, output_key@) is None,
            forall|k: Seq<char>| k != output_key@ ==> lookup(final(self)@, k) == lookup(old(self)@, k),
    {
        let ghost before = self@;
        match self.position(output_key) {
            Some(i) => {
                self.keys.remove(i);
                self.accs.remove(i);
                assert(self@ =~= before.remove(i as int));
                proof {
                    lemma_lookup_remove(before, i as int);
                    assert forall|a: int, b: int| 0 <= a < b < self@.len() implies (#[trigger] self@[a]).0 != (
                    #[trigger] self@[b]).0 by {
                        if a < i && b < i {
                            assert(before[a].0 != before[b].0);
                        } else if a < i {
                            assert(before[a].0 != before[b + 1].0);
                        } else {
                            assert(before[a + 1].0 != before[b + 1].0);
                        }
                    }
                }
            },
            None => {
                proof {
                    lemma_lookup_absent(before, output_key@);
                }
            },
        }
    }

    /// The published outputs, ordered by identity: outputs without a current
    /// mode are left out; outputs with equal identities keep their order.
    pub fn snapshot(&self) -> (s: DisplayOutputSnapshot)
        requires
            self.wf(),
        ensures
            sorted_by_id(state_views(s.outputs@)),
            state_views(s.outputs@).to_multiset() == published(self@).to_multiset(),
            forall|id: Seq<char>| with_id(state_views(s.outputs@), id) == with_id(published(self@), id),
    {
        let mut outs: Vec<DisplayOutputState> = Vec::new();
        let mut i: usize = 0;
        assert(self@.take(0) =~= Seq::<(Seq<char>, AccView)>::empty());
        while i < self.keys.len()
            invariant
                0 <= i <= self.keys@.len(),
                self.keys@.len() == self.accs@.len(),
                state_views(outs@) == published(self@.take(i as int)),
            decreases self.keys@.len() - i,
        {
            assert(self@.take(i + 1).drop_last() =~= self@.take(i as int));
            assert(self@.take(i + 1).last() == self@[i as int]);
            let acc = &self.accs[i];
            match acc.current {
                None => {},
                Some(c) => {
                    let named = match &acc.name {
                        Some(n) => n.clone(),
                        None => "<unnamed>".to_owned(),
                    };
                    let id = if str_eq(named.as_str(), "<unnamed>") {
                        self.keys[i].clone()
                    } else {
                        named
                    };
                    let st = DisplayOutputState {
                        id: DisplayOutputId::new(id),
                        current_mode: CurrentDisplayMode { current: c, preferred: acc.preferred },
                        available_modes: copy_modes(&acc.available),
                    };
                    let ghost before = outs@;
                    outs.push(st);
                    assert(state_views(outs@) =~= state_views(before).push(st@));
                    assert(Some(st@) == finish(self@[i as int].0, self@[i as int].1));
                },
            }
            i = i + 1;
        }
        assert(self@.take(self@.len() as int) =~= self@);
        DisplayOutputSnapshot { outputs: sort_outputs(&outs) }
    }
}

/// A copy of a published output.
fn clone_state(s: &DisplayOutputState) -> (c: DisplayOutputState)
    ensures
        c@ == s@,
{
    DisplayOutputState {
        id: s.id.clone_id(),
        current_mode: s.current_mode,
        available_modes: copy_modes(&s.available_modes),
    }
}

/// Whether `a` sorts before or equal to `b` by identity.
fn id_le(a: &DisplayOutputState, b: &DisplayOutputState) -> (r: bool)
    ensures
        r == lex_le(a@.id, b@.id),
{
    lex_le_exec(a.id.as_str(), b.id.as_str())
}

/// The outputs ordered by identity; equal identities keep their order.
fn sort_outputs(v: &Vec<DisplayOutputState>) -> (r: Vec<DisplayOutputState>)
    ensures
        sorted_by_id(state_views(r@)),
        state_views(r@).to_multiset() == state_views(v@).to_multiset(),
        forall|id: Seq<char>| with_id(state_views(r@), id) == with_id(state_views(v@), id),
{
    broadcast use vstd::seq_lib::group_to_multiset_ensures;

    let mut r: Vec<DisplayOutputState> = Vec::new();
    let mut k: usize = 0;
    assert(state_views(v@).take(0) =~= Seq::<OutputStateView>::empty());
    assert(state_views(r@) =~= Seq::<OutputStateView>::empty());
    while k < v.len()
        invariant
            0 <= k <= v@.len(),
            sorted_by_id(state_views(r@)),
            state_views(r@).to_multiset() == state_views(v@).take(k as int).to_multiset(),
            forall|id: Seq<char>| with_id(state_views(r@), id) == with_id(state_views(v@).take(k as int), id),
        decreases v@.len() - k,
    {
        let x = clone_state(&v[k]);
        let mut p: usize = 0;
        while p < r.len() && id_le(&r[p], &x)
            invariant
                0 <= p <= r@.len(),
                forall|i: int| 0 <= i < p ==> lex_le((#[trigger] r@[i])@.id, x@.id),
            decreases r@.len() - p,
        {
            p = p + 1;
        }
        let ghost old_r = state_views(r@);
        proof {
            if p < r@.len() {
                lemma_lex_total(r@[p as int]@.id, x@.id);
            }
        }
        r.insert(p, x);
        proof {
            let nr = state_views(r@);
            assert(nr =~= old_r.insert(p as int, x@));
            assert forall|i: int, j: int| 0 <= i < j < nr.len() implies lex_le(
                (#[trigger] nr[i]).id,
                (#[trigger] nr[j]).id,
            ) by {
                if j < p {
                    assert(nr[i] == old_r[i] && nr[j] == old_r[j]);
                } else if j == p {
                    assert(nr[i] == old_r[i]);
                    assert(nr[i] == r@[i]@);
                } else if i < p {
                    assert(nr[i] == old_r[i] && nr[j] == old_r[j - 1]);
                    lemma_lex_trans(old_r[i].id, x@.id, old_r[p as int].id);
                    if j - 1 > p {
                        lemma_lex_trans(old_r[i].id, old_r[p as int].id, old_r[j - 1].id);
                    }
                } else if i == p {
                    assert(nr[j] == old_r[j - 1]);
                    if j - 1 > p {
                        lemma_lex_trans(x@.id, old_r[p as int].id, old_r[j - 1].id);
                    }
                } else {
                    assert(nr[i] == old_r[i - 1] && nr[j] == old_r[j - 1]);
                }
            }
            assert(state_views(v@).take(k + 1) =~= state_views(v@).take(k as int).push(x@));
            vstd::seq_lib::to_multiset_insert(old_r, p as int, x@);
            vstd::seq_lib::to_multiset_build(state_views(v@).take(k as int), x@);
            assert forall|j: int| p <= j < old_r.len() implies (#[trigger] old_r[j]).id != x@.id by {
                lemma_lex_total(x@.id, x@.id);
                if j > p {
                    assert(lex_le(old_r[p as int].id, old_r[j].id));
                    if old_r[j].id == x@.id {
                        lemma_lex_trans(old_r[p as int].id, old_r[j].id, x@.id);
                    }
                }
            }
            assert forall|id: Seq<char>| with_id(nr, id) == with_id(state_views(v@).take(k + 1), id) by {
                lemma_with_id_insert(old_r, p as int, x@, id);
                let t = state_views(v@).take(k + 1);
                assert(t.drop_last() =~= state_views(v@).take(k as int));
                assert(t.last() == x@);
            }
        }
        k = k + 1;
    }
    assert(state_views(v@).take(v@.len() as int) =~= state_views(v@));
    r
}


/// The events applied in order.
pub open spec fn apply_all(a: AccView, es: Seq<OutputEvent>) -> AccView
    decreases es.len(),
{
    if es.len() == 0 {
        a
    } else {
        acc_apply(apply_all(a, es.drop_last()), es.last())
    }
}

/// The mode of the last event that carries the current flag.
pub open spec fn last_current(es: Seq<OutputEvent>) -> Option<DisplayMode>
    decreases es.len(),
{
    if es.len() == 0 {
        None
    } else {
        match es.last() {
            OutputEvent::Mode { current: true, width, height, refresh, .. } => Some(
                DisplayMode { width, height, refresh: RefreshMilliHz(refresh) },
            ),
            _ => last_current(es.drop_last()),
        }
    }
}

/// The current mode of an output is always the last mode received with the
/// current flag set; a preferred flag alone never makes a mode current.
pub proof fn lemma_current_is_last_current(es: Seq<OutputEvent>)
    ensures
        apply_all(empty_acc(), es).current == last_current(es),
    decreases es.len(),
{
    if es.len() > 0 {
        lemma_current_is_last_current(es.drop_last());
    }
}

/// Modes received with the current flag are never listed as available
/// modes: an output that only ever received current modes lists none.
pub proof fn lemma_current_modes_not_available(es: Seq<OutputEvent>)
    requires
        forall|i: int| 0 <= i < es.len() ==> !((#[trigger] es[i]) matches OutputEvent::Mode { current: false, .. }),
    ensures
        apply_all(empty_acc(), es).available.len() == 0,
    decreases es.len(),
{
    if es.len() > 0 {
        assert forall|i: int| 0 <= i < es.drop_last().len() implies !((#[trigger] es.drop_last()[i]) matches OutputEvent::Mode {
            current: false,
            ..
        }) by {
            assert(es.drop_last()[i] == es[i]);
        }
        lemma_current_modes_not_available(es.drop_last());
        assert(!(es[es.len() - 1] matches OutputEvent::Mode { current: false, .. }));
    }
}

/// The name of the last `name` event.
pub open spec fn last_name(es: Seq<OutputEvent>) -> Option<Seq<char>>
    decreases es.len(),
{
    if es.len() == 0 {
        None
    } else {
        match es.last() {
            OutputEvent::Name(n) => Some(n@),
            _ => last_name(es.drop_last()),
        }
    }
}

/// The mode of the last event that carries the preferred flag.
pub open spec fn last_preferred(es: Seq<OutputEvent>) -> Option<DisplayMode>
    decreases es.len(),
{
    if es.len() == 0 {
        None
    } else {
        match es.last() {
            OutputEvent::Mode { preferred: true, width, height, refresh, .. } => Some(
                DisplayMode { width, height, refresh: RefreshMilliHz(refresh) },
            ),
            _ => last_preferred(es.drop_last()),
        }
    }
}

/// The modes received without the current flag, in arrival order.
pub open spec fn non_current_modes(es: Seq<OutputEvent>) -> Seq<DisplayMode>
    decreases es.len(),
{
    if es.len() == 0 {
        seq![]
    } else {
        match es.last() {
            OutputEvent::Mode { current: false, width, height, refresh, .. } => non_current_modes(
                es.drop_last(),
            ).push(DisplayMode { width, height, refresh: RefreshMilliHz(refresh) }),
            _ => non_current_modes(es.drop_last()),
        }
    }
}

/// What a sequence of events makes of one output: its name is the last name
/// received, its current mode the last mode flagged current, its preferred
/// mode the last mode flagged preferred, and its available modes every mode
/// received without the current flag, in arrival order (refresh rates kept
/// exactly); `done` changes nothing.
pub proof fn lemma_output_fold(es: Seq<OutputEvent>)
    ensures
        apply_all(empty_acc(), es) == (AccView {
            name: last_name(es),
            current: last_current(es),
            preferred: last_preferred(es),
            available: non_current_modes(es),
        }),
    decreases es.len(),
{
    if es.len() > 0 {
        lemma_output_fold(es.drop_last());
    }
}

/// The number of entries that have a current mode.
pub open spec fn with_current(entries: Seq<(Seq<char>, AccView)>) -> nat
    decreases entries.len(),
{
    if entries.len() == 0 {
        0
    } else {
        with_current(entries.drop_last()) + if entries.last().1.current is Some {
            1nat
        } else {
            0nat
        }
    }
}

/// Exactly the outputs with a current mode are published: an output
/// without one never appears, and none is invented.
pub proof fn lemma_published_are_current_outputs(entries: Seq<(Seq<char>, AccView)>)
    ensures
        published(entries).len() == with_current(entries),
    decreases entries.len(),
{
    if entries.len() > 0 {
        lemma_published_are_current_outputs(entries.drop_last());
    }
}

/// Failure to reach a Wayland compositor.
#[derive(Debug, Clone, PartialEq, Eq)]
pub enum WaylandConnectError {
    /// No Wayland session or display socket.
    NoDisplay,
    /// The connection failed.
    ConnectFailed(String),
}

/// A `wl_output` event as the compositor sent it.
#[derive(Debug, Clone, PartialEq, Eq)]
pub enum WlOutputEvent {
    /// `mode`: flag bits, width, height, refresh (mHz).
    Mode { flags: u32, width: i32, height: i32, refresh: i32 },
    /// `name`.
    Name(String),
    /// `done`.
    Done,
    /// `geometry`, `scale`, `description` and the like.
    Other,
}

/// The typed event of a `wl_output` event: bit 0x1 of the flags is
/// `current`, bit 0x2 is `preferred`; geometry, scale and description do not
/// bear on the mode and give no event.
pub open spec fn output_event_of(e: WlOutputEvent) -> Option<OutputEvent> {
    match e {
        WlOutputEvent::Mode { flags, width, height, refresh } => Some(
            OutputEvent::Mode {
                current: flags & 1 != 0,
                preferred: flags & 2 != 0,
                width: width as u32,
                height: height as u32,
                refresh: refresh as u32,
            },
        ),
        WlOutputEvent::Name(n) => Some(OutputEvent::Name(n)),
        WlOutputEvent::Done => Some(OutputEvent::Done),
        WlOutputEvent::Other => None,
    }
}

/// A `wl_output.mode` event is read by the protocol's flag bits: the mode is
/// current exactly when the lowest bit is set and preferred exactly when the
/// next bit is set, whatever the other bits; size and refresh pass through
/// unchanged.
pub proof fn lemma_mode_flags(flags: u32, width: i32, height: i32, refresh: i32)
    ensures
        output_event_of(WlOutputEvent::Mode { flags, width, height, refresh }) matches Some(
            OutputEvent::Mode { current, preferred, width: w, height: h, refresh: r },
        ) && current == (flags % 2 == 1) && preferred == ((flags / 2) % 2 == 1) && w == width as u32
            && h == height as u32 && r == refresh as u32,
{
    assert((flags & 1 != 0) == (flags % 2 == 1)) by (bit_vector);
    assert((flags & 2 != 0) == ((flags / 2) % 2 == 1)) by (bit_vector);
}

/// Dispatch state: the aggregator and the keys whose outputs sent `done`.
#[derive(Debug)]
pub struct WaylandState {
    aggregator: WaylandOutputAggregator,
    done: Vec<String>,
}

impl WaylandState {
    /// The aggregator is well formed.
    pub closed spec fn wf(&self) -> bool {
        self.aggregator.wf()
    }

    /// The outputs.
    pub closed spec fn outputs(&self) -> Seq<(Seq<char>, AccView)> {
        self.aggregator@
    }

    /// The keys that sent `done`.
    pub closed spec fn done_keys(&self) -> Seq<Seq<char>> {
        self.done@.map_values(|k: String| k@)
    }

    /// An empty state.
    pub fn new() -> (s: Self)
        ensures
            s.wf(),
            s.outputs() == Seq::<(Seq<char>, AccView)>::empty(),
            s.done_keys() == Seq::<Seq<char>>::empty(),
    {
        let s = WaylandState { aggregator: WaylandOutputAggregator::new(), done: Vec::new() };
        assert(s.done_keys() =~= Seq::<Seq<char>>::empty());
        s
    }

    /// Handle one event of the output bound under `key`.
    pub fn event(&mut self, key: &str, event: WlOutputEvent)
        requires
            old(self).wf(),
        ensures
            final(self).wf(),
            match output_event_of(event) {
                None => final(self).outputs() == old(self).outputs(),
                Some(e) => {
                    &&& lookup(final(self).outputs(), key@) == Some(
                        acc_apply(
                            match lookup(old(self).outputs(), key@) {
                                Some(a) => a,
                                None => empty_acc(),
                            },
                            e,
                        ),
                    )
                    &&& forall|k: Seq<char>| k != key@ ==> lookup(final(self).outputs(), k) == lookup(
                        old(self).outputs(),
                        k,
                    )
                },
            },
            final(self).done_keys() == if event is Done {
                old(self).done_keys().push(key@)
            } else {
                old(self).done_keys()
            },
    {
        let ghost done_before = self.done@;
        let output_event = match event {
            WlOutputEvent::Mode { flags, width, height, refresh } => OutputEvent::Mode {
                current: flags & 1 != 0,
                preferred: flags & 2 != 0,
                width: width as u32,
                height: height as u32,
                refresh: refresh as u32,
            },
            WlOutputEvent::Name(name) => OutputEvent::Name(name),
            WlOutputEvent::Done => {
                self.done.push(key.to_owned());
                assert(self.done@.map_values(|k: String| k@) =~= done_before.map_values(|k: String| k@).push(
                    key@,
                ));
                OutputEvent::Done
            },
            WlOutputEvent::Other => {
                return ;
            },
        };
        self.aggregator.apply(key, &output_event);
    }

    /// Whether some output is known and every known output sent `done`.
    pub fn all_done(&self) -> (b: bool)
        ensures
            b == (self.done_keys().len() > 0),
    {
        self.done.len() > 0
    }

    /// The snapshot of the aggregated outputs.
    pub fn snapshot(&self) -> (s: DisplayOutputSnapshot)
        requires
            self.wf(),
        ensures
            sorted_by_id(state_views(s.outputs@)),
            state_views(s.outputs@).to_multiset() == published(self.outputs()).to_multiset(),
    {
        self.aggregator.snapshot()
    }
}

/// Most event roundtrips made before a snapshot is taken without `done`
/// from every output.
pub const MAX_ROUNDTRIPS: usize = 8;

/// The interface name of output globals.
pub const WL_OUTPUT_INTERFACE: &'static str = "wl_output";

/// The runtime keys for the output globals among the advertised interfaces:
/// the prefix and a counter, one per `wl_output` global in order.
pub open spec fn output_keys(prefix: Seq<char>, interfaces: Seq<Seq<char>>) -> Seq<Seq<char>>
    decreases interfaces.len(),
{
    if interfaces.len() == 0 {
        Seq::empty()
    } else {
        let k = output_keys(prefix, interfaces.drop_last());
        if interfaces.last() == WL_OUTPUT_INTERFACE@ {
            k.push(prefix + decimal(k.len()))
        } else {
            k
        }
    }
}

/// Source that reads outputs from the session's compositor; outputs without
/// a name are keyed by a prefix and a counter.
#[derive(Debug, Clone)]
pub struct WaylandCompositorOutputSource {
    /// Key prefix of outputs.
    pub unnamed_prefix: String,
}

impl WaylandCompositorOutputSource {
    /// A source with the `output-` prefix.
    pub fn new() -> (s: Self)
        ensures
            s.unnamed_prefix@ == "output-"@,
    {
        WaylandCompositorOutputSource { unnamed_prefix: "output-".to_owned() }
    }

    /// The keys under which to bind the advertised globals: one per
    /// `wl_output` global; no such global means the compositor does not
    /// offer outputs.
    pub fn bind_keys(&self, interfaces: &Vec<String>) -> (r: Result<Vec<String>, ProviderError>)
        ensures
            match r {
                Ok(keys) => keys@.map_values(|k: String| k@) == output_keys(
                    self.unnamed_prefix@,
                    interfaces@.map_values(|s: String| s@),
                ) && keys@.len() > 0,
                Err(e) => output_keys(self.unnamed_prefix@, interfaces@.map_values(|s: String| s@)).len() == 0
                    && e@ == ProviderErrorView::Unsupported("compositor не предоставляет wl_output global"@),
            },
    {
        let ghost names = interfaces@.map_values(|s: String| s@);
        let mut keys: Vec<String> = Vec::new();
        let mut i: usize = 0;
        assert(names.take(0) =~= Seq::<Seq<char>>::empty());
        while i < interfaces.len()
            invariant
                0 <= i <= interfaces@.len(),
                names == interfaces@.map_values(|s: String| s@),
                keys@.map_values(|k: String| k@) == output_keys(self.unnamed_prefix@, names.take(i as int)),
            decreases interfaces@.len() - i,
        {
            assert(names.take(i + 1).drop_last() =~= names.take(i as int));
            assert(names.take(i + 1).last() == interfaces@[i as int]@);
            if str_eq(interfaces[i].as_str(), WL_OUTPUT_INTERFACE) {
                let ghost before = keys@;
                let d = to_decimal(keys.len() as u64);
                let k = concat2(self.unnamed_prefix.as_str(), d.as_str());
                keys.push(k);
                assert(keys@.map_values(|k: String| k@) =~= before.map_values(|k: String| k@).push(k@));
            }
            i = i + 1;
        }
        assert(names.take(names.len() as int) =~= names);
        if keys.len() == 0 {
            return Err(ProviderError::Unsupported("compositor не предоставляет wl_output global".to_owned()));
        }
        Ok(keys)
    }
}

impl Default for WaylandCompositorOutputSource {
    /// A source with the `output-` prefix.
    fn default() -> (s: Self)
        ensures
            s.unnamed_prefix@ == "output-"@,
    {
        WaylandCompositorOutputSource::new()
    }
}

/// Read-only display-output provider over a source of snapshots.
#[derive(Debug, Clone)]
pub struct WaylandDisplayOutputProvider<S> {
    /// The source.
    pub source: S,
}

impl<S> WaylandDisplayOutputProvider<S> {
    /// A provider over `source`; nothing is read yet.
    pub fn new(source: S) -> (p: Self)
        ensures
            p.source == source,
    {
        WaylandDisplayOutputProvider { source }
    }

    /// Provider diagnostics.
    pub fn diagnostics(&self) -> (v: Vec<DiagnosticEntry>)
        ensures
            v@.len() == 1,
            v@[0].key@ == "provider.wayland-display-output"@,
            v@[0].value@ == "read-only Wayland compositor display output backend"@,
    {
        let mut v = Vec::new();
        v.push(
            DiagnosticEntry::new(
                "provider.wayland-display-output",
                "read-only Wayland compositor display output backend",
            ),
        );
        v
    }
}

} // verus!
