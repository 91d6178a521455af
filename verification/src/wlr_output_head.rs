//! Pure state model for `zwlr_output_head_v1` evidence.
//!
//! A protocol adapter translates compositor events into the typed events
//! below; this module holds no proxy and no configuration request.
//!
//! Head identity and mode evidence stay separate from any role proof:
//! make/model/serial/physical size can be correlated with independent DRM/KMS
//! evidence, and exact mode data can feed refresh evidence. A head name is
//! kept for diagnostics only and never decides an internal-vs-external role.
use vstd::prelude::*;
use vstd::string::*;

use crate::drm_kms_identity::{
    complete_identity, physical_size_of, DisplayPhysicalSizeMm, DisplaySinkIdentity, SinkView,
};
use crate::keyed::{distinct_keys, lemma_lookup_absent, lemma_lookup_distinct, lemma_lookup_insert, lemma_lookup_remove, lemma_lookup_update, lookup};
use crate::text::{lex_le, lex_le_exec, lemma_lex_antisym, lemma_lex_total, lemma_lex_trans, str_eq, trim, trimmed};
use crate::wayland_output::{DisplayMode, RefreshMilliHz};

verus! {

/// Opaque compositor-local identity of a mode object.
#[derive(Debug, Clone, PartialEq, Eq)]
pub struct WlrOutputModeKey(String);

impl View for WlrOutputModeKey {
    type V = Seq<char>;

    closed spec fn view(&self) -> Seq<char> {
        self.0@
    }
}

impl WlrOutputModeKey {
    /// A key from the adapter's protocol object identity.
    pub fn new(value: &str) -> (k: Self)
        ensures
            k@ == value@,
    {
        WlrOutputModeKey(value.to_owned())
    }

    /// The diagnostic identity.
    pub fn as_str(&self) -> (s: &str)
        ensures
            s@ == self@,
    {
        self.0.as_str()
    }
}

/// Opaque identity of a refresh target (one compositor head).
#[derive(Debug, Clone, PartialEq, Eq)]
pub struct DisplayRefreshTargetId(String);

impl View for DisplayRefreshTargetId {
    type V = Seq<char>;

    closed spec fn view(&self) -> Seq<char> {
        self.0@
    }
}

impl DisplayRefreshTargetId {
    /// A target identity.
    pub fn new(value: &str) -> (t: Self)
        ensures
            t@ == value@,
    {
        DisplayRefreshTargetId(value.to_owned())
    }

    /// The identity text.
    pub fn as_str(&self) -> (s: &str)
        ensures
            s@ == self@,
    {
        self.0.as_str()
    }

    /// A copy of the identity.
    pub fn clone_target(&self) -> (c: Self)
        ensures
            c@ == self@,
    {
        DisplayRefreshTargetId(self.0.clone())
    }
}

/// A decoded compositor event for one head.
#[derive(Debug, Clone, PartialEq, Eq)]
pub enum WlrOutputHeadEvent {
    /// Human-readable head name; diagnostic only.
    Name(String),
    /// Manufacturer metadata.
    Make(String),
    /// Model metadata.
    Model(String),
    /// Serial metadata.
    SerialNumber(String),
    /// Physical size in millimetres.
    PhysicalSize { width: u32, height: u32 },
    /// Whether the compositor enables the head.
    Enabled(bool),
    /// An advertised mode object and its exact refresh.
    Mode { key: WlrOutputModeKey, width: u32, height: u32, refresh_mhz: u32, preferred: bool },
    /// Which mode object is active, if any.
    CurrentMode(Option<WlrOutputModeKey>),
    /// A mode object was withdrawn.
    ModeRemoved(WlrOutputModeKey),
}

/// Why a head cannot currently give refresh evidence.
#[derive(Debug, Clone, Copy, PartialEq, Eq, Structural)]
pub enum WlrHeadEvidenceBlock {
    /// The head is disabled.
    Disabled,
    /// No current mode object is known.
    CurrentModeUnknown,
    /// The current mode object is not among the advertised modes.
    CurrentModeNotAdvertised,
    /// The current mode has zero refresh.
    CurrentRefreshUnknown,
}

/// One advertised mode.
#[derive(Debug, Clone, Copy, PartialEq, Eq, Structural)]
pub struct WlrModeEvidence {
    /// The mode.
    pub mode: DisplayMode,
    /// Whether the compositor marks it preferred.
    pub preferred: bool,
}

/// Strict lexicographic order.
pub open spec fn lex_lt(a: Seq<char>, b: Seq<char>) -> bool {
    lex_le(a, b) && a != b
}

/// Whether mode entries are strictly ascending by key.
pub open spec fn keys_ascending(s: Seq<(Seq<char>, WlrModeEvidence)>) -> bool {
    forall|i: int, j: int| 0 <= i < j < s.len() ==> lex_lt((#[trigger] s[i]).0, (#[trigger] s[j]).0)
}

/// Spec view of a head.
pub struct HeadView {
    /// Target identity.
    pub target: Seq<char>,
    /// Head name.
    pub name: Option<Seq<char>>,
    /// Manufacturer.
    pub make: Option<Seq<char>>,
    /// Model.
    pub model: Option<Seq<char>>,
    /// Serial.
    pub serial: Option<Seq<char>>,
    /// Physical size.
    pub physical_size: Option<(u32, u32)>,
    /// Enabled.
    pub enabled: bool,
    /// Advertised modes, ascending by key.
    pub modes: Seq<(Seq<char>, WlrModeEvidence)>,
    /// Current mode key.
    pub current_mode: Option<Seq<char>>,
}

/// Accumulated state of one output-management head.
#[derive(Debug)]
pub struct WlrOutputHeadState {
    target: DisplayRefreshTargetId,
    name: Option<String>,
    make: Option<String>,
    model: Option<String>,
    serial: Option<String>,
    physical_size: Option<DisplayPhysicalSizeMm>,
    enabled: bool,
    mode_keys: Vec<String>,
    mode_evidence: Vec<WlrModeEvidence>,
    current_mode: Option<String>,
}

/// The view of an optional string.
pub open spec fn opt_view(o: Option<String>) -> Option<Seq<char>> {
    match o {
        Some(s) => Some(s@),
        None => None,
    }
}

/// A metadata value, absent when it is blank.
pub open spec fn non_empty_of(v: Seq<char>) -> Option<Seq<char>> {
    if trim(v).len() > 0 {
        Some(v)
    } else {
        None
    }
}

impl View for WlrOutputHeadState {
    type V = HeadView;

    closed spec fn view(&self) -> HeadView {
        HeadView {
            target: self.target@,
            name: opt_view(self.name),
            make: opt_view(self.make),
            model: opt_view(self.model),
            serial: opt_view(self.serial),
            physical_size: match self.physical_size {
                Some(p) => Some(p.sides()),
                None => None,
            },
            enabled: self.enabled,
            modes: Seq::new(self.mode_keys@.len(), |i: int| (self.mode_keys@[i]@, self.mode_evidence@[i])),
            current_mode: opt_view(self.current_mode),
        }
    }
}

/// What one event does to a head: metadata events replace their field (a
/// blank value clears it), a mode event adds or replaces that mode object, a
/// current-mode event replaces the current key, and withdrawing a mode drops
/// it and, when it was current, the current key too.
pub open spec fn head_applied(old: HeadView, new: HeadView, e: WlrOutputHeadEvent) -> bool {
    let same_modes = new.modes == old.modes;
    &&& new.target == old.target
    &&& new.name == (if let WlrOutputHeadEvent::Name(v) = e { non_empty_of(v@) } else { old.name })
    &&& new.make == (if let WlrOutputHeadEvent::Make(v) = e { non_empty_of(v@) } else { old.make })
    &&& new.model == (if let WlrOutputHeadEvent::Model(v) = e { non_empty_of(v@) } else { old.model })
    &&& new.serial == (if let WlrOutputHeadEvent::SerialNumber(v) = e { non_empty_of(v@) } else { old.serial })
    &&& new.physical_size == (if let WlrOutputHeadEvent::PhysicalSize { width, height } = e {
        physical_size_of(width, height)
    } else {
        old.physical_size
    })
    &&& new.enabled == (if let WlrOutputHeadEvent::Enabled(b) = e { b } else { old.enabled })
    &&& keys_ascending(new.modes)
    &&& match e {
        WlrOutputHeadEvent::Mode { key, width, height, refresh_mhz, preferred } => forall|k: Seq<char>|
            #[trigger] lookup(new.modes, k) == if k == key@ {
                Some(
                    WlrModeEvidence {
                        mode: DisplayMode { width, height, refresh: RefreshMilliHz(refresh_mhz) },
                        preferred,
                    },
                )
            } else {
                lookup(old.modes, k)
            },
        WlrOutputHeadEvent::ModeRemoved(key) => forall|k: Seq<char>| #[trigger]
            lookup(new.modes, k) == if k == key@ {
                None
            } else {
                lookup(old.modes, k)
            },
        _ => same_modes,
    }
    &&& new.current_mode == match e {
        WlrOutputHeadEvent::CurrentMode(k) => match k {
            Some(x) => Some(x@),
            None => None,
        },
        WlrOutputHeadEvent::ModeRemoved(key) => if old.current_mode == Some(key@) {
            None
        } else {
            old.current_mode
        },
        _ => old.current_mode,
    }
}

/// A sink identity from complete make/model/serial metadata, else none.
pub open spec fn head_sink(h: HeadView) -> Option<SinkView> {
    match (h.make, h.model, h.serial) {
        (Some(make), Some(model), Some(serial)) => if complete_identity(make, model, serial) {
            Some(SinkView { manufacturer: make, model, serial })
        } else {
            None
        },
        _ => None,
    }
}

/// Identity evidence a compositor head offers for cross-source correlation.
#[derive(Debug, Clone, PartialEq, Eq)]
pub struct CompositorDisplayHeadEvidence {
    /// Target identity.
    pub target: DisplayRefreshTargetId,
    /// Sink identity, only from complete metadata.
    pub sink: Option<DisplaySinkIdentity>,
    /// Physical size.
    pub physical_size: Option<DisplayPhysicalSizeMm>,
}

/// Exact mode evidence of a head: its current mode and every other
/// advertised mode, in key order.
#[derive(Debug, Clone, PartialEq, Eq)]
pub struct RefreshModeEvidence {
    /// Target identity.
    pub target: DisplayRefreshTargetId,
    /// The current mode.
    pub current: DisplayMode,
    /// The other advertised modes, ascending by mode key.
    pub available: Vec<DisplayMode>,
}

/// The modes of the entries whose key is not `current`, in order.
pub open spec fn other_modes(s: Seq<(Seq<char>, WlrModeEvidence)>, current: Seq<char>) -> Seq<DisplayMode>
    decreases s.len(),
{
    if s.len() == 0 {
        Seq::empty()
    } else if s.last().0 != current {
        other_modes(s.drop_last(), current).push(s.last().1.mode)
    } else {
        other_modes(s.drop_last(), current)
    }
}

/// The preferred modes among the entries, in order.
pub open spec fn preferred_of(s: Seq<(Seq<char>, WlrModeEvidence)>) -> Seq<DisplayMode>
    decreases s.len(),
{
    if s.len() == 0 {
        Seq::empty()
    } else if s.last().1.preferred {
        preferred_of(s.drop_last()).push(s.last().1.mode)
    } else {
        preferred_of(s.drop_last())
    }
}

/// Refresh evidence of a head, or why there is none: a disabled head, an
/// unknown current mode, a current mode that is not advertised, or a current
/// refresh of zero blocks it.
pub open spec fn head_refresh(h: HeadView) -> Result<(DisplayMode, Seq<DisplayMode>), WlrHeadEvidenceBlock> {
    if !h.enabled {
        Err(WlrHeadEvidenceBlock::Disabled)
    } else {
        match h.current_mode {
            None => Err(WlrHeadEvidenceBlock::CurrentModeUnknown),
            Some(k) => match lookup(h.modes, k) {
                None => Err(WlrHeadEvidenceBlock::CurrentModeNotAdvertised),
                Some(ev) => if ev.mode.refresh.value() == 0 {
                    Err(WlrHeadEvidenceBlock::CurrentRefreshUnknown)
                } else {
                    Ok((ev.mode, other_modes(h.modes, k)))
                },
            },
        }
    }
}

/// Strictly ascending keys are distinct.
proof fn lemma_ascending_distinct(s: Seq<(Seq<char>, WlrModeEvidence)>)
    requires
        keys_ascending(s),
    ensures
        distinct_keys(s),
{
    assert forall|i: int, j: int| 0 <= i < j < s.len() implies (#[trigger] s[i]).0 != (#[trigger] s[j]).0 by {
        assert(lex_lt(s[i].0, s[j].0));
    }
}

/// `lex_lt` is transitive.
proof fn lemma_lex_lt_trans(a: Seq<char>, b: Seq<char>, c: Seq<char>)
    requires
        lex_lt(a, b),
        lex_lt(b, c),
    ensures
        lex_lt(a, c),
{
    lemma_lex_trans(a, b, c);
    if a == c {
        lemma_lex_antisym(b, c);
    }
}

fn opt_string(o: &Option<String>) -> (c: Option<String>)
    ensures
        opt_view(c) == opt_view(*o),
{
    match o {
        Some(s) => Some(s.clone()),
        None => None,
    }
}

fn non_empty(value: String) -> (r: Option<String>)
    ensures
        opt_view(r) == non_empty_of(value@),
{
    let t = trimmed(value.as_str());
    if !t.as_str().is_empty() {
        Some(value)
    } else {
        None
    }
}

impl WlrOutputHeadState {
    /// Keys and evidence line up and keys strictly ascend.
    pub closed spec fn wf(&self) -> bool {
        &&& self.mode_keys@.len() == self.mode_evidence@.len()
        &&& keys_ascending(self@.modes)
    }

    /// A head with nothing known yet.
    pub fn new(target: DisplayRefreshTargetId) -> (h: Self)
        ensures
            h.wf(),
            h@ == (HeadView {
                target: target@,
                name: None,
                make: None,
                model: None,
                serial: None,
                physical_size: None,
                enabled: false,
                modes: Seq::empty(),
                current_mode: None,
            }),
    {
        let h = WlrOutputHeadState {
            target,
            name: None,
            make: None,
            model: None,
            serial: None,
            physical_size: None,
            enabled: false,
            mode_keys: Vec::new(),
            mode_evidence: Vec::new(),
            current_mode: None,
        };
        assert(h@.modes =~= Seq::<(Seq<char>, WlrModeEvidence)>::empty());
        h
    }

    /// The index of the first mode key not below `key`.
    fn mode_position(&self, key: &str) -> (p: usize)
        requires
            self.wf(),
        ensures
            p <= self@.modes.len(),
            forall|i: int| 0 <= i < p ==> lex_lt((#[trigger] self@.modes[i]).0, key@),
            p < self@.modes.len() ==> lex_le(key@, self@.modes[p as int].0),
    {
        let mut p: usize = 0;
        while p < self.mode_keys.len() && lex_le_exec(self.mode_keys[p].as_str(), key) && !str_eq(
            self.mode_keys[p].as_str(),
            key,
        )
            invariant
                0 <= p <= self.mode_keys@.len(),
                self.mode_keys@.len() == self.mode_evidence@.len(),
                forall|i: int| 0 <= i < p ==> lex_lt((#[trigger] self@.modes[i]).0, key@),
            decreases self.mode_keys@.len() - p,
        {
            p = p + 1;
        }
        if p < self.mode_keys.len() {
            proof {
                lemma_lex_total(self@.modes[p as int].0, key@);
                if self@.modes[p as int].0 == key@ {
                    assert(lex_le(key@, key@)) by {
                        lemma_lex_total(key@, key@);
                    }
                }
            }
        }
        p
    }

    fn insert_mode(&mut self, key: &str, ev: WlrModeEvidence)
        requires
            old(self).wf(),
        ensures
            final(self).wf(),
            forall|k: Seq<char>| #[trigger]
                lookup(final(self)@.modes, k) == if k == key@ {
                    Some(ev)
                } else {
                    lookup(old(self)@.modes, k)
                },
            final(self)@ == (HeadView { modes: final(self)@.modes, ..old(self)@ }),
    {
        let ghost before = self@.modes;
        proof {
            lemma_ascending_distinct(before);
        }
        let p = self.mode_position(key);
        if p < self.mode_keys.len() && str_eq(self.mode_keys[p].as_str(), key) {
            self.mode_evidence.set(p, ev);
            assert(self@.modes =~= before.update(p as int, (key@, ev)));
            proof {
                lemma_lookup_update(before, p as int, key@, ev);
            }
        } else {
            self.mode_keys.insert(p, key.to_owned());
            self.mode_evidence.insert(p, ev);
            assert(self@.modes =~= before.insert(p as int, (key@, ev)));
            proof {
                assert forall|j: int| 0 <= j < before.len() implies (#[trigger] before[j]).0 != key@ by {
                    if j < p {
                        assert(lex_lt(before[j].0, key@));
                    } else {
                        assert(lex_le(key@, before[p as int].0));
                        if j > p {
                            assert(lex_lt(before[p as int].0, before[j].0));
                            lemma_lex_trans(key@, before[p as int].0, before[j].0);
                            if key@ == before[j].0 {
                                lemma_lex_antisym(before[p as int].0, before[j].0);
                            }
                        }
                    }
                }
                lemma_lookup_insert(before, p as int, key@, ev);
                let n = self@.modes;
                assert forall|i: int, j: int| 0 <= i < j < n.len() implies lex_lt(
                    (#[trigger] n[i]).0,
                    (#[trigger] n[j]).0,
                ) by {
                    if p < before.len() {
                        assert(lex_lt(key@, before[p as int].0)) by {
                            assert(before[p as int].0 != key@);
                        }
                    }
                    if j < p {
                        assert(n[i] == before[i] && n[j] == before[j]);
                    } else if j == p {
                        assert(n[i] == before[i]);
                    } else if i < p {
                        assert(n[i] == before[i] && n[j] == before[j - 1]);
                        if j - 1 > p {
                            lemma_lex_lt_trans(key@, before[p as int].0, before[j - 1].0);
                        }
                        lemma_lex_lt_trans(before[i].0, key@, before[j - 1].0);
                    } else if i == p {
                        assert(n[j] == before[j - 1]);
                        if j - 1 > p {
                            lemma_lex_lt_trans(key@, before[p as int].0, before[j - 1].0);
                        }
                    } else {
                        assert(n[i] == before[i - 1] && n[j] == before[j - 1]);
                    }
                }
            }
        }
    }

    fn remove_mode(&mut self, key: &str)
        requires
            old(self).wf(),
        ensures
            final(self).wf(),
            forall|k: Seq<char>| #[trigger]
                lookup(final(self)@.modes, k) == if k == key@ {
                    None
                } else {
                    lookup(old(self)@.modes, k)
                },
            final(self)@ == (HeadView { modes: final(self)@.modes, ..old(self)@ }),
    {
        let ghost before = self@.modes;
        proof {
            lemma_ascending_distinct(before);
        }
        let p = self.mode_position(key);
        if p < self.mode_keys.len() && str_eq(self.mode_keys[p].as_str(), key) {
            self.mode_keys.remove(p);
            self.mode_evidence.remove(p);
            assert(self@.modes =~= before.remove(p as int));
            proof {
                lemma_lookup_remove(before, p as int);
                let n = self@.modes;
                assert forall|i: int, j: int| 0 <= i < j < n.len() implies lex_lt(
                    (#[trigger] n[i]).0,
                    (#[trigger] n[j]).0,
                ) by {
                    if j < p {
                        assert(n[i] == before[i] && n[j] == before[j]);
                    } else if i < p {
                        assert(n[i] == before[i] && n[j] == before[j + 1]);
                    } else {
                        assert(n[i] == before[i + 1] && n[j] == before[j + 1]);
                    }
                }
            }
        } else {
            proof {
                assert forall|j: int| 0 <= j < before.len() implies (#[trigger] before[j]).0 != key@ by {
                    if j < p {
                        assert(lex_lt(before[j].0, key@));
                    } else {
                        assert(lex_le(key@, before[p as int].0));
                        if j > p {
                            assert(lex_lt(before[p as int].0, before[j].0));
                            lemma_lex_trans(key@, before[p as int].0, before[j].0);
                            if key@ == before[j].0 {
                                lemma_lex_antisym(before[p as int].0, before[j].0);
                            }
                        }
                    }
                }
                lemma_lookup_absent(before, key@);
            }
        }
    }

    /// Apply one decoded compositor event.
    pub fn apply(&mut self, event: WlrOutputHeadEvent)
        requires
            old(self).wf(),
        ensures
            final(self).wf(),
            head_applied(old(self)@, final(self)@, event),
    {
        let ghost e = event;
        match event {
            WlrOutputHeadEvent::Name(value) => {
                self.name = non_empty(value);
            },
            WlrOutputHeadEvent::Make(value) => {
                self.make = non_empty(value);
            },
            WlrOutputHeadEvent::Model(value) => {
                self.model = non_empty(value);
            },
            WlrOutputHeadEvent::SerialNumber(value) => {
                self.serial = non_empty(value);
            },
            WlrOutputHeadEvent::PhysicalSize { width, height } => {
                self.physical_size = DisplayPhysicalSizeMm::new(width, height);
            },
            WlrOutputHeadEvent::Enabled(enabled) => {
                self.enabled = enabled;
            },
            WlrOutputHeadEvent::Mode { key, width, height, refresh_mhz, preferred } => {
                let ev = WlrModeEvidence {
                    mode: DisplayMode::new(width, height, RefreshMilliHz::new(refresh_mhz)),
                    preferred,
                };
                self.insert_mode(key.as_str(), ev);
            },
            WlrOutputHeadEvent::CurrentMode(key) => {
                self.current_mode = match key {
                    Some(k) => Some(k.0),
                    None => None,
                };
            },
            WlrOutputHeadEvent::ModeRemoved(key) => {
                self.remove_mode(key.as_str());
                let was_current = match &self.current_mode {
                    Some(c) => str_eq(c.as_str(), key.as_str()),
                    None => false,
                };
                if was_current {
                    self.current_mode = None;
                }
            },
        }
    }

    /// The diagnostic head name, if the compositor sent one.
    pub fn name(&self) -> (r: Option<&str>)
        ensures
            match r {
                Some(s) => self@.name == Some(s@),
                None => self@.name is None,
            },
    {
        match &self.name {
            Some(n) => Some(n.as_str()),
            None => None,
        }
    }

    /// The target identity.
    pub fn target(&self) -> (t: &DisplayRefreshTargetId)
        ensures
            t@ == self@.target,
    {
        &self.target
    }

    /// Whether the compositor enables the head.
    pub fn enabled(&self) -> (b: bool)
        ensures
            b == self@.enabled,
    {
        self.enabled
    }

    /// Identity evidence: the sink only from complete make/model/serial, so
    /// incomplete metadata can never prove an internal-panel role; the head
    /// name plays no part.
    pub fn identity_evidence(&self) -> (e: CompositorDisplayHeadEvidence)
        ensures
            e.target@ == self@.target,
            match e.sink {
                Some(s) => head_sink(self@) == Some(s@),
                None => head_sink(self@) is None,
            },
            match e.physical_size {
                Some(p) => self@.physical_size == Some(p.sides()),
                None => self@.physical_size is None,
            },
    {
        let sink = match (&self.make, &self.model, &self.serial) {
            (Some(make), Some(model), Some(serial)) => DisplaySinkIdentity::new(
                make.clone(),
                model.clone(),
                serial.clone(),
            ),
            _ => None,
        };
        CompositorDisplayHeadEvidence {
            target: self.target.clone_target(),
            sink,
            physical_size: self.physical_size,
        }
    }

    /// Exact mode evidence, or why the head blocks it; preferred flags never
    /// override the compositor's explicit current-mode object.
    pub fn refresh_evidence(&self) -> (r: Result<RefreshModeEvidence, WlrHeadEvidenceBlock>)
        requires
            self.wf(),
        ensures
            match head_refresh(self@) {
                Ok((current, available)) => r matches Ok(ev) && ev.target@ == self@.target && ev.current
                    == current && ev.available@ == available,
                Err(b) => r == Err::<RefreshModeEvidence, WlrHeadEvidenceBlock>(b),
            },
    {
        if !self.enabled {
            return Err(WlrHeadEvidenceBlock::Disabled);
        }
        let current_key = match &self.current_mode {
            Some(k) => k.as_str(),
            None => {
                return Err(WlrHeadEvidenceBlock::CurrentModeUnknown);
            },
        };
        let ghost modes = self@.modes;
        proof {
            lemma_ascending_distinct(modes);
            lemma_lookup_distinct(modes);
        }
        let p = self.mode_position(current_key);
        if !(p < self.mode_keys.len() && str_eq(self.mode_keys[p].as_str(), current_key)) {
            proof {
                assert forall|j: int| 0 <= j < modes.len() implies (#[trigger] modes[j]).0 != current_key@ by {
                    if j < p {
                        assert(lex_lt(modes[j].0, current_key@));
                    } else {
                        assert(lex_le(current_key@, modes[p as int].0));
                        if j > p {
                            assert(lex_lt(modes[p as int].0, modes[j].0));
                            lemma_lex_trans(current_key@, modes[p as int].0, modes[j].0);
                            if current_key@ == modes[j].0 {
                                lemma_lex_antisym(modes[p as int].0, modes[j].0);
                            }
                        }
                    }
                }
                lemma_lookup_absent(modes, current_key@);
            }
            return Err(WlrHeadEvidenceBlock::CurrentModeNotAdvertised);
        }
        assert(modes[p as int].0 == current_key@);
        let current = self.mode_evidence[p].mode;
        if current.refresh.get() == 0 {
            return Err(WlrHeadEvidenceBlock::CurrentRefreshUnknown);
        }
        let mut available: Vec<DisplayMode> = Vec::new();
        let mut i: usize = 0;
        assert(modes.take(0) =~= Seq::<(Seq<char>, WlrModeEvidence)>::empty());
        while i < self.mode_keys.len()
            invariant
                0 <= i <= self.mode_keys@.len(),
                self.mode_keys@.len() == self.mode_evidence@.len(),
                modes == self@.modes,
                available@ == other_modes(modes.take(i as int), current_key@),
            decreases self.mode_keys@.len() - i,
        {
            assert(modes.take(i + 1).drop_last() =~= modes.take(i as int));
            assert(modes.take(i + 1).last() == modes[i as int]);
            if !str_eq(self.mode_keys[i].as_str(), current_key) {
                available.push(self.mode_evidence[i].mode);
            }
            i = i + 1;
        }
        assert(modes.take(modes.len() as int) =~= modes);
        Ok(RefreshModeEvidence { target: self.target.clone_target(), current, available })
    }

    /// The preferred modes, in mode-key order; diagnostics only.
    pub fn preferred_modes(&self) -> (v: Vec<DisplayMode>)
        requires
            self.wf(),
        ensures
            v@ == preferred_of(self@.modes),
    {
        let ghost modes = self@.modes;
        let mut out: Vec<DisplayMode> = Vec::new();
        let mut i: usize = 0;
        assert(modes.take(0) =~= Seq::<(Seq<char>, WlrModeEvidence)>::empty());
        while i < self.mode_keys.len()
            invariant
                0 <= i <= self.mode_keys@.len(),
                self.mode_keys@.len() == self.mode_evidence@.len(),
                modes == self@.modes,
                out@ == preferred_of(modes.take(i as int)),
            decreases self.mode_keys@.len() - i,
        {
            assert(modes.take(i + 1).drop_last() =~= modes.take(i as int));
            assert(modes.take(i + 1).last() == modes[i as int]);
            if self.mode_evidence[i].preferred {
                out.push(self.mode_evidence[i].mode);
            }
            i = i + 1;
        }
        assert(modes.take(modes.len() as int) =~= modes);
        out
    }
}


/// A head name is diagnostic only: renaming a head changes neither its sink
/// identity, its physical size nor its target.
pub proof fn lemma_name_does_not_change_identity(old: HeadView, new: HeadView, name: String)
    requires
        head_applied(old, new, WlrOutputHeadEvent::Name(name)),
    ensures
        head_sink(new) == head_sink(old),
        new.physical_size == old.physical_size,
        new.target == old.target,
{
}

/// Blank serial metadata never yields a sink identity.
pub proof fn lemma_blank_serial_has_no_sink(old: HeadView, new: HeadView, serial: String)
    requires
        head_applied(old, new, WlrOutputHeadEvent::SerialNumber(serial)),
        trim(serial@).len() == 0,
    ensures
        head_sink(new) is None,
{
}

/// Withdrawing the current mode object leaves an enabled head without refresh
/// evidence: its current mode becomes unknown.
pub proof fn lemma_removed_current_mode_blocks(old: HeadView, new: HeadView, key: WlrOutputModeKey)
    requires
        head_applied(old, new, WlrOutputHeadEvent::ModeRemoved(key)),
        old.current_mode == Some(key@),
    ensures
        new.current_mode is None,
        head_refresh(new) == if new.enabled {
            Err::<(DisplayMode, Seq<DisplayMode>), WlrHeadEvidenceBlock>(WlrHeadEvidenceBlock::CurrentModeUnknown)
        } else {
            Err::<(DisplayMode, Seq<DisplayMode>), WlrHeadEvidenceBlock>(WlrHeadEvidenceBlock::Disabled)
        },
{
}

/// A disabled head never gives refresh evidence, whatever its modes.
pub proof fn lemma_disabled_blocks(h: HeadView)
    requires
        !h.enabled,
    ensures
        head_refresh(h) == Err::<(DisplayMode, Seq<DisplayMode>), WlrHeadEvidenceBlock>(WlrHeadEvidenceBlock::Disabled),
{
}

/// Refresh evidence always reports the mode of the compositor's explicit
/// current-mode object with a non-zero refresh, whatever modes are marked
/// preferred.
pub proof fn lemma_evidence_is_explicit_current(h: HeadView)
    requires
        head_refresh(h) is Ok,
    ensures
        h.enabled,
        h.current_mode matches Some(k) && lookup(h.modes, k) matches Some(ev) && head_refresh(h)->Ok_0.0
            == ev.mode && ev.mode.refresh.value() != 0,
{
}

} // verus!
