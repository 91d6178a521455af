//! Read-only DRM/KMS connector identity evidence for display refresh.
//!
//! Connector type, state and physical size come from DRM `GETCONNECTOR`
//! metadata; the internal-panel role is never inferred from a sysfs connector
//! name such as `eDP-1`. EDID bytes are correlated to the same DRM connector
//! by the kernel `connector_id` file under that card's sysfs tree.
//!
//! No DRM master, modeset, property write or generic ioctl surface exists:
//! the host opens card nodes read-only and hands the answers to this module.
use vstd::prelude::*;
use vstd::string::*;

use crate::error::{IoErrorKind, IoFailure, IoFailureView, ProviderError, ProviderErrorView};
use crate::text::{
    chars_of, concat2, decimal, is_digit_of, lex_le, parse_unsigned, parse_unsigned_at, push_char,
    sort_strings, sorted_strings, starts_with_str, to_decimal, trim, trimmed,
};

verus! {

/// Fixed production DRM device root.
pub const DRM_DEV_ROOT: &'static str = "/dev/dri";

/// Fixed production DRM sysfs root.
pub const DRM_SYSFS_ROOT: &'static str = "/sys/class/drm";

/// Physical size of a display in millimetres; both sides are non-zero.
#[derive(Debug, Clone, Copy, PartialEq, Eq, Structural)]
pub struct DisplayPhysicalSizeMm {
    width_mm: u32,
    height_mm: u32,
}

/// The physical size for reported millimetres, absent when a side is zero.
pub open spec fn physical_size_of(width: u32, height: u32) -> Option<(u32, u32)> {
    if width > 0 && height > 0 {
        Some((width, height))
    } else {
        None
    }
}

impl DisplayPhysicalSizeMm {
    /// Width and height.
    pub closed spec fn sides(self) -> (u32, u32) {
        (self.width_mm, self.height_mm)
    }

    /// A size, or `None` when either side is zero (unknown).
    pub fn new(width_mm: u32, height_mm: u32) -> (r: Option<Self>)
        ensures
            match physical_size_of(width_mm, height_mm) {
                Some(s) => r matches Some(x) && x.sides() == s,
                None => r is None,
            },
    {
        if width_mm > 0 && height_mm > 0 {
            Some(DisplayPhysicalSizeMm { width_mm, height_mm })
        } else {
            None
        }
    }

    /// Width in millimetres.
    pub fn width_mm(&self) -> (w: u32)
        ensures
            w == self.sides().0,
    {
        self.width_mm
    }

    /// Height in millimetres.
    pub fn height_mm(&self) -> (h: u32)
        ensures
            h == self.sides().1,
    {
        self.height_mm
    }
}

/// Identity of a display sink: manufacturer, model and serial, none empty.
#[derive(Debug, Clone, PartialEq, Eq)]
pub struct DisplaySinkIdentity {
    manufacturer: String,
    model: String,
    serial: String,
}

/// Spec view of a [`DisplaySinkIdentity`].
pub struct SinkView {
    /// Manufacturer.
    pub manufacturer: Seq<char>,
    /// Model.
    pub model: Seq<char>,
    /// Serial.
    pub serial: Seq<char>,
}

impl View for DisplaySinkIdentity {
    type V = SinkView;

    closed spec fn view(&self) -> SinkView {
        SinkView { manufacturer: self.manufacturer@, model: self.model@, serial: self.serial@ }
    }
}

/// Whether the three parts make a complete identity.
pub open spec fn complete_identity(manufacturer: Seq<char>, model: Seq<char>, serial: Seq<char>) -> bool {
    manufacturer.len() > 0 && model.len() > 0 && serial.len() > 0
}

impl DisplaySinkIdentity {
    /// A complete identity, or `None` when any part is empty.
    pub fn new(manufacturer: String, model: String, serial: String) -> (r: Option<Self>)
        ensures
            complete_identity(manufacturer@, model@, serial@) <==> r is Some,
            r matches Some(x) ==> x@ == (SinkView {
                manufacturer: manufacturer@,
                model: model@,
                serial: serial@,
            }),
    {
        if !manufacturer.as_str().is_empty() && !model.as_str().is_empty() && !serial.as_str().is_empty() {
            Some(DisplaySinkIdentity { manufacturer, model, serial })
        } else {
            None
        }
    }

    /// Manufacturer.
    pub fn manufacturer(&self) -> (s: &str)
        ensures
            s@ == self@.manufacturer,
    {
        self.manufacturer.as_str()
    }

    /// Model.
    pub fn model(&self) -> (s: &str)
        ensures
            s@ == self@.model,
    {
        self.model.as_str()
    }

    /// Serial.
    pub fn serial(&self) -> (s: &str)
        ensures
            s@ == self@.serial,
    {
        self.serial.as_str()
    }

    /// A copy of the identity.
    pub fn clone_identity(&self) -> (c: Self)
        ensures
            c@ == self@,
    {
        DisplaySinkIdentity {
            manufacturer: self.manufacturer.clone(),
            model: self.model.clone(),
            serial: self.serial.clone(),
        }
    }
}

/// Connector type as DRM reports it, reduced to the kinds display refresh
/// distinguishes.
#[derive(Debug, Clone, Copy, PartialEq, Eq, Structural)]
pub enum DrmConnectorTypeEvidence {
    /// Embedded DisplayPort.
    Edp,
    /// LVDS.
    Lvds,
    /// DSI.
    Dsi,
    /// External DisplayPort.
    DisplayPort,
    /// HDMI type A.
    HdmiA,
    /// HDMI type B.
    HdmiB,
    /// USB.
    Usb,
    /// Virtual or writeback.
    Virtual,
    /// Any other connector type.
    Other,
}

/// DRM connector interface types (`DRM_MODE_CONNECTOR_*`).
#[derive(Debug, Clone, Copy, PartialEq, Eq, Structural)]
pub enum DrmInterface {
    /// Unknown.
    Unknown,
    /// VGA.
    VGA,
    /// DVI-I.
    DVII,
    /// DVI-D.
    DVID,
    /// DVI-A.
    DVIA,
    /// Composite.
    Composite,
    /// S-Video.
    SVideo,
    /// LVDS.
    LVDS,
    /// Component.
    Component,
    /// 9-pin DIN.
    NinePinDIN,
    /// DisplayPort.
    DisplayPort,
    /// HDMI-A.
    HDMIA,
    /// HDMI-B.
    HDMIB,
    /// TV.
    TV,
    /// Embedded DisplayPort.
    EmbeddedDisplayPort,
    /// Virtual.
    Virtual,
    /// DSI.
    DSI,
    /// DPI.
    DPI,
    /// Writeback.
    Writeback,
    /// SPI.
    SPI,
    /// USB.
    USB,
}

/// The evidence kind of a DRM interface type.
pub open spec fn connector_type_of(i: DrmInterface) -> DrmConnectorTypeEvidence {
    match i {
        DrmInterface::EmbeddedDisplayPort => DrmConnectorTypeEvidence::Edp,
        DrmInterface::LVDS => DrmConnectorTypeEvidence::Lvds,
        DrmInterface::DSI => DrmConnectorTypeEvidence::Dsi,
        DrmInterface::DisplayPort => DrmConnectorTypeEvidence::DisplayPort,
        DrmInterface::HDMIA => DrmConnectorTypeEvidence::HdmiA,
        DrmInterface::HDMIB => DrmConnectorTypeEvidence::HdmiB,
        DrmInterface::USB => DrmConnectorTypeEvidence::Usb,
        DrmInterface::Virtual | DrmInterface::Writeback => DrmConnectorTypeEvidence::Virtual,
        _ => DrmConnectorTypeEvidence::Other,
    }
}

/// Map a typed DRM interface to connector evidence.
pub fn connector_type(interface: DrmInterface) -> (t: DrmConnectorTypeEvidence)
    ensures
        t == connector_type_of(interface),
{
    match interface {
        DrmInterface::EmbeddedDisplayPort => DrmConnectorTypeEvidence::Edp,
        DrmInterface::LVDS => DrmConnectorTypeEvidence::Lvds,
        DrmInterface::DSI => DrmConnectorTypeEvidence::Dsi,
        DrmInterface::DisplayPort => DrmConnectorTypeEvidence::DisplayPort,
        DrmInterface::HDMIA => DrmConnectorTypeEvidence::HdmiA,
        DrmInterface::HDMIB => DrmConnectorTypeEvidence::HdmiB,
        DrmInterface::USB => DrmConnectorTypeEvidence::Usb,
        DrmInterface::Virtual | DrmInterface::Writeback => DrmConnectorTypeEvidence::Virtual,
        _ => DrmConnectorTypeEvidence::Other,
    }
}

/// Evidence about one DRM connector.
#[derive(Debug, Clone, PartialEq, Eq)]
pub struct DrmDisplayConnectorEvidence {
    /// Kernel connector object id.
    pub connector_id: u32,
    /// Connector type from typed DRM metadata.
    pub connector_type: DrmConnectorTypeEvidence,
    /// Whether a sink is connected.
    pub connected: bool,
    /// Sink identity from a strictly parsed EDID.
    pub sink: Option<DisplaySinkIdentity>,
    /// Physical size.
    pub physical_size: Option<DisplayPhysicalSizeMm>,
}

/// Spec view of a [`DrmDisplayConnectorEvidence`].
pub struct ConnectorEvidenceView {
    /// Connector object id.
    pub connector_id: u32,
    /// Connector type.
    pub connector_type: DrmConnectorTypeEvidence,
    /// Connected.
    pub connected: bool,
    /// Sink identity.
    pub sink: Option<SinkView>,
    /// Physical size (width, height).
    pub physical_size: Option<(u32, u32)>,
}

impl View for DrmDisplayConnectorEvidence {
    type V = ConnectorEvidenceView;

    open spec fn view(&self) -> ConnectorEvidenceView {
        ConnectorEvidenceView {
            connector_id: self.connector_id,
            connector_type: self.connector_type,
            connected: self.connected,
            sink: match self.sink {
                Some(s) => Some(s@),
                None => None,
            },
            physical_size: match self.physical_size {
                Some(p) => Some(p.sides()),
                None => None,
            },
        }
    }
}

/// The views of a list of connector evidence.
pub open spec fn evidence_views(v: Seq<DrmDisplayConnectorEvidence>) -> Seq<ConnectorEvidenceView> {
    v.map_values(|e: DrmDisplayConnectorEvidence| e@)
}

/// Production source over fixed `/dev/dri` and `/sys/class/drm` roots; the
/// roots can be replaced only through [`Self::with_roots`].
#[derive(Debug, Clone)]
pub struct LinuxDrmDisplayIdentitySource {
    dev_root: String,
    sysfs_root: String,
}

impl LinuxDrmDisplayIdentitySource {
    /// The device root.
    pub closed spec fn dev_root_spec(&self) -> Seq<char> {
        self.dev_root@
    }

    /// The sysfs root.
    pub closed spec fn sysfs_root_spec(&self) -> Seq<char> {
        self.sysfs_root@
    }

    /// The production fixed-root source.
    pub fn new() -> (s: Self)
        ensures
            s.dev_root_spec() == DRM_DEV_ROOT@,
            s.sysfs_root_spec() == DRM_SYSFS_ROOT@,
    {
        LinuxDrmDisplayIdentitySource {
            dev_root: DRM_DEV_ROOT.to_owned(),
            sysfs_root: DRM_SYSFS_ROOT.to_owned(),
        }
    }

    /// A source over injected roots.
    pub fn with_roots(dev_root: &str, sysfs_root: &str) -> (s: Self)
        ensures
            s.dev_root_spec() == dev_root@,
            s.sysfs_root_spec() == sysfs_root@,
    {
        LinuxDrmDisplayIdentitySource { dev_root: dev_root.to_owned(), sysfs_root: sysfs_root.to_owned() }
    }

    /// The device root.
    pub fn dev_root(&self) -> (r: &str)
        ensures
            r@ == self.dev_root_spec(),
    {
        self.dev_root.as_str()
    }

    /// The sysfs root.
    pub fn sysfs_root(&self) -> (r: &str)
        ensures
            r@ == self.sysfs_root_spec(),
    {
        self.sysfs_root.as_str()
    }
}

impl Default for LinuxDrmDisplayIdentitySource {
    /// The production fixed-root source.
    fn default() -> (s: Self)
        ensures
            s.dev_root_spec() == DRM_DEV_ROOT@,
            s.sysfs_root_spec() == DRM_SYSFS_ROOT@,
    {
        LinuxDrmDisplayIdentitySource::new()
    }
}

/// Whether `c` is an ASCII decimal digit.
pub open spec fn ascii_digit(c: char) -> bool {
    '0' <= c <= '9'
}

/// Whether every char of `s` is an ASCII decimal digit.
pub open spec fn all_ascii_digits(s: Seq<char>) -> bool {
    forall|i: int| 0 <= i < s.len() ==> ascii_digit(#[trigger] s[i])
}

/// A primary card node name: `card` followed by one or more ASCII digits.
pub open spec fn is_primary_card(name: Seq<char>) -> bool {
    name.len() > 4 && name.take(4) == "card"@ && all_ascii_digits(name.skip(4))
}

/// Whether a `/dev/dri` entry name is a primary card node.
pub fn is_primary_card_name(name: &str) -> (b: bool)
    ensures
        b == is_primary_card(name@),
{
    let cs = chars_of(name);
    proof {
        reveal_strlit("card");
    }
    if cs.len() <= 4 {
        return false;
    }
    if !(cs[0] == 'c' && cs[1] == 'a' && cs[2] == 'r' && cs[3] == 'd') {
        assert(name@.take(4)[0] == cs@[0]);
        assert(name@.take(4)[1] == cs@[1]);
        assert(name@.take(4)[2] == cs@[2]);
        assert(name@.take(4)[3] == cs@[3]);
        return false;
    }
    assert(name@.take(4) =~= "card"@);
    let mut i: usize = 4;
    while i < cs.len()
        invariant
            4 <= i <= cs@.len(),
            cs@ == name@,
            forall|j: int| 4 <= j < i ==> ascii_digit(#[trigger] cs@[j]),
        decreases cs@.len() - i,
    {
        if !(cs[i] >= '0' && cs[i] <= '9') {
            assert(name@.skip(4)[i - 4] == cs@[i as int]);
            return false;
        }
        i = i + 1;
    }
    assert forall|j: int| 0 <= j < name@.skip(4).len() implies ascii_digit(#[trigger] name@.skip(4)[j]) by {
        assert(name@.skip(4)[j] == cs@[j + 4]);
    }
    true
}

/// The primary card node names among directory entries, in entry order.
pub open spec fn primary_cards(entries: Seq<String>) -> Seq<String>
    decreases entries.len(),
{
    if entries.len() == 0 {
        Seq::empty()
    } else if is_primary_card(entries.last()@) {
        primary_cards(entries.drop_last()).push(entries.last())
    } else {
        primary_cards(entries.drop_last())
    }
}

/// The primary card node names among `/dev/dri` entries, sorted.
pub fn primary_card_names(entries: &Vec<String>) -> (r: Vec<String>)
    ensures
        sorted_strings(r@),
        r@.to_multiset() == primary_cards(entries@).to_multiset(),
{
    let mut f: Vec<String> = Vec::new();
    let mut i: usize = 0;
    assert(entries@.take(0) =~= Seq::<String>::empty());
    while i < entries.len()
        invariant
            0 <= i <= entries@.len(),
            f@ == primary_cards(entries@.take(i as int)),
        decreases entries@.len() - i,
    {
        assert(entries@.take(i + 1).drop_last() =~= entries@.take(i as int));
        if is_primary_card_name(entries[i].as_str()) {
            f.push(entries[i].clone());
        }
        i = i + 1;
    }
    assert(entries@.take(entries@.len() as int) =~= entries@);
    sort_strings(&f)
}

/// The error of an unreadable DRM device root.
pub open spec fn root_error(root: Seq<char>, f: IoFailureView) -> ProviderErrorView {
    if f.kind == IoErrorKind::NotFound {
        ProviderErrorView::Unsupported("DRM device root absent: "@ + root)
    } else if f.kind == IoErrorKind::PermissionDenied {
        ProviderErrorView::PermissionDenied("DRM device root denied: "@ + root)
    } else {
        ProviderErrorView::Io(f)
    }
}

/// Map a failure to list the DRM device root.
pub fn map_root_error(root: &str, failure: IoFailure) -> (e: ProviderError)
    ensures
        e@ == root_error(root@, failure@),
{
    match failure.kind {
        IoErrorKind::NotFound => ProviderError::Unsupported(concat2("DRM device root absent: ", root)),
        IoErrorKind::PermissionDenied => ProviderError::PermissionDenied(
            concat2("DRM device root denied: ", root),
        ),
        _ => ProviderError::Io(failure),
    }
}

/// The error of a card node that cannot be opened read-only.
pub open spec fn open_error(path: Seq<char>, f: IoFailureView) -> ProviderErrorView {
    if f.kind == IoErrorKind::NotFound {
        ProviderErrorView::BackendUnavailable("DRM card disappeared: "@ + path)
    } else if f.kind == IoErrorKind::PermissionDenied {
        ProviderErrorView::PermissionDenied("DRM card read denied: "@ + path)
    } else {
        ProviderErrorView::Io(f)
    }
}

/// Map a failure to open a card node.
pub fn map_open_error(path: &str, failure: IoFailure) -> (e: ProviderError)
    ensures
        e@ == open_error(path@, failure@),
{
    match failure.kind {
        IoErrorKind::NotFound => ProviderError::BackendUnavailable(concat2("DRM card disappeared: ", path)),
        IoErrorKind::PermissionDenied => ProviderError::PermissionDenied(
            concat2("DRM card read denied: ", path),
        ),
        _ => ProviderError::Io(failure),
    }
}

/// The error of an unreadable `edid` file.
pub open spec fn edid_read_error(f: IoFailureView) -> ProviderErrorView {
    if f.kind == IoErrorKind::PermissionDenied {
        ProviderErrorView::PermissionDenied("DRM EDID read denied"@)
    } else if f.kind == IoErrorKind::NotFound {
        ProviderErrorView::BackendUnavailable("DRM EDID unavailable"@)
    } else {
        ProviderErrorView::Io(f)
    }
}

/// Map a failure to read a connector's `edid` file.
pub fn map_edid_error(failure: IoFailure) -> (e: ProviderError)
    ensures
        e@ == edid_read_error(failure@),
{
    match failure.kind {
        IoErrorKind::PermissionDenied => ProviderError::PermissionDenied("DRM EDID read denied".to_owned()),
        IoErrorKind::NotFound => ProviderError::BackendUnavailable("DRM EDID unavailable".to_owned()),
        _ => ProviderError::Io(failure),
    }
}

/// One entry of the DRM sysfs root, with its `connector_id` file.
#[derive(Debug, Clone, PartialEq, Eq)]
pub struct SysfsConnectorEntry {
    /// Entry name, such as `card1-eDP-1`.
    pub name: String,
    /// Content of `<entry>/connector_id`, or `None` when unreadable.
    pub connector_id: Option<String>,
}

/// Whether a sysfs entry is the directory of `connector_id` on `card`: its
/// name starts with `<card>-` and its trimmed `connector_id` file parses as
/// that id.
pub open spec fn entry_matches(card: Seq<char>, connector_id: u32, e: SysfsConnectorEntry) -> bool {
    &&& (card + "-"@).is_prefix_of(e.name@)
    &&& e.connector_id matches Some(raw) && parse_unsigned(trim(raw@), 10, u32::MAX as nat) == Ok::<
        nat,
        crate::text::IntErrorKind,
    >(connector_id as nat)
}

/// The names of the matching entries, in entry order.
pub open spec fn matching_entries(card: Seq<char>, connector_id: u32, entries: Seq<SysfsConnectorEntry>) -> Seq<
    Seq<char>,
>
    decreases entries.len(),
{
    if entries.len() == 0 {
        Seq::empty()
    } else if entry_matches(card, connector_id, entries.last()) {
        matching_entries(card, connector_id, entries.drop_last()).push(entries.last().name@)
    } else {
        matching_entries(card, connector_id, entries.drop_last())
    }
}

/// The connector directory for `connector_id` on `card`: exactly one entry
/// must match; none or several are errors.
pub open spec fn connector_dir(card: Seq<char>, connector_id: u32, entries: Seq<SysfsConnectorEntry>) -> Result<
    Seq<char>,
    ProviderErrorView,
> {
    let m = matching_entries(card, connector_id, entries);
    if m.len() == 0 {
        Err(
            ProviderErrorView::BackendUnavailable(
                "DRM sysfs connector_id "@ + decimal(connector_id as nat) + " not found for "@ + card,
            ),
        )
    } else if m.len() == 1 {
        Ok(m[0])
    } else {
        Err(
            ProviderErrorView::Internal(
                "DRM sysfs connector_id "@ + decimal(connector_id as nat) + " is ambiguous for "@ + card,
            ),
        )
    }
}

fn entry_matches_exec(card: &str, connector_id: u32, e: &SysfsConnectorEntry) -> (b: bool)
    ensures
        b == entry_matches(card@, connector_id, *e),
{
    let prefix = concat2(card, "-");
    if !starts_with_str(e.name.as_str(), prefix.as_str()) {
        return false;
    }
    match &e.connector_id {
        None => false,
        Some(raw) => {
            let t = trimmed(raw.as_str());
            let cs = chars_of(t.as_str());
            assert(cs@.subrange(0, cs@.len() as int) =~= cs@);
            match parse_unsigned_at(&cs, 0, cs.len(), 10, 0xffff_ffff) {
                Ok(v) => v == connector_id as u64,
                Err(_) => false,
            }
        },
    }
}

/// Locate the sysfs directory of a connector by its numeric object id within
/// one card; the directory name is never parsed for connector type or role.
pub fn select_connector_dir(card_name: &str, connector_id: u32, entries: &Vec<SysfsConnectorEntry>) -> (r: Result<
    String,
    ProviderError,
>)
    ensures
        match connector_dir(card_name@, connector_id, entries@) {
            Ok(d) => r matches Ok(s) && s@ == d,
            Err(e) => r matches Err(err) && err@ == e,
        },
{
    let mut found: Vec<String> = Vec::new();
    let mut i: usize = 0;
    assert(entries@.take(0) =~= Seq::<SysfsConnectorEntry>::empty());
    while i < entries.len()
        invariant
            0 <= i <= entries@.len(),
            found@.map_values(|s: String| s@) == matching_entries(card_name@, connector_id, entries@.take(i as int)),
        decreases entries@.len() - i,
    {
        assert(entries@.take(i + 1).drop_last() =~= entries@.take(i as int));
        if entry_matches_exec(card_name, connector_id, &entries[i]) {
            let ghost before = found@;
            found.push(entries[i].name.clone());
            assert(found@.map_values(|s: String| s@) =~= before.map_values(|s: String| s@).push(
                entries@[i as int].name@,
            ));
        }
        i = i + 1;
    }
    assert(entries@.take(entries@.len() as int) =~= entries@);
    if found.len() == 0 {
        let mut m = concat2("DRM sysfs connector_id ", to_decimal(connector_id as u64).as_str());
        m.append(" not found for ");
        m.append(card_name);
        Err(ProviderError::BackendUnavailable(m))
    } else if found.len() == 1 {
        assert(found@.map_values(|s: String| s@)[0] == found@[0]@);
        Ok(found[0].clone())
    } else {
        let mut m = concat2("DRM sysfs connector_id ", to_decimal(connector_id as u64).as_str());
        m.append(" is ambiguous for ");
        m.append(card_name);
        Err(ProviderError::Internal(m))
    }
}

/// What `String::from_utf8_lossy` makes of a byte sequence.
pub uninterp spec fn utf8_lossy_text(bytes: Seq<u8>) -> Seq<char>;

/// Whether every byte is ASCII.
pub open spec fn all_ascii(bytes: Seq<u8>) -> bool {
    forall|i: int| 0 <= i < bytes.len() ==> #[trigger] bytes[i] < 0x80
}

/// The chars of ASCII bytes, one per byte.
pub open spec fn ascii_chars(bytes: Seq<u8>) -> Seq<char> {
    bytes.map_values(|b: u8| b as char)
}

/// `String::from_utf8_lossy`: decodes UTF-8, replacing each invalid sequence
/// with U+FFFD. The contract names the result for all input and states it
/// for ASCII input (valid UTF-8 whose chars are its bytes); what invalid
/// sequences become is not stated.
#[verifier::external_body]
fn utf8_lossy(bytes: &Vec<u8>) -> (s: String)
    ensures
        s@ == utf8_lossy_text(bytes@),
        all_ascii(bytes@) ==> s@ == ascii_chars(bytes@),
{
    String::from_utf8_lossy(bytes.as_slice()).into_owned()
}

/// The padding that EDID descriptor text is trimmed of.
pub open spec fn is_pad(c: char) -> bool {
    c == '\0' || c == '\n' || c == '\r' || c == ' '
}

/// `s` without leading padding.
pub open spec fn trim_pad_start(s: Seq<char>) -> Seq<char>
    decreases s.len(),
{
    if s.len() > 0 && is_pad(s[0]) {
        trim_pad_start(s.drop_first())
    } else {
        s
    }
}

/// `s` without trailing padding.
pub open spec fn trim_pad_end(s: Seq<char>) -> Seq<char>
    decreases s.len(),
{
    if s.len() > 0 && is_pad(s.last()) {
        trim_pad_end(s.drop_last())
    } else {
        s
    }
}

/// `s` without leading or trailing padding.
pub open spec fn trim_pad(s: Seq<char>) -> Seq<char> {
    trim_pad_end(trim_pad_start(s))
}

fn trim_pad_string(s: &str) -> (t: String)
    ensures
        t@ == trim_pad(s@),
{
    let cs = chars_of(s);
    let hi = cs.len();
    let mut start: usize = 0;
    assert(cs@.subrange(0, hi as int) =~= s@);
    while start < hi && (cs[start] == '\0' || cs[start] == '\n' || cs[start] == '\r' || cs[start] == ' ')
        invariant
            start <= hi == cs@.len(),
            cs@ == s@,
            trim_pad_start(s@) == trim_pad_start(cs@.subrange(start as int, hi as int)),
        decreases hi - start,
    {
        assert(cs@.subrange(start as int, hi as int).drop_first() =~= cs@.subrange(start + 1, hi as int));
        start = start + 1;
    }
    let mut end = hi;
    while end > start && (cs[end - 1] == '\0' || cs[end - 1] == '\n' || cs[end - 1] == '\r' || cs[end - 1]
        == ' ')
        invariant
            start <= end <= hi == cs@.len(),
            trim_pad_start(s@) == cs@.subrange(start as int, hi as int),
            trim_pad_end(cs@.subrange(start as int, hi as int)) == trim_pad_end(
                cs@.subrange(start as int, end as int),
            ),
        decreases end - start,
    {
        assert(cs@.subrange(start as int, end as int).drop_last() =~= cs@.subrange(start as int, end - 1));
        end = end - 1;
    }
    let mut t = String::new();
    let mut i = start;
    while i < end
        invariant
            start <= i <= end <= cs@.len(),
            t@ == cs@.subrange(start as int, i as int),
        decreases end - i,
    {
        push_char(&mut t, cs[i]);
        assert(cs@.subrange(start as int, i + 1) =~= cs@.subrange(start as int, i as int).push(cs@[i as int]));
        i = i + 1;
    }
    t
}

/// The EDID base-block header.
pub open spec fn edid_header() -> Seq<u8> {
    seq![0x00u8, 0xff, 0xff, 0xff, 0xff, 0xff, 0xff, 0x00]
}

/// Sum of the bytes.
pub open spec fn byte_sum(s: Seq<u8>) -> nat
    decreases s.len(),
{
    if s.len() == 0 {
        0
    } else {
        byte_sum(s.drop_last()) + s.last() as nat
    }
}

/// The text of the display descriptor at `offset` when it carries `tag`:
/// the 13 payload bytes decoded and trimmed of padding, absent when empty.
pub open spec fn descriptor_at(base: Seq<u8>, offset: int, tag: u8) -> Option<Seq<char>> {
    if base[offset] == 0 && base[offset + 1] == 0 && base[offset + 2] == 0 && base[offset + 3] == tag
        && base[offset + 4] == 0 {
        let v = trim_pad(utf8_lossy_text(base.subrange(offset + 5, offset + 18)));
        if v.len() > 0 {
            Some(v)
        } else {
            None
        }
    } else {
        None
    }
}

/// The first non-empty descriptor text with `tag` among the four display
/// descriptors of an EDID base block.
pub open spec fn descriptor_text_of(base: Seq<u8>, tag: u8) -> Option<Seq<char>> {
    match descriptor_at(base, 54, tag) {
        Some(v) => Some(v),
        None => match descriptor_at(base, 72, tag) {
            Some(v) => Some(v),
            None => match descriptor_at(base, 90, tag) {
                Some(v) => Some(v),
                None => descriptor_at(base, 108, tag),
            },
        },
    }
}

/// The offsets of the four display descriptors of an EDID base block.
pub open spec fn display_descriptor_offsets() -> Seq<int> {
    seq![54int, 72int, 90int, 108int]
}

/// The descriptor search looks at all four display descriptors, in order:
/// it finds a text exactly when one of them carries the tag with non-empty
/// text, and then the text of the first such descriptor.
pub proof fn lemma_descriptor_search(base: Seq<u8>, tag: u8)
    ensures
        descriptor_text_of(base, tag) is Some <==> exists|k: int|
            0 <= k < 4 && #[trigger] descriptor_at(base, display_descriptor_offsets()[k], tag) is Some,
        forall|k: int|
            0 <= k < 4 && #[trigger] descriptor_at(base, display_descriptor_offsets()[k], tag) is Some && (
            forall|j: int| 0 <= j < k ==> descriptor_at(base, display_descriptor_offsets()[j], tag) is None)
                ==> descriptor_text_of(base, tag) == descriptor_at(base, display_descriptor_offsets()[k], tag),
{
    let o = display_descriptor_offsets();
    assert(o[0] == 54 && o[1] == 72 && o[2] == 90 && o[3] == 108);
    if descriptor_text_of(base, tag) is Some {
        if descriptor_at(base, 54, tag) is Some {
            assert(descriptor_at(base, o[0], tag) is Some);
        } else if descriptor_at(base, 72, tag) is Some {
            assert(descriptor_at(base, o[1], tag) is Some);
        } else if descriptor_at(base, 90, tag) is Some {
            assert(descriptor_at(base, o[2], tag) is Some);
        } else {
            assert(descriptor_at(base, o[3], tag) is Some);
        }
    }
    assert forall|k: int|
        0 <= k < 4 && #[trigger] descriptor_at(base, o[k], tag) is Some && (forall|j: int|
            0 <= j < k ==> descriptor_at(base, o[j], tag) is None) implies descriptor_text_of(base, tag)
        == descriptor_at(base, o[k], tag) by {
        if k >= 1 {
            assert(descriptor_at(base, o[0], tag) is None);
        }
        if k >= 2 {
            assert(descriptor_at(base, o[1], tag) is None);
        }
        if k >= 3 {
            assert(descriptor_at(base, o[2], tag) is None);
        }
    }
}

fn descriptor_at_exec(base: &Vec<u8>, offset: usize, tag: u8) -> (r: Option<String>)
    requires
        base@.len() >= 128,
        offset + 18 <= 128,
    ensures
        match descriptor_at(base@, offset as int, tag) {
            Some(v) => r matches Some(s) && s@ == v,
            None => r is None,
        },
{
    if base[offset] == 0 && base[offset + 1] == 0 && base[offset + 2] == 0 && base[offset + 3] == tag
        && base[offset + 4] == 0 {
        let mut payload: Vec<u8> = Vec::new();
        let mut i = offset + 5;
        while i < offset + 18
            invariant
                offset + 5 <= i <= offset + 18,
                offset + 18 <= 128 <= base@.len(),
                payload@ == base@.subrange(offset + 5, i as int),
            decreases offset + 18 - i,
        {
            payload.push(base[i]);
            assert(base@.subrange(offset + 5, i + 1) =~= base@.subrange(offset + 5, i as int).push(
                base@[i as int],
            ));
            i = i + 1;
        }
        let text = utf8_lossy(&payload);
        let v = trim_pad_string(text.as_str());
        if !v.as_str().is_empty() {
            Some(v)
        } else {
            None
        }
    } else {
        None
    }
}

/// The text of the first display descriptor carrying `tag`.
pub fn descriptor_text(base: &Vec<u8>, tag: u8) -> (r: Option<String>)
    requires
        base@.len() >= 128,
    ensures
        match descriptor_text_of(base@, tag) {
            Some(v) => r matches Some(s) && s@ == v,
            None => r is None,
        },
{
    match descriptor_at_exec(base, 54, tag) {
        Some(v) => Some(v),
        None => match descriptor_at_exec(base, 72, tag) {
            Some(v) => Some(v),
            None => match descriptor_at_exec(base, 90, tag) {
                Some(v) => Some(v),
                None => descriptor_at_exec(base, 108, tag),
            },
        },
    }
}

/// The three 5-bit letter codes of a manufacturer id, most significant first.
pub open spec fn manufacturer_codes(raw: nat) -> Seq<nat> {
    seq![(raw / 1024) % 32, (raw / 32) % 32, raw % 32]
}

/// The manufacturer id as three letters (`1` is `A`), or `None` when a code
/// is outside `1..=26`.
pub open spec fn manufacturer_of(raw: nat) -> Option<Seq<char>> {
    let c = manufacturer_codes(raw);
    if (forall|i: int| 0 <= i < 3 ==> 1 <= #[trigger] c[i] <= 26) {
        Some(c.map_values(|v: nat| (64 + v) as char))
    } else {
        None
    }
}

/// Decode a big-endian EDID manufacturer id.
pub fn decode_manufacturer(raw: u16) -> (r: Result<String, ProviderError>)
    ensures
        match manufacturer_of(raw as nat) {
            Some(m) => r matches Ok(s) && s@ == m,
            None => r matches Err(e) && e@ == ProviderErrorView::Internal(
                "EDID manufacturer code is invalid"@,
            ),
        },
{
    let a: u16 = (raw / 1024) % 32;
    let b: u16 = (raw / 32) % 32;
    let c: u16 = raw % 32;
    let ghost codes = manufacturer_codes(raw as nat);
    assert(codes[0] == a && codes[1] == b && codes[2] == c);
    if a < 1 || a > 26 || b < 1 || b > 26 || c < 1 || c > 26 {
        return Err(ProviderError::Internal("EDID manufacturer code is invalid".to_owned()));
    }
    let mut s = String::new();
    push_char(&mut s, ((64 + a) as u8) as char);
    push_char(&mut s, ((64 + b) as u8) as char);
    push_char(&mut s, ((64 + c) as u8) as char);
    assert(s@ =~= codes.map_values(|v: nat| (64 + v) as char));
    Ok(s)
}

/// The sink identity of an EDID, judged strictly on its base block: a short
/// block, a wrong header, a bad checksum or an invalid manufacturer id are
/// internal errors; a missing monitor-name or serial descriptor is
/// unsupported (never guessed from product codes).
pub open spec fn edid_identity(bytes: Seq<u8>) -> Result<SinkView, ProviderErrorView> {
    if bytes.len() < 128 {
        Err(ProviderErrorView::Internal("EDID base block is truncated"@))
    } else {
        let base = bytes.take(128);
        if base.take(8) != edid_header() {
            Err(ProviderErrorView::Internal("EDID header is invalid"@))
        } else if byte_sum(base) % 256 != 0 {
            Err(ProviderErrorView::Internal("EDID base checksum is invalid"@))
        } else {
            match manufacturer_of(base[8] as nat * 256 + base[9] as nat) {
                None => Err(ProviderErrorView::Internal("EDID manufacturer code is invalid"@)),
                Some(m) => match descriptor_text_of(base, 0xfc) {
                    None => Err(ProviderErrorView::Unsupported("EDID monitor-name descriptor missing"@)),
                    Some(model) => match descriptor_text_of(base, 0xff) {
                        None => Err(ProviderErrorView::Unsupported("EDID serial descriptor missing"@)),
                        Some(serial) => if complete_identity(m, model, serial) {
                            Ok(SinkView { manufacturer: m, model, serial })
                        } else {
                            Err(ProviderErrorView::Internal("EDID identity is incomplete"@))
                        },
                    },
                },
            }
        }
    }
}

/// Strict EDID base-block identity used only for cross-source correlation.
pub fn parse_edid_sink_identity(bytes: &Vec<u8>) -> (r: Result<DisplaySinkIdentity, ProviderError>)
    ensures
        match edid_identity(bytes@) {
            Ok(s) => r matches Ok(x) && x@ == s,
            Err(e) => r matches Err(err) && err@ == e,
        },
{
    if bytes.len() < 128 {
        return Err(ProviderError::Internal("EDID base block is truncated".to_owned()));
    }
    let mut base: Vec<u8> = Vec::new();
    let mut i: usize = 0;
    let mut sum: u32 = 0;
    while i < 128
        invariant
            0 <= i <= 128 <= bytes@.len(),
            base@ == bytes@.take(i as int),
            sum == byte_sum(bytes@.take(i as int)),
            sum <= 255 * i,
        decreases 128 - i,
    {
        assert(bytes@.take(i + 1).drop_last() =~= bytes@.take(i as int));
        base.push(bytes[i]);
        sum = sum + bytes[i] as u32;
        i = i + 1;
    }
    let ghost b = bytes@.take(128);
    assert(base@ == b);
    let header: [u8; 8] = [0x00, 0xff, 0xff, 0xff, 0xff, 0xff, 0xff, 0x00];
    let mut k: usize = 0;
    while k < 8
        invariant
            0 <= k <= 8,
            base@ == b,
            b == bytes@.take(128),
            bytes@.len() >= 128,
            b.len() == 128,
            header@ == edid_header(),
            forall|j: int| 0 <= j < k ==> b[j] == #[trigger] edid_header()[j],
        decreases 8 - k,
    {
        if base[k] != header[k] {
            assert(base@[k as int] == b[k as int]);
            assert(header@[k as int] == edid_header()[k as int]);
            assert(b.take(8)[k as int] != edid_header()[k as int]);
            assert(b.take(8) != edid_header());
            return Err(ProviderError::Internal("EDID header is invalid".to_owned()));
        }
        k = k + 1;
    }
    assert(b.take(8) =~= edid_header());
    if sum % 256 != 0 {
        return Err(ProviderError::Internal("EDID base checksum is invalid".to_owned()));
    }
    let raw: u16 = (base[8] as u16) * 256 + base[9] as u16;
    let manufacturer = match decode_manufacturer(raw) {
        Ok(m) => m,
        Err(e) => {
            return Err(e);
        },
    };
    let model = match descriptor_text(&base, 0xfc) {
        Some(v) => v,
        None => {
            return Err(ProviderError::Unsupported("EDID monitor-name descriptor missing".to_owned()));
        },
    };
    let serial = match descriptor_text(&base, 0xff) {
        Some(v) => v,
        None => {
            return Err(ProviderError::Unsupported("EDID serial descriptor missing".to_owned()));
        },
    };
    match DisplaySinkIdentity::new(manufacturer, model, serial) {
        Some(id) => Ok(id),
        None => Err(ProviderError::Internal("EDID identity is incomplete".to_owned())),
    }
}


/// GETCONNECTOR metadata of one connector.
#[derive(Debug, PartialEq, Eq)]
pub struct DrmConnectorInfo {
    /// Whether the connector state is `Connected`.
    pub connected: bool,
    /// Typed connector interface.
    pub interface: DrmInterface,
    /// Physical size in millimetres as DRM reports it (`None` for 0x0).
    pub size: Option<(u32, u32)>,
    /// The connector's EDID bytes, read only for a connected connector, or
    /// the failure to locate or read them.
    pub edid: Option<Result<Vec<u8>, ProviderError>>,
}

/// One connector handle of a card and its GETCONNECTOR answer.
#[derive(Debug, PartialEq, Eq)]
pub struct DrmConnectorReading {
    /// Connector object id.
    pub connector_id: u32,
    /// The metadata, or the text of the GETCONNECTOR failure.
    pub info: Result<DrmConnectorInfo, String>,
}

/// One primary card node as the host found it.
#[derive(Debug, PartialEq, Eq)]
pub struct DrmCardReading {
    /// Displayed path of the card node.
    pub path: String,
    /// The failure to open the node read-only; else its connectors, or the
    /// text of the resource-query failure.
    pub open: Result<Result<Vec<DrmConnectorReading>, String>, ProviderError>,
}

/// The sink identity of a connector: only a connected connector with an
/// EDID that parses strictly has one; any failure leaves it absent.
pub open spec fn sink_of(info: DrmConnectorInfo) -> Option<SinkView> {
    if info.connected {
        match info.edid {
            Some(Ok(bytes)) => match edid_identity(bytes@) {
                Ok(s) => Some(s),
                Err(_) => None,
            },
            _ => None,
        }
    } else {
        None
    }
}

/// The evidence of one connector.
pub open spec fn connector_view(connector_id: u32, info: DrmConnectorInfo) -> ConnectorEvidenceView {
    ConnectorEvidenceView {
        connector_id,
        connector_type: connector_type_of(info.interface),
        connected: info.connected,
        sink: sink_of(info),
        physical_size: match info.size {
            Some((w, h)) => physical_size_of(w, h),
            None => None,
        },
    }
}

/// The evidence of a card's connectors in handle order; the first failed
/// GETCONNECTOR aborts the snapshot.
pub open spec fn card_connectors(path: Seq<char>, cs: Seq<DrmConnectorReading>) -> Result<
    Seq<ConnectorEvidenceView>,
    ProviderErrorView,
>
    decreases cs.len(),
{
    if cs.len() == 0 {
        Ok(Seq::empty())
    } else {
        match card_connectors(path, cs.drop_last()) {
            Err(e) => Err(e),
            Ok(p) => match cs.last().info {
                Err(t) => Err(
                    ProviderErrorView::BackendUnavailable(
                        "DRM GETCONNECTOR failed for "@ + path + " connector "@ + decimal(
                            cs.last().connector_id as nat,
                        ) + ": "@ + t@,
                    ),
                ),
                Ok(info) => Ok(p.push(connector_view(cs.last().connector_id, info))),
            },
        }
    }
}

/// Progress of a snapshot over the cards seen so far.
pub struct DrmScan {
    /// Evidence gathered.
    pub evidence: Seq<ConnectorEvidenceView>,
    /// Whether some card node opened.
    pub opened_any: bool,
    /// The failure of the last card node that did not open.
    pub last_error: Option<ProviderErrorView>,
}

/// Scan the cards in order: a card that does not open is skipped (its error
/// kept as the last one); a failed resource query or GETCONNECTOR aborts.
pub open spec fn drm_scan(cards: Seq<DrmCardReading>) -> Result<DrmScan, ProviderErrorView>
    decreases cards.len(),
{
    if cards.len() == 0 {
        Ok(DrmScan { evidence: Seq::empty(), opened_any: false, last_error: None })
    } else {
        match drm_scan(cards.drop_last()) {
            Err(e) => Err(e),
            Ok(s) => {
                let c = cards.last();
                match c.open {
                    Err(e) => Ok(DrmScan { evidence: s.evidence, opened_any: s.opened_any, last_error: Some(e@) }),
                    Ok(Err(t)) => Err(
                        ProviderErrorView::BackendUnavailable(
                            "DRM resource query failed for "@ + c.path@ + ": "@ + t@,
                        ),
                    ),
                    Ok(Ok(conns)) => match card_connectors(c.path@, conns@) {
                        Err(e) => Err(e),
                        Ok(evs) => Ok(
                            DrmScan { evidence: s.evidence + evs, opened_any: true, last_error: s.last_error },
                        ),
                    },
                }
            },
        }
    }
}

/// One read-only KMS snapshot over the primary cards: no cards is
/// unsupported; when no card opens, the last open failure (or, without one,
/// backend unavailability) is the error.
pub open spec fn drm_snapshot(cards: Seq<DrmCardReading>) -> Result<Seq<ConnectorEvidenceView>, ProviderErrorView> {
    if cards.len() == 0 {
        Err(ProviderErrorView::Unsupported("no primary DRM card nodes found"@))
    } else {
        match drm_scan(cards) {
            Err(e) => Err(e),
            Ok(s) => if !s.opened_any {
                match s.last_error {
                    Some(e) => Err(e),
                    None => Err(ProviderErrorView::BackendUnavailable("no readable primary DRM card nodes"@)),
                }
            } else {
                Ok(s.evidence)
            },
        }
    }
}

fn connector_evidence_of(connector_id: u32, info: &DrmConnectorInfo) -> (e: DrmDisplayConnectorEvidence)
    ensures
        e@ == connector_view(connector_id, *info),
{
    let sink = if info.connected {
        match &info.edid {
            Some(Ok(bytes)) => match parse_edid_sink_identity(bytes) {
                Ok(s) => Some(s),
                Err(_) => None,
            },
            _ => None,
        }
    } else {
        None
    };
    let physical_size = match info.size {
        Some((w, h)) => DisplayPhysicalSizeMm::new(w, h),
        None => None,
    };
    DrmDisplayConnectorEvidence {
        connector_id,
        connector_type: connector_type(info.interface),
        connected: info.connected,
        sink,
        physical_size,
    }
}

fn card_connector_evidence(path: &str, cs: &Vec<DrmConnectorReading>) -> (r: Result<
    Vec<DrmDisplayConnectorEvidence>,
    ProviderError,
>)
    ensures
        match card_connectors(path@, cs@) {
            Ok(v) => r matches Ok(x) && evidence_views(x@) == v,
            Err(e) => r matches Err(err) && err@ == e,
        },
{
    let mut out: Vec<DrmDisplayConnectorEvidence> = Vec::new();
    let mut i: usize = 0;
    assert(cs@.take(0) =~= Seq::<DrmConnectorReading>::empty());
    assert(evidence_views(out@) =~= Seq::<ConnectorEvidenceView>::empty());
    while i < cs.len()
        invariant
            0 <= i <= cs@.len(),
            card_connectors(path@, cs@.take(i as int)) == Ok::<Seq<ConnectorEvidenceView>, ProviderErrorView>(
                evidence_views(out@),
            ),
        decreases cs@.len() - i,
    {
        assert(cs@.take(i + 1).drop_last() =~= cs@.take(i as int));
        assert(cs@.take(i + 1).last() == cs@[i as int]);
        match &cs[i].info {
            Err(t) => {
                let mut m = concat2("DRM GETCONNECTOR failed for ", path);
                m.append(" connector ");
                let d = to_decimal(cs[i].connector_id as u64);
                m.append(d.as_str());
                m.append(": ");
                m.append(t.as_str());
                proof {
                    lemma_card_connectors_prefix_err(path@, cs@, i as int);
                }
                return Err(ProviderError::BackendUnavailable(m));
            },
            Ok(info) => {
                let e = connector_evidence_of(cs[i].connector_id, info);
                let ghost before = out@;
                out.push(e);
                assert(evidence_views(out@) =~= evidence_views(before).push(e@));
            },
        }
        i = i + 1;
    }
    assert(cs@.take(cs@.len() as int) =~= cs@);
    Ok(out)
}

/// A failure among the first `i + 1` connectors is the failure of all.
proof fn lemma_card_connectors_prefix_err(path: Seq<char>, cs: Seq<DrmConnectorReading>, i: int)
    requires
        0 <= i < cs.len(),
        card_connectors(path, cs.take(i + 1)) is Err,
    ensures
        card_connectors(path, cs) == card_connectors(path, cs.take(i + 1)),
    decreases cs.len() - i,
{
    if i + 1 < cs.len() {
        assert(cs.take(i + 2).drop_last() =~= cs.take(i + 1));
        lemma_card_connectors_prefix_err(path, cs, i + 1);
        assert(card_connectors(path, cs.take(i + 2)) == card_connectors(path, cs.take(i + 1)));
    } else {
        assert(cs.take(i + 1) =~= cs);
    }
}

/// A failure among the first `i + 1` cards is the failure of all.
proof fn lemma_drm_scan_prefix_err(cards: Seq<DrmCardReading>, i: int)
    requires
        0 <= i < cards.len(),
        drm_scan(cards.take(i + 1)) is Err,
    ensures
        drm_scan(cards) == drm_scan(cards.take(i + 1)),
    decreases cards.len() - i,
{
    if i + 1 < cards.len() {
        assert(cards.take(i + 2).drop_last() =~= cards.take(i + 1));
        lemma_drm_scan_prefix_err(cards, i + 1);
    } else {
        assert(cards.take(i + 1) =~= cards);
    }
}

impl LinuxDrmDisplayIdentitySource {
    /// Assemble one read-only KMS snapshot from the host's readings of the
    /// primary cards, in card order.
    pub fn read_connectors_blocking(&self, cards: &Vec<DrmCardReading>) -> (r: Result<
        Vec<DrmDisplayConnectorEvidence>,
        ProviderError,
    >)
        ensures
            match drm_snapshot(cards@) {
                Ok(v) => r matches Ok(x) && evidence_views(x@) == v,
                Err(e) => r matches Err(err) && err@ == e,
            },
    {
        if cards.len() == 0 {
            return Err(ProviderError::Unsupported("no primary DRM card nodes found".to_owned()));
        }
        let mut evidence: Vec<DrmDisplayConnectorEvidence> = Vec::new();
        let mut opened_any = false;
        let mut last_error: Option<ProviderError> = None;
        let mut i: usize = 0;
        assert(cards@.take(0) =~= Seq::<DrmCardReading>::empty());
        assert(evidence_views(evidence@) =~= Seq::<ConnectorEvidenceView>::empty());
        while i < cards.len()
            invariant
                0 <= i <= cards@.len(),
                drm_scan(cards@.take(i as int)) matches Ok(s) && s.evidence == evidence_views(evidence@)
                    && s.opened_any == opened_any && s.last_error == (match last_error {
                    Some(e) => Some(e@),
                    None => None::<ProviderErrorView>,
                }),
            decreases cards@.len() - i,
        {
            assert(cards@.take(i + 1).drop_last() =~= cards@.take(i as int));
            assert(cards@.take(i + 1).last() == cards@[i as int]);
            let card = &cards[i];
            match &card.open {
                Err(e) => {
                    last_error = Some(e.clone_error());
                },
                Ok(Err(t)) => {
                    let mut m = concat2("DRM resource query failed for ", card.path.as_str());
                    m.append(": ");
                    m.append(t.as_str());
                    proof {
                        lemma_drm_scan_prefix_err(cards@, i as int);
                    }
                    return Err(ProviderError::BackendUnavailable(m));
                },
                Ok(Ok(conns)) => {
                    opened_any = true;
                    match card_connector_evidence(card.path.as_str(), conns) {
                        Err(e) => {
                            proof {
                                lemma_drm_scan_prefix_err(cards@, i as int);
                            }
                            return Err(e);
                        },
                        Ok(evs) => {
                            let ghost before = evidence@;
                            let ghost added = evs@;
                            let mut evs = evs;
                            evidence.append(&mut evs);
                            assert(evidence@ == before + added);
                            assert(evidence_views(evidence@) =~= evidence_views(before) + evidence_views(
                                added,
                            ));
                        },
                    }
                },
            }
            i = i + 1;
        }
        assert(cards@.take(cards@.len() as int) =~= cards@);
        if !opened_any {
            return match last_error {
                Some(e) => Err(e),
                None => Err(ProviderError::BackendUnavailable("no readable primary DRM card nodes".to_owned())),
            };
        }
        Ok(evidence)
    }
}

} // verus!
