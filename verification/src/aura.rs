//! Read-only ASUS Aura RGB state from the asusd D-Bus interface.
//!
//! Authority: asusd service `xyz.ljones.Asusd`, interface `xyz.ljones.Aura`,
//! object path `/xyz/ljones/aura/tuf` (TUF laptop keyboard). The host reads
//! the properties (never a setter) and hands the wire values here:
//! - `LedMode` is a `u32`;
//! - `LedModeData` is the structure `(uu(yyy)(yyy)ss)`;
//! - `SupportedBasicModes`, `SupportedBasicZones` (empty is a valid
//!   single-zone TUF) and `SupportedBrightness` are arrays of `u32`;
//! - `Brightness` is a `u32`.
//!
//! A missing object or interface is unsupported, a missing service is an
//! unavailable backend, a malformed payload is an error (never a default),
//! and unknown wire values are preserved as `Unknown`.
use vstd::prelude::*;
use vstd::string::*;

use crate::diagnostics::DiagnosticEntry;
use crate::error::{DbusFailure, ProviderError, ProviderErrorView};
use crate::text::{concat2, decimal, str_eq, to_decimal};

verus! {

/// asusd well-known D-Bus name.
pub const ASUS_AURA_DESTINATION: &'static str = "xyz.ljones.Asusd";

/// Aura object path for TUF laptop keyboards.
pub const ASUS_AURA_PATH: &'static str = "/xyz/ljones/aura/tuf";

/// Aura D-Bus interface.
pub const ASUS_AURA_INTERFACE: &'static str = "xyz.ljones.Aura";

/// Aura effect mode (asusd `AuraModeNum`).
#[derive(Debug, Clone, Copy, PartialEq, Eq, Structural)]
pub enum AuraMode {
    /// 0.
    Static,
    /// 1.
    Breathe,
    /// 2.
    RainbowCycle,
    /// 3.
    RainbowWave,
    /// 4.
    Star,
    /// 5.
    Rain,
    /// 6.
    Highlight,
    /// 7.
    Laser,
    /// 8.
    Ripple,
    /// 10.
    Pulse,
    /// 11.
    Comet,
    /// 12.
    Flash,
    /// Any other wire value, preserved.
    Unknown(u32),
}

/// The mode of a wire value.
pub open spec fn mode_of(v: u32) -> AuraMode {
    if v == 0 {
        AuraMode::Static
    } else if v == 1 {
        AuraMode::Breathe
    } else if v == 2 {
        AuraMode::RainbowCycle
    } else if v == 3 {
        AuraMode::RainbowWave
    } else if v == 4 {
        AuraMode::Star
    } else if v == 5 {
        AuraMode::Rain
    } else if v == 6 {
        AuraMode::Highlight
    } else if v == 7 {
        AuraMode::Laser
    } else if v == 8 {
        AuraMode::Ripple
    } else if v == 10 {
        AuraMode::Pulse
    } else if v == 11 {
        AuraMode::Comet
    } else if v == 12 {
        AuraMode::Flash
    } else {
        AuraMode::Unknown(v)
    }
}

impl AuraMode {
    /// Decode a wire value.
    pub fn from_u32(v: u32) -> (m: Self)
        ensures
            m == mode_of(v),
    {
        match v {
            0 => AuraMode::Static,
            1 => AuraMode::Breathe,
            2 => AuraMode::RainbowCycle,
            3 => AuraMode::RainbowWave,
            4 => AuraMode::Star,
            5 => AuraMode::Rain,
            6 => AuraMode::Highlight,
            7 => AuraMode::Laser,
            8 => AuraMode::Ripple,
            10 => AuraMode::Pulse,
            11 => AuraMode::Comet,
            12 => AuraMode::Flash,
            _ => AuraMode::Unknown(v),
        }
    }
}

/// Aura zone (asusd `AuraZone`).
#[derive(Debug, Clone, Copy, PartialEq, Eq, Structural)]
pub enum AuraZone {
    /// 0: the whole keyboard.
    NoZone,
    /// 1.
    Key1,
    /// 2.
    Key2,
    /// 3.
    Key3,
    /// 4.
    Key4,
    /// 5.
    Logo,
    /// 6.
    BarLeft,
    /// 7.
    BarRight,
    /// Any other wire value, preserved.
    Unknown(u32),
}

/// The zone of a wire value.
pub open spec fn zone_of(v: u32) -> AuraZone {
    if v == 0 {
        AuraZone::NoZone
    } else if v == 1 {
        AuraZone::Key1
    } else if v == 2 {
        AuraZone::Key2
    } else if v == 3 {
        AuraZone::Key3
    } else if v == 4 {
        AuraZone::Key4
    } else if v == 5 {
        AuraZone::Logo
    } else if v == 6 {
        AuraZone::BarLeft
    } else if v == 7 {
        AuraZone::BarRight
    } else {
        AuraZone::Unknown(v)
    }
}

impl AuraZone {
    /// Decode a wire value.
    pub fn from_u32(v: u32) -> (z: Self)
        ensures
            z == zone_of(v),
    {
        match v {
            0 => AuraZone::NoZone,
            1 => AuraZone::Key1,
            2 => AuraZone::Key2,
            3 => AuraZone::Key3,
            4 => AuraZone::Key4,
            5 => AuraZone::Logo,
            6 => AuraZone::BarLeft,
            7 => AuraZone::BarRight,
            _ => AuraZone::Unknown(v),
        }
    }
}

/// Keyboard brightness (asusd `LedBrightness`).
#[derive(Debug, Clone, Copy, PartialEq, Eq, Structural)]
pub enum AuraBrightness {
    /// 0.
    Off,
    /// 1.
    Low,
    /// 2.
    Med,
    /// 3.
    High,
    /// Any other wire value, preserved.
    Unknown(u32),
}

/// The brightness of a wire value.
pub open spec fn brightness_of(v: u32) -> AuraBrightness {
    if v == 0 {
        AuraBrightness::Off
    } else if v == 1 {
        AuraBrightness::Low
    } else if v == 2 {
        AuraBrightness::Med
    } else if v == 3 {
        AuraBrightness::High
    } else {
        AuraBrightness::Unknown(v)
    }
}

impl AuraBrightness {
    /// Decode a wire value.
    pub fn from_u32(v: u32) -> (b: Self)
        ensures
            b == brightness_of(v),
    {
        match v {
            0 => AuraBrightness::Off,
            1 => AuraBrightness::Low,
            2 => AuraBrightness::Med,
            3 => AuraBrightness::High,
            _ => AuraBrightness::Unknown(v),
        }
    }
}

/// Effect speed, named on the wire.
#[derive(Debug, Clone, PartialEq, Eq)]
pub enum AuraSpeed {
    /// `Low`.
    Low,
    /// `Med`.
    Med,
    /// `High`.
    High,
    /// Any other name, preserved.
    Unknown(String),
}

/// Whether `s` is the speed named `wire`.
pub open spec fn speed_is(s: AuraSpeed, wire: Seq<char>) -> bool {
    if wire == "Low"@ {
        s == AuraSpeed::Low
    } else if wire == "Med"@ {
        s == AuraSpeed::Med
    } else if wire == "High"@ {
        s == AuraSpeed::High
    } else {
        s matches AuraSpeed::Unknown(x) && x@ == wire
    }
}

impl AuraSpeed {
    /// Decode a wire name; unknown names are preserved.
    pub fn from_name(wire: &str) -> (s: Self)
        ensures
            speed_is(s, wire@),
    {
        if str_eq(wire, "Low") {
            AuraSpeed::Low
        } else if str_eq(wire, "Med") {
            AuraSpeed::Med
        } else if str_eq(wire, "High") {
            AuraSpeed::High
        } else {
            AuraSpeed::Unknown(wire.to_owned())
        }
    }
}

/// Effect direction, named on the wire.
#[derive(Debug, Clone, PartialEq, Eq)]
pub enum AuraDirection {
    /// `Right`.
    Right,
    /// `Left`.
    Left,
    /// `Up`.
    Up,
    /// `Down`.
    Down,
    /// Any other name, preserved.
    Unknown(String),
}

/// Whether `d` is the direction named `wire`.
pub open spec fn direction_is(d: AuraDirection, wire: Seq<char>) -> bool {
    if wire == "Right"@ {
        d == AuraDirection::Right
    } else if wire == "Left"@ {
        d == AuraDirection::Left
    } else if wire == "Up"@ {
        d == AuraDirection::Up
    } else if wire == "Down"@ {
        d == AuraDirection::Down
    } else {
        d matches AuraDirection::Unknown(x) && x@ == wire
    }
}

impl AuraDirection {
    /// Decode a wire name; unknown names are preserved.
    pub fn from_name(wire: &str) -> (d: Self)
        ensures
            direction_is(d, wire@),
    {
        if str_eq(wire, "Right") {
            AuraDirection::Right
        } else if str_eq(wire, "Left") {
            AuraDirection::Left
        } else if str_eq(wire, "Up") {
            AuraDirection::Up
        } else if str_eq(wire, "Down") {
            AuraDirection::Down
        } else {
            AuraDirection::Unknown(wire.to_owned())
        }
    }
}

/// An RGB colour, channel for channel as on the wire.
#[derive(Debug, Clone, Copy, PartialEq, Eq, Structural)]
pub struct AuraRgb {
    /// Red.
    pub r: u8,
    /// Green.
    pub g: u8,
    /// Blue.
    pub b: u8,
}

/// The current Aura effect.
#[derive(Debug, Clone, PartialEq, Eq)]
pub struct AuraEffect {
    /// Mode.
    pub mode: AuraMode,
    /// Zone.
    pub zone: AuraZone,
    /// First colour.
    pub colour1: AuraRgb,
    /// Second colour.
    pub colour2: AuraRgb,
    /// Speed.
    pub speed: AuraSpeed,
    /// Direction.
    pub direction: AuraDirection,
}

/// The Aura state.
#[derive(Debug, Clone, PartialEq, Eq)]
pub struct AuraState {
    /// `LedMode`.
    pub current_mode: AuraMode,
    /// `LedModeData`.
    pub current_effect: AuraEffect,
    /// `Brightness`.
    pub brightness: AuraBrightness,
    /// `SupportedBasicModes`.
    pub supported_modes: Vec<AuraMode>,
    /// `SupportedBasicZones`.
    pub supported_zones: Vec<AuraZone>,
    /// `SupportedBrightness`.
    pub supported_brightness: Vec<AuraBrightness>,
}

/// The shape of a D-Bus value as far as Aura decoding looks at it.
#[derive(Debug, PartialEq, Eq)]
pub enum DbusValueKind {
    /// `y`.
    U8(u8),
    /// `u`.
    U32(u32),
    /// `s`.
    Str(String),
    /// An array.
    Array(Vec<DbusValue>),
    /// A structure.
    Structure(Vec<DbusValue>),
    /// Any other type.
    Other,
}

/// A D-Bus value and its `Debug` text.
#[derive(Debug, PartialEq, Eq)]
pub struct DbusValue {
    /// The value.
    pub kind: DbusValueKind,
    /// Its `Debug` rendering, used in error messages.
    pub debug: String,
}

/// The decoded parts of `LedModeData`, as on the wire.
pub struct EffectWire {
    /// Mode number.
    pub mode: u32,
    /// Zone number.
    pub zone: u32,
    /// First colour.
    pub colour1: AuraRgb,
    /// Second colour.
    pub colour2: AuraRgb,
    /// Speed name.
    pub speed: Seq<char>,
    /// Direction name.
    pub direction: Seq<char>,
}

/// Whether an effect holds exactly the decoded wire parts.
pub open spec fn effect_is(e: AuraEffect, w: EffectWire) -> bool {
    &&& e.mode == mode_of(w.mode)
    &&& e.zone == zone_of(w.zone)
    &&& e.colour1 == w.colour1
    &&& e.colour2 == w.colour2
    &&& speed_is(e.speed, w.speed)
    &&& direction_is(e.direction, w.direction)
}

/// The prefix of every `LedModeData` decoding error.
pub open spec fn malformed() -> Seq<char> {
    "asus aura: led_mode_data malformed: "@
}

/// Channel `index` of colour `name`.
pub open spec fn channel_of(f: DbusValue, name: Seq<char>, index: nat) -> Result<u8, ProviderErrorView> {
    match f.kind {
        DbusValueKind::U8(x) => Ok(x),
        _ => Err(
            ProviderErrorView::Internal(
                malformed() + name + " channel "@ + decimal(index) + " expected u8, got "@ + f.debug@,
            ),
        ),
    }
}

/// A colour from the wire structure `(yyy)`.
pub open spec fn colour_of(v: DbusValue, name: Seq<char>) -> Result<AuraRgb, ProviderErrorView> {
    match v.kind {
        DbusValueKind::Structure(fs) => if fs@.len() != 3 {
            Err(
                ProviderErrorView::Internal(
                    malformed() + name + " expected 3 fields, got "@ + decimal(fs@.len()),
                ),
            )
        } else {
            match channel_of(fs@[0], name, 0) {
                Err(e) => Err(e),
                Ok(r) => match channel_of(fs@[1], name, 1) {
                    Err(e) => Err(e),
                    Ok(g) => match channel_of(fs@[2], name, 2) {
                        Err(e) => Err(e),
                        Ok(b) => Ok(AuraRgb { r, g, b }),
                    },
                },
            }
        },
        _ => Err(ProviderErrorView::Internal(malformed() + name + " expected structure, got "@ + v.debug@)),
    }
}

fn parse_channel(f: &DbusValue, name: &str, index: u64) -> (r: Result<u8, ProviderError>)
    ensures
        match channel_of(*f, name@, index as nat) {
            Ok(x) => r == Ok::<u8, ProviderError>(x),
            Err(e) => r matches Err(err) && err@ == e,
        },
{
    match &f.kind {
        DbusValueKind::U8(x) => Ok(*x),
        _ => {
            let mut m = concat2("asus aura: led_mode_data malformed: ", name);
            m.append(" channel ");
            let d = to_decimal(index);
            m.append(d.as_str());
            m.append(" expected u8, got ");
            m.append(f.debug.as_str());
            Err(ProviderError::Internal(m))
        },
    }
}

/// Decode a colour from the wire structure `(yyy)`; a malformed structure is
/// an internal error, never a default colour.
pub fn parse_colour(value: &DbusValue, name: &str) -> (r: Result<AuraRgb, ProviderError>)
    ensures
        match colour_of(*value, name@) {
            Ok(c) => r == Ok::<AuraRgb, ProviderError>(c),
            Err(e) => r matches Err(err) && err@ == e,
        },
{
    match &value.kind {
        DbusValueKind::Structure(fs) => {
            if fs.len() != 3 {
                let mut m = concat2("asus aura: led_mode_data malformed: ", name);
                m.append(" expected 3 fields, got ");
                let d = to_decimal(fs.len() as u64);
                m.append(d.as_str());
                return Err(ProviderError::Internal(m));
            }
            let r = match parse_channel(&fs[0], name, 0) {
                Ok(x) => x,
                Err(e) => {
                    return Err(e);
                },
            };
            let g = match parse_channel(&fs[1], name, 1) {
                Ok(x) => x,
                Err(e) => {
                    return Err(e);
                },
            };
            let b = match parse_channel(&fs[2], name, 2) {
                Ok(x) => x,
                Err(e) => {
                    return Err(e);
                },
            };
            Ok(AuraRgb { r, g, b })
        },
        _ => {
            let mut m = concat2("asus aura: led_mode_data malformed: ", name);
            m.append(" expected structure, got ");
            m.append(value.debug.as_str());
            Err(ProviderError::Internal(m))
        },
    }
}

/// A `u32` field of `LedModeData`.
pub open spec fn effect_u32(f: DbusValue, what: Seq<char>) -> Result<u32, ProviderErrorView> {
    match f.kind {
        DbusValueKind::U32(x) => Ok(x),
        _ => Err(ProviderErrorView::Internal(malformed() + what + " expected u32, got "@ + f.debug@)),
    }
}

/// A string field of `LedModeData`.
pub open spec fn effect_str(f: DbusValue, what: Seq<char>) -> Result<Seq<char>, ProviderErrorView> {
    match f.kind {
        DbusValueKind::Str(s) => Ok(s@),
        _ => Err(ProviderErrorView::Internal(malformed() + what + " expected string, got "@ + f.debug@)),
    }
}

/// `LedModeData` from the wire structure `(uu(yyy)(yyy)ss)`, fields judged
/// in order.
pub open spec fn effect_of(v: DbusValue) -> Result<EffectWire, ProviderErrorView> {
    match v.kind {
        DbusValueKind::Structure(fs) => if fs@.len() != 6 {
            Err(ProviderErrorView::Internal(malformed() + "expected 6 fields, got "@ + decimal(fs@.len())))
        } else {
            match effect_u32(fs@[0], "mode"@) {
                Err(e) => Err(e),
                Ok(mode) => match effect_u32(fs@[1], "zone"@) {
                    Err(e) => Err(e),
                    Ok(zone) => match colour_of(fs@[2], "colour1"@) {
                        Err(e) => Err(e),
                        Ok(colour1) => match colour_of(fs@[3], "colour2"@) {
                            Err(e) => Err(e),
                            Ok(colour2) => match effect_str(fs@[4], "speed"@) {
                                Err(e) => Err(e),
                                Ok(speed) => match effect_str(fs@[5], "direction"@) {
                                    Err(e) => Err(e),
                                    Ok(direction) => Ok(
                                        EffectWire { mode, zone, colour1, colour2, speed, direction },
                                    ),
                                },
                            },
                        },
                    },
                },
            }
        },
        _ => Err(ProviderErrorView::Internal(malformed() + "expected structure, got "@ + v.debug@)),
    }
}

fn effect_field_u32(f: &DbusValue, what: &str) -> (r: Result<u32, ProviderError>)
    ensures
        match effect_u32(*f, what@) {
            Ok(x) => r == Ok::<u32, ProviderError>(x),
            Err(e) => r matches Err(err) && err@ == e,
        },
{
    match &f.kind {
        DbusValueKind::U32(x) => Ok(*x),
        _ => {
            let mut m = concat2("asus aura: led_mode_data malformed: ", what);
            m.append(" expected u32, got ");
            m.append(f.debug.as_str());
            Err(ProviderError::Internal(m))
        },
    }
}

fn effect_field_str<'a>(f: &'a DbusValue, what: &str) -> (r: Result<&'a str, ProviderError>)
    ensures
        match effect_str(*f, what@) {
            Ok(x) => r matches Ok(s) && s@ == x,
            Err(e) => r matches Err(err) && err@ == e,
        },
{
    match &f.kind {
        DbusValueKind::Str(s) => Ok(s.as_str()),
        _ => {
            let mut m = concat2("asus aura: led_mode_data malformed: ", what);
            m.append(" expected string, got ");
            m.append(f.debug.as_str());
            Err(ProviderError::Internal(m))
        },
    }
}

/// Decode `LedModeData`; a malformed structure is an internal error, never
/// a default effect.
pub fn parse_effect(value: &DbusValue) -> (r: Result<AuraEffect, ProviderError>)
    ensures
        match effect_of(*value) {
            Ok(w) => r matches Ok(e) && effect_is(e, w),
            Err(e) => r matches Err(err) && err@ == e,
        },
{
    let fs = match &value.kind {
        DbusValueKind::Structure(fs) => fs,
        _ => {
            let mut m = "asus aura: led_mode_data malformed: expected structure, got ".to_owned();
            m.append(value.debug.as_str());
            proof {
                reveal_strlit("asus aura: led_mode_data malformed: expected structure, got ");
                reveal_strlit("asus aura: led_mode_data malformed: ");
                reveal_strlit("expected structure, got ");
                assert("asus aura: led_mode_data malformed: expected structure, got "@ =~= malformed()
                    + "expected structure, got "@);
            }
            return Err(ProviderError::Internal(m));
        },
    };
    if fs.len() != 6 {
        let mut m = "asus aura: led_mode_data malformed: expected 6 fields, got ".to_owned();
        let d = to_decimal(fs.len() as u64);
        m.append(d.as_str());
        proof {
            reveal_strlit("asus aura: led_mode_data malformed: expected 6 fields, got ");
            reveal_strlit("asus aura: led_mode_data malformed: ");
            reveal_strlit("expected 6 fields, got ");
            assert("asus aura: led_mode_data malformed: expected 6 fields, got "@ =~= malformed()
                + "expected 6 fields, got "@);
        }
        return Err(ProviderError::Internal(m));
    }
    let mode = match effect_field_u32(&fs[0], "mode") {
        Ok(x) => AuraMode::from_u32(x),
        Err(e) => {
            return Err(e);
        },
    };
    let zone = match effect_field_u32(&fs[1], "zone") {
        Ok(x) => AuraZone::from_u32(x),
        Err(e) => {
            return Err(e);
        },
    };
    let colour1 = match parse_colour(&fs[2], "colour1") {
        Ok(c) => c,
        Err(e) => {
            return Err(e);
        },
    };
    let colour2 = match parse_colour(&fs[3], "colour2") {
        Ok(c) => c,
        Err(e) => {
            return Err(e);
        },
    };
    let speed = match effect_field_str(&fs[4], "speed") {
        Ok(s) => AuraSpeed::from_name(s),
        Err(e) => {
            return Err(e);
        },
    };
    let direction = match effect_field_str(&fs[5], "direction") {
        Ok(s) => AuraDirection::from_name(s),
        Err(e) => {
            return Err(e);
        },
    };
    Ok(AuraEffect { mode, zone, colour1, colour2, speed, direction })
}

/// The prefix of a property decoding error.
pub open spec fn property_malformed(name: Seq<char>) -> Seq<char> {
    "asus aura: property '"@ + name + "' malformed: "@
}

/// A `u32` property.
pub open spec fn u32_property(name: Seq<char>, v: DbusValue) -> Result<u32, ProviderErrorView> {
    match v.kind {
        DbusValueKind::U32(x) => Ok(x),
        _ => Err(ProviderErrorView::Internal(property_malformed(name) + "expected u32, got "@ + v.debug@)),
    }
}

/// The elements of a `u32` array, up to the first that is not a `u32`.
pub open spec fn u32_elements(name: Seq<char>, es: Seq<DbusValue>) -> Result<Seq<u32>, ProviderErrorView>
    decreases es.len(),
{
    if es.len() == 0 {
        Ok(Seq::empty())
    } else {
        match u32_elements(name, es.drop_last()) {
            Err(e) => Err(e),
            Ok(p) => match es.last().kind {
                DbusValueKind::U32(x) => Ok(p.push(x)),
                _ => Err(
                    ProviderErrorView::Internal(
                        property_malformed(name) + "array element expected u32, got "@ + es.last().debug@,
                    ),
                ),
            },
        }
    }
}

/// A `u32` array property.
pub open spec fn u32_array_property(name: Seq<char>, v: DbusValue) -> Result<Seq<u32>, ProviderErrorView> {
    match v.kind {
        DbusValueKind::Array(es) => u32_elements(name, es@),
        _ => Err(ProviderErrorView::Internal(property_malformed(name) + "expected array, got "@ + v.debug@)),
    }
}

fn malformed_property(name: &str, what: &str, debug: &str) -> (m: String)
    ensures
        m@ == property_malformed(name@) + what@ + debug@,
{
    let mut m = concat2("asus aura: property '", name);
    m.append("' malformed: ");
    m.append(what);
    m.append(debug);
    m
}

/// Decode a `u32` property.
pub fn get_u32(name: &str, value: &DbusValue) -> (r: Result<u32, ProviderError>)
    ensures
        match u32_property(name@, *value) {
            Ok(x) => r == Ok::<u32, ProviderError>(x),
            Err(e) => r matches Err(err) && err@ == e,
        },
{
    match &value.kind {
        DbusValueKind::U32(x) => Ok(*x),
        _ => Err(ProviderError::Internal(malformed_property(name, "expected u32, got ", value.debug.as_str()))),
    }
}

/// Decode a `u32` array property; the first element that is not a `u32`
/// makes it malformed.
pub fn get_u32_array(name: &str, value: &DbusValue) -> (r: Result<Vec<u32>, ProviderError>)
    ensures
        match u32_array_property(name@, *value) {
            Ok(x) => r matches Ok(v) && v@ == x,
            Err(e) => r matches Err(err) && err@ == e,
        },
{
    match &value.kind {
        DbusValueKind::Array(es) => {
            let mut values: Vec<u32> = Vec::new();
            let mut i: usize = 0;
            assert(es@.take(0) =~= Seq::<DbusValue>::empty());
            while i < es.len()
                invariant
                    0 <= i <= es@.len(),
                    u32_array_property(name@, *value) == u32_elements(name@, es@),
                    u32_elements(name@, es@.take(i as int)) == Ok::<Seq<u32>, ProviderErrorView>(values@),
                decreases es@.len() - i,
            {
                assert(es@.take(i + 1).drop_last() =~= es@.take(i as int));
                assert(es@.take(i + 1).last() == es@[i as int]);
                match &es[i].kind {
                    DbusValueKind::U32(x) => {
                        values.push(*x);
                    },
                    _ => {
                        proof {
                            lemma_u32_elements_prefix_err(name@, es@, i as int);
                        }
                        return Err(
                            ProviderError::Internal(
                                malformed_property(name, "array element expected u32, got ", es[i].debug.as_str()),
                            ),
                        );
                    },
                }
                i = i + 1;
            }
            assert(es@.take(es@.len() as int) =~= es@);
            Ok(values)
        },
        _ => Err(ProviderError::Internal(malformed_property(name, "expected array, got ", value.debug.as_str()))),
    }
}

/// A malformed element among the first `i + 1` is the failure of all.
proof fn lemma_u32_elements_prefix_err(name: Seq<char>, es: Seq<DbusValue>, i: int)
    requires
        0 <= i < es.len(),
        u32_elements(name, es.take(i + 1)) is Err,
    ensures
        u32_elements(name, es) == u32_elements(name, es.take(i + 1)),
    decreases es.len() - i,
{
    if i + 1 < es.len() {
        assert(es.take(i + 2).drop_last() =~= es.take(i + 1));
        lemma_u32_elements_prefix_err(name, es, i + 1);
    } else {
        assert(es.take(i + 1) =~= es);
    }
}

/// The provider error of a failed Aura D-Bus call: a missing service is an
/// unavailable backend; a missing object, interface or method is
/// unsupported; a refused access is a permission failure; everything else
/// stays a D-Bus error with its text.
pub open spec fn aura_dbus_error(path: Seq<char>, f: DbusFailure) -> ProviderErrorView {
    match f {
        DbusFailure::InvalidAddress { part, text } => ProviderErrorView::Internal(
            "asus aura: invalid "@ + part@ + ": "@ + text@,
        ),
        DbusFailure::MethodError { name, text } => if name@ == "org.freedesktop.DBus.Error.ServiceUnknown"@ {
            ProviderErrorView::BackendUnavailable("asus aura: service absent: "@ + ASUS_AURA_DESTINATION@)
        } else if name@ == "org.freedesktop.DBus.Error.UnknownObject"@ {
            ProviderErrorView::Unsupported("asus aura: Aura object absent: "@ + path)
        } else if name@ == "org.freedesktop.DBus.Error.UnknownInterface"@ || name@
            == "org.freedesktop.DBus.Error.UnknownMethod"@ {
            ProviderErrorView::Unsupported("asus aura: Aura interface absent on "@ + path)
        } else if name@ == "org.freedesktop.DBus.Error.AccessDenied"@ {
            ProviderErrorView::PermissionDenied("asus aura: read denied on "@ + path)
        } else {
            ProviderErrorView::Dbus(text@)
        },
        DbusFailure::InterfaceNotFound { .. } => ProviderErrorView::Unsupported(
            "asus aura: interface absent on "@ + path,
        ),
        DbusFailure::Fdo { text, .. } => ProviderErrorView::Dbus(text@),
        DbusFailure::Other { text } => ProviderErrorView::Dbus(text@),
    }
}

/// Map a failed Aura D-Bus call into a typed provider error.
pub fn map_aura_dbus_error(path: &str, failure: &DbusFailure) -> (e: ProviderError)
    ensures
        e@ == aura_dbus_error(path@, *failure),
{
    match failure {
        DbusFailure::InvalidAddress { part, text } => {
            let mut m = concat2("asus aura: invalid ", part.as_str());
            m.append(": ");
            m.append(text.as_str());
            ProviderError::Internal(m)
        },
        DbusFailure::MethodError { name, text } => {
            let n = name.as_str();
            if str_eq(n, "org.freedesktop.DBus.Error.ServiceUnknown") {
                ProviderError::BackendUnavailable(concat2("asus aura: service absent: ", ASUS_AURA_DESTINATION))
            } else if str_eq(n, "org.freedesktop.DBus.Error.UnknownObject") {
                ProviderError::Unsupported(concat2("asus aura: Aura object absent: ", path))
            } else if str_eq(n, "org.freedesktop.DBus.Error.UnknownInterface") || str_eq(
                n,
                "org.freedesktop.DBus.Error.UnknownMethod",
            ) {
                ProviderError::Unsupported(concat2("asus aura: Aura interface absent on ", path))
            } else if str_eq(n, "org.freedesktop.DBus.Error.AccessDenied") {
                ProviderError::PermissionDenied(concat2("asus aura: read denied on ", path))
            } else {
                ProviderError::Dbus(text.clone())
            }
        },
        DbusFailure::InterfaceNotFound { .. } => ProviderError::Unsupported(
            concat2("asus aura: interface absent on ", path),
        ),
        DbusFailure::Fdo { text, .. } => ProviderError::Dbus(text.clone()),
        DbusFailure::Other { text } => ProviderError::Dbus(text.clone()),
    }
}

/// The properties the host read, each a value or a failed call.
#[derive(Debug)]
pub struct AuraReadings {
    /// `LedMode`.
    pub led_mode: Result<DbusValue, DbusFailure>,
    /// `LedModeData`.
    pub led_mode_data: Result<DbusValue, DbusFailure>,
    /// `Brightness`.
    pub brightness: Result<DbusValue, DbusFailure>,
    /// `SupportedBasicModes`.
    pub supported_modes: Result<DbusValue, DbusFailure>,
    /// `SupportedBasicZones`.
    pub supported_zones: Result<DbusValue, DbusFailure>,
    /// `SupportedBrightness`.
    pub supported_brightness: Result<DbusValue, DbusFailure>,
}

/// The decoded wire state.
pub struct AuraWire {
    /// `LedMode`.
    pub mode: u32,
    /// `LedModeData`.
    pub effect: EffectWire,
    /// `Brightness`.
    pub brightness: u32,
    /// `SupportedBasicModes`.
    pub modes: Seq<u32>,
    /// `SupportedBasicZones`.
    pub zones: Seq<u32>,
    /// `SupportedBrightness`.
    pub brightnesses: Seq<u32>,
}

/// One property: the failed call's error, or its decoding.
pub open spec fn read_u32(path: Seq<char>, name: Seq<char>, r: Result<DbusValue, DbusFailure>) -> Result<
    u32,
    ProviderErrorView,
> {
    match r {
        Err(f) => Err(aura_dbus_error(path, f)),
        Ok(v) => u32_property(name, v),
    }
}

/// One array property: the failed call's error, or its decoding.
pub open spec fn read_u32_array(path: Seq<char>, name: Seq<char>, r: Result<DbusValue, DbusFailure>) -> Result<
    Seq<u32>,
    ProviderErrorView,
> {
    match r {
        Err(f) => Err(aura_dbus_error(path, f)),
        Ok(v) => u32_array_property(name, v),
    }
}

/// The Aura state, properties judged in reading order: `LedMode`,
/// `LedModeData`, `Brightness`, `SupportedBasicModes`,
/// `SupportedBasicZones`, `SupportedBrightness`.
pub open spec fn aura_wire(path: Seq<char>, r: AuraReadings) -> Result<AuraWire, ProviderErrorView> {
    match read_u32(path, "LedMode"@, r.led_mode) {
        Err(e) => Err(e),
        Ok(mode) => match (match r.led_mode_data {
            Err(f) => Err(aura_dbus_error(path, f)),
            Ok(v) => effect_of(v),
        }) {
            Err(e) => Err(e),
            Ok(effect) => match read_u32(path, "Brightness"@, r.brightness) {
                Err(e) => Err(e),
                Ok(brightness) => match read_u32_array(path, "SupportedBasicModes"@, r.supported_modes) {
                    Err(e) => Err(e),
                    Ok(modes) => match read_u32_array(path, "SupportedBasicZones"@, r.supported_zones) {
                        Err(e) => Err(e),
                        Ok(zones) => match read_u32_array(
                            path,
                            "SupportedBrightness"@,
                            r.supported_brightness,
                        ) {
                            Err(e) => Err(e),
                            Ok(brightnesses) => Ok(
                                AuraWire { mode, effect, brightness, modes, zones, brightnesses },
                            ),
                        },
                    },
                },
            },
        },
    }
}

/// Whether a state holds exactly the decoded wire state.
pub open spec fn state_is(s: AuraState, w: AuraWire) -> bool {
    &&& s.current_mode == mode_of(w.mode)
    &&& effect_is(s.current_effect, w.effect)
    &&& s.brightness == brightness_of(w.brightness)
    &&& s.supported_modes@ == w.modes.map_values(|v: u32| mode_of(v))
    &&& s.supported_zones@ == w.zones.map_values(|v: u32| zone_of(v))
    &&& s.supported_brightness@ == w.brightnesses.map_values(|v: u32| brightness_of(v))
}

/// Read-only Aura provider over asusd; the host holds the bus connection.
#[derive(Debug, Clone)]
pub struct AsusAuraProvider {
    /// Well-known bus name.
    pub destination: String,
    /// Object path.
    pub path: String,
    /// Interface name.
    pub interface: String,
}

fn read_u32_exec(path: &str, name: &str, r: &Result<DbusValue, DbusFailure>) -> (v: Result<u32, ProviderError>)
    ensures
        match read_u32(path@, name@, *r) {
            Ok(x) => v == Ok::<u32, ProviderError>(x),
            Err(e) => v matches Err(err) && err@ == e,
        },
{
    match r {
        Err(f) => Err(map_aura_dbus_error(path, f)),
        Ok(value) => get_u32(name, value),
    }
}

fn read_u32_array_exec(path: &str, name: &str, r: &Result<DbusValue, DbusFailure>) -> (v: Result<
    Vec<u32>,
    ProviderError,
>)
    ensures
        match read_u32_array(path@, name@, *r) {
            Ok(x) => v matches Ok(a) && a@ == x,
            Err(e) => v matches Err(err) && err@ == e,
        },
{
    match r {
        Err(f) => Err(map_aura_dbus_error(path, f)),
        Ok(value) => get_u32_array(name, value),
    }
}

impl AsusAuraProvider {
    /// The production provider over asusd's TUF Aura object.
    pub fn new() -> (p: Self)
        ensures
            p.destination@ == ASUS_AURA_DESTINATION@,
            p.path@ == ASUS_AURA_PATH@,
            p.interface@ == ASUS_AURA_INTERFACE@,
    {
        AsusAuraProvider {
            destination: ASUS_AURA_DESTINATION.to_owned(),
            path: ASUS_AURA_PATH.to_owned(),
            interface: ASUS_AURA_INTERFACE.to_owned(),
        }
    }

    /// Provider diagnostics.
    pub fn diagnostics(&self) -> (v: Vec<DiagnosticEntry>)
        ensures
            v@.len() == 1,
            v@[0].key@ == "provider.asus-aura"@,
            v@[0].value@ == "read-only asusd Aura RGB backend"@,
    {
        let mut v = Vec::new();
        v.push(DiagnosticEntry::new("provider.asus-aura", "read-only asusd Aura RGB backend"));
        v
    }

    /// The Aura state from the properties the host read.
    pub fn aura_state(&self, readings: &AuraReadings) -> (r: Result<AuraState, ProviderError>)
        ensures
            match aura_wire(self.path@, *readings) {
                Ok(w) => r matches Ok(s) && state_is(s, w),
                Err(e) => r matches Err(err) && err@ == e,
            },
    {
        let path = self.path.as_str();
        let current_mode = match read_u32_exec(path, "LedMode", &readings.led_mode) {
            Ok(x) => AuraMode::from_u32(x),
            Err(e) => {
                return Err(e);
            },
        };
        let current_effect = match &readings.led_mode_data {
            Err(f) => {
                return Err(map_aura_dbus_error(path, f));
            },
            Ok(v) => match parse_effect(v) {
                Ok(e) => e,
                Err(e) => {
                    return Err(e);
                },
            },
        };
        let brightness = match read_u32_exec(path, "Brightness", &readings.brightness) {
            Ok(x) => AuraBrightness::from_u32(x),
            Err(e) => {
                return Err(e);
            },
        };
        let modes = match read_u32_array_exec(path, "SupportedBasicModes", &readings.supported_modes) {
            Ok(x) => x,
            Err(e) => {
                return Err(e);
            },
        };
        let zones = match read_u32_array_exec(path, "SupportedBasicZones", &readings.supported_zones) {
            Ok(x) => x,
            Err(e) => {
                return Err(e);
            },
        };
        let brightnesses = match read_u32_array_exec(
            path,
            "SupportedBrightness",
            &readings.supported_brightness,
        ) {
            Ok(x) => x,
            Err(e) => {
                return Err(e);
            },
        };
        let mut supported_modes: Vec<AuraMode> = Vec::new();
        let mut i: usize = 0;
        while i < modes.len()
            invariant
                0 <= i <= modes@.len(),
                supported_modes@ == modes@.take(i as int).map_values(|v: u32| mode_of(v)),
            decreases modes@.len() - i,
        {
            supported_modes.push(AuraMode::from_u32(modes[i]));
            assert(modes@.take(i + 1).map_values(|v: u32| mode_of(v)) =~= modes@.take(i as int).map_values(
                |v: u32| mode_of(v),
            ).push(mode_of(modes@[i as int])));
            i = i + 1;
        }
        assert(modes@.take(modes@.len() as int) =~= modes@);
        let mut supported_zones: Vec<AuraZone> = Vec::new();
        let mut i: usize = 0;
        while i < zones.len()
            invariant
                0 <= i <= zones@.len(),
                supported_zones@ == zones@.take(i as int).map_values(|v: u32| zone_of(v)),
            decreases zones@.len() - i,
        {
            supported_zones.push(AuraZone::from_u32(zones[i]));
            assert(zones@.take(i + 1).map_values(|v: u32| zone_of(v)) =~= zones@.take(i as int).map_values(
                |v: u32| zone_of(v),
            ).push(zone_of(zones@[i as int])));
            i = i + 1;
        }
        assert(zones@.take(zones@.len() as int) =~= zones@);
        let mut supported_brightness: Vec<AuraBrightness> = Vec::new();
        let mut i: usize = 0;
        while i < brightnesses.len()
            invariant
                0 <= i <= brightnesses@.len(),
                supported_brightness@ == brightnesses@.take(i as int).map_values(|v: u32| brightness_of(v)),
            decreases brightnesses@.len() - i,
        {
            supported_brightness.push(AuraBrightness::from_u32(brightnesses[i]));
            assert(brightnesses@.take(i + 1).map_values(|v: u32| brightness_of(v)) =~= brightnesses@.take(
                i as int,
            ).map_values(|v: u32| brightness_of(v)).push(brightness_of(brightnesses@[i as int])));
            i = i + 1;
        }
        assert(brightnesses@.take(brightnesses@.len() as int) =~= brightnesses@);
        Ok(
            AuraState {
                current_mode,
                current_effect,
                brightness,
                supported_modes,
                supported_zones,
                supported_brightness,
            },
        )
    }
}

} // verus!
