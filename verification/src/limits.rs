//! CPU package power limits.
use vstd::prelude::*;

use crate::text::{concat2, decimal, to_decimal};

verus! {

/// A package power-limit field.
#[derive(Debug, Clone, Copy, PartialEq, Eq, Hash, PartialOrd, Ord, Structural)]
pub enum PowerLimitField {
    /// Sustained power limit (PL1).
    Spl,
    /// Slow package power tracking limit (PL2).
    Sppt,
    /// Fast package power tracking limit.
    Fppt,
}

/// Unit of a power limit.
#[derive(Debug, Clone, Copy, PartialEq, Eq, Structural)]
pub enum Unit {
    /// Watts.
    Watts,
}

/// Why a power-limit value is not consistent with its metadata.
#[derive(Debug, Clone, Copy, PartialEq, Eq, Structural)]
pub enum PowerLimitValueError {
    /// `min` exceeds `max`.
    InvertedRange,
    /// `step` is not positive.
    NonPositiveStep,
    /// The current value lies outside `min..=max`.
    ValueOutOfRange,
    /// The default lies outside `min..=max`.
    DefaultOutOfRange,
}

impl PowerLimitValueError {
    /// Human-readable text.
    pub fn text(self) -> (t: &'static str)
        ensures
            t@ == power_limit_error_text(self),
    {
        match self {
            PowerLimitValueError::InvertedRange => "power limit minimum exceeds maximum",
            PowerLimitValueError::NonPositiveStep => "power limit step is not positive",
            PowerLimitValueError::ValueOutOfRange => "power limit value is outside its range",
            PowerLimitValueError::DefaultOutOfRange => "power limit default is outside its range",
        }
    }
}

/// Human-readable text of a power-limit error.
pub open spec fn power_limit_error_text(e: PowerLimitValueError) -> Seq<char> {
    match e {
        PowerLimitValueError::InvertedRange => "power limit minimum exceeds maximum"@,
        PowerLimitValueError::NonPositiveStep => "power limit step is not positive"@,
        PowerLimitValueError::ValueOutOfRange => "power limit value is outside its range"@,
        PowerLimitValueError::DefaultOutOfRange => "power limit default is outside its range"@,
    }
}

/// A power-limit value together with the metadata that bounds it.
#[derive(Debug, Clone, Copy, PartialEq, Eq, Structural)]
pub struct PowerLimitValue {
    /// Current value.
    pub value: i32,
    /// Smallest accepted value.
    pub min: i32,
    /// Largest accepted value.
    pub max: i32,
    /// Step between accepted values.
    pub step: i32,
    /// Firmware default, when published.
    pub default: Option<i32>,
    /// Unit.
    pub unit: Unit,
}

/// The first inconsistency of a value with its metadata, if any.
pub open spec fn power_limit_check(
    value: i32,
    min: i32,
    max: i32,
    step: i32,
    default: Option<i32>,
) -> Option<PowerLimitValueError> {
    if min > max {
        Some(PowerLimitValueError::InvertedRange)
    } else if step <= 0 {
        Some(PowerLimitValueError::NonPositiveStep)
    } else if value < min || value > max {
        Some(PowerLimitValueError::ValueOutOfRange)
    } else if default matches Some(d) && (d < min || d > max) {
        Some(PowerLimitValueError::DefaultOutOfRange)
    } else {
        None
    }
}

impl PowerLimitValue {
    /// A value with its metadata, if they are consistent: `min <= max`, a
    /// positive step, and the value and default inside `min..=max`.
    pub fn new(
        value: i32,
        min: i32,
        max: i32,
        step: i32,
        default: Option<i32>,
        unit: Unit,
    ) -> (r: Result<Self, PowerLimitValueError>)
        ensures
            match power_limit_check(value, min, max, step, default) {
                Some(e) => r == Err::<Self, PowerLimitValueError>(e),
                None => r == Ok::<Self, PowerLimitValueError>(
                    PowerLimitValue { value, min, max, step, default, unit },
                ),
            },
    {
        if min > max {
            return Err(PowerLimitValueError::InvertedRange);
        }
        if step <= 0 {
            return Err(PowerLimitValueError::NonPositiveStep);
        }
        if value < min || value > max {
            return Err(PowerLimitValueError::ValueOutOfRange);
        }
        if let Some(d) = default {
            if d < min || d > max {
                return Err(PowerLimitValueError::DefaultOutOfRange);
            }
        }
        Ok(PowerLimitValue { value, min, max, step, default, unit })
    }
}

/// The power limits a provider proved, in field order.
#[derive(Debug, Clone, PartialEq, Eq)]
pub struct PowerLimits {
    /// Proven fields and their values, each field at most once, in field
    /// order (see [`PowerLimits::wf`]).
    pub fields: Vec<(PowerLimitField, PowerLimitValue)>,
}

/// The position of a field in field order.
pub open spec fn field_rank(f: PowerLimitField) -> int {
    match f {
        PowerLimitField::Spl => 0,
        PowerLimitField::Sppt => 1,
        PowerLimitField::Fppt => 2,
    }
}

/// Whether the fields come in strictly increasing field order, so that each
/// field occurs at most once.
pub open spec fn fields_ordered(fields: Seq<(PowerLimitField, PowerLimitValue)>) -> bool {
    forall|i: int, j: int| 0 <= i < j < fields.len() ==> field_rank(#[trigger] fields[i].0) < field_rank(#[trigger] fields[j].0)
}

/// Appending a field ranked above every field present keeps the order.
pub proof fn lemma_push_ordered(fields: Seq<(PowerLimitField, PowerLimitValue)>, entry: (PowerLimitField, PowerLimitValue))
    requires
        fields_ordered(fields),
        forall|i: int| 0 <= i < fields.len() ==> field_rank(#[trigger] fields[i].0) < field_rank(entry.0),
    ensures
        fields_ordered(fields.push(entry)),
{
    let s = fields.push(entry);
    assert forall|i: int, j: int| 0 <= i < j < s.len() implies field_rank(#[trigger] s[i].0) < field_rank(#[trigger] s[j].0) by {
        if j == fields.len() {
            assert(s[i] == fields[i]);
        } else {
            assert(s[i] == fields[i] && s[j] == fields[j]);
        }
    }
}

/// In ordered fields each field occurs at most once.
pub proof fn lemma_ordered_fields_distinct(fields: Seq<(PowerLimitField, PowerLimitValue)>, i: int, j: int)
    requires
        fields_ordered(fields),
        0 <= i < fields.len(),
        0 <= j < fields.len(),
        i != j,
    ensures
        fields[i].0 != fields[j].0,
{
    if i < j {
        assert(field_rank(fields[i].0) < field_rank(fields[j].0));
    } else {
        assert(field_rank(fields[j].0) < field_rank(fields[i].0));
    }
}

/// The value recorded for `field`, if any.
pub open spec fn limit_of(fields: Seq<(PowerLimitField, PowerLimitValue)>, field: PowerLimitField) -> Option<
    PowerLimitValue,
>
    decreases fields.len(),
{
    if fields.len() == 0 {
        None
    } else if fields[0].0 == field {
        Some(fields[0].1)
    } else {
        limit_of(fields.drop_first(), field)
    }
}

impl PowerLimits {
    /// Each field occurs at most once, in field order.
    pub open spec fn wf(&self) -> bool {
        fields_ordered(self.fields@)
    }

    /// The value of `field`, if proven.
    pub fn get(&self, field: &PowerLimitField) -> (v: Option<PowerLimitValue>)
        ensures
            v == limit_of(self.fields@, *field),
    {
        let mut i: usize = 0;
        assert(self.fields@.skip(0) =~= self.fields@);
        while i < self.fields.len()
            invariant
                0 <= i <= self.fields@.len(),
                limit_of(self.fields@, *field) == limit_of(self.fields@.skip(i as int), *field),
            decreases self.fields@.len() - i,
        {
            assert(self.fields@.skip(i as int).drop_first() =~= self.fields@.skip(i + 1));
            let (f, v) = self.fields[i];
            if f == *field {
                return Some(v);
            }
            i = i + 1;
        }
        None
    }
}

} // verus!
