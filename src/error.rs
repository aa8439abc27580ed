use vstd::prelude::*;

verus! {

/// Why a measurement could not be decoded or extracted.
#[derive(Debug, Clone, PartialEq, Eq)]
pub enum MeasurementsError {
    /// The report body is not in the TD10 measurement format.
    NoTd10Report,
    /// Reserved for validation failures of the collaborator that produced the report.
    InvalidTcbInfo,
    /// A hex field holds a character that is not a hex digit: (field name, raw string).
    InvalidHexValue(String, String),
    /// A hex field has the wrong number of characters: (field name, actual count).
    InvalidLength(String, usize),
}

impl MeasurementsError {
    /// True when `self` is `InvalidLength` for field `field` with count `len`.
    pub open spec fn is_invalid_length(self, field: Seq<char>, len: nat) -> bool {
        match self {
            MeasurementsError::InvalidLength(f, n) => f@ == field && n as nat == len,
            _ => false,
        }
    }

    /// True when `self` is `InvalidHexValue` for field `field` and raw string `value`.
    pub open spec fn is_invalid_hex_value(self, field: Seq<char>, value: Seq<char>) -> bool {
        match self {
            MeasurementsError::InvalidHexValue(f, v) => f@ == field && v@ == value,
            _ => false,
        }
    }
}

} // verus!
