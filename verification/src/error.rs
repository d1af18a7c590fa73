//! Configuration errors reported when a formation starts.

use vstd::prelude::*;

verus! {

/// Why a configuration was refused.
#[derive(Clone, Copy, Debug, PartialEq, Eq, Structural)]
pub enum ConfigError {
    /// The wave period is zero or negative.
    NonPositivePeriod,
    /// The delay policy holds a negative delay.
    NegativeDelay,
    /// The delay of a unit does not fit in 64 bits.
    DelayOverflow,
    /// The per-row table has no entry for the row of a unit.
    RowOutOfTable,
}

impl ConfigError {
    /// A short description of the error.
    pub fn message(&self) -> (text: &'static str)
        ensures
            text@ == match *self {
                ConfigError::NonPositivePeriod => "wave period must be positive"@,
                ConfigError::NegativeDelay => "delays must not be negative"@,
                ConfigError::DelayOverflow => "delay does not fit in 64 bits"@,
                ConfigError::RowOutOfTable => "no delay configured for this row"@,
            },
    {
        match self {
            ConfigError::NonPositivePeriod => "wave period must be positive",
            ConfigError::NegativeDelay => "delays must not be negative",
            ConfigError::DelayOverflow => "delay does not fit in 64 bits",
            ConfigError::RowOutOfTable => "no delay configured for this row",
        }
    }
}

} // verus!
