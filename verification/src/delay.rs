//! How long each unit waits, within a wave, before it moves.
//!
//! The delay of a unit depends only on where it stands in the grid, so every
//! wave ripples through the formation in the same way.

use vstd::prelude::*;
use crate::error::ConfigError;

verus! {

/// The canonical base of the diagonal stagger: 50 ms, in nanoseconds.
pub const UNIT_DELAY_BASE: i64 = 50_000_000;

/// The rule that assigns delays, in nanoseconds.
#[derive(Debug)]
pub enum DelayPolicy {
    /// `base * (row + column / 2)`: a diagonal stagger across the grid, the
    /// top-left unit first.
    PerUnit { base: i64 },
    /// One delay per row, looked up by the row's index.
    PerRow { table: Vec<i64> },
}

/// The weight of a grid cell in the diagonal stagger.
pub open spec fn stagger_weight(row: u32, column: u32) -> int {
    row + column / 2
}

/// `Ok` of `value` where it is a delay that 64 bits can hold, else the error
/// that says on which side it lies.
pub open spec fn checked_delay(value: int) -> Result<u64, ConfigError> {
    if value < 0 {
        Err(ConfigError::NegativeDelay)
    } else if value > u64::MAX {
        Err(ConfigError::DelayOverflow)
    } else {
        Ok(value as u64)
    }
}

/// The diagonal stagger keeps the order of the weights: of two units that
/// both have a delay, the one nearer the top-left corner waits no longer
/// than the other.
pub proof fn lemma_diagonal_stagger_order(
    base: i64,
    row_a: u32,
    column_a: u32,
    row_b: u32,
    column_b: u32,
)
    requires
        stagger_weight(row_a, column_a) <= stagger_weight(row_b, column_b),
        (DelayPolicy::PerUnit { base }).delay_of(row_a, column_a) is Ok,
        (DelayPolicy::PerUnit { base }).delay_of(row_b, column_b) is Ok,
    ensures
        (DelayPolicy::PerUnit { base }).delay_of(row_a, column_a)->Ok_0 <= (DelayPolicy::PerUnit {
            base,
        }).delay_of(row_b, column_b)->Ok_0,
{
    let a = stagger_weight(row_a, column_a);
    let b = stagger_weight(row_b, column_b);
    if base >= 0 {
        assert(base * a <= base * b) by (nonlinear_arith)
            requires
                0 <= base,
                a <= b,
        ;
    } else {
        // A negative base gives a delay only where the weight is zero.
        assert(a > 0 ==> base * a < 0) by (nonlinear_arith)
            requires
                base < 0,
        ;
        assert(b > 0 ==> base * b < 0) by (nonlinear_arith)
            requires
                base < 0,
        ;
    }
}

impl DelayPolicy {
    /// The delay of the unit at `row` and `column`, or why it has none.
    pub open spec fn delay_of(self, row: u32, column: u32) -> Result<u64, ConfigError> {
        match self {
            DelayPolicy::PerUnit { base } => checked_delay(base * stagger_weight(row, column)),
            DelayPolicy::PerRow { table } => if row < table@.len() {
                checked_delay(table@[row as int] as int)
            } else {
                Err(ConfigError::RowOutOfTable)
            },
        }
    }

    pub open spec fn per_unit_spec() -> DelayPolicy {
        DelayPolicy::PerUnit { base: UNIT_DELAY_BASE }
    }

    /// The diagonal stagger with the canonical base.
    pub fn per_unit() -> (policy: DelayPolicy)
        ensures
            policy == DelayPolicy::per_unit_spec(),
    {
        DelayPolicy::PerUnit { base: UNIT_DELAY_BASE }
    }

    /// The canonical table for five rows: the bottom row moves at once and
    /// each row above it 0.2 s later than the one below.
    pub fn per_row() -> (policy: DelayPolicy)
        ensures
            policy matches DelayPolicy::PerRow { table } && table@ == seq![
                800_000_000i64,
                600_000_000i64,
                400_000_000i64,
                200_000_000i64,
                0i64,
            ],
    {
        let mut table: Vec<i64> = Vec::new();
        table.push(800_000_000);
        table.push(600_000_000);
        table.push(400_000_000);
        table.push(200_000_000);
        table.push(0);
        DelayPolicy::PerRow { table }
    }

    /// Computes the delay of the unit at `row` and `column`.
    pub fn delay_for(&self, row: u32, column: u32) -> (delay: Result<u64, ConfigError>)
        ensures
            delay == self.delay_of(row, column),
            delay matches Ok(d) ==> d >= 0,
    {
        match self {
            DelayPolicy::PerUnit { base } => {
                let weight: i128 = row as i128 + (column / 2) as i128;
                let factor: i128 = *base as i128;
                assert(-0x8000_0000_0000_0000 * 0x2_0000_0000 <= factor * weight
                    <= 0x8000_0000_0000_0000 * 0x2_0000_0000) by (nonlinear_arith)
                    requires
                        -0x8000_0000_0000_0000 <= factor <= 0x8000_0000_0000_0000,
                        0 <= weight <= 0x2_0000_0000,
                ;
                let value: i128 = factor * weight;
                if value < 0 {
                    Err(ConfigError::NegativeDelay)
                } else if value > u64::MAX as i128 {
                    Err(ConfigError::DelayOverflow)
                } else {
                    Ok(value as u64)
                }
            },
            DelayPolicy::PerRow { table } => {
                if (row as usize) < table.len() {
                    let value: i64 = table[row as usize];
                    if value < 0 {
                        Err(ConfigError::NegativeDelay)
                    } else {
                        Ok(value as u64)
                    }
                } else {
                    Err(ConfigError::RowOutOfTable)
                }
            },
        }
    }
}

} // verus!
