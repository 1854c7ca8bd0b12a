use vstd::prelude::*;

use crate::error::ContractError;

verus! {

/// A span of blocks or of seconds, the two units in which voting periods
/// are measured.
#[derive(Clone, Copy, Debug, PartialEq, Eq, Structural)]
pub enum Duration {
    /// A number of blocks.
    Height(u64),
    /// A number of seconds.
    Time(u64),
}

impl Duration {
    /// Whether both durations are measured in the same unit.
    pub open spec fn same_unit(self, other: Duration) -> bool {
        match (self, other) {
            (Duration::Height(_), Duration::Height(_)) => true,
            (Duration::Time(_), Duration::Time(_)) => true,
            _ => false,
        }
    }

    /// The number of blocks or seconds, whatever the unit.
    pub open spec fn amount(self) -> u64 {
        match self {
            Duration::Height(n) => n,
            Duration::Time(n) => n,
        }
    }
}

/// The outcome that `validate_voting_period` owes on given periods.
pub open spec fn voting_period_check(min: Option<Duration>, max: Duration) -> Result<
    (Option<Duration>, Duration),
    ContractError,
> {
    match min {
        None => Ok((min, max)),
        Some(m) => if !m.same_unit(max) {
            Err(ContractError::DurationUnitsConflict)
        } else if m.amount() <= max.amount() {
            Ok((min, max))
        } else {
            Err(ContractError::InvalidMinVotingPeriod)
        },
    }
}

/// Validates that the min voting period is less than the max voting
/// period. Passes arguments through the function.
///
/// Without a minimum the periods are accepted. With one, the two periods
/// must be measured in the same unit (`DurationUnitsConflict` otherwise),
/// and the minimum may not exceed the maximum (`InvalidMinVotingPeriod`
/// otherwise). On success both periods come back unchanged.
pub fn validate_voting_period(min: Option<Duration>, max: Duration) -> (res: Result<
    (Option<Duration>, Duration),
    ContractError,
>)
    ensures
        res == voting_period_check(min, max),
        res is Ok <==> (min matches Some(m) ==> m.same_unit(max) && m.amount() <= max.amount()),
        res matches Ok(pair) ==> pair == (min, max),
        min is None ==> res == Ok::<(Option<Duration>, Duration), ContractError>((min, max)),
        (min matches Some(Duration::Time(_)) && max matches Duration::Height(_)) ==> res == Err::<
            (Option<Duration>, Duration),
            ContractError,
        >(ContractError::DurationUnitsConflict),
        (min matches Some(Duration::Height(_)) && max matches Duration::Time(_)) ==> res == Err::<
            (Option<Duration>, Duration),
            ContractError,
        >(ContractError::DurationUnitsConflict),
        forall|lo: u64, hi: u64|
            (min == Some(Duration::Height(lo)) && max == Duration::Height(hi)) || (min == Some(
                Duration::Time(lo),
            ) && max == Duration::Time(hi)) ==> (if lo <= hi {
                res == Ok::<(Option<Duration>, Duration), ContractError>((min, max))
            } else {
                res == Err::<(Option<Duration>, Duration), ContractError>(
                    ContractError::InvalidMinVotingPeriod,
                )
            }),
{
    match min {
        None => Ok((min, max)),
        Some(m) => {
            let valid = match (m, max) {
                (Duration::Time(lo), Duration::Time(hi)) => lo <= hi,
                (Duration::Height(lo), Duration::Height(hi)) => lo <= hi,
                _ => return Err(ContractError::DurationUnitsConflict),
            };
            if valid {
                Ok((Some(m), max))
            } else {
                Err(ContractError::InvalidMinVotingPeriod)
            }
        },
    }
}

/// Periods in different units are refused as a unit conflict, whatever their
/// amounts: a minimum of any number of seconds against a maximum of any
/// number of blocks, or the other way round, is never compared by amount.
pub proof fn mixed_units_always_conflict(lo: u64, hi: u64)
    ensures
        voting_period_check(Some(Duration::Time(lo)), Duration::Height(hi)) == Err::<
            (Option<Duration>, Duration),
            ContractError,
        >(ContractError::DurationUnitsConflict),
        voting_period_check(Some(Duration::Height(lo)), Duration::Time(hi)) == Err::<
            (Option<Duration>, Duration),
            ContractError,
        >(ContractError::DurationUnitsConflict),
{
}

/// In one unit, a minimum is accepted exactly when it is no longer than the
/// maximum, and then both periods come back unchanged.
pub proof fn same_unit_compares_amounts(lo: u64, hi: u64)
    ensures
        voting_period_check(Some(Duration::Height(lo)), Duration::Height(hi)) == (if lo <= hi {
            Ok::<(Option<Duration>, Duration), ContractError>(
                (Some(Duration::Height(lo)), Duration::Height(hi)),
            )
        } else {
            Err(ContractError::InvalidMinVotingPeriod)
        }),
        voting_period_check(Some(Duration::Time(lo)), Duration::Time(hi)) == (if lo <= hi {
            Ok::<(Option<Duration>, Duration), ContractError>(
                (Some(Duration::Time(lo)), Duration::Time(hi)),
            )
        } else {
            Err(ContractError::InvalidMinVotingPeriod)
        }),
{
}

} // verus!
