use vstd::prelude::*;

verus! {

/// The errors that the verified checks of the proposal modules can raise.
#[derive(Clone, Copy, Debug, PartialEq, Eq, Structural)]
pub enum ContractError {
    /// The sender is not allowed to act for the address it claims.
    Unauthorized,
    /// The minimum and maximum voting periods are measured in different units.
    DurationUnitsConflict,
    /// The minimum voting period is longer than the maximum voting period.
    InvalidMinVotingPeriod,
    /// A multiple-choice proposal has too few or too many options.
    WrongNumberOfChoices,
}

impl ContractError {
    /// The text that the contract reports for this error.
    pub open spec fn spec_message(self) -> Seq<char> {
        match self {
            ContractError::Unauthorized => "Unauthorized"@,
            ContractError::DurationUnitsConflict =>
                "min_voting_period and max_voting_period must have the same units (height or time)"@,
            ContractError::InvalidMinVotingPeriod =>
                "Min voting period must be less than or equal to max voting period"@,
            ContractError::WrongNumberOfChoices => "Wrong number of choices"@,
        }
    }

    /// The text that the contract reports for this error.
    pub fn message(&self) -> (res: String)
        ensures
            res@ == self.spec_message(),
    {
        match self {
            ContractError::Unauthorized => "Unauthorized".to_string(),
            ContractError::DurationUnitsConflict =>
                "min_voting_period and max_voting_period must have the same units (height or time)".to_string(),
            ContractError::InvalidMinVotingPeriod =>
                "Min voting period must be less than or equal to max voting period".to_string(),
            ContractError::WrongNumberOfChoices => "Wrong number of choices".to_string(),
        }
    }
}

} // verus!
