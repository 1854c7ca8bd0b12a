use vstd::prelude::*;

use cosmwasm_std::{CosmosMsg, Empty};

use crate::error::ContractError;

verus! {

/// `cosmwasm_std::CosmosMsg`, the messages that a winning option executes;
/// the library only carries them, so Verus sees nothing inside one.
#[verifier::external_type_specification]
#[verifier::external_body]
#[verifier::reject_recursive_types(T)]
pub struct ExCosmosMsg<T>(CosmosMsg<T>);

/// `cosmwasm_std::Empty`, the custom-message type of `CosmosMsg<Empty>`.
#[verifier::external_type_specification]
#[verifier::external_body]
pub struct ExEmpty(Empty);

/// The most options a multiple-choice proposal may offer.
pub const MAX_NUM_CHOICES: u32 = 10;

/// The description of the option that every multiple-choice proposal gets
/// in addition to the options it was given.
pub const NONE_OPTION_DESCRIPTION: &'static str = "None of the Above";

/// The kind of a checked option.
#[derive(Clone, Copy, Debug, PartialEq, Eq, Structural)]
pub enum MultipleChoiceOptionType {
    /// Choice that represents selecting none of the options; still counts toward quorum
    /// and allows proposals with all bad options to be voted against.
    NoneOfTheAbove,
    Standard,
}

/// The options of a multiple-choice proposal, as a proposer submits them.
#[derive(Clone, Debug, PartialEq)]
pub struct MultipleChoiceOptions {
    pub options: Vec<MultipleChoiceOption>,
}

/// The options of a multiple-choice proposal, once checked.
#[derive(Clone, Debug, PartialEq)]
pub struct CheckedMultipleChoiceOptions {
    pub options: Vec<CheckedMultipleChoiceOption>,
}

/// One option as a proposer submits it: what it means, and the messages
/// that are executed if it wins.
#[derive(Clone, Debug, PartialEq)]
pub struct MultipleChoiceOption {
    pub description: String,
    pub msgs: Option<Vec<CosmosMsg<Empty>>>,
}

/// One checked option.
#[derive(Clone, Debug, PartialEq)]
pub struct CheckedMultipleChoiceOption {
    /// This is the index of the option in both the vote_weights and proposal.choices vectors.
    pub index: u32,
    pub option_type: MultipleChoiceOptionType,
    pub description: String,
    pub msgs: Option<Vec<CosmosMsg<Empty>>>,
    /// The voting power cast for this option so far.
    pub vote_count: u128,
}

/// Whether two optional lists of messages hold the same messages in the same order.
pub open spec fn same_msgs(a: Option<Vec<CosmosMsg<Empty>>>, b: Option<Vec<CosmosMsg<Empty>>>) -> bool {
    match (a, b) {
        (None, None) => true,
        (Some(x), Some(y)) => x@ == y@,
        _ => false,
    }
}

/// Whether a proposal with `n` submitted options has an acceptable number of them.
pub open spec fn valid_num_choices(n: int) -> bool {
    3 <= n <= MAX_NUM_CHOICES
}

impl CheckedMultipleChoiceOption {
    /// This is the checked form of the submitted `choice`, standing at `index`.
    pub open spec fn is_standard_for(self, choice: MultipleChoiceOption, index: int) -> bool {
        &&& self.index == index
        &&& self.option_type == MultipleChoiceOptionType::Standard
        &&& self.description@ == choice.description@
        &&& same_msgs(self.msgs, choice.msgs)
        &&& self.vote_count == 0
    }

    /// This is the "None of the Above" option, with index `index`.
    pub open spec fn is_none_of_the_above(self, index: int) -> bool {
        &&& self.index == index
        &&& self.option_type == MultipleChoiceOptionType::NoneOfTheAbove
        &&& self.description@ == NONE_OPTION_DESCRIPTION@
        &&& self.msgs is None
        &&& self.vote_count == 0
    }
}

impl CheckedMultipleChoiceOptions {
    /// These are the checked options of `submitted`: each submitted option in
    /// its place, with its position as its index, then the "None of the Above"
    /// option, whose index is its position too.
    pub open spec fn checks(self, submitted: MultipleChoiceOptions) -> bool {
        let n = submitted.options.len() as int;
        &&& self.options.len() == n + 1
        &&& forall|i: int|
            #![trigger self.options@[i]]
            0 <= i < n ==> self.options@[i].is_standard_for(submitted.options@[i], i)
        &&& self.options@[n].is_none_of_the_above(n)
    }
}

/// Calls `Clone::clone` of `cosmwasm_std::CosmosMsg<Empty>`, the impl that
/// `derive(Clone)` writes for that plain data enum. Claimed, and not proved:
/// the clone is equal to the original message.
#[verifier::external_body]
fn clone_msg(msg: &CosmosMsg<Empty>) -> (res: CosmosMsg<Empty>)
    ensures
        res == *msg,
{
    msg.clone()
}

/// A copy of an optional list of messages, message by message.
fn clone_msgs(msgs: &Option<Vec<CosmosMsg<Empty>>>) -> (res: Option<Vec<CosmosMsg<Empty>>>)
    ensures
        same_msgs(res, *msgs),
{
    match msgs {
        None => None,
        Some(list) => {
            let mut out: Vec<CosmosMsg<Empty>> = Vec::with_capacity(list.len());
            for i in 0..list.len()
                invariant
                    out@ == list@.take(i as int),
            {
                out.push(clone_msg(&list[i]));
                assert(list@.take(i + 1) == list@.take(i as int).push(list@[i as int]));
            }
            assert(list@.take(list@.len() as int) == list@);
            Some(out)
        },
    }
}

impl MultipleChoiceOptions {
    /// Checks the submitted options and numbers them.
    ///
    /// A proposal needs at least 3 and at most [`MAX_NUM_CHOICES`] options;
    /// otherwise it is refused with `WrongNumberOfChoices`. The checked
    /// options are the submitted ones in order, each standard, indexed by
    /// its position and with no votes yet, followed by a "None of the Above"
    /// option with no messages, whose index is its position: the number of
    /// submitted options.
    pub fn into_checked(&self) -> (res: Result<CheckedMultipleChoiceOptions, ContractError>)
        ensures
            res is Ok <==> valid_num_choices(self.options.len() as int),
            self.options.len() < 3 ==> res == Err::<CheckedMultipleChoiceOptions, ContractError>(
                ContractError::WrongNumberOfChoices,
            ),
            self.options.len() > 10 ==> res == Err::<CheckedMultipleChoiceOptions, ContractError>(
                ContractError::WrongNumberOfChoices,
            ),
            3 <= self.options.len() <= 10 ==> res is Ok,
            res matches Ok(checked) ==> checked.options.len() == self.options.len() + 1
                && checked.options.len() <= 11,
            res matches Err(e) ==> e == ContractError::WrongNumberOfChoices,
            res matches Ok(checked) ==> checked.checks(*self),
    {
        if self.options.len() < 3 || self.options.len() > MAX_NUM_CHOICES as usize {
            return Err(ContractError::WrongNumberOfChoices);
        }
        let n = self.options.len();
        let mut checked_options: Vec<CheckedMultipleChoiceOption> = Vec::with_capacity(n + 1);

        // Iterate through choices and save the index and option type for each
        for idx in 0..n
            invariant
                n == self.options.len(),
                n <= MAX_NUM_CHOICES,
                checked_options.len() == idx,
                forall|i: int|
                    0 <= i < idx ==> #[trigger] checked_options@[i].is_standard_for(
                        self.options@[i],
                        i,
                    ),
        {
            let choice = &self.options[idx];
            let checked_option = CheckedMultipleChoiceOption {
                index: idx as u32,
                option_type: MultipleChoiceOptionType::Standard,
                description: choice.description.clone(),
                msgs: clone_msgs(&choice.msgs),
                vote_count: 0,
            };
            checked_options.push(checked_option);
        }

        // Add a "None of the above" option, required for every multiple choice proposal.
        let none_option = CheckedMultipleChoiceOption {
            index: checked_options.len() as u32,
            option_type: MultipleChoiceOptionType::NoneOfTheAbove,
            description: NONE_OPTION_DESCRIPTION.to_string(),
            msgs: None,
            vote_count: 0,
        };
        checked_options.push(none_option);

        Ok(CheckedMultipleChoiceOptions { options: checked_options })
    }
}

/// Every checked proposal offers exactly one "None of the Above" option, as
/// its last option; the options before it are standard; every option is
/// indexed by its position; and no option has votes yet.
pub proof fn checked_options_shape(checked: CheckedMultipleChoiceOptions, submitted: MultipleChoiceOptions)
    requires
        checked.checks(submitted),
    ensures
        checked.options.len() >= 1,
        checked.options@.last().option_type == MultipleChoiceOptionType::NoneOfTheAbove,
        forall|i: int|
            0 <= i < checked.options.len() - 1 ==> #[trigger] checked.options@[i].option_type
                == MultipleChoiceOptionType::Standard,
        forall|i: int| 0 <= i < checked.options.len() ==> #[trigger] checked.options@[i].index == i,
        forall|i: int|
            0 <= i < checked.options.len() ==> #[trigger] checked.options@[i].vote_count == 0,
{
    let n = submitted.options.len() as int;
    assert forall|i: int| 0 <= i < checked.options.len() implies #[trigger] checked.options@[i].vote_count
        == 0 by {
        if i < n {
            assert(checked.options@[i].is_standard_for(submitted.options@[i], i));
        }
    }
    assert forall|i: int| 0 <= i < checked.options.len() implies #[trigger] checked.options@[i].index
        == i by {
        if i < n {
            assert(checked.options@[i].is_standard_for(submitted.options@[i], i));
        }
    }
}

} // verus!
