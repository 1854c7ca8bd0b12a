use cosmwasm_std::{coins, BankMsg, CosmosMsg, Empty};
use cw_proposals::error::ContractError;
use cw_proposals::options::{
    MultipleChoiceOption, MultipleChoiceOptionType, MultipleChoiceOptions, MAX_NUM_CHOICES,
    NONE_OPTION_DESCRIPTION,
};

fn pay(to: &str, amount: u128) -> CosmosMsg<Empty> {
    CosmosMsg::Bank(BankMsg::Send {
        to_address: to.to_string(),
        amount: coins(amount, "ujuno"),
    })
}

fn options(n: usize) -> MultipleChoiceOptions {
    MultipleChoiceOptions {
        options: (0..n)
            .map(|i| MultipleChoiceOption {
                description: format!("Option {}", i),
                msgs: if i % 2 == 0 {
                    None
                } else {
                    Some(vec![pay("alice", i as u128), pay("bob", 7)])
                },
            })
            .collect(),
    }
}

#[test]
fn too_few_options_are_refused() {
    for n in 0..3 {
        assert_eq!(
            options(n).into_checked().err(),
            Some(ContractError::WrongNumberOfChoices)
        );
    }
}

#[test]
fn too_many_options_are_refused() {
    assert_eq!(MAX_NUM_CHOICES, 10);
    assert_eq!(
        options(11).into_checked().err(),
        Some(ContractError::WrongNumberOfChoices)
    );
    assert_eq!(
        options(20).into_checked().err(),
        Some(ContractError::WrongNumberOfChoices)
    );
}

#[test]
fn three_options_are_checked_and_a_none_option_added() {
    let submitted = options(3);
    let checked = submitted.into_checked().unwrap();
    assert_eq!(checked.options.len(), 4);
    for i in 0..3 {
        let option = &checked.options[i];
        assert_eq!(option.index, i as u32);
        assert_eq!(option.option_type, MultipleChoiceOptionType::Standard);
        assert_eq!(option.description, format!("Option {}", i));
        assert_eq!(option.msgs, submitted.options[i].msgs);
        assert_eq!(option.vote_count, 0);
    }
    assert_eq!(
        checked.options[1].msgs,
        Some(vec![pay("alice", 1), pay("bob", 7)])
    );
    let none = &checked.options[3];
    assert_eq!(none.index, 3);
    assert_eq!(none.option_type, MultipleChoiceOptionType::NoneOfTheAbove);
    assert_eq!(none.description, "None of the Above");
    assert_eq!(none.description, NONE_OPTION_DESCRIPTION);
    assert_eq!(none.msgs, None);
    assert_eq!(none.vote_count, 0);
}

#[test]
fn ten_options_are_accepted() {
    let submitted = options(10);
    let checked = submitted.into_checked().unwrap();
    assert_eq!(checked.options.len(), 11);
    for i in 0..10 {
        assert_eq!(checked.options[i].index, i as u32);
        assert_eq!(checked.options[i].msgs, submitted.options[i].msgs);
    }
    assert_eq!(checked.options[10].index, 10);
    assert_eq!(
        checked.options[10].option_type,
        MultipleChoiceOptionType::NoneOfTheAbove
    );
}

#[test]
fn exactly_one_none_option_and_it_is_last() {
    for n in 3..=10 {
        let checked = options(n).into_checked().unwrap();
        let nones = checked
            .options
            .iter()
            .filter(|o| o.option_type == MultipleChoiceOptionType::NoneOfTheAbove)
            .count();
        assert_eq!(nones, 1);
        assert_eq!(
            checked.options.last().unwrap().option_type,
            MultipleChoiceOptionType::NoneOfTheAbove
        );
        assert!(checked.options.iter().all(|o| o.vote_count == 0));
        for (position, option) in checked.options.iter().enumerate() {
            assert_eq!(option.index as usize, position);
        }
    }
}

#[test]
fn none_option_index_is_its_position() {
    let submitted = MultipleChoiceOptions {
        options: ["a", "b", "c"]
            .iter()
            .map(|d| MultipleChoiceOption {
                description: d.to_string(),
                msgs: None,
            })
            .collect(),
    };
    let checked = submitted.into_checked().unwrap();
    assert_eq!(checked.options.len(), 4);
    for (i, d) in ["a", "b", "c"].iter().enumerate() {
        assert_eq!(checked.options[i].index, i as u32);
        assert_eq!(checked.options[i].option_type, MultipleChoiceOptionType::Standard);
        assert_eq!(checked.options[i].description, *d);
    }
    assert_eq!(checked.options[3].index, 3);
    assert_eq!(checked.options[3].option_type, MultipleChoiceOptionType::NoneOfTheAbove);
    assert_eq!(checked.options[3].description, "None of the Above");
    assert_eq!(checked.options[3].msgs, None);
}
