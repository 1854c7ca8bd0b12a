# cw-proposals

The checks and counters of the DAO proposal modules, written in Verus and
proved against their contracts.

- `src/voting_period.rs`: voting periods (`Duration`) and
  `validate_voting_period`.
- `src/options.rs`: multiple-choice options and `into_checked`, which numbers
  the submitted options and adds the "None of the Above" option.
- `src/origin.rs`: `get_sender_origin`, which decides on whose behalf a
  relayed message acts.
- `src/ids.rs`: `next_id` and `advance_approval_id`, the proposal and approval
  counters, with the law that they count up from one.
- `src/error.rs`: the errors these checks raise.
- `app/`: contract glue that Verus does not see: storage of the counters,
  queries to the DAO and its voting module, and serialisable copies of the
  library's types.
