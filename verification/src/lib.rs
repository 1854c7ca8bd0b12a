//! Verified core of the DAO proposal modules: the checks that a proposal
//! module applies to its configuration, to multiple-choice options, to
//! relayed senders, and the counters that hand out proposal and approval ids.

pub mod error;
pub mod voting_period;
pub mod ids;
pub mod origin;
pub mod options;
