//! The row of the protocol parameters of an epoch.

use vstd::prelude::*;
use crate::parameters::Parameters;

verus! {

/// The parameters of an epoch as they are stored.
#[derive(Debug, Clone, PartialEq, Eq)]
pub struct ParametersInsertDb {
    pub epoch: i32,
    pub unbonding_length: i32,
    pub pipeline_length: i32,
    pub epochs_per_year: i32,
    pub min_num_of_blocks: i32,
    pub min_duration: i32,
    pub apr: String,
    pub native_token_address: String,
}

pub type ParametersDb = ParametersInsertDb;

impl ParametersInsertDb {
    /// The row of the parameters: the numbers cut to 32 bits and read as
    /// signed numbers, the texts as they are.
    pub fn from(value: Parameters) -> (r: Self)
        ensures
            r.epoch == value.epoch as i32,
            r.unbonding_length == value.unbonding_length as i32,
            r.pipeline_length == value.pipeline_length as i32,
            r.epochs_per_year == value.epochs_per_year as i32,
            r.min_num_of_blocks == value.min_num_of_blocks as i32,
            r.min_duration == value.min_duration as i32,
            r.apr == value.apr,
            r.native_token_address == value.native_token_address,
    {
        ParametersInsertDb {
            epoch: #[verifier::truncate]
            (value.epoch as i32),
            unbonding_length: #[verifier::truncate]
            (value.unbonding_length as i32),
            pipeline_length: #[verifier::truncate]
            (value.pipeline_length as i32),
            epochs_per_year: #[verifier::truncate]
            (value.epochs_per_year as i32),
            min_num_of_blocks: #[verifier::truncate]
            (value.min_num_of_blocks as i32),
            min_duration: #[verifier::truncate]
            (value.min_duration as i32),
            apr: value.apr,
            native_token_address: value.native_token_address,
        }
    }
}

} // verus!
