//! The rows of validators.

use vstd::prelude::*;
use crate::validator::{Validator, ValidatorMetadataChange};

verus! {

/// A stored validator.
#[derive(Debug, Clone, PartialEq, Eq)]
pub struct ValidatorDb {
    pub id: i32,
    pub namada_address: String,
    pub voting_power: i32,
    pub max_commission: String,
    pub commission: String,
    pub name: Option<String>,
    pub email: Option<String>,
    pub website: Option<String>,
    pub description: Option<String>,
    pub discord_handle: Option<String>,
    pub avatar: Option<String>,
}

/// A validator as it is first stored.
#[derive(Debug, Clone, PartialEq, Eq)]
pub struct ValidatorInsertDb {
    pub namada_address: String,
    pub voting_power: i32,
    pub max_commission: String,
    pub commission: String,
}

/// The metadata of a validator as they are written over the stored ones: a
/// field that is `None` is left as it was.
#[derive(Debug, Clone, PartialEq, Eq)]
pub struct ValidatorUpdateMetadataDb {
    pub commission: Option<String>,
    pub name: Option<String>,
    pub email: Option<String>,
    pub website: Option<String>,
    pub description: Option<String>,
    pub discord_handle: Option<String>,
    pub avatar: Option<String>,
}

impl ValidatorInsertDb {
    /// The row of a validator. The voting power is the whole number that the
    /// validator's voting power, a text, was read as.
    pub fn from_validator(validator: Validator, voting_power: i32) -> (r: Self)
        ensures
            r.namada_address@ == validator.address@.text(),
            r.voting_power == voting_power,
            r.max_commission == validator.max_commission,
            r.commission == validator.commission,
    {
        let namada_address = validator.address.to_string();
        ValidatorInsertDb {
            namada_address,
            voting_power,
            max_commission: validator.max_commission,
            commission: validator.commission,
        }
    }
}

impl ValidatorUpdateMetadataDb {
    /// The update that a change of metadata stands for: every field as the
    /// change has it.
    pub fn from(change: ValidatorMetadataChange) -> (r: Self)
        ensures
            r.commission == change.commission,
            r.name == change.name,
            r.email == change.email,
            r.website == change.website,
            r.description == change.description,
            r.discord_handle == change.discord_handler,
            r.avatar == change.avatar,
    {
        ValidatorUpdateMetadataDb {
            commission: change.commission,
            name: change.name,
            email: change.email,
            website: change.website,
            description: change.description,
            discord_handle: change.discord_handler,
            avatar: change.avatar,
        }
    }
}

} // verus!
