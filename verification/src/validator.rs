//! Validators and changes of what they publish about themselves.

use vstd::prelude::*;
use crate::id::{Id, IdView};
use crate::text::optional_text;

verus! {

/// A validator as the chain reports it.
#[derive(Debug, Clone, PartialEq, Eq)]
pub struct Validator {
    pub address: Id,
    pub voting_power: String,
    pub max_commission: String,
    pub commission: String,
}

/// An update of a validator's metadata: a field that is `None` is left as it
/// was.
#[derive(Debug, Clone, PartialEq, Eq)]
pub struct ValidatorMetadataChange {
    pub address: Id,
    pub commission: Option<String>,
    pub name: Option<String>,
    pub email: Option<String>,
    pub description: Option<String>,
    pub website: Option<String>,
    pub discord_handler: Option<String>,
    pub avatar: Option<String>,
}

/// The mathematical value of a [`ValidatorMetadataChange`].
pub struct ValidatorMetadataChangeView {
    pub address: IdView,
    pub commission: Option<Seq<char>>,
    pub name: Option<Seq<char>>,
    pub email: Option<Seq<char>>,
    pub description: Option<Seq<char>>,
    pub website: Option<Seq<char>>,
    pub discord_handler: Option<Seq<char>>,
    pub avatar: Option<Seq<char>>,
}

impl View for ValidatorMetadataChange {
    type V = ValidatorMetadataChangeView;

    open spec fn view(&self) -> ValidatorMetadataChangeView {
        ValidatorMetadataChangeView {
            address: self.address@,
            commission: optional_text(self.commission),
            name: optional_text(self.name),
            email: optional_text(self.email),
            description: optional_text(self.description),
            website: optional_text(self.website),
            discord_handler: optional_text(self.discord_handler),
            avatar: optional_text(self.avatar),
        }
    }
}

/// The values of a list of metadata changes.
pub open spec fn metadata_changes_view(changes: Seq<ValidatorMetadataChange>) -> Seq<
    ValidatorMetadataChangeView,
> {
    changes.map_values(|c: ValidatorMetadataChange| c@)
}

} // verus!
