//! Transactions: their kinds, what each kind carries, and how one is read
//! from its parsed wire form.

use vstd::prelude::*;
use crate::block_result::{exit_status_at, gas_used_at, BlockResult, TransactionExitStatus};
use crate::checksums::{name_by_hash, Checksums};
use crate::id::{Id, IdView};
use crate::text::{clone_optional_text, decimal_text, hex_text, lowercase_of, optional_text};
use crate::vote::ProposalVoteKind;

verus! {

/// A copy of an optional identifier.
pub fn clone_optional_id(id: &Option<Id>) -> (r: Option<Id>)
    ensures
        r == *id,
{
    match id {
        Some(id) => Some(id.clone()),
        None => None,
    }
}

/// The source of a staking operation: the one that is named, or the
/// validator itself where none is named.
pub open spec fn source_or_validator(source: Option<Id>, validator: Id) -> Id {
    match source {
        Some(source) => source,
        None => validator,
    }
}

/// A transfer of a token from one address to another.
#[derive(Debug, PartialEq, Eq)]
pub struct TransferData {
    pub source: Id,
    pub target: Id,
    pub token: Id,
}

impl Clone for TransferData {
    fn clone(&self) -> (r: Self)
        ensures
            r == *self,
    {
        TransferData {
            source: self.source.clone(),
            target: self.target.clone(),
            token: self.token.clone(),
        }
    }
}

/// A bond or an unbond: the validator, and the source where it is not the
/// validator itself.
#[derive(Debug, PartialEq, Eq)]
pub struct BondData {
    pub validator: Id,
    pub source: Option<Id>,
}

impl Clone for BondData {
    fn clone(&self) -> (r: Self)
        ensures
            r == *self,
    {
        BondData { validator: self.validator.clone(), source: clone_optional_id(&self.source) }
    }
}

impl BondData {
    /// The source of the operation, or the validator where no source is named.
    pub fn source_or_validator(&self) -> (r: Id)
        ensures
            r == source_or_validator(self.source, self.validator),
    {
        match &self.source {
            Some(source) => source.clone(),
            None => self.validator.clone(),
        }
    }
}

/// A withdrawal or a claim of rewards: the validator, and the source where
/// it is not the validator itself.
#[derive(Debug, PartialEq, Eq)]
pub struct WithdrawData {
    pub validator: Id,
    pub source: Option<Id>,
}

impl Clone for WithdrawData {
    fn clone(&self) -> (r: Self)
        ensures
            r == *self,
    {
        WithdrawData { validator: self.validator.clone(), source: clone_optional_id(&self.source) }
    }
}

impl WithdrawData {
    /// The source of the operation, or the validator where no source is named.
    pub fn source_or_validator(&self) -> (r: Id)
        ensures
            r == source_or_validator(self.source, self.validator),
    {
        match &self.source {
            Some(source) => source.clone(),
            None => self.validator.clone(),
        }
    }
}

/// A redelegation: the owner moves stake from one validator to another.
#[derive(Debug, PartialEq, Eq)]
pub struct RedelegationData {
    pub src_validator: Id,
    pub dest_validator: Id,
    pub owner: Id,
}

impl Clone for RedelegationData {
    fn clone(&self) -> (r: Self)
        ensures
            r == *self,
    {
        RedelegationData {
            src_validator: self.src_validator.clone(),
            dest_validator: self.dest_validator.clone(),
            owner: self.owner.clone(),
        }
    }
}

/// What a new proposal asks for.
#[derive(Debug, PartialEq, Eq)]
pub enum ProposalData {
    /// Nothing beyond its text.
    Default,
    /// Code to run; the section with this hash holds it.
    DefaultWithWasm(Id),
    /// Changes of the stewards, as a JSON text.
    PgfSteward(String),
    /// Payments, as a JSON text.
    PgfFunding(String),
}

impl Clone for ProposalData {
    fn clone(&self) -> (r: Self)
        ensures
            r == *self,
    {
        match self {
            ProposalData::Default => ProposalData::Default,
            ProposalData::DefaultWithWasm(hash) => ProposalData::DefaultWithWasm(hash.clone()),
            ProposalData::PgfSteward(data) => ProposalData::PgfSteward(data.clone()),
            ProposalData::PgfFunding(data) => ProposalData::PgfFunding(data.clone()),
        }
    }
}

/// A new governance proposal.
#[derive(Debug, PartialEq, Eq)]
pub struct InitProposalData {
    /// The hash of the section that holds the proposal's text.
    pub content: Id,
    pub author: Id,
    pub data: ProposalData,
    pub voting_start_epoch: u64,
    pub voting_end_epoch: u64,
    pub activation_epoch: u64,
}

impl Clone for InitProposalData {
    fn clone(&self) -> (r: Self)
        ensures
            r == *self,
    {
        InitProposalData {
            content: self.content.clone(),
            author: self.author.clone(),
            data: self.data.clone(),
            voting_start_epoch: self.voting_start_epoch,
            voting_end_epoch: self.voting_end_epoch,
            activation_epoch: self.activation_epoch,
        }
    }
}

/// A vote on a proposal.
#[derive(Debug, PartialEq, Eq)]
pub struct VoteProposalData {
    pub id: u64,
    pub vote: ProposalVoteKind,
    pub voter: Id,
}

impl Clone for VoteProposalData {
    fn clone(&self) -> (r: Self)
        ensures
            r == *self,
    {
        VoteProposalData { id: self.id, vote: self.vote, voter: self.voter.clone() }
    }
}

/// A change of what a validator publishes about itself.
#[derive(Debug, PartialEq, Eq)]
pub struct MetaDataChange {
    pub validator: Id,
    pub email: Option<String>,
    pub description: Option<String>,
    pub website: Option<String>,
    pub discord_handle: Option<String>,
    pub avatar: Option<String>,
    pub name: Option<String>,
    pub commission_rate: Option<String>,
}

impl Clone for MetaDataChange {
    fn clone(&self) -> (r: Self)
        ensures
            r == *self,
    {
        MetaDataChange {
            validator: self.validator.clone(),
            email: clone_optional_text(&self.email),
            description: clone_optional_text(&self.description),
            website: clone_optional_text(&self.website),
            discord_handle: clone_optional_text(&self.discord_handle),
            avatar: clone_optional_text(&self.avatar),
            name: clone_optional_text(&self.name),
            commission_rate: clone_optional_text(&self.commission_rate),
        }
    }
}

/// A change of a validator's commission rate.
#[derive(Debug, PartialEq, Eq)]
pub struct CommissionChange {
    pub validator: Id,
    pub new_rate: String,
}

impl Clone for CommissionChange {
    fn clone(&self) -> (r: Self)
        ensures
            r == *self,
    {
        CommissionChange { validator: self.validator.clone(), new_rate: self.new_rate.clone() }
    }
}

/// The kind of a transaction, without what it carries.
#[derive(Debug, Clone, Copy, PartialEq, Eq, Structural)]
pub enum TransactionTag {
    TransparentTransfer,
    ShieldedTransfer,
    ShieldingTransfer,
    UnshieldingTransfer,
    Bond,
    Redelegation,
    Unbond,
    Withdraw,
    ClaimRewards,
    ProposalVote,
    InitProposal,
    MetadataChange,
    CommissionChange,
    RevealPk,
    Unknown,
}

/// The kind that a code name stands for; `Unknown` for every other name.
pub open spec fn tag_of_name(name: Seq<char>) -> TransactionTag {
    if name == "tx_transfer"@ {
        TransactionTag::TransparentTransfer
    } else if name == "tx_shielded_transfer"@ {
        TransactionTag::ShieldedTransfer
    } else if name == "tx_shielding_transfer"@ {
        TransactionTag::ShieldingTransfer
    } else if name == "tx_unshielding_transfer"@ {
        TransactionTag::UnshieldingTransfer
    } else if name == "tx_bond"@ {
        TransactionTag::Bond
    } else if name == "tx_redelegate"@ {
        TransactionTag::Redelegation
    } else if name == "tx_unbond"@ {
        TransactionTag::Unbond
    } else if name == "tx_withdraw"@ {
        TransactionTag::Withdraw
    } else if name == "tx_claim_rewards"@ {
        TransactionTag::ClaimRewards
    } else if name == "tx_vote_proposal"@ {
        TransactionTag::ProposalVote
    } else if name == "tx_init_proposal"@ {
        TransactionTag::InitProposal
    } else if name == "tx_change_validator_metadata"@ {
        TransactionTag::MetadataChange
    } else if name == "tx_change_validator_commission"@ {
        TransactionTag::CommissionChange
    } else if name == "tx_reveal_pk"@ {
        TransactionTag::RevealPk
    } else {
        TransactionTag::Unknown
    }
}

/// The names of the codes that stand for a known kind, in the order of the
/// kinds.
pub open spec fn known_code_names() -> Seq<Seq<char>> {
    seq![
        "tx_transfer"@,
        "tx_shielded_transfer"@,
        "tx_shielding_transfer"@,
        "tx_unshielding_transfer"@,
        "tx_bond"@,
        "tx_redelegate"@,
        "tx_unbond"@,
        "tx_withdraw"@,
        "tx_claim_rewards"@,
        "tx_vote_proposal"@,
        "tx_init_proposal"@,
        "tx_change_validator_metadata"@,
        "tx_change_validator_commission"@,
        "tx_reveal_pk"@,
    ]
}

/// The texts of a list.
pub open spec fn texts_view(texts: Seq<String>) -> Seq<Seq<char>> {
    texts.map_values(|t: String| t@)
}

impl TransactionTag {
    /// The names of the codes that stand for a known kind: what a table of
    /// code hashes has to hold.
    pub fn code_names() -> (r: Vec<String>)
        ensures
            texts_view(r@) == known_code_names(),
    {
        let mut names: Vec<String> = Vec::new();
        names.push("tx_transfer".to_owned());
        names.push("tx_shielded_transfer".to_owned());
        names.push("tx_shielding_transfer".to_owned());
        names.push("tx_unshielding_transfer".to_owned());
        names.push("tx_bond".to_owned());
        names.push("tx_redelegate".to_owned());
        names.push("tx_unbond".to_owned());
        names.push("tx_withdraw".to_owned());
        names.push("tx_claim_rewards".to_owned());
        names.push("tx_vote_proposal".to_owned());
        names.push("tx_init_proposal".to_owned());
        names.push("tx_change_validator_metadata".to_owned());
        names.push("tx_change_validator_commission".to_owned());
        names.push("tx_reveal_pk".to_owned());
        assert(texts_view(names@) =~= known_code_names());
        names
    }

    /// The kind that the code name `name` stands for.
    pub fn from_name(name: &str) -> (r: Self)
        ensures
            r == tag_of_name(name@),
    {
        if crate::text::same_text(name, "tx_transfer") {
            TransactionTag::TransparentTransfer
        } else if crate::text::same_text(name, "tx_shielded_transfer") {
            TransactionTag::ShieldedTransfer
        } else if crate::text::same_text(name, "tx_shielding_transfer") {
            TransactionTag::ShieldingTransfer
        } else if crate::text::same_text(name, "tx_unshielding_transfer") {
            TransactionTag::UnshieldingTransfer
        } else if crate::text::same_text(name, "tx_bond") {
            TransactionTag::Bond
        } else if crate::text::same_text(name, "tx_redelegate") {
            TransactionTag::Redelegation
        } else if crate::text::same_text(name, "tx_unbond") {
            TransactionTag::Unbond
        } else if crate::text::same_text(name, "tx_withdraw") {
            TransactionTag::Withdraw
        } else if crate::text::same_text(name, "tx_claim_rewards") {
            TransactionTag::ClaimRewards
        } else if crate::text::same_text(name, "tx_vote_proposal") {
            TransactionTag::ProposalVote
        } else if crate::text::same_text(name, "tx_init_proposal") {
            TransactionTag::InitProposal
        } else if crate::text::same_text(name, "tx_change_validator_metadata") {
            TransactionTag::MetadataChange
        } else if crate::text::same_text(name, "tx_change_validator_commission") {
            TransactionTag::CommissionChange
        } else if crate::text::same_text(name, "tx_reveal_pk") {
            TransactionTag::RevealPk
        } else {
            TransactionTag::Unknown
        }
    }
}

/// The kind of a transaction, with what that kind carries.
#[derive(Debug, PartialEq, Eq)]
pub enum TransactionKind {
    TransparentTransfer(TransferData),
    ShieldedTransfer,
    ShieldingTransfer,
    UnshieldingTransfer,
    Bond(BondData),
    Redelegation(RedelegationData),
    Unbond(BondData),
    Withdraw(WithdrawData),
    ClaimRewards(WithdrawData),
    ProposalVote(VoteProposalData),
    InitProposal(InitProposalData),
    MetadataChange(MetaDataChange),
    CommissionChange(CommissionChange),
    RevealPk,
    Unknown,
}

impl Clone for TransactionKind {
    fn clone(&self) -> (r: Self)
        ensures
            r == *self,
    {
        match self {
            TransactionKind::TransparentTransfer(data) => TransactionKind::TransparentTransfer(
                data.clone(),
            ),
            TransactionKind::ShieldedTransfer => TransactionKind::ShieldedTransfer,
            TransactionKind::ShieldingTransfer => TransactionKind::ShieldingTransfer,
            TransactionKind::UnshieldingTransfer => TransactionKind::UnshieldingTransfer,
            TransactionKind::Bond(data) => TransactionKind::Bond(data.clone()),
            TransactionKind::Redelegation(data) => TransactionKind::Redelegation(data.clone()),
            TransactionKind::Unbond(data) => TransactionKind::Unbond(data.clone()),
            TransactionKind::Withdraw(data) => TransactionKind::Withdraw(data.clone()),
            TransactionKind::ClaimRewards(data) => TransactionKind::ClaimRewards(data.clone()),
            TransactionKind::ProposalVote(data) => TransactionKind::ProposalVote(data.clone()),
            TransactionKind::InitProposal(data) => TransactionKind::InitProposal(data.clone()),
            TransactionKind::MetadataChange(data) => TransactionKind::MetadataChange(data.clone()),
            TransactionKind::CommissionChange(data) => TransactionKind::CommissionChange(
                data.clone(),
            ),
            TransactionKind::RevealPk => TransactionKind::RevealPk,
            TransactionKind::Unknown => TransactionKind::Unknown,
        }
    }
}

impl TransactionKind {
    /// The kind without what it carries.
    pub open spec fn tag_spec(&self) -> TransactionTag {
        match self {
            TransactionKind::TransparentTransfer(_) => TransactionTag::TransparentTransfer,
            TransactionKind::ShieldedTransfer => TransactionTag::ShieldedTransfer,
            TransactionKind::ShieldingTransfer => TransactionTag::ShieldingTransfer,
            TransactionKind::UnshieldingTransfer => TransactionTag::UnshieldingTransfer,
            TransactionKind::Bond(_) => TransactionTag::Bond,
            TransactionKind::Redelegation(_) => TransactionTag::Redelegation,
            TransactionKind::Unbond(_) => TransactionTag::Unbond,
            TransactionKind::Withdraw(_) => TransactionTag::Withdraw,
            TransactionKind::ClaimRewards(_) => TransactionTag::ClaimRewards,
            TransactionKind::ProposalVote(_) => TransactionTag::ProposalVote,
            TransactionKind::InitProposal(_) => TransactionTag::InitProposal,
            TransactionKind::MetadataChange(_) => TransactionTag::MetadataChange,
            TransactionKind::CommissionChange(_) => TransactionTag::CommissionChange,
            TransactionKind::RevealPk => TransactionTag::RevealPk,
            TransactionKind::Unknown => TransactionTag::Unknown,
        }
    }

    /// The kind without what it carries.
    #[verifier::when_used_as_spec(tag_spec)]
    pub fn tag(&self) -> (r: TransactionTag)
        ensures
            r == self.tag_spec(),
    {
        match self {
            TransactionKind::TransparentTransfer(_) => TransactionTag::TransparentTransfer,
            TransactionKind::ShieldedTransfer => TransactionTag::ShieldedTransfer,
            TransactionKind::ShieldingTransfer => TransactionTag::ShieldingTransfer,
            TransactionKind::UnshieldingTransfer => TransactionTag::UnshieldingTransfer,
            TransactionKind::Bond(_) => TransactionTag::Bond,
            TransactionKind::Redelegation(_) => TransactionTag::Redelegation,
            TransactionKind::Unbond(_) => TransactionTag::Unbond,
            TransactionKind::Withdraw(_) => TransactionTag::Withdraw,
            TransactionKind::ClaimRewards(_) => TransactionTag::ClaimRewards,
            TransactionKind::ProposalVote(_) => TransactionTag::ProposalVote,
            TransactionKind::InitProposal(_) => TransactionTag::InitProposal,
            TransactionKind::MetadataChange(_) => TransactionTag::MetadataChange,
            TransactionKind::CommissionChange(_) => TransactionTag::CommissionChange,
            TransactionKind::RevealPk => TransactionTag::RevealPk,
            TransactionKind::Unknown => TransactionTag::Unknown,
        }
    }
}

/// Who pays for a transaction, in which token, and up to which limit.
#[derive(Debug, PartialEq, Eq)]
pub struct Fee {
    pub gas: String,
    pub amount_per_gas_unit: String,
    pub gas_payer: Id,
    pub gas_token: Id,
}

/// The mathematical value of a [`Fee`].
pub struct FeeView {
    pub gas: Seq<char>,
    pub amount_per_gas_unit: Seq<char>,
    pub gas_payer: IdView,
    pub gas_token: IdView,
}

impl View for Fee {
    type V = FeeView;

    open spec fn view(&self) -> FeeView {
        FeeView {
            gas: self.gas@,
            amount_per_gas_unit: self.amount_per_gas_unit@,
            gas_payer: self.gas_payer@,
            gas_token: self.gas_token@,
        }
    }
}

impl Clone for Fee {
    fn clone(&self) -> (r: Self)
        ensures
            r == *self,
    {
        Fee {
            gas: self.gas.clone(),
            amount_per_gas_unit: self.amount_per_gas_unit.clone(),
            gas_payer: self.gas_payer.clone(),
            gas_token: self.gas_token.clone(),
        }
    }
}

/// A section that a transaction carries besides its code and its data.
#[derive(Debug, Clone, PartialEq, Eq)]
pub struct Section {
    pub id: Id,
    pub data: Vec<u8>,
}

/// The mathematical value of a [`Section`].
pub struct SectionView {
    pub id: IdView,
    pub data: Seq<u8>,
}

impl View for Section {
    type V = SectionView;

    open spec fn view(&self) -> SectionView {
        SectionView { id: self.id@, data: self.data@ }
    }
}

/// The values of a list of sections.
pub open spec fn sections_view(sections: Seq<Section>) -> Seq<SectionView> {
    sections.map_values(|s: Section| s@)
}

/// The data of the first section with the identifier `id`, if there is one.
pub open spec fn section_data(sections: Seq<SectionView>, id: IdView) -> Option<Seq<u8>>
    decreases sections.len(),
{
    if sections.len() == 0 {
        None
    } else if sections[0].id == id {
        Some(sections[0].data)
    } else {
        section_data(sections.drop_first(), id)
    }
}

/// A transaction of an assembled block.
#[derive(Debug, Clone, PartialEq, Eq)]
pub struct Transaction {
    pub hash: Id,
    pub kind: TransactionKind,
    pub extra_sections: Vec<Section>,
    pub index: usize,
    pub fee: Fee,
    pub exit_code: TransactionExitStatus,
    pub gas_used: u64,
}

/// The mathematical value of a [`Transaction`].
pub struct TransactionView {
    pub hash: IdView,
    pub kind: TransactionKind,
    pub extra_sections: Seq<SectionView>,
    pub index: usize,
    pub fee: FeeView,
    pub exit_code: TransactionExitStatus,
    pub gas_used: u64,
}

impl View for Transaction {
    type V = TransactionView;

    open spec fn view(&self) -> TransactionView {
        TransactionView {
            hash: self.hash@,
            kind: self.kind,
            extra_sections: sections_view(self.extra_sections@),
            index: self.index,
            fee: self.fee@,
            exit_code: self.exit_code,
            gas_used: self.gas_used,
        }
    }
}

/// The values of a list of transactions.
pub open spec fn transactions_view(transactions: Seq<Transaction>) -> Seq<TransactionView> {
    transactions.map_values(|t: Transaction| t@)
}

/// A section of a transaction on the wire: its hash and its data.
#[derive(Debug, Clone, PartialEq, Eq)]
pub struct RawSection {
    pub hash: String,
    pub data: Vec<u8>,
}

/// A transaction as its wire form parses: who pays its fee, the hash of the
/// code it runs, what its data decodes to, and its other sections.
#[derive(Debug, Clone, PartialEq, Eq)]
pub struct RawTransaction {
    /// The hash of the header, as a text.
    pub hash: String,
    pub fee_payer: String,
    pub fee_token: String,
    pub gas_limit: u64,
    pub amount_per_gas_unit: String,
    /// The hash of the code section, where the transaction has one.
    pub code_hash: Option<Vec<u8>>,
    /// What the data section holds, where it decodes as the kind that the
    /// code stands for.
    pub payload: Option<TransactionKind>,
    pub sections: Vec<RawSection>,
}

/// Why a transaction cannot be read: what it carries does not decode as its
/// kind. The fee is known all the same.
#[derive(Debug, PartialEq, Eq)]
pub struct DecodeError {
    pub fee: Fee,
}

/// The mathematical value of a [`DecodeError`].
pub struct DecodeErrorView {
    pub fee: FeeView,
}

impl View for DecodeError {
    type V = DecodeErrorView;

    open spec fn view(&self) -> DecodeErrorView {
        DecodeErrorView { fee: self.fee@ }
    }
}

/// The name of the code of a transaction: what the table gives for the
/// lower-case hexadecimal text of the code hash.
pub open spec fn code_name(code_hash: Option<Vec<u8>>, table: Seq<(Seq<char>, Seq<char>)>) -> Option<
    Seq<char>,
> {
    match code_hash {
        Some(hash) => name_by_hash(table, hex_text(hash@)),
        None => None,
    }
}

/// The kind that the code of a transaction stands for: `Unknown` where the
/// transaction has no code, the table does not hold its hash, or the name
/// that the table gives is none of the known ones.
pub open spec fn resolved_tag(
    code_hash: Option<Vec<u8>>,
    table: Seq<(Seq<char>, Seq<char>)>,
) -> TransactionTag {
    match code_name(code_hash, table) {
        Some(name) => tag_of_name(name),
        None => TransactionTag::Unknown,
    }
}

/// The fee that a wrapper header names.
pub open spec fn fee_of(
    fee_payer: Seq<char>,
    fee_token: Seq<char>,
    gas_limit: u64,
    amount_per_gas_unit: Seq<char>,
) -> FeeView {
    FeeView {
        gas: decimal_text(gas_limit as nat),
        amount_per_gas_unit,
        gas_payer: IdView::Account(lowercase_of(fee_payer)),
        gas_token: IdView::Account(lowercase_of(fee_token)),
    }
}

/// The sections of a transaction, each under the identifier of its hash.
pub open spec fn sections_of(sections: Seq<RawSection>) -> Seq<SectionView> {
    sections.map_values(
        |s: RawSection| SectionView { id: IdView::Hash(lowercase_of(s.hash@)), data: s.data@ },
    )
}

/// What reading the transaction `raw` at position `index` gives.
///
/// Its kind is the one that its code stands for in the table. A transaction
/// of unknown kind is read without looking at what it carries; one of a
/// known kind must carry what decodes as that kind.
pub open spec fn decode_spec(
    raw: RawTransaction,
    index: usize,
    table: Seq<(Seq<char>, Seq<char>)>,
    results: BlockResult,
) -> Result<TransactionView, DecodeErrorView> {
    let fee = fee_of(raw.fee_payer@, raw.fee_token@, raw.gas_limit, raw.amount_per_gas_unit@);
    let tag = resolved_tag(raw.code_hash, table);
    let kind = if tag is Unknown {
        Some(TransactionKind::Unknown)
    } else {
        match raw.payload {
            Some(payload) => if payload.tag_spec() == tag {
                Some(payload)
            } else {
                None
            },
            None => None,
        }
    };
    match kind {
        Some(kind) => Ok(
            TransactionView {
                hash: IdView::Hash(lowercase_of(raw.hash@)),
                kind,
                extra_sections: sections_of(raw.sections@),
                index,
                fee,
                exit_code: exit_status_at(results.end_events@, index as int),
                gas_used: gas_used_at(results.end_events@, index as int),
            },
        ),
        None => Err(DecodeErrorView { fee }),
    }
}

/// The value of the result of reading a transaction.
pub open spec fn decode_result_view(r: Result<Transaction, DecodeError>) -> Result<
    TransactionView,
    DecodeErrorView,
> {
    match r {
        Ok(transaction) => Ok(transaction@),
        Err(error) => Err(error@),
    }
}

impl Transaction {
    /// Reads the transaction `raw`, which stands at position `index` of its
    /// block: the kind comes from the table `checksums`, the exit status and
    /// the gas from `block_results`. It fails only where the kind is known
    /// and what the transaction carries does not decode as that kind.
    pub fn deserialize(
        raw: &RawTransaction,
        index: usize,
        checksums: &Checksums,
        block_results: &BlockResult,
    ) -> (r: Result<Transaction, DecodeError>)
        ensures
            decode_result_view(r) == decode_spec(*raw, index, checksums@, *block_results),
    {
        let fee = Fee {
            gas: crate::text::unsigned_to_string(raw.gas_limit as u128),
            amount_per_gas_unit: raw.amount_per_gas_unit.clone(),
            gas_payer: Id::account(raw.fee_payer.as_str()),
            gas_token: Id::account(raw.fee_token.as_str()),
        };
        let tag = Transaction::resolve_tag(&raw.code_hash, checksums);
        let kind = match tag {
            TransactionTag::Unknown => TransactionKind::Unknown,
            _ => match &raw.payload {
                Some(payload) => {
                    if payload.tag() == tag {
                        payload.clone()
                    } else {
                        return Err(DecodeError { fee });
                    }
                },
                None => { return Err(DecodeError { fee }); },
            },
        };
        let mut extra_sections: Vec<Section> = Vec::new();
        let mut i: usize = 0;
        while i < raw.sections.len()
            invariant
                i <= raw.sections.len(),
                sections_view(extra_sections@) == sections_of(raw.sections@).take(i as int),
            decreases raw.sections.len() - i,
        {
            let section = &raw.sections[i];
            let ghost before = sections_view(extra_sections@);
            let data = section.data.clone();
            extra_sections.push(Section { id: Id::hash(section.hash.as_str()), data });
            proof {
                assert(sections_view(extra_sections@) =~= before.push(
                    sections_of(raw.sections@)[i as int],
                ));
                assert(sections_of(raw.sections@).take(i + 1) =~= sections_of(raw.sections@).take(
                    i as int,
                ).push(sections_of(raw.sections@)[i as int]));
            }
            i = i + 1;
        }
        proof {
            assert(sections_of(raw.sections@).take(i as int) =~= sections_of(raw.sections@));
        }
        Ok(
            Transaction {
                hash: Id::hash(raw.hash.as_str()),
                kind,
                extra_sections,
                index,
                fee,
                exit_code: block_results.is_wrapper_tx_applied(index),
                gas_used: block_results.gas_used(index),
            },
        )
    }

    /// The kind that the code with the hash `code_hash` stands for in the
    /// table.
    pub fn resolve_tag(code_hash: &Option<Vec<u8>>, checksums: &Checksums) -> (r: TransactionTag)
        ensures
            r == resolved_tag(*code_hash, checksums@),
    {
        match code_hash {
            Some(hash) => {
                let id = crate::text::hex_string(hash.as_slice());
                match checksums.get_name_by_id(id.as_str()) {
                    Some(name) => TransactionTag::from_name(name.as_str()),
                    None => TransactionTag::Unknown,
                }
            },
            None => TransactionTag::Unknown,
        }
    }

    /// The data of the section with the identifier `section_id`, if the
    /// transaction carries such a section.
    pub fn get_section_data_by_id(&self, section_id: &Id) -> (r: Option<Vec<u8>>)
        ensures
            r is Some == section_data(self@.extra_sections, section_id@) is Some,
            r matches Some(data) ==> section_data(self@.extra_sections, section_id@) == Some(data@),
    {
        let mut i: usize = 0;
        assert(sections_view(self.extra_sections@).skip(0) =~= sections_view(self.extra_sections@));
        while i < self.extra_sections.len()
            invariant
                i <= self.extra_sections.len(),
                section_data(sections_view(self.extra_sections@), section_id@) == section_data(
                    sections_view(self.extra_sections@).skip(i as int),
                    section_id@,
                ),
            decreases self.extra_sections.len() - i,
        {
            let ghost rest = sections_view(self.extra_sections@).skip(i as int);
            proof {
                assert(rest[0] == self.extra_sections@[i as int]@);
                assert(rest.drop_first() =~= sections_view(self.extra_sections@).skip(i + 1));
            }
            if self.extra_sections[i].id.same(section_id) {
                return Some(self.extra_sections[i].data.clone());
            }
            i = i + 1;
        }
        None
    }
}

/// A transaction whose code hash the table does not hold is read as one of
/// unknown kind, whatever it carries: reading it does not fail.
pub proof fn lemma_unknown_code_reads_as_unknown(
    raw: RawTransaction,
    index: usize,
    table: Seq<(Seq<char>, Seq<char>)>,
    results: BlockResult,
)
    requires
        code_name(raw.code_hash, table) is None,
    ensures
        decode_spec(raw, index, table, results) is Ok,
        decode_spec(raw, index, table, results)->Ok_0.kind is Unknown,
{
}

/// Whatever reading a transaction gives, the fee is part of it: the payer
/// and the token that the transaction names, also where it cannot be read.
pub proof fn lemma_fee_is_always_recorded(
    raw: RawTransaction,
    index: usize,
    table: Seq<(Seq<char>, Seq<char>)>,
    results: BlockResult,
)
    ensures
        match decode_spec(raw, index, table, results) {
            Ok(transaction) => transaction.fee,
            Err(error) => error.fee,
        } == fee_of(raw.fee_payer@, raw.fee_token@, raw.gas_limit, raw.amount_per_gas_unit@),
{
}

/// Every name in the list of known code names stands for a kind that is
/// known, and no two of them stand for the same kind.
pub proof fn lemma_known_code_names_are_known()
    ensures
        known_code_names().len() == 14,
        forall|i: int|
            0 <= i < 14 ==> !(tag_of_name(#[trigger] known_code_names()[i]) is Unknown),
        forall|i: int, j: int|
            0 <= i < j < 14 ==> tag_of_name(#[trigger] known_code_names()[i]) != tag_of_name(
                #[trigger] known_code_names()[j],
            ),
{
    reveal_strlit("tx_transfer");
    reveal_strlit("tx_shielded_transfer");
    reveal_strlit("tx_shielding_transfer");
    reveal_strlit("tx_unshielding_transfer");
    reveal_strlit("tx_bond");
    reveal_strlit("tx_redelegate");
    reveal_strlit("tx_unbond");
    reveal_strlit("tx_withdraw");
    reveal_strlit("tx_claim_rewards");
    reveal_strlit("tx_vote_proposal");
    reveal_strlit("tx_init_proposal");
    reveal_strlit("tx_change_validator_metadata");
    reveal_strlit("tx_change_validator_commission");
    reveal_strlit("tx_reveal_pk");
    let names = known_code_names();
    assert("tx_transfer"@.len() == 11 && "tx_transfer"@[3] == 't');
    assert("tx_shielded_transfer"@.len() == 20);
    assert("tx_shielding_transfer"@.len() == 21);
    assert("tx_unshielding_transfer"@.len() == 23);
    assert("tx_bond"@.len() == 7);
    assert("tx_redelegate"@.len() == 13);
    assert("tx_unbond"@.len() == 9);
    assert("tx_withdraw"@.len() == 11 && "tx_withdraw"@[3] == 'w');
    assert("tx_claim_rewards"@.len() == 16 && "tx_claim_rewards"@[3] == 'c');
    assert("tx_vote_proposal"@.len() == 16 && "tx_vote_proposal"@[3] == 'v');
    assert("tx_init_proposal"@.len() == 16 && "tx_init_proposal"@[3] == 'i');
    assert("tx_change_validator_metadata"@.len() == 28);
    assert("tx_change_validator_commission"@.len() == 30);
    assert("tx_reveal_pk"@.len() == 12);
    assert(tag_of_name(names[0]) == TransactionTag::TransparentTransfer);
    assert(tag_of_name(names[1]) == TransactionTag::ShieldedTransfer);
    assert(tag_of_name(names[2]) == TransactionTag::ShieldingTransfer);
    assert(tag_of_name(names[3]) == TransactionTag::UnshieldingTransfer);
    assert(tag_of_name(names[4]) == TransactionTag::Bond);
    assert(tag_of_name(names[5]) == TransactionTag::Redelegation);
    assert(tag_of_name(names[6]) == TransactionTag::Unbond);
    assert(tag_of_name(names[7]) == TransactionTag::Withdraw);
    assert(tag_of_name(names[8]) == TransactionTag::ClaimRewards);
    assert(tag_of_name(names[9]) == TransactionTag::ProposalVote);
    assert(tag_of_name(names[10]) == TransactionTag::InitProposal);
    assert(tag_of_name(names[11]) == TransactionTag::MetadataChange);
    assert(tag_of_name(names[12]) == TransactionTag::CommissionChange);
    assert(tag_of_name(names[13]) == TransactionTag::RevealPk);
}

} // verus!
