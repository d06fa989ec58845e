//! Blocks: how one is put together from what the chain returns, and what is
//! read out of it.

use vstd::prelude::*;
use crate::block_result::BlockResult;
use crate::bond::{bond_addresses_view, BondAddresses, BondAddressesView};
use crate::checksums::Checksums;
use crate::encoding::{borsh_string_map, entries_or_none, json_pretty_text, text_or_none};
use crate::header::{BlockHeader, BlockHeaderView};
use crate::id::{ids_view, Id, IdView};
use crate::proposal::{
    proposals_view, GovernanceProposal, GovernanceProposalKind, GovernanceProposalView,
};
use crate::sequence::{collect, collect_all, distinct};
use crate::text::{hex_text, lookup, lowercase_of, optional_text, pairs_view, parse_u64_spec};
use crate::transaction::{
    decode_spec, section_data, source_or_validator, transactions_view, InitProposalData,
    ProposalData, RawTransaction, SectionView, Transaction, TransactionKind, TransactionTag,
    TransactionView,
};
use crate::unbond::{unbond_addresses_view, UnbondAddresses, UnbondAddressesView};
use crate::utils::{BalanceChange, BalanceChangeView};
use crate::validator::{
    metadata_changes_view, ValidatorMetadataChange, ValidatorMetadataChangeView,
};
use crate::vote::{votes_view, GovernanceVote, GovernanceVoteView};

verus! {

pub type Epoch = u32;

pub type BlockHeight = u32;

/// The kind of an execution event.
#[derive(Debug, Clone, Copy, PartialEq, Eq, Structural)]
pub enum EventKind {
    Applied,
    Rejected,
    Accepted,
    Unknown,
}

/// The kind that the name of an event stands for; `Unknown` for every name
/// that is none of the three known ones, with or without the prefix of
/// transaction events.
pub open spec fn event_kind_of(name: Seq<char>) -> EventKind {
    if name == "tx/applied"@ || name == "applied"@ {
        EventKind::Applied
    } else if name == "tx/rejected"@ || name == "rejected"@ {
        EventKind::Rejected
    } else if name == "tx/accepted"@ || name == "accepted"@ {
        EventKind::Accepted
    } else {
        EventKind::Unknown
    }
}

impl EventKind {
    /// The kind that the name of an event stands for.
    pub fn from(name: &str) -> (r: Self)
        ensures
            r == event_kind_of(name@),
    {
        if crate::text::same_text(name, "tx/applied") || crate::text::same_text(name, "applied") {
            EventKind::Applied
        } else if crate::text::same_text(name, "tx/rejected") || crate::text::same_text(
            name,
            "rejected",
        ) {
            EventKind::Rejected
        } else if crate::text::same_text(name, "tx/accepted") || crate::text::same_text(
            name,
            "accepted",
        ) {
            EventKind::Accepted
        } else {
            EventKind::Unknown
        }
    }
}

/// The status code of an executed transaction.
#[derive(Debug, Clone, Copy, PartialEq, Eq, Structural)]
pub enum TxEventStatusCode {
    Success,
    Fail,
}

/// The status code that a text stands for: `Success` for "0", `Fail` for every
/// other text.
pub open spec fn status_code_of(value: Seq<char>) -> TxEventStatusCode {
    if value == seq!['0'] {
        TxEventStatusCode::Success
    } else {
        TxEventStatusCode::Fail
    }
}

impl Default for TxEventStatusCode {
    fn default() -> (r: Self)
        ensures
            r == TxEventStatusCode::Fail,
    {
        TxEventStatusCode::Fail
    }
}

impl TxEventStatusCode {
    /// Reads a status code: `Success` for "0", `Fail` for every other text.
    pub fn from(value: &str) -> (r: Self)
        ensures
            r == status_code_of(value@),
    {
        proof {
            reveal_strlit("0");
            assert("0"@ =~= seq!['0']);
        }
        if crate::text::same_text(value, "0") {
            TxEventStatusCode::Success
        } else {
            TxEventStatusCode::Fail
        }
    }
}

/// What an execution event says about a transaction.
#[derive(Debug, Clone, PartialEq, Eq)]
pub struct TxAttributes {
    pub code: TxEventStatusCode,
    pub gas: u64,
    pub hash: Id,
    pub height: u64,
    pub info: String,
}

/// The mathematical value of a [`TxAttributes`].
pub struct TxAttributesView {
    pub code: TxEventStatusCode,
    pub gas: u64,
    pub hash: IdView,
    pub height: u64,
    pub info: Seq<char>,
}

impl View for TxAttributes {
    type V = TxAttributesView;

    open spec fn view(&self) -> TxAttributesView {
        TxAttributesView {
            code: self.code,
            gas: self.gas,
            hash: self.hash@,
            height: self.height,
            info: self.info@,
        }
    }
}

/// The attributes of an event of unknown kind: status `Fail`, no gas, the
/// empty hash, height zero and no information.
pub open spec fn default_attributes() -> TxAttributesView {
    TxAttributesView {
        code: TxEventStatusCode::Fail,
        gas: 0,
        hash: IdView::Hash(Seq::<char>::empty()),
        height: 0,
        info: Seq::<char>::empty(),
    }
}

/// Do the attributes of an event hold all that is read from them: a status
/// code, the gas used and the height as numerals, a hash and the information?
pub open spec fn attributes_complete(attributes: Seq<(Seq<char>, Seq<char>)>) -> bool {
    &&& lookup(attributes, "code"@) is Some
    &&& lookup(attributes, "gas_used"@) matches Some(gas) && parse_u64_spec(gas) is Some
    &&& lookup(attributes, "hash"@) is Some
    &&& lookup(attributes, "height"@) matches Some(height) && parse_u64_spec(height) is Some
    &&& lookup(attributes, "info"@) is Some
}

/// What complete attributes say.
pub open spec fn attributes_read(attributes: Seq<(Seq<char>, Seq<char>)>) -> TxAttributesView
    recommends
        attributes_complete(attributes),
{
    TxAttributesView {
        code: status_code_of(lookup(attributes, "code"@)->0),
        gas: parse_u64_spec(lookup(attributes, "gas_used"@)->0)->0,
        hash: IdView::Hash(lowercase_of(lookup(attributes, "hash"@)->0)),
        height: parse_u64_spec(lookup(attributes, "height"@)->0)->0,
        info: lookup(attributes, "info"@)->0,
    }
}

impl Default for TxAttributes {
    fn default() -> (r: Self)
        ensures
            r@ == default_attributes(),
    {
        TxAttributes {
            code: TxEventStatusCode::Fail,
            gas: 0,
            hash: Id::default(),
            height: 0,
            info: String::new(),
        }
    }
}

impl TxAttributes {
    /// Reads the attributes of an event of a known kind. `None` exactly where
    /// they are not complete.
    pub fn read(attributes: &Vec<(String, String)>) -> (r: Option<Self>)
        ensures
            r is Some == attributes_complete(pairs_view(attributes@)),
            r matches Some(read) ==> read@ == attributes_read(pairs_view(attributes@)),
    {
        let code = match crate::text::find(attributes, "code") {
            Some(code) => TxEventStatusCode::from(code.as_str()),
            None => { return None; },
        };
        let gas = match crate::text::find(attributes, "gas_used") {
            Some(gas) => match crate::text::parse_u64(gas.as_str()) {
                Some(gas) => gas,
                None => { return None; },
            },
            None => { return None; },
        };
        let hash = match crate::text::find(attributes, "hash") {
            Some(hash) => Id::hash(hash.as_str()),
            None => { return None; },
        };
        let height = match crate::text::find(attributes, "height") {
            Some(height) => match crate::text::parse_u64(height.as_str()) {
                Some(height) => height,
                None => { return None; },
            },
            None => { return None; },
        };
        let info = match crate::text::find(attributes, "info") {
            Some(info) => info.clone(),
            None => { return None; },
        };
        Some(TxAttributes { code, gas, hash, height, info })
    }

    /// The attributes of an event: the default for an event of unknown kind,
    /// else what the event's attributes say.
    pub fn deserialize(event_kind: &EventKind, attributes: &Vec<(String, String)>) -> (r: Self)
        requires
            !(event_kind is Unknown) ==> attributes_complete(pairs_view(attributes@)),
        ensures
            event_kind is Unknown ==> r@ == default_attributes(),
            !(event_kind is Unknown) ==> r@ == attributes_read(pairs_view(attributes@)),
    {
        match event_kind {
            EventKind::Unknown => TxAttributes::default(),
            _ => match TxAttributes::read(attributes) {
                Some(read) => read,
                None => TxAttributes::default(),
            },
        }
    }
}

/// A block as the chain returns it, with its transactions in their parsed
/// wire form; an entry is `None` where the bytes at that position are no
/// transaction.
#[derive(Debug, Clone, PartialEq, Eq)]
pub struct RawBlock {
    pub hash: String,
    pub height: u64,
    pub proposer_address: String,
    pub time: String,
    pub app_hash: String,
    pub transactions: Vec<Option<RawTransaction>>,
}

/// An assembled block: its header and the transactions of a known kind that
/// could be read.
#[derive(Debug, Clone, PartialEq, Eq)]
pub struct Block {
    pub hash: Id,
    pub header: BlockHeader,
    pub transactions: Vec<Transaction>,
    pub epoch: Epoch,
}

/// The mathematical value of a [`Block`].
pub struct BlockView {
    pub hash: IdView,
    pub header: BlockHeaderView,
    pub transactions: Seq<TransactionView>,
    pub epoch: Epoch,
}

impl View for Block {
    type V = BlockView;

    open spec fn view(&self) -> BlockView {
        BlockView {
            hash: self.hash@,
            header: self.header@,
            transactions: transactions_view(self.transactions@),
            epoch: self.epoch,
        }
    }
}

impl Default for Block {
    /// The block without transactions, with the default header, at epoch zero.
    fn default() -> (r: Self)
        ensures
            r@ == (BlockView {
                hash: IdView::Hash(Seq::<char>::empty()),
                header: BlockHeaderView {
                    height: 0,
                    proposer_address: Seq::<char>::empty(),
                    timestamp: Seq::<char>::empty(),
                    app_hash: IdView::Hash(Seq::<char>::empty()),
                },
                transactions: Seq::<TransactionView>::empty(),
                epoch: 0,
            }),
    {
        let transactions: Vec<Transaction> = Vec::new();
        assert(transactions_view(transactions@) =~= Seq::<TransactionView>::empty());
        Block { hash: Id::default(), header: BlockHeader::default(), transactions, epoch: 0 }
    }
}

/// Does the transaction at position `index` enter the assembled block? It
/// does where it can be read and its kind is known.
pub open spec fn kept_transaction(
    raw: Option<RawTransaction>,
    index: usize,
    table: Seq<(Seq<char>, Seq<char>)>,
    results: BlockResult,
) -> Option<TransactionView> {
    match raw {
        Some(raw) => match decode_spec(raw, index, table, results) {
            Ok(transaction) => if transaction.kind is Unknown {
                None
            } else {
                Some(transaction)
            },
            Err(_) => None,
        },
        None => None,
    }
}

/// The transactions of the assembled block: those that are kept, in the
/// order of the block, each read at its own position.
pub open spec fn assembled(
    raw: Seq<Option<RawTransaction>>,
    table: Seq<(Seq<char>, Seq<char>)>,
    results: BlockResult,
) -> Seq<TransactionView>
    decreases raw.len(),
{
    if raw.len() == 0 {
        Seq::empty()
    } else {
        let before = assembled(raw.drop_last(), table, results);
        match kept_transaction(raw.last(), (raw.len() - 1) as usize, table, results) {
            Some(transaction) => before.push(transaction),
            None => before,
        }
    }
}

/// The header of an assembled block: the height cut to 32 bits, the
/// proposer's address and the application hash in lower case.
pub open spec fn header_of(raw: RawBlock) -> BlockHeaderView {
    BlockHeaderView {
        height: raw.height as u32,
        proposer_address: lowercase_of(raw.proposer_address@),
        timestamp: raw.time@,
        app_hash: IdView::Hash(lowercase_of(raw.app_hash@)),
    }
}

/// What a kind of transaction changes, besides the fee: a transfer the
/// balances of its source and of its target in its token; a bond, a
/// withdrawal and a claim of rewards the balance of the source, or of the
/// validator where no source is named, in the native token; a new proposal
/// the balance of its author in the native token.
pub open spec fn kind_balance_changes(kind: TransactionKind, native: IdView) -> Seq<
    BalanceChangeView,
> {
    match kind {
        TransactionKind::TransparentTransfer(data) => seq![
            BalanceChangeView { address: data.source@, token: data.token@ },
            BalanceChangeView { address: data.target@, token: data.token@ },
        ],
        TransactionKind::Bond(data) => seq![
            BalanceChangeView {
                address: source_or_validator(data.source, data.validator)@,
                token: native,
            },
        ],
        TransactionKind::Withdraw(data) => seq![
            BalanceChangeView {
                address: source_or_validator(data.source, data.validator)@,
                token: native,
            },
        ],
        TransactionKind::ClaimRewards(data) => seq![
            BalanceChangeView {
                address: source_or_validator(data.source, data.validator)@,
                token: native,
            },
        ],
        TransactionKind::InitProposal(data) => seq![
            BalanceChangeView { address: data.author@, token: native },
        ],
        _ => Seq::empty(),
    }
}

/// The balances that a transaction may change: those of its kind, and that
/// of the fee payer in the fee token.
pub open spec fn balance_changes_of(transaction: TransactionView, native: IdView) -> Seq<
    BalanceChangeView,
> {
    kind_balance_changes(transaction.kind, native).push(
        BalanceChangeView {
            address: transaction.fee.gas_payer,
            token: transaction.fee.gas_token,
        },
    )
}

/// The balances that the transactions may change, in the order of the
/// transactions, with repetitions.
pub open spec fn block_balance_changes(transactions: Seq<TransactionView>, native: IdView) -> Seq<
    BalanceChangeView,
> {
    collect_all(transactions, balance_changes_fn(native))
}

/// `balance_changes_of` for a given native token, as a function of the
/// transaction.
pub open spec fn balance_changes_fn(native: IdView) -> spec_fn(TransactionView) -> Seq<
    BalanceChangeView,
> {
    |t: TransactionView| balance_changes_of(t, native)
}

/// The values of a list of balance changes.
pub open spec fn balance_changes_view(changes: Seq<BalanceChange>) -> Seq<BalanceChangeView> {
    changes.map_values(|c: BalanceChange| c@)
}

/// The pairs of bond addresses of a kind of transaction: one for a bond and
/// one for an unbond, from the source (or the validator where no source is
/// named) to the validator; two for a redelegation, from the owner to the
/// validator that the stake leaves and from the owner to the validator that
/// it goes to.
pub open spec fn kind_bond_addresses(kind: TransactionKind) -> Seq<BondAddressesView> {
    match kind {
        TransactionKind::Bond(data) => seq![
            BondAddressesView {
                source: source_or_validator(data.source, data.validator)@,
                target: data.validator@,
            },
        ],
        TransactionKind::Unbond(data) => seq![
            BondAddressesView {
                source: source_or_validator(data.source, data.validator)@,
                target: data.validator@,
            },
        ],
        TransactionKind::Redelegation(data) => seq![
            BondAddressesView { source: data.owner@, target: data.src_validator@ },
            BondAddressesView { source: data.owner@, target: data.dest_validator@ },
        ],
        _ => Seq::empty(),
    }
}

/// The pairs of bond addresses of the transactions, in their order.
pub open spec fn block_bond_addresses(transactions: Seq<TransactionView>) -> Seq<BondAddressesView> {
    collect_all(transactions, bond_addresses_fn())
}

/// `kind_bond_addresses` as a function of the transaction.
pub open spec fn bond_addresses_fn() -> spec_fn(TransactionView) -> Seq<BondAddressesView> {
    |t: TransactionView| kind_bond_addresses(t.kind)
}

/// The pair of unbond addresses of an unbond; other kinds have none.
pub open spec fn kind_unbond_addresses(kind: TransactionKind) -> Option<UnbondAddressesView> {
    match kind {
        TransactionKind::Unbond(data) => Some(
            UnbondAddressesView {
                source: source_or_validator(data.source, data.validator)@,
                validator: data.validator@,
            },
        ),
        _ => None,
    }
}

/// The pairs of unbond addresses of the transactions, in their order.
pub open spec fn block_unbond_addresses(transactions: Seq<TransactionView>) -> Seq<
    UnbondAddressesView,
> {
    collect(transactions, unbond_addresses_fn())
}

/// `kind_unbond_addresses` as a function of the transaction.
pub open spec fn unbond_addresses_fn() -> spec_fn(TransactionView) -> Option<UnbondAddressesView> {
    |t: TransactionView| kind_unbond_addresses(t.kind)
}

/// The vote that a vote transaction casts; other kinds cast none.
pub open spec fn kind_vote(kind: TransactionKind) -> Option<GovernanceVoteView> {
    match kind {
        TransactionKind::ProposalVote(data) => Some(
            GovernanceVoteView { proposal_id: data.id, vote: data.vote, address: data.voter@ },
        ),
        _ => None,
    }
}

/// The votes of the transactions, in their order.
pub open spec fn block_votes(transactions: Seq<TransactionView>) -> Seq<GovernanceVoteView> {
    collect(transactions, vote_fn())
}

/// `kind_vote` as a function of the transaction.
pub open spec fn vote_fn() -> spec_fn(TransactionView) -> Option<GovernanceVoteView> {
    |t: TransactionView| kind_vote(t.kind)
}

/// The address that claims rewards: the source of a claim, or its validator
/// where no source is named; other kinds claim nothing.
pub open spec fn kind_claimant(kind: TransactionKind) -> Option<IdView> {
    match kind {
        TransactionKind::ClaimRewards(data) => Some(
            source_or_validator(data.source, data.validator)@,
        ),
        _ => None,
    }
}

/// The addresses that claim rewards in the transactions, in their order,
/// with repetitions.
pub open spec fn block_claimants(transactions: Seq<TransactionView>) -> Seq<IdView> {
    collect(transactions, claimant_fn())
}

/// `kind_claimant` as a function of the transaction.
pub open spec fn claimant_fn() -> spec_fn(TransactionView) -> Option<IdView> {
    |t: TransactionView| kind_claimant(t.kind)
}

/// The change of a validator's metadata that a transaction makes: all fields
/// for a change of metadata, the commission alone for a change of
/// commission; other kinds make none.
pub open spec fn kind_metadata_change(kind: TransactionKind) -> Option<ValidatorMetadataChangeView> {
    match kind {
        TransactionKind::MetadataChange(data) => Some(
            ValidatorMetadataChangeView {
                address: data.validator@,
                commission: optional_text(data.commission_rate),
                name: optional_text(data.name),
                email: optional_text(data.email),
                description: optional_text(data.description),
                website: optional_text(data.website),
                discord_handler: optional_text(data.discord_handle),
                avatar: optional_text(data.avatar),
            },
        ),
        TransactionKind::CommissionChange(data) => Some(
            ValidatorMetadataChangeView {
                address: data.validator@,
                commission: Some(data.new_rate@),
                name: None,
                email: None,
                description: None,
                website: None,
                discord_handler: None,
                avatar: None,
            },
        ),
        _ => None,
    }
}

/// The changes of validator metadata of the transactions, in their order.
pub open spec fn block_metadata_changes(transactions: Seq<TransactionView>) -> Seq<
    ValidatorMetadataChangeView,
> {
    collect(transactions, metadata_change_fn())
}

/// `kind_metadata_change` as a function of the transaction.
pub open spec fn metadata_change_fn() -> spec_fn(TransactionView) -> Option<
    ValidatorMetadataChangeView,
> {
    |t: TransactionView| kind_metadata_change(t.kind)
}

/// Is the transaction a new proposal?
pub open spec fn is_proposal(transaction: TransactionView) -> bool {
    transaction.kind is InitProposal
}

/// How many of the transactions are new proposals.
pub open spec fn proposal_count(transactions: Seq<TransactionView>) -> nat
    decreases transactions.len(),
{
    if transactions.len() == 0 {
        0
    } else {
        proposal_count(transactions.drop_last()) + if is_proposal(transactions.last()) {
            1nat
        } else {
            0nat
        }
    }
}

/// The kind of proposal that a proposal transaction asks for.
pub open spec fn proposal_kind_of(data: ProposalData) -> GovernanceProposalKind {
    match data {
        ProposalData::Default => GovernanceProposalKind::Default,
        ProposalData::DefaultWithWasm(_) => GovernanceProposalKind::DefaultWithWasm,
        ProposalData::PgfSteward(_) => GovernanceProposalKind::PgfSteward,
        ProposalData::PgfFunding(_) => GovernanceProposalKind::PgfFunding,
    }
}

/// The data of a proposal: for one with code, the code in lower-case
/// hexadecimal where the transaction carries the section with it, and
/// nothing where it does not; for the two funding kinds, their JSON text;
/// for a default proposal, nothing.
pub open spec fn proposal_data_text(sections: Seq<SectionView>, data: ProposalData) -> Option<
    Seq<char>,
> {
    match data {
        ProposalData::Default => None,
        ProposalData::DefaultWithWasm(hash) => match section_data(sections, hash@) {
            Some(code) => Some(hex_text(code)),
            None => None,
        },
        ProposalData::PgfSteward(text) => Some(text@),
        ProposalData::PgfFunding(text) => Some(text@),
    }
}

/// The text of a proposal: the section with the content's hash is decoded as
/// a map from texts to texts and written as indented JSON. A missing section
/// counts as no bytes, bytes that do not decode as the empty map, and a map
/// that cannot be written as the empty text.
pub open spec fn proposal_content_text(sections: Seq<SectionView>, content: IdView) -> Seq<char> {
    let bytes = match section_data(sections, content) {
        Some(bytes) => bytes,
        None => Seq::empty(),
    };
    text_or_none(json_pretty_text(entries_or_none(borsh_string_map(bytes))))
}

/// The proposal that a proposal transaction introduces under the number
/// `id`; the epochs are cut to 32 bits.
pub open spec fn proposal_of(
    transaction: TransactionView,
    data: InitProposalData,
    id: u64,
) -> GovernanceProposalView {
    GovernanceProposalView {
        id,
        content: proposal_content_text(transaction.extra_sections, data.content@),
        kind: proposal_kind_of(data.data),
        data: proposal_data_text(transaction.extra_sections, data.data),
        author: data.author@,
        voting_start_epoch: data.voting_start_epoch as u32,
        voting_end_epoch: data.voting_end_epoch as u32,
        activation_epoch: data.activation_epoch as u32,
    }
}

/// The proposals that the transactions introduce, in their order: the first
/// gets the number `next`, each following one the next number.
pub open spec fn block_proposals(transactions: Seq<TransactionView>, next: u64) -> Seq<
    GovernanceProposalView,
>
    decreases transactions.len(),
{
    if transactions.len() == 0 {
        Seq::empty()
    } else {
        let before = block_proposals(transactions.drop_last(), next);
        match transactions.last().kind {
            TransactionKind::InitProposal(data) => before.push(
                proposal_of(transactions.last(), data, (next + before.len()) as u64),
            ),
            _ => before,
        }
    }
}

/// There are as many proposals as proposal transactions, and the proposal at
/// position `k` has the number `next + k`.
pub proof fn lemma_block_proposals_ids(transactions: Seq<TransactionView>, next: u64)
    requires
        next + proposal_count(transactions) <= u64::MAX,
    ensures
        block_proposals(transactions, next).len() == proposal_count(transactions),
        forall|k: int|
            0 <= k < block_proposals(transactions, next).len() ==> (#[trigger] block_proposals(
                transactions,
                next,
            )[k]).id == next + k,
    decreases transactions.len(),
{
    if transactions.len() > 0 {
        lemma_block_proposals_ids(transactions.drop_last(), next);
    }
}

/// A part of the transactions at their start holds no more proposals than
/// all of them.
pub proof fn lemma_proposal_count_take(transactions: Seq<TransactionView>, i: int)
    requires
        0 <= i <= transactions.len(),
    ensures
        proposal_count(transactions.take(i)) <= proposal_count(transactions),
    decreases transactions.len() - i,
{
    if i < transactions.len() {
        lemma_proposal_count_take(transactions, i + 1);
        assert(transactions.take(i + 1).drop_last() =~= transactions.take(i));
    } else {
        assert(transactions.take(i) =~= transactions);
    }
}

/// Appends `change` unless the list holds an equal one.
pub fn push_distinct_change(changes: &mut Vec<BalanceChange>, change: BalanceChange)
    ensures
        balance_changes_view(final(changes)@) == if balance_changes_view(old(changes)@).contains(
            change@,
        ) {
            balance_changes_view(old(changes)@)
        } else {
            balance_changes_view(old(changes)@).push(change@)
        },
{
    let mut i: usize = 0;
    while i < changes.len()
        invariant
            i <= changes.len(),
            changes@ == old(changes)@,
            forall|k: int| 0 <= k < i ==> (#[trigger] changes@[k])@ != change@,
        decreases changes.len() - i,
    {
        if changes[i].same(&change) {
            proof {
                assert(balance_changes_view(changes@)[i as int] == change@);
            }
            return ;
        }
        i = i + 1;
    }
    proof {
        let view = balance_changes_view(changes@);
        if view.contains(change@) {
            let k = choose|k: int| 0 <= k < view.len() && view[k] == change@;
            assert(changes@[k]@ == change@);
        }
    }
    let ghost before = balance_changes_view(changes@);
    changes.push(change);
    proof {
        assert(balance_changes_view(changes@) =~= before.push(change@));
    }
}

/// Appends `id` unless the list holds an equal one.
pub fn push_distinct_id(ids: &mut Vec<Id>, id: Id)
    ensures
        ids_view(final(ids)@) == if ids_view(old(ids)@).contains(id@) {
            ids_view(old(ids)@)
        } else {
            ids_view(old(ids)@).push(id@)
        },
{
    let mut i: usize = 0;
    while i < ids.len()
        invariant
            i <= ids.len(),
            ids@ == old(ids)@,
            forall|k: int| 0 <= k < i ==> (#[trigger] ids@[k])@ != id@,
        decreases ids.len() - i,
    {
        if ids[i].same(&id) {
            proof {
                assert(ids_view(ids@)[i as int] == id@);
            }
            return ;
        }
        i = i + 1;
    }
    proof {
        let view = ids_view(ids@);
        if view.contains(id@) {
            let k = choose|k: int| 0 <= k < view.len() && view[k] == id@;
            assert(ids@[k]@ == id@);
        }
    }
    let ghost before = ids_view(ids@);
    ids.push(id);
    proof {
        assert(ids_view(ids@) =~= before.push(id@));
    }
}

impl Block {
    /// Puts a block together: the header as the chain gave it, and of the
    /// transactions those that can be read and whose kind is known. A
    /// transaction that cannot be read, or whose code the table does not
    /// know, is left out; it never makes the assembly fail.
    pub fn from(
        raw: RawBlock,
        block_results: &BlockResult,
        checksums: Checksums,
        epoch: Epoch,
    ) -> (r: Self)
        ensures
            r@ == (BlockView {
                hash: IdView::Hash(lowercase_of(raw.hash@)),
                header: header_of(raw),
                transactions: assembled(raw.transactions@, checksums@, *block_results),
                epoch,
            }),
    {
        let mut transactions: Vec<Transaction> = Vec::new();
        let mut index: usize = 0;
        assert(transactions_view(transactions@) =~= Seq::<TransactionView>::empty());
        while index < raw.transactions.len()
            invariant
                index <= raw.transactions.len(),
                transactions_view(transactions@) == assembled(
                    raw.transactions@.take(index as int),
                    checksums@,
                    *block_results,
                ),
            decreases raw.transactions.len() - index,
        {
            let ghost before = transactions_view(transactions@);
            proof {
                assert(raw.transactions@.take(index + 1).drop_last() =~= raw.transactions@.take(
                    index as int,
                ));
            }
            match &raw.transactions[index] {
                Some(raw_transaction) => {
                    match Transaction::deserialize(raw_transaction, index, &checksums, block_results) {
                        Ok(transaction) => {
                            if transaction.kind.tag() != TransactionTag::Unknown {
                                let ghost view = transaction@;
                                transactions.push(transaction);
                                proof {
                                    assert(transactions_view(transactions@) =~= before.push(view));
                                }
                            }
                        },
                        Err(_) => {},
                    }
                },
                None => {},
            }
            index = index + 1;
        }
        proof {
            assert(raw.transactions@.take(index as int) =~= raw.transactions@);
        }
        Block {
            hash: Id::hash(raw.hash.as_str()),
            header: BlockHeader {
                height: #[verifier::truncate]
                (raw.height as u32),
                proposer_address: raw.proposer_address.as_str().to_lowercase(),
                timestamp: raw.time.clone(),
                app_hash: Id::hash(raw.app_hash.as_str()),
            },
            transactions,
            epoch,
        }
    }

    /// How many new proposals the block holds.
    pub fn proposal_count(&self) -> (r: usize)
        ensures
            r == proposal_count(self@.transactions),
    {
        let ghost all = self@.transactions;
        let mut count: usize = 0;
        let mut i: usize = 0;
        while i < self.transactions.len()
            invariant
                i <= self.transactions.len(),
                all == transactions_view(self.transactions@),
                count == proposal_count(all.take(i as int)),
                count <= i,
            decreases self.transactions.len() - i,
        {
            proof {
                assert(all.take(i + 1).drop_last() =~= all.take(i as int));
            }
            if self.transactions[i].kind.tag() == TransactionTag::InitProposal {
                count = count + 1;
            }
            i = i + 1;
        }
        proof {
            assert(all.take(i as int) =~= all);
        }
        count
    }

    /// The proposals that the block introduces, numbered from
    /// `next_proposal_id` on in the order of the transactions, and the number
    /// that the first proposal after this block gets.
    pub fn governance_proposal(&self, next_proposal_id: u64) -> (r: (Vec<GovernanceProposal>, u64))
        requires
            next_proposal_id + proposal_count(self@.transactions) <= u64::MAX,
        ensures
            proposals_view(r.0@) == block_proposals(self@.transactions, next_proposal_id),
            r.0@.len() == proposal_count(self@.transactions),
            forall|k: int|
                0 <= k < r.0@.len() ==> (#[trigger] r.0@[k]).id == next_proposal_id + k,
            r.1 == next_proposal_id + proposal_count(self@.transactions),
    {
        let ghost all = self@.transactions;
        let mut proposals: Vec<GovernanceProposal> = Vec::new();
        let mut next: u64 = next_proposal_id;
        let mut i: usize = 0;
        assert(proposals_view(proposals@) =~= Seq::<GovernanceProposalView>::empty());
        while i < self.transactions.len()
            invariant
                i <= self.transactions.len(),
                all == transactions_view(self.transactions@),
                next_proposal_id + proposal_count(all) <= u64::MAX,
                proposals_view(proposals@) == block_proposals(all.take(i as int), next_proposal_id),
                proposals@.len() == proposal_count(all.take(i as int)),
                next == next_proposal_id + proposals@.len(),
            decreases self.transactions.len() - i,
        {
            let transaction = &self.transactions[i];
            proof {
                assert(all.take(i + 1).drop_last() =~= all.take(i as int));
                assert(all.take(i + 1).last() == transaction@);
                lemma_proposal_count_take(all, i + 1);
            }
            match &transaction.kind {
                TransactionKind::InitProposal(data) => {
                    let content = transaction.proposal_content(&data.content);
                    let proposal_data = transaction.proposal_data(&data.data);
                    let proposal = GovernanceProposal {
                        id: next,
                        content,
                        kind: proposal_kind(&data.data),
                        data: proposal_data,
                        author: data.author.clone(),
                        voting_start_epoch: #[verifier::truncate]
                        (data.voting_start_epoch as u32),
                        voting_end_epoch: #[verifier::truncate]
                        (data.voting_end_epoch as u32),
                        activation_epoch: #[verifier::truncate]
                        (data.activation_epoch as u32),
                    };
                    let ghost before = proposals_view(proposals@);
                    let ghost view = proposal@;
                    proposals.push(proposal);
                    proof {
                        assert(proposals_view(proposals@) =~= before.push(view));
                    }
                    next = next + 1;
                },
                _ => {},
            }
            i = i + 1;
        }
        proof {
            assert(all.take(i as int) =~= all);
            lemma_block_proposals_ids(all, next_proposal_id);
            assert forall|k: int| 0 <= k < proposals@.len() implies (#[trigger] proposals@[k]).id
                == next_proposal_id + k by {
                assert(proposals_view(proposals@)[k] == proposals@[k]@);
            }
        }
        (proposals, next)
    }

    /// The addresses that claim rewards in the block, each of them once.
    pub fn pos_rewards(&self) -> (r: Vec<Id>)
        ensures
            ids_view(r@) == distinct(block_claimants(self@.transactions)),
            ids_view(r@).no_duplicates(),
    {
        let ghost all = self@.transactions;
        let mut claimants: Vec<Id> = Vec::new();
        let mut i: usize = 0;
        assert(ids_view(claimants@) =~= Seq::<IdView>::empty());
        while i < self.transactions.len()
            invariant
                i <= self.transactions.len(),
                all == transactions_view(self.transactions@),
                ids_view(claimants@) == distinct(block_claimants(all.take(i as int))),
            decreases self.transactions.len() - i,
        {
            let transaction = &self.transactions[i];
            proof {
                crate::sequence::lemma_collect_step(all, claimant_fn(), i as int);
                assert(all[i as int] == transaction@);
            }
            match &transaction.kind {
                TransactionKind::ClaimRewards(data) => {
                    let source = data.source_or_validator();
                    proof {
                        crate::sequence::lemma_distinct_push(
                            block_claimants(all.take(i as int)),
                            source@,
                        );
                    }
                    push_distinct_id(&mut claimants, source);
                },
                _ => {},
            }
            i = i + 1;
        }
        proof {
            assert(all.take(i as int) =~= all);
            crate::sequence::lemma_distinct(block_claimants(all));
        }
        claimants
    }

    /// The votes that the block casts, in the order of the transactions.
    pub fn governance_votes(&self) -> (r: Vec<GovernanceVote>)
        ensures
            votes_view(r@) == block_votes(self@.transactions),
    {
        let ghost all = self@.transactions;
        let mut votes: Vec<GovernanceVote> = Vec::new();
        let mut i: usize = 0;
        assert(votes_view(votes@) =~= Seq::<GovernanceVoteView>::empty());
        while i < self.transactions.len()
            invariant
                i <= self.transactions.len(),
                all == transactions_view(self.transactions@),
                votes_view(votes@) == block_votes(all.take(i as int)),
            decreases self.transactions.len() - i,
        {
            let transaction = &self.transactions[i];
            proof {
                crate::sequence::lemma_collect_step(all, vote_fn(), i as int);
                assert(all[i as int] == transaction@);
            }
            match &transaction.kind {
                TransactionKind::ProposalVote(data) => {
                    let ghost before = votes_view(votes@);
                    let vote = GovernanceVote {
                        proposal_id: data.id,
                        vote: data.vote,
                        address: data.voter.clone(),
                    };
                    let ghost view = vote@;
                    votes.push(vote);
                    proof {
                        assert(votes_view(votes@) =~= before.push(view));
                    }
                },
                _ => {},
            }
            i = i + 1;
        }
        proof {
            assert(all.take(i as int) =~= all);
        }
        votes
    }

    /// The balances that the block may have changed, each pair of address and
    /// token once, in the order of its first occurrence: every transaction
    /// names what its kind changes and, after that, the fee payer with the
    /// fee token.
    pub fn addresses_with_balance_change(&self, native_token: Id) -> (r: Vec<BalanceChange>)
        ensures
            balance_changes_view(r@) == distinct(
                block_balance_changes(self@.transactions, native_token@),
            ),
            balance_changes_view(r@).no_duplicates(),
    {
        let ghost all = self@.transactions;
        let ghost native = native_token@;
        let mut changes: Vec<BalanceChange> = Vec::new();
        let mut i: usize = 0;
        assert(balance_changes_view(changes@) =~= Seq::<BalanceChangeView>::empty());
        while i < self.transactions.len()
            invariant
                i <= self.transactions.len(),
                all == transactions_view(self.transactions@),
                native == native_token@,
                balance_changes_view(changes@) == distinct(
                    block_balance_changes(all.take(i as int), native),
                ),
            decreases self.transactions.len() - i,
        {
            let transaction = &self.transactions[i];
            let ghost before = block_balance_changes(all.take(i as int), native);
            let ghost mut seen = before;
            proof {
                crate::sequence::lemma_collect_all_step(all, balance_changes_fn(native), i as int);
                assert(all[i as int] == transaction@);
            }
            match &transaction.kind {
                TransactionKind::TransparentTransfer(data) => {
                    let source = BalanceChange::new(data.source.clone(), data.token.clone());
                    let target = BalanceChange::new(data.target.clone(), data.token.clone());
                    proof {
                        crate::sequence::lemma_distinct_push(seen, source@);
                        crate::sequence::lemma_distinct_push(seen.push(source@), target@);
                        seen = seen.push(source@).push(target@);
                    }
                    push_distinct_change(&mut changes, source);
                    push_distinct_change(&mut changes, target);
                },
                TransactionKind::Bond(data) => {
                    let change = BalanceChange::new(data.source_or_validator(), native_token.clone());
                    proof {
                        crate::sequence::lemma_distinct_push(seen, change@);
                        seen = seen.push(change@);
                    }
                    push_distinct_change(&mut changes, change);
                },
                TransactionKind::Withdraw(data) => {
                    let change = BalanceChange::new(data.source_or_validator(), native_token.clone());
                    proof {
                        crate::sequence::lemma_distinct_push(seen, change@);
                        seen = seen.push(change@);
                    }
                    push_distinct_change(&mut changes, change);
                },
                TransactionKind::ClaimRewards(data) => {
                    let change = BalanceChange::new(data.source_or_validator(), native_token.clone());
                    proof {
                        crate::sequence::lemma_distinct_push(seen, change@);
                        seen = seen.push(change@);
                    }
                    push_distinct_change(&mut changes, change);
                },
                TransactionKind::InitProposal(data) => {
                    let change = BalanceChange::new(data.author.clone(), native_token.clone());
                    proof {
                        crate::sequence::lemma_distinct_push(seen, change@);
                        seen = seen.push(change@);
                    }
                    push_distinct_change(&mut changes, change);
                },
                _ => {},
            }
            let fee = BalanceChange::new(
                transaction.fee.gas_payer.clone(),
                transaction.fee.gas_token.clone(),
            );
            proof {
                crate::sequence::lemma_distinct_push(seen, fee@);
                seen = seen.push(fee@);
                assert(seen =~= before + balance_changes_of(transaction@, native));
            }
            push_distinct_change(&mut changes, fee);
            i = i + 1;
        }
        proof {
            assert(all.take(i as int) =~= all);
            crate::sequence::lemma_distinct(block_balance_changes(all, native));
        }
        changes
    }

    /// The pairs of addresses whose bond the block may have changed, in the
    /// order of the transactions.
    pub fn bond_addresses(&self) -> (r: Vec<BondAddresses>)
        ensures
            bond_addresses_view(r@) == block_bond_addresses(self@.transactions),
    {
        let ghost all = self@.transactions;
        let mut pairs: Vec<BondAddresses> = Vec::new();
        let mut i: usize = 0;
        assert(bond_addresses_view(pairs@) =~= Seq::<BondAddressesView>::empty());
        while i < self.transactions.len()
            invariant
                i <= self.transactions.len(),
                all == transactions_view(self.transactions@),
                bond_addresses_view(pairs@) == block_bond_addresses(all.take(i as int)),
            decreases self.transactions.len() - i,
        {
            let transaction = &self.transactions[i];
            let ghost before = bond_addresses_view(pairs@);
            proof {
                crate::sequence::lemma_collect_all_step(all, bond_addresses_fn(), i as int);
                assert(all[i as int] == transaction@);
            }
            match &transaction.kind {
                TransactionKind::Bond(data) => {
                    let pair = BondAddresses {
                        source: data.source_or_validator(),
                        target: data.validator.clone(),
                    };
                    let ghost view = pair@;
                    pairs.push(pair);
                    proof {
                        assert(bond_addresses_view(pairs@) =~= before + seq![view]);
                    }
                },
                TransactionKind::Unbond(data) => {
                    let pair = BondAddresses {
                        source: data.source_or_validator(),
                        target: data.validator.clone(),
                    };
                    let ghost view = pair@;
                    pairs.push(pair);
                    proof {
                        assert(bond_addresses_view(pairs@) =~= before + seq![view]);
                    }
                },
                TransactionKind::Redelegation(data) => {
                    let leaving = BondAddresses {
                        source: data.owner.clone(),
                        target: data.src_validator.clone(),
                    };
                    let arriving = BondAddresses {
                        source: data.owner.clone(),
                        target: data.dest_validator.clone(),
                    };
                    let ghost first = leaving@;
                    let ghost second = arriving@;
                    pairs.push(leaving);
                    pairs.push(arriving);
                    proof {
                        assert(bond_addresses_view(pairs@) =~= before + seq![first, second]);
                    }
                },
                _ => {
                    proof {
                        assert(before + Seq::<BondAddressesView>::empty() =~= before);
                    }
                },
            }
            i = i + 1;
        }
        proof {
            assert(all.take(i as int) =~= all);
        }
        pairs
    }

    /// The pairs of addresses whose unbond the block may have changed, in the
    /// order of the transactions.
    pub fn unbond_addresses(&self) -> (r: Vec<UnbondAddresses>)
        ensures
            unbond_addresses_view(r@) == block_unbond_addresses(self@.transactions),
    {
        let ghost all = self@.transactions;
        let mut pairs: Vec<UnbondAddresses> = Vec::new();
        let mut i: usize = 0;
        assert(unbond_addresses_view(pairs@) =~= Seq::<UnbondAddressesView>::empty());
        while i < self.transactions.len()
            invariant
                i <= self.transactions.len(),
                all == transactions_view(self.transactions@),
                unbond_addresses_view(pairs@) == block_unbond_addresses(all.take(i as int)),
            decreases self.transactions.len() - i,
        {
            let transaction = &self.transactions[i];
            proof {
                crate::sequence::lemma_collect_step(all, unbond_addresses_fn(), i as int);
                assert(all[i as int] == transaction@);
            }
            match &transaction.kind {
                TransactionKind::Unbond(data) => {
                    let ghost before = unbond_addresses_view(pairs@);
                    let pair = UnbondAddresses {
                        source: data.source_or_validator(),
                        validator: data.validator.clone(),
                    };
                    let ghost view = pair@;
                    pairs.push(pair);
                    proof {
                        assert(unbond_addresses_view(pairs@) =~= before.push(view));
                    }
                },
                _ => {},
            }
            i = i + 1;
        }
        proof {
            assert(all.take(i as int) =~= all);
        }
        pairs
    }

    /// The changes of validator metadata that the block makes, in the order
    /// of the transactions.
    pub fn validator_metadata(&self) -> (r: Vec<ValidatorMetadataChange>)
        ensures
            metadata_changes_view(r@) == block_metadata_changes(self@.transactions),
    {
        let ghost all = self@.transactions;
        let mut changes: Vec<ValidatorMetadataChange> = Vec::new();
        let mut i: usize = 0;
        assert(metadata_changes_view(changes@) =~= Seq::<ValidatorMetadataChangeView>::empty());
        while i < self.transactions.len()
            invariant
                i <= self.transactions.len(),
                all == transactions_view(self.transactions@),
                metadata_changes_view(changes@) == block_metadata_changes(all.take(i as int)),
            decreases self.transactions.len() - i,
        {
            let transaction = &self.transactions[i];
            let ghost before = metadata_changes_view(changes@);
            proof {
                crate::sequence::lemma_collect_step(all, metadata_change_fn(), i as int);
                assert(all[i as int] == transaction@);
            }
            match &transaction.kind {
                TransactionKind::MetadataChange(data) => {
                    let change = ValidatorMetadataChange {
                        address: data.validator.clone(),
                        commission: crate::text::clone_optional_text(&data.commission_rate),
                        name: crate::text::clone_optional_text(&data.name),
                        email: crate::text::clone_optional_text(&data.email),
                        description: crate::text::clone_optional_text(&data.description),
                        website: crate::text::clone_optional_text(&data.website),
                        discord_handler: crate::text::clone_optional_text(&data.discord_handle),
                        avatar: crate::text::clone_optional_text(&data.avatar),
                    };
                    let ghost view = change@;
                    changes.push(change);
                    proof {
                        assert(metadata_changes_view(changes@) =~= before.push(view));
                    }
                },
                TransactionKind::CommissionChange(data) => {
                    let change = ValidatorMetadataChange {
                        address: data.validator.clone(),
                        commission: Some(data.new_rate.clone()),
                        name: None,
                        email: None,
                        description: None,
                        website: None,
                        discord_handler: None,
                        avatar: None,
                    };
                    let ghost view = change@;
                    changes.push(change);
                    proof {
                        assert(metadata_changes_view(changes@) =~= before.push(view));
                    }
                },
                _ => {},
            }
            i = i + 1;
        }
        proof {
            assert(all.take(i as int) =~= all);
        }
        changes
    }
}

/// The kind of proposal that a proposal transaction asks for.
pub fn proposal_kind(data: &ProposalData) -> (r: GovernanceProposalKind)
    ensures
        r == proposal_kind_of(*data),
{
    match data {
        ProposalData::Default => GovernanceProposalKind::Default,
        ProposalData::DefaultWithWasm(_) => GovernanceProposalKind::DefaultWithWasm,
        ProposalData::PgfSteward(_) => GovernanceProposalKind::PgfSteward,
        ProposalData::PgfFunding(_) => GovernanceProposalKind::PgfFunding,
    }
}

impl Transaction {
    /// The text of the proposal whose content has the hash `content`: the
    /// section with that hash, decoded and written as indented JSON.
    pub fn proposal_content(&self, content: &Id) -> (r: String)
        ensures
            r@ == proposal_content_text(self@.extra_sections, content@),
    {
        let bytes = match self.get_section_data_by_id(content) {
            Some(bytes) => bytes,
            None => Vec::new(),
        };
        let entries = crate::encoding::entries_or_empty(
            crate::encoding::decode_string_map(bytes.as_slice()),
        );
        crate::encoding::text_or_empty(crate::encoding::json_pretty(&entries))
    }

    /// The data of a proposal that asks for `data`.
    pub fn proposal_data(&self, data: &ProposalData) -> (r: Option<String>)
        ensures
            optional_text(r) == proposal_data_text(self@.extra_sections, *data),
    {
        match data {
            ProposalData::Default => None,
            ProposalData::DefaultWithWasm(hash) => match self.get_section_data_by_id(hash) {
                Some(code) => Some(crate::text::hex_string(code.as_slice())),
                None => None,
            },
            ProposalData::PgfSteward(text) => Some(text.clone()),
            ProposalData::PgfFunding(text) => Some(text.clone()),
        }
    }
}

/// A transaction whose code hash the table does not hold does not enter the
/// assembled block, and the transactions before it enter as if it were not
/// there.
pub proof fn lemma_unknown_code_is_left_out(
    raw: Seq<Option<RawTransaction>>,
    table: Seq<(Seq<char>, Seq<char>)>,
    results: BlockResult,
)
    requires
        raw.len() > 0,
        raw.last() matches Some(last) && crate::transaction::code_name(last.code_hash, table)
            is None,
    ensures
        assembled(raw, table, results) == assembled(raw.drop_last(), table, results),
        kept_transaction(raw.last(), (raw.len() - 1) as usize, table, results) is None,
{
    crate::transaction::lemma_unknown_code_reads_as_unknown(
        raw.last()->0,
        (raw.len() - 1) as usize,
        table,
        results,
    );
}

/// No transaction of unknown kind stands in an assembled block, and every
/// transaction in it stands in the raw block at the position that it names.
pub proof fn lemma_assembled_transactions(
    raw: Seq<Option<RawTransaction>>,
    table: Seq<(Seq<char>, Seq<char>)>,
    results: BlockResult,
)
    requires
        raw.len() <= usize::MAX,
    ensures
        assembled(raw, table, results).len() <= raw.len(),
        forall|k: int|
            0 <= k < assembled(raw, table, results).len() ==> {
                let transaction = #[trigger] assembled(raw, table, results)[k];
                &&& !(transaction.kind is Unknown)
                &&& transaction.index < raw.len()
                &&& kept_transaction(raw[transaction.index as int], transaction.index, table, results)
                    == Some(transaction)
            },
    decreases raw.len(),
{
    if raw.len() > 0 {
        let rest = raw.drop_last();
        lemma_assembled_transactions(rest, table, results);
        let all = assembled(raw, table, results);
        let before = assembled(rest, table, results);
        assert forall|k: int| 0 <= k < all.len() implies {
            let transaction = #[trigger] all[k];
            &&& !(transaction.kind is Unknown)
            &&& transaction.index < raw.len()
            &&& kept_transaction(raw[transaction.index as int], transaction.index, table, results)
                == Some(transaction)
        } by {
            if k < before.len() {
                assert(all[k] == before[k]);
                assert(rest[before[k].index as int] == raw[before[k].index as int]);
            } else {
                let kept = kept_transaction(raw.last(), (raw.len() - 1) as usize, table, results);
                assert(kept == Some(all[k]));
                assert(all[k].index == raw.len() - 1);
                assert(raw[raw.len() - 1] == raw.last());
            }
        }
    }
}

/// A bond that names no source is a bond of the validator with itself.
pub proof fn lemma_self_bond(data: crate::transaction::BondData)
    requires
        data.source is None,
    ensures
        kind_bond_addresses(TransactionKind::Bond(data)) == seq![
            BondAddressesView { source: data.validator@, target: data.validator@ },
        ],
        kind_unbond_addresses(TransactionKind::Unbond(data)) == Some(
            UnbondAddressesView { source: data.validator@, validator: data.validator@ },
        ),
{
}

/// A redelegation yields exactly two pairs of bond addresses, and the owner
/// is the source of both.
pub proof fn lemma_redelegation_pairs(data: crate::transaction::RedelegationData)
    ensures
        kind_bond_addresses(TransactionKind::Redelegation(data)).len() == 2,
        kind_bond_addresses(TransactionKind::Redelegation(data))[0].source == data.owner@,
        kind_bond_addresses(TransactionKind::Redelegation(data))[1].source == data.owner@,
        kind_bond_addresses(TransactionKind::Redelegation(data))[0].target == data.src_validator@,
        kind_bond_addresses(TransactionKind::Redelegation(data))[1].target == data.dest_validator@,
{
}

/// The set of balance changes of a block does not depend on the order of its
/// transactions: two lists that hold the same transactions name the same
/// pairs of address and token.
pub proof fn lemma_balance_changes_any_order(
    first: Seq<TransactionView>,
    second: Seq<TransactionView>,
    native: IdView,
)
    requires
        first.to_multiset() == second.to_multiset(),
    ensures
        distinct(block_balance_changes(first, native)).to_set() == distinct(
            block_balance_changes(second, native),
        ).to_set(),
        distinct(block_balance_changes(first, native)).no_duplicates(),
        distinct(block_balance_changes(second, native)).no_duplicates(),
{
    let f = balance_changes_fn(native);
    let a = block_balance_changes(first, native);
    let b = block_balance_changes(second, native);
    crate::sequence::lemma_distinct(a);
    crate::sequence::lemma_distinct(b);
    crate::sequence::lemma_collect_all_contains(first, f);
    crate::sequence::lemma_collect_all_contains(second, f);
    first.to_multiset_ensures();
    second.to_multiset_ensures();
    assert forall|c: BalanceChangeView| a.contains(c) <==> b.contains(c) by {
        if a.contains(c) {
            let i = choose|i: int| 0 <= i < first.len() && (#[trigger] f(first[i])).contains(c);
            assert(first.contains(first[i]));
            assert(second.to_multiset().count(first[i]) > 0);
            assert(second.contains(first[i]));
            let j = choose|j: int| 0 <= j < second.len() && second[j] == first[i];
            assert(f(second[j]).contains(c));
        }
        if b.contains(c) {
            let i = choose|i: int| 0 <= i < second.len() && (#[trigger] f(second[i])).contains(c);
            assert(second.contains(second[i]));
            assert(first.to_multiset().count(second[i]) > 0);
            assert(first.contains(second[i]));
            let j = choose|j: int| 0 <= j < first.len() && first[j] == second[i];
            assert(f(first[j]).contains(c));
        }
    }
    assert forall|c: BalanceChangeView|
        distinct(a).to_set().contains(c) <==> distinct(b).to_set().contains(c) by {
        assert(distinct(a).contains(c) <==> a.contains(c));
        assert(distinct(b).contains(c) <==> b.contains(c));
    }
    assert(distinct(a).to_set() =~= distinct(b).to_set());
}

} // verus!
