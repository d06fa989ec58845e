//! What is made of the chain's answers: each function takes what a query
//! returned and gives the value that the indexer works with.

use vstd::prelude::*;
use crate::balance::{balances_view, Amount, Balance, BalanceView};
use crate::block::{BlockHeight, Epoch};
use crate::bond::{bonds_view, Bond, BondAddresses, BondView, Bonds};
use crate::encoding::borsh_u64;
use crate::id::{Id, IdView};
use crate::sequence::{collect, collect_all};
use crate::text::lowercase_of;
use crate::unbond::{unbonds_view, Unbond, UnbondAddresses, UnbondView, Unbonds};
use crate::utils::BalanceChange;

verus! {

/// Why a query gave no value.
#[derive(Debug, Clone, PartialEq, Eq)]
pub enum QueryError {
    /// The chain could not be reached, did not answer in time or answered
    /// with an error; the text says which.
    Transport(String),
    /// The chain does not hold what was asked for yet.
    NotFound,
    /// The chain answered with an empty list where an entry was expected.
    Empty,
    /// The answer could not be decoded.
    Decode,
}

/// Has the chain committed the block at `block_height`? It has where its
/// last committed block is at least that high; a chain without a committed
/// block has not.
pub fn is_block_committed(last_block_height: Option<u64>, block_height: BlockHeight) -> (r: bool)
    ensures
        r == (last_block_height matches Some(last) && block_height <= last),
{
    match last_block_height {
        Some(last) => block_height as u64 <= last,
        None => false,
    }
}

/// The identifier of the native token, from its address.
pub fn get_native_token(address: &str) -> (r: Id)
    ensures
        r@ == IdView::Account(lowercase_of(address@)),
{
    Id::account(address)
}

/// The epoch of a block, cut to 32 bits; `NotFound` where the chain knows no
/// epoch for the block yet.
pub fn get_epoch_at_block_height(epoch: Option<u64>) -> (r: Result<Epoch, QueryError>)
    ensures
        r == match epoch {
            Some(epoch) => Ok::<Epoch, QueryError>(epoch as u32),
            None => Err(QueryError::NotFound),
        },
{
    match epoch {
        Some(epoch) => Ok(
            #[verifier::truncate]
            (epoch as u32),
        ),
        None => Err(QueryError::NotFound),
    }
}

/// The current epoch, cut to 32 bits.
pub fn get_current_epoch(epoch: u64) -> (r: Epoch)
    ensures
        r == epoch as u32,
{
    #[verifier::truncate]
    (epoch as u32)
}

/// The height of the last committed block, cut to 32 bits; zero for a chain
/// without a committed block.
pub fn query_last_block_height(last_block_height: Option<u64>) -> (r: BlockHeight)
    ensures
        r == match last_block_height {
            Some(last) => last as u32,
            None => 0u32,
        },
{
    match last_block_height {
        Some(last) => #[verifier::truncate]
        (last as u32),
        None => 0,
    }
}

/// A pair of address and token with the balance that the chain returned for
/// it, if it returned one.
#[derive(Debug, Clone, PartialEq, Eq)]
pub struct BalanceAnswer {
    pub change: BalanceChange,
    pub amount: Option<Amount>,
}

/// The balance that an answer stands for: a missing amount counts as zero.
pub open spec fn balance_of_answer(answer: BalanceAnswer) -> BalanceView {
    BalanceView {
        owner: answer.change.address@,
        token: answer.change.token@,
        amount: match answer.amount {
            Some(amount) => amount.raw as nat,
            None => 0,
        },
    }
}

/// The balances of the pairs of address and token that a block may have
/// changed, in the order of the answers; a missing amount counts as zero.
pub fn query_balance(answers: &Vec<BalanceAnswer>) -> (r: Vec<Balance>)
    ensures
        balances_view(r@) == answers@.map_values(|a: BalanceAnswer| balance_of_answer(a)),
{
    let mut balances: Vec<Balance> = Vec::new();
    let mut i: usize = 0;
    while i < answers.len()
        invariant
            i <= answers.len(),
            balances_view(balances@) == answers@.map_values(
                |a: BalanceAnswer| balance_of_answer(a),
            ).take(i as int),
        decreases answers.len() - i,
    {
        let answer = &answers[i];
        let amount = match answer.amount {
            Some(amount) => amount,
            None => Amount::default(),
        };
        let ghost before = balances_view(balances@);
        balances.push(
            Balance { owner: answer.change.address.clone(), token: answer.change.token.clone(), amount },
        );
        proof {
            assert(balances_view(balances@) =~= before.push(balance_of_answer(*answer)));
            assert(answers@.map_values(|a: BalanceAnswer| balance_of_answer(a)).take(i + 1)
                =~= before.push(balance_of_answer(*answer)));
        }
        i = i + 1;
    }
    proof {
        assert(answers@.map_values(|a: BalanceAnswer| balance_of_answer(a)).take(i as int)
            =~= answers@.map_values(|a: BalanceAnswer| balance_of_answer(a)));
    }
    balances
}

/// One entry under the balance prefix of the chain's storage: the token and
/// the owner that its key names, where the key is a balance key, and the
/// amount stored under it.
#[derive(Debug, Clone, PartialEq, Eq)]
pub struct StoredBalance {
    pub token_and_owner: Option<(Id, Id)>,
    pub amount: Amount,
}

/// The balance that a storage entry holds; none where its key is no balance
/// key.
pub open spec fn balance_of_entry(entry: StoredBalance) -> Option<BalanceView> {
    match entry.token_and_owner {
        Some(pair) => Some(
            BalanceView { owner: pair.1@, token: pair.0@, amount: entry.amount.raw as nat },
        ),
        None => None,
    }
}

/// `balance_of_entry` as a function.
pub open spec fn balance_of_entry_fn() -> spec_fn(StoredBalance) -> Option<BalanceView> {
    |e: StoredBalance| balance_of_entry(e)
}

/// All balances that the chain stores, in the order of the entries; entries
/// whose key is no balance key are passed over.
pub fn query_all_balances(entries: &Vec<StoredBalance>) -> (r: Vec<Balance>)
    ensures
        balances_view(r@) == collect(entries@, balance_of_entry_fn()),
{
    let mut balances: Vec<Balance> = Vec::new();
    let mut i: usize = 0;
    assert(balances_view(balances@) =~= Seq::<BalanceView>::empty());
    while i < entries.len()
        invariant
            i <= entries.len(),
            balances_view(balances@) == collect(entries@.take(i as int), balance_of_entry_fn()),
        decreases entries.len() - i,
    {
        proof {
            crate::sequence::lemma_collect_step(entries@, balance_of_entry_fn(), i as int);
        }
        match &entries[i].token_and_owner {
            Some(pair) => {
                let ghost before = balances_view(balances@);
                let balance = Balance {
                    owner: pair.1.clone(),
                    token: pair.0.clone(),
                    amount: entries[i].amount,
                };
                let ghost view = balance@;
                balances.push(balance);
                proof {
                    assert(balances_view(balances@) =~= before.push(view));
                }
            },
            None => {},
        }
        i = i + 1;
    }
    proof {
        assert(entries@.take(i as int) =~= entries@);
    }
    balances
}

/// An unbond as the chain lists it: the epoch from which it can be
/// withdrawn, and its amount.
#[derive(Debug, Clone, Copy, PartialEq, Eq, Structural)]
pub struct UnbondEntry {
    pub withdraw_epoch: u64,
    pub amount: Amount,
}

/// The bonds and unbonds of one source with one validator, as the chain
/// lists them.
#[derive(Debug, Clone, PartialEq, Eq)]
pub struct BondsAndUnbonds {
    pub source: Id,
    pub validator: Id,
    pub bonds: Vec<Amount>,
    pub unbonds: Vec<UnbondEntry>,
}

/// The bonds of one source with one validator.
pub open spec fn bonds_of(detail: BondsAndUnbonds) -> Seq<BondView> {
    detail.bonds@.map_values(
        |amount: Amount|
            BondView { source: detail.source@, target: detail.validator@, amount: amount.raw as nat },
    )
}

/// The unbonds of one source with one validator; the epoch of withdrawal is
/// cut to 32 bits.
pub open spec fn unbonds_of(detail: BondsAndUnbonds) -> Seq<UnbondView> {
    detail.unbonds@.map_values(
        |entry: UnbondEntry|
            UnbondView {
                source: detail.source@,
                target: detail.validator@,
                amount: entry.amount.raw as nat,
                withdraw_at: (entry.withdraw_epoch as u32) as nat,
            },
    )
}

/// `bonds_of` as a function.
pub open spec fn bonds_of_fn() -> spec_fn(BondsAndUnbonds) -> Seq<BondView> {
    |d: BondsAndUnbonds| bonds_of(d)
}

/// `unbonds_of` as a function.
pub open spec fn unbonds_of_fn() -> spec_fn(BondsAndUnbonds) -> Seq<UnbondView> {
    |d: BondsAndUnbonds| unbonds_of(d)
}

/// All bonds and all unbonds that the chain lists, each list in the order
/// of the chain's answer, under the epoch at which they were read.
pub fn query_all_bonds_and_unbonds(details: &Vec<BondsAndUnbonds>, epoch: Epoch) -> (r: (
    Bonds,
    Unbonds,
))
    ensures
        r.0.epoch == epoch,
        r.1.epoch == epoch,
        bonds_view(r.0.values@) == collect_all(details@, bonds_of_fn()),
        unbonds_view(r.1.values@) == collect_all(details@, unbonds_of_fn()),
{
    let mut bonds: Vec<Bond> = Vec::new();
    let mut unbonds: Vec<Unbond> = Vec::new();
    let mut i: usize = 0;
    assert(bonds_view(bonds@) =~= Seq::<BondView>::empty());
    assert(unbonds_view(unbonds@) =~= Seq::<UnbondView>::empty());
    while i < details.len()
        invariant
            i <= details.len(),
            bonds_view(bonds@) == collect_all(details@.take(i as int), bonds_of_fn()),
            unbonds_view(unbonds@) == collect_all(details@.take(i as int), unbonds_of_fn()),
        decreases details.len() - i,
    {
        let detail = &details[i];
        let ghost bonds_before = bonds_view(bonds@);
        let ghost unbonds_before = unbonds_view(unbonds@);
        proof {
            crate::sequence::lemma_collect_all_step(details@, bonds_of_fn(), i as int);
            crate::sequence::lemma_collect_all_step(details@, unbonds_of_fn(), i as int);
        }
        let mut j: usize = 0;
        assert(bonds_before + bonds_of(*detail).take(0) =~= bonds_before);
        while j < detail.bonds.len()
            invariant
                j <= detail.bonds.len(),
                bonds_view(bonds@) == bonds_before + bonds_of(*detail).take(j as int),
            decreases detail.bonds.len() - j,
        {
            let ghost before = bonds_view(bonds@);
            let bond = Bond {
                source: detail.source.clone(),
                target: detail.validator.clone(),
                amount: detail.bonds[j],
            };
            let ghost view = bond@;
            bonds.push(bond);
            proof {
                assert(bonds_view(bonds@) =~= before.push(view));
                assert(bonds_before + bonds_of(*detail).take(j + 1) =~= (bonds_before + bonds_of(
                    *detail,
                ).take(j as int)).push(view));
            }
            j = j + 1;
        }
        proof {
            assert(bonds_of(*detail).take(j as int) =~= bonds_of(*detail));
        }
        let mut k: usize = 0;
        assert(unbonds_before + unbonds_of(*detail).take(0) =~= unbonds_before);
        while k < detail.unbonds.len()
            invariant
                k <= detail.unbonds.len(),
                unbonds_view(unbonds@) == unbonds_before + unbonds_of(*detail).take(k as int),
            decreases detail.unbonds.len() - k,
        {
            let ghost before = unbonds_view(unbonds@);
            let entry = detail.unbonds[k];
            let unbond = Unbond {
                source: detail.source.clone(),
                target: detail.validator.clone(),
                amount: entry.amount,
                withdraw_at: #[verifier::truncate]
                (entry.withdraw_epoch as u32),
            };
            let ghost view = unbond@;
            unbonds.push(unbond);
            proof {
                assert(unbonds_view(unbonds@) =~= before.push(view));
                assert(unbonds_before + unbonds_of(*detail).take(k + 1) =~= (unbonds_before
                    + unbonds_of(*detail).take(k as int)).push(view));
            }
            k = k + 1;
        }
        proof {
            assert(unbonds_of(*detail).take(k as int) =~= unbonds_of(*detail));
        }
        i = i + 1;
    }
    proof {
        assert(details@.take(i as int) =~= details@);
    }
    (Bonds { epoch, values: bonds }, Unbonds { epoch, values: unbonds })
}

/// The number that the next governance proposal gets, from the bytes that
/// the chain stores under the proposal counter: eight bytes, the lowest
/// first. Other bytes give the error `Decode`.
pub fn query_next_governance_id(counter: &[u8]) -> (r: Result<u64, QueryError>)
    ensures
        r == match borsh_u64(counter@) {
            Some(id) => Ok::<u64, QueryError>(id),
            None => Err(QueryError::Decode),
        },
{
    match crate::encoding::decode_u64(counter) {
        Some(id) => Ok(id),
        None => Err(QueryError::Decode),
    }
}

/// The epoch at which the amount of a bond is asked for: a bond changes
/// only after the pipeline, so it is read `pipeline_length` epochs after
/// `epoch`. `None` where that epoch does not fit in 64 bits.
pub fn bond_query_epoch(epoch: Epoch, pipeline_length: u64) -> (r: Option<u64>)
    ensures
        r == if epoch + pipeline_length <= u64::MAX {
            Some((epoch + pipeline_length) as u64)
        } else {
            None
        },
{
    (epoch as u64).checked_add(pipeline_length)
}

/// The two ends of a bond with the amount that the chain returned for them.
#[derive(Debug, Clone, PartialEq, Eq)]
pub struct BondAnswer {
    pub addresses: BondAddresses,
    pub amount: Amount,
}

/// The bond that an answer stands for.
pub open spec fn bond_of_answer(answer: BondAnswer) -> BondView {
    BondView {
        source: answer.addresses.source@,
        target: answer.addresses.target@,
        amount: answer.amount.raw as nat,
    }
}

/// The bonds of the pairs of addresses that a block touched, in the order
/// of the answers, under the epoch at which they were read.
pub fn query_bonds(answers: &Vec<BondAnswer>, epoch: Epoch) -> (r: Bonds)
    ensures
        r.epoch == epoch,
        bonds_view(r.values@) == answers@.map_values(|a: BondAnswer| bond_of_answer(a)),
{
    let mut bonds: Vec<Bond> = Vec::new();
    let mut i: usize = 0;
    while i < answers.len()
        invariant
            i <= answers.len(),
            bonds_view(bonds@) == answers@.map_values(|a: BondAnswer| bond_of_answer(a)).take(
                i as int,
            ),
        decreases answers.len() - i,
    {
        let answer = &answers[i];
        let ghost before = bonds_view(bonds@);
        bonds.push(
            Bond {
                source: answer.addresses.source.clone(),
                target: answer.addresses.target.clone(),
                amount: answer.amount,
            },
        );
        proof {
            assert(bonds_view(bonds@) =~= before.push(bond_of_answer(*answer)));
            assert(answers@.map_values(|a: BondAnswer| bond_of_answer(a)).take(i + 1)
                =~= before.push(bond_of_answer(*answer)));
        }
        i = i + 1;
    }
    proof {
        assert(answers@.map_values(|a: BondAnswer| bond_of_answer(a)).take(i as int)
            =~= answers@.map_values(|a: BondAnswer| bond_of_answer(a)));
    }
    Bonds { epoch, values: bonds }
}

/// The two ends of an unbond with the history that the chain returned for
/// them, ordered by the epoch of withdrawal.
#[derive(Debug, Clone, PartialEq, Eq)]
pub struct UnbondAnswer {
    pub addresses: UnbondAddresses,
    pub history: Vec<UnbondEntry>,
}

/// The unbond that a history stands for: its last entry, with the epoch of
/// withdrawal cut to 32 bits. An empty history stands for none.
pub open spec fn unbond_of_answer(answer: UnbondAnswer) -> Option<UnbondView> {
    if answer.history@.len() == 0 {
        None
    } else {
        Some(
            UnbondView {
                source: answer.addresses.source@,
                target: answer.addresses.validator@,
                amount: answer.history@.last().amount.raw as nat,
                withdraw_at: (answer.history@.last().withdraw_epoch as u32) as nat,
            },
        )
    }
}

/// The unbond that the history of an answer stands for, or the error
/// `Empty` where the history is empty.
pub fn latest_unbond(answer: &UnbondAnswer) -> (r: Result<Unbond, QueryError>)
    ensures
        match r {
            Ok(unbond) => unbond_of_answer(*answer) == Some(unbond@),
            Err(error) => unbond_of_answer(*answer) is None && error == QueryError::Empty,
        },
{
    let n = answer.history.len();
    if n == 0 {
        return Err(QueryError::Empty);
    }
    let last = answer.history[n - 1];
    Ok(
        Unbond {
            source: answer.addresses.source.clone(),
            target: answer.addresses.validator.clone(),
            amount: last.amount,
            withdraw_at: #[verifier::truncate]
            (last.withdraw_epoch as u32),
        },
    )
}

/// Does every answer hold a history that is not empty?
pub open spec fn all_histories_filled(answers: Seq<UnbondAnswer>) -> bool {
    forall|i: int| 0 <= i < answers.len() ==> (#[trigger] answers[i]).history@.len() > 0
}

/// The unbonds of the pairs of addresses that a block touched, in the order
/// of the answers, under the epoch at which they were read: each is the
/// last entry of its history. One empty history makes the whole query fail
/// with the error `Empty`.
pub fn query_unbonds(answers: &Vec<UnbondAnswer>, epoch: Epoch) -> (r: Result<Unbonds, QueryError>)
    ensures
        r is Ok == all_histories_filled(answers@),
        match r {
            Ok(unbonds) => unbonds.epoch == epoch && unbonds_view(unbonds.values@)
                == answers@.map_values(|a: UnbondAnswer| unbond_of_answer(a)->0),
            Err(error) => error == QueryError::Empty,
        },
{
    let mut unbonds: Vec<Unbond> = Vec::new();
    let mut i: usize = 0;
    while i < answers.len()
        invariant
            i <= answers.len(),
            all_histories_filled(answers@.take(i as int)),
            unbonds_view(unbonds@) == answers@.map_values(
                |a: UnbondAnswer| unbond_of_answer(a)->0,
            ).take(i as int),
        decreases answers.len() - i,
    {
        let ghost before = unbonds_view(unbonds@);
        match latest_unbond(&answers[i]) {
            Ok(unbond) => {
                let ghost view = unbond@;
                unbonds.push(unbond);
                proof {
                    assert(unbonds_view(unbonds@) =~= before.push(view));
                    assert(answers@.map_values(|a: UnbondAnswer| unbond_of_answer(a)->0).take(i + 1)
                        =~= before.push(view));
                    assert forall|k: int| 0 <= k < i + 1 implies (#[trigger] answers@.take(
                        i + 1,
                    )[k]).history@.len() > 0 by {
                        if k < i {
                            assert(answers@.take(i as int)[k] == answers@.take(i + 1)[k]);
                        }
                    }
                }
            },
            Err(error) => {
                proof {
                    assert(answers@[i as int].history@.len() == 0);
                }
                return Err(error);
            },
        }
        i = i + 1;
    }
    proof {
        assert(answers@.take(i as int) =~= answers@);
        assert(answers@.map_values(|a: UnbondAnswer| unbond_of_answer(a)->0).take(i as int)
            =~= answers@.map_values(|a: UnbondAnswer| unbond_of_answer(a)->0));
    }
    Ok(Unbonds { epoch, values: unbonds })
}

} // verus!
