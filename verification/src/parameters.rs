//! Protocol parameters and the yearly yield of staking.

use vstd::prelude::*;
use crate::balance::Amount;
use crate::decimal::{
    decimal_number_text, product_units, quotient_units, ArithmeticError, Decimal, SCALE,
};

verus! {

/// The parameters of the protocol at one epoch.
#[derive(Debug, Clone, PartialEq, Eq)]
pub struct Parameters {
    pub epoch: u32,
    pub unbonding_length: u64,
    pub pipeline_length: u64,
    pub epochs_per_year: u64,
    pub min_num_of_blocks: u64,
    pub min_duration: u64,
    pub apr: String,
    pub native_token_address: String,
}

/// The mathematical value of a [`Parameters`].
pub struct ParametersView {
    pub epoch: u32,
    pub unbonding_length: u64,
    pub pipeline_length: u64,
    pub epochs_per_year: u64,
    pub min_num_of_blocks: u64,
    pub min_duration: u64,
    pub apr: Seq<char>,
    pub native_token_address: Seq<char>,
}

impl View for Parameters {
    type V = ParametersView;

    open spec fn view(&self) -> ParametersView {
        ParametersView {
            epoch: self.epoch,
            unbonding_length: self.unbonding_length,
            pipeline_length: self.pipeline_length,
            epochs_per_year: self.epochs_per_year,
            min_num_of_blocks: self.min_num_of_blocks,
            min_duration: self.min_duration,
            apr: self.apr@,
            native_token_address: self.native_token_address@,
        }
    }
}

/// The staking parameters of the protocol, as the chain reports them.
#[derive(Debug, Clone, Copy, PartialEq, Eq, Structural)]
pub struct PosParameters {
    pub unbonding_length: u64,
    pub pipeline_length: u64,
}

/// How long an epoch lasts at least, as the chain reports it.
#[derive(Debug, Clone, Copy, PartialEq, Eq, Structural)]
pub struct EpochDuration {
    pub min_num_of_blocks: u64,
    pub min_duration: u64,
}

/// The steps of the computation of the yearly yield.
#[derive(Debug, Clone, PartialEq, Eq)]
pub struct AprBreakdown {
    /// The last inflation, divided by the total supply, times the epochs of a
    /// year.
    pub inflation_rate_per_year: Decimal,
    /// The yearly inflation rate times the total supply.
    pub annual_provision: Decimal,
    /// The annual provision divided by the total stake.
    pub apr: Decimal,
}

/// The mathematical value of an [`AprBreakdown`]: each step in units of
/// 0.000000000001.
pub struct AprBreakdownView {
    pub inflation_rate_per_year: nat,
    pub annual_provision: nat,
    pub apr: nat,
}

impl View for AprBreakdown {
    type V = AprBreakdownView;

    open spec fn view(&self) -> AprBreakdownView {
        AprBreakdownView {
            inflation_rate_per_year: self.inflation_rate_per_year@,
            annual_provision: self.annual_provision@,
            apr: self.apr@,
        }
    }
}

/// The yearly yield of staking, or the outcome that there is none to state.
#[derive(Debug, Clone, PartialEq, Eq)]
pub enum Apr {
    Defined(Decimal),
    AprUndefined,
}

/// The mathematical value of an [`Apr`].
pub enum AprView {
    Defined(nat),
    AprUndefined,
}

impl View for Apr {
    type V = AprView;

    open spec fn view(&self) -> AprView {
        match self {
            Apr::Defined(value) => AprView::Defined(value@),
            Apr::AprUndefined => AprView::AprUndefined,
        }
    }
}

/// The yearly yield with its steps:
///
/// - the yearly inflation rate is the last inflation divided by the total
///   supply, times the number of epochs in a year;
/// - the annual provision is that rate times the total supply;
/// - the yield is the annual provision divided by the total stake.
///
/// Each step is cut after the twelfth digit; the numbers can be of any size.
/// Only a division by zero, where there is no supply or no stake, ends the
/// computation without a number.
pub open spec fn apr_spec(
    total_supply: Amount,
    last_inflation: Amount,
    epochs_per_year: u64,
    total_staked: Amount,
) -> Result<AprBreakdownView, ArithmeticError> {
    let supply = total_supply.raw * SCALE;
    let inflation = last_inflation.raw * SCALE;
    let staked = total_staked.raw * SCALE;
    if supply == 0 || staked == 0 {
        Err(ArithmeticError::DivisionByZero)
    } else {
        let rate = quotient_units(inflation as nat, supply as nat) * epochs_per_year;
        let provision = product_units(rate as nat, supply as nat);
        Ok(
            AprBreakdownView {
                inflation_rate_per_year: rate as nat,
                annual_provision: provision,
                apr: quotient_units(provision, staked as nat),
            },
        )
    }
}

/// The outcome that a computation of the yield stands for.
pub open spec fn apr_of(result: Result<AprBreakdownView, ArithmeticError>) -> AprView {
    match result {
        Ok(breakdown) => AprView::Defined(breakdown.apr),
        Err(_) => AprView::AprUndefined,
    }
}

/// How an outcome is written: the number, or the word "undefined".
pub open spec fn apr_text(apr: AprView) -> Seq<char> {
    match apr {
        AprView::Defined(value) => decimal_number_text(value),
        AprView::AprUndefined => "undefined"@,
    }
}

/// The value of the result of a computation of the yield.
pub open spec fn breakdown_result_view(result: Result<AprBreakdown, ArithmeticError>) -> Result<
    AprBreakdownView,
    ArithmeticError,
> {
    match result {
        Ok(breakdown) => Ok(breakdown@),
        Err(error) => Err(error),
    }
}

/// The yearly yield of staking with the steps that lead to it.
pub fn apr_breakdown(
    total_supply: Amount,
    last_inflation: Amount,
    epochs_per_year: u64,
    total_staked: Amount,
) -> (r: Result<AprBreakdown, ArithmeticError>)
    ensures
        breakdown_result_view(r) == apr_spec(
            total_supply,
            last_inflation,
            epochs_per_year,
            total_staked,
        ),
{
    let supply = Decimal::from_integer(total_supply.raw);
    let inflation = Decimal::from_integer(last_inflation.raw);
    let per_epoch = match inflation.div(&supply) {
        Ok(per_epoch) => per_epoch,
        Err(e) => { return Err(e); },
    };
    let rate = per_epoch.mul_integer(epochs_per_year);
    let staked = Decimal::from_integer(total_staked.raw);
    let provision = rate.mul(&supply);
    let apr = match provision.div(&staked) {
        Ok(apr) => apr,
        Err(e) => { return Err(e); },
    };
    Ok(AprBreakdown { inflation_rate_per_year: rate, annual_provision: provision, apr })
}

/// The yearly yield of staking: `AprUndefined` exactly where the computation
/// gives no number, which is where there is no supply or no stake.
pub fn calc_apr(
    total_supply: Amount,
    last_inflation: Amount,
    epochs_per_year: u64,
    total_staked: Amount,
) -> (r: Apr)
    ensures
        r@ == apr_of(apr_spec(total_supply, last_inflation, epochs_per_year, total_staked)),
        r is AprUndefined == (total_supply.raw == 0 || total_staked.raw == 0),
{
    match apr_breakdown(total_supply, last_inflation, epochs_per_year, total_staked) {
        Ok(breakdown) => Apr::Defined(breakdown.apr),
        Err(_) => Apr::AprUndefined,
    }
}

/// Without stake there is no yield to state, whatever the other numbers are.
pub proof fn lemma_no_stake_no_apr(total_supply: Amount, last_inflation: Amount, epochs_per_year: u64)
    ensures
        apr_of(apr_spec(total_supply, last_inflation, epochs_per_year, Amount { raw: 0 }))
            == AprView::AprUndefined,
{
}

/// With supply and stake there is always a yield to state, however large the
/// numbers are.
pub proof fn lemma_apr_is_defined(
    total_supply: Amount,
    last_inflation: Amount,
    epochs_per_year: u64,
    total_staked: Amount,
)
    requires
        total_supply.raw > 0,
        total_staked.raw > 0,
    ensures
        apr_spec(total_supply, last_inflation, epochs_per_year, total_staked) is Ok,
{
}

impl Apr {
    /// Writes the outcome: the number, or the word "undefined".
    pub fn to_string(&self) -> (r: String)
        ensures
            r@ == apr_text(self@),
    {
        match self {
            Apr::Defined(value) => value.to_string(),
            Apr::AprUndefined => "undefined".to_owned(),
        }
    }
}

impl Parameters {
    /// The parameters of `epoch`, put together from what the chain reports
    /// and the yield that was computed.
    pub fn new(
        epoch: u32,
        pos: PosParameters,
        epochs_per_year: u64,
        epoch_duration: EpochDuration,
        apr: &Apr,
        native_token_address: String,
    ) -> (r: Self)
        ensures
            r@ == (ParametersView {
                epoch,
                unbonding_length: pos.unbonding_length,
                pipeline_length: pos.pipeline_length,
                epochs_per_year,
                min_num_of_blocks: epoch_duration.min_num_of_blocks,
                min_duration: epoch_duration.min_duration,
                apr: apr_text(apr@),
                native_token_address: native_token_address@,
            }),
    {
        Parameters {
            epoch,
            unbonding_length: pos.unbonding_length,
            pipeline_length: pos.pipeline_length,
            epochs_per_year,
            min_num_of_blocks: epoch_duration.min_num_of_blocks,
            min_duration: epoch_duration.min_duration,
            apr: apr.to_string(),
            native_token_address,
        }
    }
}

/// What the chain reports for the computation of the yearly yield.
#[derive(Debug, Clone, Copy, PartialEq, Eq, Structural)]
pub struct StakingTotals {
    /// The total supply of the native token.
    pub total_supply: Amount,
    /// The inflation of the last epoch.
    pub last_inflation: Amount,
    /// The total stake.
    pub total_staked: Amount,
}

/// The parameters of `epoch` from what the chain reports: the staking
/// parameters, the epochs of a year, the duration of an epoch and the
/// address of the native token as they are, and the yearly yield computed
/// from the totals.
pub fn get_parameters(
    epoch: u32,
    pos: PosParameters,
    epochs_per_year: u64,
    epoch_duration: EpochDuration,
    native_token_address: String,
    totals: StakingTotals,
) -> (r: Parameters)
    ensures
        r@ == (ParametersView {
            epoch,
            unbonding_length: pos.unbonding_length,
            pipeline_length: pos.pipeline_length,
            epochs_per_year,
            min_num_of_blocks: epoch_duration.min_num_of_blocks,
            min_duration: epoch_duration.min_duration,
            apr: apr_text(
                apr_of(
                    apr_spec(
                        totals.total_supply,
                        totals.last_inflation,
                        epochs_per_year,
                        totals.total_staked,
                    ),
                ),
            ),
            native_token_address: native_token_address@,
        }),
{
    let apr = calc_apr(
        totals.total_supply,
        totals.last_inflation,
        epochs_per_year,
        totals.total_staked,
    );
    Parameters::new(epoch, pos, epochs_per_year, epoch_duration, &apr, native_token_address)
}

/// The current epoch, cut to 32 bits.
pub fn get_current_epoch(epoch: u64) -> (r: u32)
    ensures
        r == epoch as u32,
{
    #[verifier::truncate]
    (epoch as u32)
}

} // verus!
