//! The checks on the wallet before trading starts.
//!
//! For each of the two assets, first the one that buys and then the one
//! that is traded, the balance has to cover the deposit and the router has
//! to be allowed to spend without limit; where it is not, an approval is
//! sent. After that the market price is asked for. The driver does what a
//! step names and reports what came back.

use crate::uint::U256;
use vstd::prelude::*;

verus! {

/// One of the two assets of the pair.
#[derive(Clone, Copy, Debug, PartialEq, Eq)]
pub enum Asset {
    USDT,
    CESS,
}

/// What the driver does next.
#[derive(Clone, Copy, Debug, PartialEq, Eq)]
pub enum PreflightStep {
    /// Ask for the wallet's balance of the asset.
    QueryBalance(Asset),
    /// Ask how much of the asset the router may spend.
    QueryAllowance(Asset),
    /// Allow the router to spend the asset without limit.
    SendApproval(Asset),
    /// Ask for the market price: the checks are done.
    QueryPrice,
}

/// What the driver reports back.
#[derive(Clone, Copy, Debug, PartialEq, Eq)]
pub enum PreflightEvent {
    Balance(U256),
    Allowance(U256),
    Approved,
}

/// What the driver reports back, in numbers.
pub enum EventModel {
    Balance(nat),
    Allowance(nat),
    Approved,
}

impl View for PreflightEvent {
    type V = EventModel;

    open spec fn view(&self) -> EventModel {
        match *self {
            PreflightEvent::Balance(b) => EventModel::Balance(b@),
            PreflightEvent::Allowance(a) => EventModel::Allowance(a@),
            PreflightEvent::Approved => EventModel::Approved,
        }
    }
}

/// Why the checks end without a step to go on with.
#[derive(Clone, Copy, Debug, PartialEq, Eq)]
pub enum PreflightError {
    /// The wallet holds less of the asset than the deposit.
    InsufficientBalance(Asset),
    /// The report does not answer the step.
    UnexpectedEvent,
}

impl PreflightError {
    /// The message shown to the operator.
    pub fn message(&self) -> (r: String)
        ensures
            r@ == match *self {
                PreflightError::InsufficientBalance(Asset::USDT) =>
                    "Your wallet's USDT is not enough. Please put more USDT into your wallet!"@,
                PreflightError::InsufficientBalance(Asset::CESS) =>
                    "Your wallet's CESS is not enough. Please put more CESS into your wallet!"@,
                PreflightError::UnexpectedEvent => "The wallet check got an answer that it did not ask for!"@,
            },
    {
        match self {
            PreflightError::InsufficientBalance(Asset::USDT) =>
                "Your wallet's USDT is not enough. Please put more USDT into your wallet!".to_owned(),
            PreflightError::InsufficientBalance(Asset::CESS) =>
                "Your wallet's CESS is not enough. Please put more CESS into your wallet!".to_owned(),
            PreflightError::UnexpectedEvent =>
                "The wallet check got an answer that it did not ask for!".to_owned(),
        }
    }
}

/// The step that follows the checks of an asset.
pub open spec fn step_after(asset: Asset) -> PreflightStep {
    match asset {
        Asset::USDT => PreflightStep::QueryBalance(Asset::CESS),
        Asset::CESS => PreflightStep::QueryPrice,
    }
}

/// The deposit in an asset.
pub open spec fn deposit_of(asset: Asset, deposit_usdt: nat, deposit_cess: nat) -> nat {
    match asset {
        Asset::USDT => deposit_usdt,
        Asset::CESS => deposit_cess,
    }
}

/// The step that follows `step` once `event` is reported.
///
/// A balance below the deposit ends the checks. An allowance other than the
/// largest value calls for an approval; the largest value, or an approval
/// that was sent, leads on to the next asset.
pub open spec fn next_step(
    step: PreflightStep,
    event: EventModel,
    deposit_usdt: nat,
    deposit_cess: nat,
) -> Result<PreflightStep, PreflightError> {
    match (step, event) {
        (PreflightStep::QueryBalance(asset), EventModel::Balance(balance)) => if balance
            < deposit_of(asset, deposit_usdt, deposit_cess) {
            Err(PreflightError::InsufficientBalance(asset))
        } else {
            Ok(PreflightStep::QueryAllowance(asset))
        },
        (PreflightStep::QueryAllowance(asset), EventModel::Allowance(allowance)) => if allowance
            == U256::max_value() {
            Ok(step_after(asset))
        } else {
            Ok(PreflightStep::SendApproval(asset))
        },
        (PreflightStep::SendApproval(asset), EventModel::Approved) => Ok(step_after(asset)),
        _ => Err(PreflightError::UnexpectedEvent),
    }
}

/// The first step: the balance of the asset that buys.
pub fn preflight_start() -> (r: PreflightStep)
    ensures
        r == PreflightStep::QueryBalance(Asset::USDT),
{
    PreflightStep::QueryBalance(Asset::USDT)
}

/// The step that follows the checks of an asset.
fn after(asset: Asset) -> (r: PreflightStep)
    ensures
        r == step_after(asset),
{
    match asset {
        Asset::USDT => PreflightStep::QueryBalance(Asset::CESS),
        Asset::CESS => PreflightStep::QueryPrice,
    }
}

/// The step that follows `step` once `event` is reported, or the reason why
/// the checks end here.
pub fn preflight_next(
    step: PreflightStep,
    event: PreflightEvent,
    deposit_usdt: &U256,
    deposit_cess: &U256,
) -> (r: Result<PreflightStep, PreflightError>)
    ensures
        r == next_step(step, event@, deposit_usdt@, deposit_cess@),
{
    match (step, event) {
        (PreflightStep::QueryBalance(asset), PreflightEvent::Balance(balance)) => {
            let deposit = match asset {
                Asset::USDT => deposit_usdt,
                Asset::CESS => deposit_cess,
            };
            if balance.less_than(deposit) {
                Err(PreflightError::InsufficientBalance(asset))
            } else {
                Ok(PreflightStep::QueryAllowance(asset))
            }
        },
        (PreflightStep::QueryAllowance(asset), PreflightEvent::Allowance(allowance)) => {
            if allowance.equals(&U256::max()) {
                Ok(after(asset))
            } else {
                Ok(PreflightStep::SendApproval(asset))
            }
        },
        (PreflightStep::SendApproval(asset), PreflightEvent::Approved) => Ok(after(asset)),
        _ => Err(PreflightError::UnexpectedEvent),
    }
}

} // verus!
