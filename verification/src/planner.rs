//! What the local rails show to the planner of a recovery, and what it plans.

use vstd::prelude::*;

verus! {

/// Where a payment over Lightning stands.
#[derive(Clone, Copy, Debug, PartialEq, Eq, Structural)]
pub enum LightningStanding {
    Pending,
    UnpaidFinal,
}

/// Where the lock of the provider stands.
#[derive(Clone, Copy, Debug, PartialEq, Eq, Structural)]
pub enum ChainStanding {
    DestinationFundedUnclaimed,
    DestinationClaimable,
}

/// What the local rails show to the planner of a recovery.
#[derive(Clone, Copy, Debug)]
pub struct Standing {
    pub current_height: u32,
    pub source_funding_confirmation_height: Option<u32>,
    pub counterparty_available: bool,
    pub completed: bool,
    pub record_loss: bool,
    pub rail_state_unknown: bool,
    pub lightning_state: Option<LightningStanding>,
    pub chain_state: Option<ChainStanding>,
    /// Whether the planner must have been told a height at which the refund opens.
    pub needs_refund_height: bool,
}

/// What the planner of a submarine refund is shown: a lock that was confirmed at a height, and a
/// payment that can no longer be made. Only the journey that was not restored asks for the height
/// at which the refund opens.
pub open spec fn refund_standing(height: u32, confirmation_height: u32, needs_refund_height: bool) -> Standing {
    Standing {
        current_height: height,
        source_funding_confirmation_height: Some(confirmation_height),
        counterparty_available: false,
        completed: false,
        record_loss: false,
        rail_state_unknown: false,
        lightning_state: Some(LightningStanding::UnpaidFinal),
        chain_state: None,
        needs_refund_height,
    }
}

/// What the planner of a submarine refund is shown.
pub fn show_refund(height: u32, confirmation_height: u32, needs_refund_height: bool) -> (standing:
    Standing)
    ensures
        standing == refund_standing(height, confirmation_height, needs_refund_height),
{
    Standing {
        current_height: height,
        source_funding_confirmation_height: Some(confirmation_height),
        counterparty_available: false,
        completed: false,
        record_loss: false,
        rail_state_unknown: false,
        lightning_state: Some(LightningStanding::UnpaidFinal),
        chain_state: None,
        needs_refund_height,
    }
}

/// What the planner of a reverse swap is shown: a payment that is held, and a lock that is left to
/// the provider or that the requester can claim.
pub open spec fn reverse_standing(height: u32, refund: bool, counterparty_available: bool) -> Standing {
    Standing {
        current_height: height,
        source_funding_confirmation_height: None,
        counterparty_available,
        completed: false,
        record_loss: false,
        rail_state_unknown: false,
        lightning_state: Some(LightningStanding::Pending),
        chain_state: Some(
            if refund {
                ChainStanding::DestinationFundedUnclaimed
            } else {
                ChainStanding::DestinationClaimable
            },
        ),
        needs_refund_height: false,
    }
}

/// What the planner of a reverse swap is shown.
pub fn show_reverse(height: u32, refund: bool, counterparty_available: bool) -> (standing: Standing)
    ensures
        standing == reverse_standing(height, refund, counterparty_available),
{
    Standing {
        current_height: height,
        source_funding_confirmation_height: None,
        counterparty_available,
        completed: false,
        record_loss: false,
        rail_state_unknown: false,
        lightning_state: Some(LightningStanding::Pending),
        chain_state: Some(
            if refund {
                ChainStanding::DestinationFundedUnclaimed
            } else {
                ChainStanding::DestinationClaimable
            },
        ),
        needs_refund_height: false,
    }
}

/// What the planner of a recovery wants done, with the effect that it is for where it has one.
pub enum Plan {
    WaitForTimeout,
    WaitForCounterparty,
    RequestWalletRefund(String),
    RequestWalletClaim(String),
    BroadcastPresigned(String),
    Other,
}

/// What the planner of a recovery wants done.
#[verifier::ext_equal]
pub enum PlanView {
    WaitForTimeout,
    WaitForCounterparty,
    RequestWalletRefund(Seq<char>),
    RequestWalletClaim(Seq<char>),
    BroadcastPresigned(Seq<char>),
    Other,
}

impl View for Plan {
    type V = PlanView;

    open spec fn view(&self) -> PlanView {
        match *self {
            Plan::WaitForTimeout => PlanView::WaitForTimeout,
            Plan::WaitForCounterparty => PlanView::WaitForCounterparty,
            Plan::RequestWalletRefund(effect_id) => PlanView::RequestWalletRefund(effect_id@),
            Plan::RequestWalletClaim(effect_id) => PlanView::RequestWalletClaim(effect_id@),
            Plan::BroadcastPresigned(effect_id) => PlanView::BroadcastPresigned(effect_id@),
            Plan::Other => PlanView::Other,
        }
    }
}

impl Plan {
    /// The same plan once more.
    pub fn copy(&self) -> (plan: Plan)
        ensures
            plan@ == self@,
    {
        match self {
            Plan::WaitForTimeout => Plan::WaitForTimeout,
            Plan::WaitForCounterparty => Plan::WaitForCounterparty,
            Plan::RequestWalletRefund(effect_id) => Plan::RequestWalletRefund(
                effect_id.as_str().to_owned(),
            ),
            Plan::RequestWalletClaim(effect_id) => Plan::RequestWalletClaim(
                effect_id.as_str().to_owned(),
            ),
            Plan::BroadcastPresigned(effect_id) => Plan::BroadcastPresigned(
                effect_id.as_str().to_owned(),
            ),
            Plan::Other => Plan::Other,
        }
    }
}

/// A plan, or why the planner refused what it was shown.
pub open spec fn plan_view(planned: Result<Plan, String>) -> Result<PlanView, Seq<char>> {
    match planned {
        Ok(plan) => Ok(plan@),
        Err(message) => Err(message@),
    }
}

/// A plan, or why the planner refused what it was shown: it can be had exactly where every part
/// that it rests on can, and each part of it is the one that its name says.
pub proof fn law_plan_view_is_read_from_its_parts(planned: Result<Plan, String>)
    ensures
        ({
            let read = plan_view(planned);
            let given = read->Ok_0;
            &&& read is Ok <==> {
                &&& planned is Ok
            }
            &&& read is Ok ==> {
                &&& given == planned->Ok_0@
            }
        }),
{
}

} // verus!
