//! The escrow state machine: which operation is allowed in which state, what
//! state it leads to, and which way the escrowed funds move.
//!
//! ```text
//! INIT -> FUNDED -> COMPLETED
//!            |  \-> EXPIRED   (after the deadline)
//!            v
//!         DISPUTED -> COMPLETED (release to seller)
//!                  -> REFUNDED  (refund buyer)
//! ```
use crate::errors::ContractError;
use crate::host::{AccountId, HostRequest};
use crate::types::{Escrow, EscrowState, EscrowView};
use vstd::prelude::*;

verus! {

/// An operation on an existing escrow.
pub enum Action<'a> {
    /// The buyer pays the amount in
    Fund,
    /// The buyer confirms delivery; the seller is paid
    ConfirmDelivery,
    /// The given party (buyer or seller) disputes the escrow
    RaiseDispute(&'a AccountId),
    /// The arbitrator settles a dispute: `true` pays the seller, `false`
    /// refunds the buyer
    ResolveDispute(bool),
    /// After the deadline, the buyer is refunded
    RefundExpired,
}

/// An operation as plain values.
pub enum ActionView {
    Fund,
    ConfirmDelivery,
    RaiseDispute(Seq<u8>),
    ResolveDispute(bool),
    RefundExpired,
}

impl<'a> View for Action<'a> {
    type V = ActionView;

    open spec fn view(&self) -> ActionView {
        match *self {
            Action::Fund => ActionView::Fund,
            Action::ConfirmDelivery => ActionView::ConfirmDelivery,
            Action::RaiseDispute(caller) => ActionView::RaiseDispute(caller@),
            Action::ResolveDispute(release) => ActionView::ResolveDispute(release),
            Action::RefundExpired => ActionView::RefundExpired,
        }
    }
}

/// What operation `a` at time `now` does to escrow `e`: the state it leads to,
/// or the error it is refused with.
pub open spec fn transition(e: EscrowView, a: ActionView, now: u64) -> Result<EscrowState, ContractError> {
    match a {
        ActionView::Fund => {
            if e.state != EscrowState::Init {
                Err(ContractError::InvalidState)
            } else if now > e.deadline {
                Err(ContractError::DeadlinePassed)
            } else {
                Ok(EscrowState::Funded)
            }
        },
        ActionView::ConfirmDelivery => {
            if e.state != EscrowState::Funded {
                Err(ContractError::InvalidState)
            } else {
                Ok(EscrowState::Completed)
            }
        },
        ActionView::RaiseDispute(caller) => {
            if e.state != EscrowState::Funded {
                Err(ContractError::InvalidState)
            } else if e.arbitrator is None {
                Err(ContractError::Unauthorized)
            } else if caller != e.buyer && caller != e.seller {
                Err(ContractError::Unauthorized)
            } else {
                Ok(EscrowState::Disputed)
            }
        },
        ActionView::ResolveDispute(release_to_seller) => {
            if e.state != EscrowState::Disputed {
                Err(ContractError::InvalidState)
            } else if release_to_seller {
                Ok(EscrowState::Completed)
            } else {
                Ok(EscrowState::Refunded)
            }
        },
        ActionView::RefundExpired => {
            if e.state != EscrowState::Funded {
                Err(ContractError::InvalidState)
            } else if now <= e.deadline {
                Err(ContractError::DeadlineNotReached)
            } else {
                Ok(EscrowState::Expired)
            }
        },
    }
}

/// Decides operation `a` at time `now` on `escrow`.
pub fn next_state(escrow: &Escrow, a: &Action, now: u64) -> (next: Result<EscrowState, ContractError>)
    ensures
        next == transition(escrow@, a@, now),
{
    match a {
        Action::Fund => {
            if escrow.state != EscrowState::Init {
                Err(ContractError::InvalidState)
            } else if now > escrow.deadline {
                Err(ContractError::DeadlinePassed)
            } else {
                Ok(EscrowState::Funded)
            }
        },
        Action::ConfirmDelivery => {
            if escrow.state != EscrowState::Funded {
                Err(ContractError::InvalidState)
            } else {
                Ok(EscrowState::Completed)
            }
        },
        Action::RaiseDispute(caller) => {
            if escrow.state != EscrowState::Funded {
                Err(ContractError::InvalidState)
            } else if escrow.arbitrator.is_none() {
                Err(ContractError::Unauthorized)
            } else if !caller.same_as(&escrow.buyer) && !caller.same_as(&escrow.seller) {
                Err(ContractError::Unauthorized)
            } else {
                Ok(EscrowState::Disputed)
            }
        },
        Action::ResolveDispute(release_to_seller) => {
            if escrow.state != EscrowState::Disputed {
                Err(ContractError::InvalidState)
            } else if *release_to_seller {
                Ok(EscrowState::Completed)
            } else {
                Ok(EscrowState::Refunded)
            }
        },
        Action::RefundExpired => {
            if escrow.state != EscrowState::Funded {
                Err(ContractError::InvalidState)
            } else if now <= escrow.deadline {
                Err(ContractError::DeadlineNotReached)
            } else {
                Ok(EscrowState::Expired)
            }
        },
    }
}

/// The account whose authorization operation `a` on escrow `e` asks for, if
/// any: the buyer funds and confirms, the disputing party signs its dispute,
/// the arbitrator resolves, and anyone may refund an expired escrow.
pub open spec fn authorizer_of(e: EscrowView, a: ActionView) -> Option<Seq<u8>> {
    match a {
        ActionView::Fund => Some(e.buyer),
        ActionView::ConfirmDelivery => Some(e.buyer),
        ActionView::RaiseDispute(caller) => Some(caller),
        ActionView::ResolveDispute(_) => e.arbitrator,
        ActionView::RefundExpired => None,
    }
}

/// The account whose authorization operation `a` on `escrow` asks for, if any.
pub fn authorizer<'a>(escrow: &'a Escrow, a: &'a Action<'a>) -> (signer: Option<&'a AccountId>)
    ensures
        match signer {
            Some(s) => authorizer_of(escrow@, a@) == Some(s@),
            None => authorizer_of(escrow@, a@) is None,
        },
{
    match a {
        Action::Fund => Some(&escrow.buyer),
        Action::ConfirmDelivery => Some(&escrow.buyer),
        Action::RaiseDispute(caller) => Some(*caller),
        Action::ResolveDispute(_) => escrow.arbitrator.as_ref(),
        Action::RefundExpired => None,
    }
}

/// Which way the escrowed amount moves when an escrow changes state.
#[derive(Clone, Copy, Debug, PartialEq, Eq, Structural)]
pub enum Settlement {
    /// From the buyer into the contract
    Deposit,
    /// From the contract to the seller
    PaySeller,
    /// From the contract back to the buyer
    RefundBuyer,
    /// No funds move
    Hold,
}

/// The movement of funds that goes with the change from `from` to `to`.
pub open spec fn settlement_of(from: EscrowState, to: EscrowState) -> Settlement {
    if !from.holds_funds() && to.holds_funds() {
        Settlement::Deposit
    } else if from.holds_funds() && to == EscrowState::Completed {
        Settlement::PaySeller
    } else if from.holds_funds() && (to == EscrowState::Refunded || to == EscrowState::Expired) {
        Settlement::RefundBuyer
    } else {
        Settlement::Hold
    }
}

/// The movement of funds that goes with the change from `from` to `to`.
pub fn settlement(from: EscrowState, to: EscrowState) -> (s: Settlement)
    ensures
        s == settlement_of(from, to),
{
    let held_before = from == EscrowState::Funded || from == EscrowState::Disputed;
    let held_after = to == EscrowState::Funded || to == EscrowState::Disputed;
    if !held_before && held_after {
        Settlement::Deposit
    } else if held_before && to == EscrowState::Completed {
        Settlement::PaySeller
    } else if held_before && (to == EscrowState::Refunded || to == EscrowState::Expired) {
        Settlement::RefundBuyer
    } else {
        Settlement::Hold
    }
}

/// The change in the amount the contract holds for an escrow when the funds
/// move as `s` does.
pub open spec fn holding_change(s: Settlement, amount: int) -> int {
    match s {
        Settlement::Deposit => amount,
        Settlement::PaySeller => -amount,
        Settlement::RefundBuyer => -amount,
        Settlement::Hold => 0,
    }
}

/// The amount the contract holds for an escrow in state `s`.
pub open spec fn held_amount(s: EscrowState, amount: int) -> int {
    if s.holds_funds() { amount } else { 0 }
}

/// The checks an operation makes before it asks for any authorization: the
/// state for funding; every check for confirming, disputing and resolving;
/// none for an expiry refund, which asks nobody's authorization.
pub open spec fn passes_checks(e: EscrowView, a: ActionView) -> bool {
    match a {
        ActionView::Fund => e.state == EscrowState::Init,
        ActionView::RefundExpired => true,
        _ => transition(e, a, 0) is Ok,
    }
}

/// The authorization request for the account `signer`, if any.
pub open spec fn authorization(signer: Option<Seq<u8>>) -> Seq<HostRequest> {
    match signer {
        Some(s) => seq![HostRequest::Authorize(s)],
        None => seq![],
    }
}

/// The token transfer that moving the funds of `e` as `s` calls for, where
/// `me` is the contract's own key.
pub open spec fn transfers_for(s: Settlement, e: EscrowView, me: Seq<u8>) -> Seq<HostRequest> {
    match s {
        Settlement::Deposit => seq![
            HostRequest::Transfer { token: e.token, from: e.buyer, to: me, amount: e.amount },
        ],
        Settlement::PaySeller => seq![
            HostRequest::Transfer { token: e.token, from: me, to: e.seller, amount: e.amount },
        ],
        Settlement::RefundBuyer => seq![
            HostRequest::Transfer { token: e.token, from: me, to: e.buyer, amount: e.amount },
        ],
        Settlement::Hold => seq![],
    }
}

/// The requests operation `a` at time `now` makes of the host for escrow `e`,
/// in order, where `me` is the contract's own key: once its checks pass, the
/// authorization of `authorizer_of(e, a)`; then, if it is accepted, the
/// transfer its settlement calls for.
pub open spec fn requests_for(e: EscrowView, a: ActionView, now: u64, me: Seq<u8>) -> Seq<HostRequest> {
    if !passes_checks(e, a) {
        seq![]
    } else {
        authorization(authorizer_of(e, a)) + match transition(e, a, now) {
            Ok(s) => transfers_for(settlement_of(e.state, s), e, me),
            Err(_) => seq![],
        }
    }
}

} // verus!
