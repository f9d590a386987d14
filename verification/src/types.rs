//! The escrow record and its lifecycle states.
use crate::host::AccountId;
use vstd::prelude::*;

verus! {

/// All possible states an escrow can be in.
#[derive(Clone, Copy, Debug, PartialEq, Eq, Structural)]
pub enum EscrowState {
    Init,
    Funded,
    Completed,
    Disputed,
    Refunded,
    Expired,
}

impl EscrowState {
    /// The states no operation leaves: the escrow is settled.
    pub open spec fn is_terminal(self) -> bool {
        self == EscrowState::Completed || self == EscrowState::Refunded
            || self == EscrowState::Expired
    }

    /// The states in which the contract holds the escrowed amount.
    pub open spec fn holds_funds(self) -> bool {
        self == EscrowState::Funded || self == EscrowState::Disputed
    }

    /// The number under which a state is kept in storage: its position in the
    /// declaration, from 0.
    pub open spec fn spec_code(self) -> u32 {
        match self {
            EscrowState::Init => 0,
            EscrowState::Funded => 1,
            EscrowState::Completed => 2,
            EscrowState::Disputed => 3,
            EscrowState::Refunded => 4,
            EscrowState::Expired => 5,
        }
    }

    /// The state kept in storage under `code`, if any.
    pub fn from_code(code: u32) -> (state: Option<EscrowState>)
        ensures
            code < 6 <==> state is Some,
            state matches Some(s) ==> s.spec_code() == code,
    {
        if code == 0 {
            Some(EscrowState::Init)
        } else if code == 1 {
            Some(EscrowState::Funded)
        } else if code == 2 {
            Some(EscrowState::Completed)
        } else if code == 3 {
            Some(EscrowState::Disputed)
        } else if code == 4 {
            Some(EscrowState::Refunded)
        } else if code == 5 {
            Some(EscrowState::Expired)
        } else {
            None
        }
    }
}

/// The escrow record kept by the contract.
#[derive(Clone, Debug)]
pub struct Escrow {
    /// Numeric ID assigned at creation
    pub escrow_id: u64,
    /// The party who funds the escrow and confirms delivery
    pub buyer: AccountId,
    /// The party who receives the funds on confirmed delivery
    pub seller: AccountId,
    /// Optional third party who can resolve disputes; without one the escrow
    /// cannot be disputed
    pub arbitrator: Option<AccountId>,
    /// Amount in the token's smallest unit
    pub amount: i128,
    /// The token contract
    pub token: AccountId,
    /// Current lifecycle state
    pub state: EscrowState,
    /// Time after which the escrow can be refunded
    pub deadline: u64,
    /// Time at which the escrow was created
    pub created_at: u64,
}

/// An escrow as plain values: accounts are their keys.
pub struct EscrowView {
    pub escrow_id: u64,
    pub buyer: Seq<u8>,
    pub seller: Seq<u8>,
    pub arbitrator: Option<Seq<u8>>,
    pub amount: i128,
    pub token: Seq<u8>,
    pub state: EscrowState,
    pub deadline: u64,
    pub created_at: u64,
}

impl EscrowView {
    /// The same escrow in another state.
    pub open spec fn with_state(self, state: EscrowState) -> EscrowView {
        EscrowView { state, ..self }
    }
}

/// The view of an optional account.
pub open spec fn opt_view(account: Option<AccountId>) -> Option<Seq<u8>> {
    match account {
        Some(a) => Some(a@),
        None => None,
    }
}

impl View for Escrow {
    type V = EscrowView;

    open spec fn view(&self) -> EscrowView {
        EscrowView {
            escrow_id: self.escrow_id,
            buyer: self.buyer@,
            seller: self.seller@,
            arbitrator: opt_view(self.arbitrator),
            amount: self.amount,
            token: self.token@,
            state: self.state,
            deadline: self.deadline,
            created_at: self.created_at,
        }
    }
}

} // verus!
