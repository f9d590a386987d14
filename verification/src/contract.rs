//! The escrow contract's operations.
use crate::errors::ContractError;
use crate::events::{self, escrow_event, published_events, EventView, PayloadView};
use crate::host::{
    current_contract, host_requests, ledger_timestamp, require_auth, running_contract, same_requests,
    transfer, AccountId, HostRequest,
};
use crate::lifecycle::{
    authorizer, next_state, requests_for, settlement, settlement_of, transfers_for, transition, Action,
    ActionView, Settlement,
};
use crate::storage::{
    counter_value, get_escrow, instance_counters, next_id, persistent_escrows, same_storage,
    set_escrow, stored_escrow, DataKey,
};
use crate::types::{opt_view, Escrow, EscrowState, EscrowView};
use soroban_sdk::Env;
use vstd::prelude::*;

verus! {

/// The escrow contract.
///
/// Each operation's contract states the host requests it makes: whose
/// authorization it asks for and which transfers it requests. The host may
/// refuse either (an authorization that was not given, a transfer the token
/// refuses); it then aborts the invocation and rolls back everything the
/// invocation did, so the operation returns nothing at all.
pub struct EscrowContract;

/// Neither storage nor the published events differ between `a` and `b`.
pub open spec fn same_state(a: Env, b: Env) -> bool {
    same_storage(a, b) && published_events(a) == published_events(b)
}

/// Neither storage, nor the published events, nor the requests made of the
/// host differ between `a` and `b`.
pub open spec fn unchanged(a: Env, b: Env) -> bool {
    same_state(a, b) && same_requests(a, b)
}

/// Whether a new escrow with this amount and deadline is accepted at time `now`.
pub open spec fn creation_check(amount: i128, deadline: u64, now: u64) -> Result<(), ContractError> {
    if amount <= 0 {
        Err(ContractError::InvalidAmount)
    } else if deadline <= now {
        Err(ContractError::DeadlinePassed)
    } else {
        Ok(())
    }
}

/// Whether a new escrow with this amount and deadline is accepted at time `now`:
/// the amount must be positive and the deadline in the future.
pub fn validate_new_escrow(amount: i128, deadline: u64, now: u64) -> (r: Result<(), ContractError>)
    ensures
        r == creation_check(amount, deadline, now),
{
    if amount <= 0 {
        Err(ContractError::InvalidAmount)
    } else if deadline <= now {
        Err(ContractError::DeadlinePassed)
    } else {
        Ok(())
    }
}

/// The record of a newly created escrow.
pub open spec fn new_escrow_view(
    id: u64,
    buyer: Seq<u8>,
    seller: Seq<u8>,
    arbitrator: Option<Seq<u8>>,
    amount: i128,
    token: Seq<u8>,
    deadline: u64,
    now: u64,
) -> EscrowView {
    EscrowView {
        escrow_id: id,
        buyer,
        seller,
        arbitrator,
        amount,
        token,
        state: EscrowState::Init,
        deadline,
        created_at: now,
    }
}

/// What `create_escrow` does, when the ledger time is `now`: it asks for the
/// buyer's authorization first, and then either refuses, changing nothing
/// more, or stores the new escrow under the next ID and publishes its event;
/// it requests no transfer.
pub open spec fn created(
    before: Env,
    after: Env,
    buyer: Seq<u8>,
    seller: Seq<u8>,
    arbitrator: Option<Seq<u8>>,
    amount: i128,
    token: Seq<u8>,
    deadline: u64,
    now: u64,
    result: Result<u64, ContractError>,
) -> bool {
    &&& host_requests(after) == host_requests(before).push(HostRequest::Authorize(buyer))
    &&& running_contract(after) == running_contract(before)
    &&& match creation_check(amount, deadline, now) {
        Err(err) => result == Err::<u64, ContractError>(err) && same_state(before, after),
        Ok(_) => {
            let id = (counter_value(before) + 1) as u64;
            &&& result == Ok::<u64, ContractError>(id)
            &&& instance_counters(after) == instance_counters(before).insert(DataKey::Counter, id)
            &&& persistent_escrows(after) == persistent_escrows(before).insert(
                DataKey::Escrow(id),
                new_escrow_view(id, buyer, seller, arbitrator, amount, token, deadline, now),
            )
            &&& published_events(after) == published_events(before).push(
                escrow_event("escrow_created"@, PayloadView::IdParties(id, buyer, seller)),
            )
        },
    }
}

/// The events an accepted operation `a` on escrow `id` publishes, in order.
pub open spec fn emitted(id: u64, a: ActionView) -> Seq<EventView> {
    match a {
        ActionView::Fund => seq![escrow_event("escrow_funded"@, PayloadView::Id(id))],
        ActionView::ConfirmDelivery => seq![escrow_event("delivery_confirmed"@, PayloadView::Id(id))],
        ActionView::RaiseDispute(caller) => seq![
            escrow_event("dispute_raised"@, PayloadView::IdParty(id, caller)),
        ],
        ActionView::ResolveDispute(release_to_seller) => {
            if release_to_seller {
                seq![escrow_event("dispute_resolved"@, PayloadView::IdFlag(id, true))]
            } else {
                seq![
                    escrow_event("dispute_resolved"@, PayloadView::IdFlag(id, false)),
                    escrow_event("escrow_refunded"@, PayloadView::Id(id)),
                ]
            }
        },
        ActionView::RefundExpired => seq![escrow_event("escrow_expired"@, PayloadView::Id(id))],
    }
}

/// What operation `a` on escrow `id` does, when the ledger time is `now`: a
/// missing escrow is `NotFound` and changes nothing; otherwise the operation
/// makes exactly the host requests `requests_for` lists (the authorization it
/// needs once its checks pass, then the transfer its settlement calls for); a
/// refused operation changes no storage and publishes nothing; an accepted one
/// rewrites the record with its new state and publishes its events.
pub open spec fn performed(
    before: Env,
    after: Env,
    id: u64,
    a: ActionView,
    now: u64,
    result: Result<(), ContractError>,
) -> bool {
    match stored_escrow(before, id) {
        None => result == Err::<(), ContractError>(ContractError::NotFound) && unchanged(before, after),
        Some(e) => {
            &&& host_requests(after) == host_requests(before) + requests_for(
                e,
                a,
                now,
                running_contract(before),
            )
            &&& running_contract(after) == running_contract(before)
            &&& match transition(e, a, now) {
            Err(err) => result == Err::<(), ContractError>(err) && same_state(before, after),
            Ok(s) => {
                &&& result == Ok::<(), ContractError>(())
                &&& persistent_escrows(after) == persistent_escrows(before).insert(
                    DataKey::Escrow(e.escrow_id),
                    e.with_state(s),
                )
                &&& instance_counters(after) == instance_counters(before)
                &&& published_events(after) == published_events(before) + emitted(id, a)
            },
        }
        },
    }
}

/// The stored escrows agree with the counter and with what creation accepts:
/// each is stored under its own ID, which the counter has handed out, holds a
/// positive amount, has its deadline after its creation time, and is in
/// dispute only if it has an arbitrator.
pub open spec fn records_consistent(env: Env) -> bool {
    forall|id: u64| #[trigger] persistent_escrows(env).contains_key(DataKey::Escrow(id)) ==> {
        let e = persistent_escrows(env)[DataKey::Escrow(id)];
        &&& e.escrow_id == id
        &&& 1 <= id <= counter_value(env)
        &&& e.amount > 0
        &&& e.created_at < e.deadline
        &&& (e.state == EscrowState::Disputed ==> e.arbitrator is Some)
    }
}

/// Moves the escrowed funds as the change of `escrow` to state `next` calls
/// for: requests exactly the transfer `transfers_for` lists, with the running
/// contract as the contract's side, and changes nothing else.
fn settle(env: &mut Env, escrow: &Escrow, next: EscrowState)
    ensures
        same_state(*old(env), *final(env)),
        running_contract(*final(env)) == running_contract(*old(env)),
        host_requests(*final(env)) == host_requests(*old(env)) + transfers_for(
            settlement_of(escrow.state, next),
            escrow@,
            running_contract(*old(env)),
        ),
{
    match settlement(escrow.state, next) {
        Settlement::Deposit => {
            let me = current_contract(env);
            transfer(env, &escrow.token, &escrow.buyer, &me, escrow.amount);
        },
        Settlement::PaySeller => {
            let me = current_contract(env);
            transfer(env, &escrow.token, &me, &escrow.seller, escrow.amount);
        },
        Settlement::RefundBuyer => {
            let me = current_contract(env);
            transfer(env, &escrow.token, &me, &escrow.buyer, escrow.amount);
        },
        Settlement::Hold => {},
    }
}

impl EscrowContract {
    /// Create a new escrow. The buyer must authorize this call.
    /// Returns the new escrow's numeric ID.
    pub fn create_escrow(
        env: &mut Env,
        buyer: AccountId,
        seller: AccountId,
        arbitrator: Option<AccountId>,
        amount: i128,
        token: AccountId,
        deadline: u64,
    ) -> (result: Result<u64, ContractError>)
        requires
            amount > 0 ==> counter_value(*old(env)) < u64::MAX,
        ensures
            exists|now: u64|
                created(
                    *old(env),
                    *final(env),
                    buyer@,
                    seller@,
                    opt_view(arbitrator),
                    amount,
                    token@,
                    deadline,
                    now,
                    result,
                ),
            records_consistent(*old(env)) ==> records_consistent(*final(env)),
    {
        let ghost before = *env;
        let ghost arbitrator_view = opt_view(arbitrator);
        // 1. Buyer must sign this transaction
        require_auth(env, &buyer);
        // 2. Amount must be positive, 3. deadline in the future
        let now = ledger_timestamp(env);
        if let Err(err) = validate_new_escrow(amount, deadline, now) {
            let result = Err(err);
            assert(created(before, *env, buyer@, seller@, arbitrator_view, amount, token@, deadline, now, result));
            return result;
        }
        // 4. Assign a new unique ID
        let escrow_id = next_id(env);
        // 5. Build and persist the escrow
        let escrow = Escrow {
            escrow_id,
            buyer,
            seller,
            arbitrator,
            amount,
            token,
            state: EscrowState::Init,
            deadline,
            created_at: now,
        };
        set_escrow(env, &escrow);
        // 6. Emit event
        events::escrow_created(env, escrow_id, escrow.buyer, escrow.seller);
        let result = Ok(escrow_id);
        assert(created(before, *env, escrow@.buyer, escrow@.seller, arbitrator_view, amount, escrow@.token, deadline, now, result));
        result
    }

    /// Transfer funds from the buyer into the contract.
    /// Escrow must be in Init state and the deadline must not have passed.
    pub fn fund_escrow(env: &mut Env, escrow_id: u64) -> (result: Result<(), ContractError>)
        ensures
            exists|now: u64| performed(*old(env), *final(env), escrow_id, ActionView::Fund, now, result),
            records_consistent(*old(env)) ==> records_consistent(*final(env)),
    {
        let ghost before = *env;
        let mut escrow = match get_escrow(env, escrow_id) {
            Ok(e) => e,
            Err(err) => {
                assert(performed(before, *env, escrow_id, ActionView::Fund, 0, Err(err)));
                return Err(err);
            },
        };
        // 1. Must be in Init state
        if escrow.state != EscrowState::Init {
            assert(performed(before, *env, escrow_id, ActionView::Fund, 0, Err(ContractError::InvalidState)));
            return Err(ContractError::InvalidState);
        }
        // 2. Buyer must authorize
        if let Some(signer) = authorizer(&escrow, &Action::Fund) {
            require_auth(env, signer);
        }
        // 3. Deadline must not have passed
        let now = ledger_timestamp(env);
        let next = match next_state(&escrow, &Action::Fund, now) {
            Ok(s) => s,
            Err(err) => {
                assert(host_requests(*env) =~= host_requests(before) + requests_for(stored_escrow(before, escrow_id)->0, ActionView::Fund, now, running_contract(before)));
                assert(performed(before, *env, escrow_id, ActionView::Fund, now, Err(err)));
                return Err(err);
            },
        };
        // 4. Transfer tokens from buyer to contract
        settle(env, &escrow, next);
        // 5. Advance state
        escrow.state = next;
        set_escrow(env, &escrow);
        // 6. Emit event
        events::escrow_funded(env, escrow_id);
        proof {
            assert(published_events(*env) =~= published_events(before) + emitted(escrow_id, ActionView::Fund));
        }
        assert(host_requests(*env) =~= host_requests(before) + requests_for(stored_escrow(before, escrow_id)->0, ActionView::Fund, now, running_contract(before)));
        assert(performed(before, *env, escrow_id, ActionView::Fund, now, Ok(())));
        Ok(())
    }

    /// Buyer confirms delivery: releases the funds to the seller.
    /// Escrow must be in Funded state.
    pub fn confirm_delivery(env: &mut Env, escrow_id: u64) -> (result: Result<(), ContractError>)
        ensures
            exists|now: u64|
                performed(*old(env), *final(env), escrow_id, ActionView::ConfirmDelivery, now, result),
            records_consistent(*old(env)) ==> records_consistent(*final(env)),
    {
        let ghost before = *env;
        let ghost a = ActionView::ConfirmDelivery;
        let mut escrow = match get_escrow(env, escrow_id) {
            Ok(e) => e,
            Err(err) => {
                assert(performed(before, *env, escrow_id, a, 0, Err(err)));
                return Err(err);
            },
        };
        // 1. Must be in Funded state (the decision does not depend on the time)
        let next = match next_state(&escrow, &Action::ConfirmDelivery, 0) {
            Ok(s) => s,
            Err(err) => {
                assert(performed(before, *env, escrow_id, a, 0, Err(err)));
                return Err(err);
            },
        };
        // 2. Buyer must authorize
        if let Some(signer) = authorizer(&escrow, &Action::ConfirmDelivery) {
            require_auth(env, signer);
        }
        // 3. Transfer tokens from contract to seller
        settle(env, &escrow, next);
        // 4. Advance state
        escrow.state = next;
        set_escrow(env, &escrow);
        // 5. Emit event
        events::delivery_confirmed(env, escrow_id);
        proof {
            assert(published_events(*env) =~= published_events(before) + emitted(escrow_id, a));
        }
        assert(host_requests(*env) =~= host_requests(before) + requests_for(stored_escrow(before, escrow_id)->0, a, 0, running_contract(before)));
        assert(performed(before, *env, escrow_id, a, 0, Ok(())));
        Ok(())
    }

    /// Either the buyer or the seller, identified by `caller`, raises a dispute.
    /// The escrow must have an arbitrator and be in Funded state; the caller
    /// must authorize.
    pub fn raise_dispute(env: &mut Env, escrow_id: u64, caller: AccountId) -> (result: Result<(), ContractError>)
        ensures
            exists|now: u64|
                performed(
                    *old(env),
                    *final(env),
                    escrow_id,
                    ActionView::RaiseDispute(caller@),
                    now,
                    result,
                ),
            records_consistent(*old(env)) ==> records_consistent(*final(env)),
    {
        let ghost before = *env;
        let ghost a = ActionView::RaiseDispute(caller@);
        let mut escrow = match get_escrow(env, escrow_id) {
            Ok(e) => e,
            Err(err) => {
                assert(performed(before, *env, escrow_id, a, 0, Err(err)));
                return Err(err);
            },
        };
        // 1. Must be in Funded state, 2. have an arbitrator, 3. the caller must
        // be the buyer or the seller (the decision does not depend on the time)
        let next = match next_state(&escrow, &Action::RaiseDispute(&caller), 0) {
            Ok(s) => s,
            Err(err) => {
                assert(performed(before, *env, escrow_id, a, 0, Err(err)));
                return Err(err);
            },
        };
        // 4. Require auth from the identified caller
        if let Some(signer) = authorizer(&escrow, &Action::RaiseDispute(&caller)) {
            require_auth(env, signer);
        }
        settle(env, &escrow, next);
        // 5. Advance state
        escrow.state = next;
        set_escrow(env, &escrow);
        // 6. Emit event
        events::dispute_raised(env, escrow_id, caller);
        proof {
            assert(published_events(*env) =~= published_events(before) + emitted(escrow_id, a));
        }
        assert(host_requests(*env) =~= host_requests(before) + requests_for(stored_escrow(before, escrow_id)->0, a, 0, running_contract(before)));
        assert(performed(before, *env, escrow_id, a, 0, Ok(())));
        Ok(())
    }

    /// The arbitrator resolves a dispute, releasing the funds to the seller or
    /// refunding the buyer. Escrow must be in Disputed state.
    pub fn resolve_dispute(env: &mut Env, escrow_id: u64, release_to_seller: bool) -> (result: Result<(), ContractError>)
        requires
            stored_escrow(*old(env), escrow_id) matches Some(e) ==> (e.state
                == EscrowState::Disputed ==> e.arbitrator is Some),
        ensures
            exists|now: u64|
                performed(
                    *old(env),
                    *final(env),
                    escrow_id,
                    ActionView::ResolveDispute(release_to_seller),
                    now,
                    result,
                ),
            records_consistent(*old(env)) ==> records_consistent(*final(env)),
    {
        let ghost before = *env;
        let ghost a = ActionView::ResolveDispute(release_to_seller);
        let mut escrow = match get_escrow(env, escrow_id) {
            Ok(e) => e,
            Err(err) => {
                assert(performed(before, *env, escrow_id, a, 0, Err(err)));
                return Err(err);
            },
        };
        // 1. Must be in Disputed state (the decision does not depend on the time)
        let next = match next_state(&escrow, &Action::ResolveDispute(release_to_seller), 0) {
            Ok(s) => s,
            Err(err) => {
                assert(performed(before, *env, escrow_id, a, 0, Err(err)));
                return Err(err);
            },
        };
        // 2. Arbitrator must authorize (a disputed escrow has one)
        match authorizer(&escrow, &Action::ResolveDispute(release_to_seller)) {
            Some(arbitrator) => require_auth(env, arbitrator),
            None => {
                assert(false);
            },
        }
        // 3. Release to seller or refund buyer
        settle(env, &escrow, next);
        escrow.state = next;
        // 4. Persist
        set_escrow(env, &escrow);
        // 5. Emit events: dispute_resolved for both outcomes, and escrow_refunded
        //    on the refund path
        events::dispute_resolved(env, escrow_id, release_to_seller);
        if !release_to_seller {
            events::escrow_refunded(env, escrow_id);
        }
        proof {
            assert(published_events(*env) =~= published_events(before) + emitted(escrow_id, a));
        }
        assert(host_requests(*env) =~= host_requests(before) + requests_for(stored_escrow(before, escrow_id)->0, a, 0, running_contract(before)));
        assert(performed(before, *env, escrow_id, a, 0, Ok(())));
        Ok(())
    }

    /// Anyone can call this after the deadline has passed to refund the buyer.
    /// Escrow must be in Funded state and the deadline must have passed.
    pub fn refund_expired(env: &mut Env, escrow_id: u64) -> (result: Result<(), ContractError>)
        ensures
            exists|now: u64|
                performed(*old(env), *final(env), escrow_id, ActionView::RefundExpired, now, result),
            records_consistent(*old(env)) ==> records_consistent(*final(env)),
    {
        let ghost before = *env;
        let ghost a = ActionView::RefundExpired;
        let mut escrow = match get_escrow(env, escrow_id) {
            Ok(e) => e,
            Err(err) => {
                assert(performed(before, *env, escrow_id, a, 0, Err(err)));
                return Err(err);
            },
        };
        // Anyone may call: no account's authorization is asked for.
        // 1. Must be in Funded state, 2. the deadline must have passed
        let now = ledger_timestamp(env);
        let next = match next_state(&escrow, &Action::RefundExpired, now) {
            Ok(s) => s,
            Err(err) => {
                assert(performed(before, *env, escrow_id, a, now, Err(err)));
                return Err(err);
            },
        };
        // 3. Transfer tokens from contract to buyer
        settle(env, &escrow, next);
        // 4. Advance state
        escrow.state = next;
        set_escrow(env, &escrow);
        // 5. Emit event
        events::escrow_expired(env, escrow_id);
        proof {
            assert(published_events(*env) =~= published_events(before) + emitted(escrow_id, a));
        }
        assert(performed(before, *env, escrow_id, a, now, Ok(())));
        Ok(())
    }

    /// Read an escrow by ID.
    pub fn get_escrow(env: &Env, escrow_id: u64) -> (result: Result<Escrow, ContractError>)
        ensures
            match stored_escrow(*env, escrow_id) {
                Some(e) => result matches Ok(found) && found@ == e,
                None => result == Err::<Escrow, ContractError>(ContractError::NotFound),
            },
    {
        get_escrow(env, escrow_id)
    }

    /// `create_escrow` where the ID counter cannot overflow; `None`, with
    /// nothing changed, where it could: a positive amount while every ID has
    /// been handed out (where `create_escrow` would overflow the counter).
    pub fn create_escrow_checked(
        env: &mut Env,
        buyer: AccountId,
        seller: AccountId,
        arbitrator: Option<AccountId>,
        amount: i128,
        token: AccountId,
        deadline: u64,
    ) -> (result: Option<Result<u64, ContractError>>)
        ensures
            result is None <==> amount > 0 && counter_value(*old(env)) == u64::MAX,
            result is None ==> unchanged(*old(env), *final(env)),
            result matches Some(r) ==> exists|now: u64|
                created(
                    *old(env),
                    *final(env),
                    buyer@,
                    seller@,
                    opt_view(arbitrator),
                    amount,
                    token@,
                    deadline,
                    now,
                    r,
                ),
            records_consistent(*old(env)) ==> records_consistent(*final(env)),
    {
        if amount > 0 && crate::storage::escrow_count(env) == u64::MAX {
            None
        } else {
            Some(Self::create_escrow(env, buyer, seller, arbitrator, amount, token, deadline))
        }
    }

    /// `resolve_dispute` where the disputed escrow has an arbitrator; `None`,
    /// with nothing changed, where it is in dispute without one (where
    /// `resolve_dispute` would have no arbitrator to ask).
    pub fn resolve_dispute_checked(env: &mut Env, escrow_id: u64, release_to_seller: bool) -> (result:
        Option<Result<(), ContractError>>)
        ensures
            result is None <==> (stored_escrow(*old(env), escrow_id) matches Some(e) && (e.state
                == EscrowState::Disputed && e.arbitrator is None)),
            result is None ==> unchanged(*old(env), *final(env)),
            result matches Some(r) ==> exists|now: u64|
                performed(
                    *old(env),
                    *final(env),
                    escrow_id,
                    ActionView::ResolveDispute(release_to_seller),
                    now,
                    r,
                ),
            records_consistent(*old(env)) ==> records_consistent(*final(env)),
    {
        if let Ok(escrow) = get_escrow(env, escrow_id) {
            if escrow.state == EscrowState::Disputed && escrow.arbitrator.is_none() {
                return None;
            }
        }
        Some(Self::resolve_dispute(env, escrow_id, release_to_seller))
    }

}

} // verus!
