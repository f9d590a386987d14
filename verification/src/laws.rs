//! What holds of the contract across its operations.
use crate::contract::{creation_check, created, emitted, new_escrow_view, performed, records_consistent, same_state};
use crate::host::{host_requests, running_contract, HostRequest};
use crate::errors::ContractError;
use crate::lifecycle::{
    authorization, authorizer_of, held_amount, requests_for, transfers_for, holding_change, settlement_of, transition, ActionView, Settlement,
};
use crate::storage::{counter_value, stored_escrow};
use crate::types::{EscrowState, EscrowView};
use soroban_sdk::Env;
use vstd::prelude::*;

verus! {

/// The state changes the lifecycle allows:
/// Init -> Funded -> Completed; Funded -> Disputed -> Completed or Refunded;
/// Funded -> Expired.
pub open spec fn lifecycle_step(from: EscrowState, to: EscrowState) -> bool {
    ||| from == EscrowState::Init && to == EscrowState::Funded
    ||| from == EscrowState::Funded && to == EscrowState::Completed
    ||| from == EscrowState::Funded && to == EscrowState::Disputed
    ||| from == EscrowState::Funded && to == EscrowState::Expired
    ||| from == EscrowState::Disputed && to == EscrowState::Completed
    ||| from == EscrowState::Disputed && to == EscrowState::Refunded
}

/// Every accepted operation moves an escrow along one edge of the lifecycle;
/// no state is skipped.
pub proof fn law_transitions_follow_lifecycle(e: EscrowView, a: ActionView, now: u64)
    ensures
        transition(e, a, now) matches Ok(s) ==> lifecycle_step(e.state, s),
{
}

/// A settled escrow (Completed, Refunded or Expired) refuses every operation
/// with `InvalidState`.
pub proof fn law_settled_escrows_are_final(e: EscrowView, a: ActionView, now: u64)
    requires
        e.state.is_terminal(),
    ensures
        transition(e, a, now) == Err::<EscrowState, ContractError>(ContractError::InvalidState),
{
}

/// No operation is accepted twice in a row on the same escrow, whatever the
/// time of the second attempt.
pub proof fn law_no_operation_twice(e: EscrowView, a: ActionView, now1: u64, now2: u64)
    ensures
        transition(e, a, now1) matches Ok(s) ==> transition(e.with_state(s), a, now2) is Err,
{
}

/// The deadline splits time in two: an unfunded escrow can be funded up to and
/// including its deadline, and a funded one refunded as expired only after it.
pub proof fn law_deadline_splits_funding_and_expiry(e: EscrowView, now: u64)
    ensures
        transition(e.with_state(EscrowState::Init), ActionView::Fund, now) is Ok <==> now <= e.deadline,
        transition(e.with_state(EscrowState::Funded), ActionView::RefundExpired, now) is Ok <==> now
            > e.deadline,
        !(transition(e.with_state(EscrowState::Init), ActionView::Fund, now) is Ok && transition(
            e.with_state(EscrowState::Funded),
            ActionView::RefundExpired,
            now,
        ) is Ok),
{
}

/// A dispute is accepted only on an escrow that has an arbitrator, and only
/// when raised by its buyer or its seller.
pub proof fn law_disputes_need_arbitrator_and_party(e: EscrowView, caller: Seq<u8>, now: u64)
    ensures
        transition(e, ActionView::RaiseDispute(caller), now) is Ok ==> e.arbitrator is Some && (
        caller == e.buyer || caller == e.seller),
{
}

/// Each accepted operation moves the escrowed amount so that what the contract
/// holds for the escrow matches its new state: paid in on funding, paid out to
/// the seller on completion and back to the buyer on refund or expiry.
pub proof fn law_settlement_matches_state(e: EscrowView, a: ActionView, now: u64)
    ensures
        transition(e, a, now) matches Ok(s) ==> {
            &&& holding_change(settlement_of(e.state, s), e.amount as int) == held_amount(
                s,
                e.amount as int,
            ) - held_amount(e.state, e.amount as int)
            &&& (settlement_of(e.state, s) == Settlement::PaySeller <==> s == EscrowState::Completed)
            &&& (settlement_of(e.state, s) == Settlement::RefundBuyer <==> (s == EscrowState::Refunded
                || s == EscrowState::Expired))
            &&& (settlement_of(e.state, s) == Settlement::Deposit <==> s == EscrowState::Funded)
        },
{
}

/// An escrow after a sequence of attempted operations, each at its time:
/// accepted ones change the state, refused ones nothing.
pub open spec fn apply_steps(e: EscrowView, steps: Seq<(ActionView, u64)>) -> EscrowView
    decreases steps.len(),
{
    if steps.len() == 0 {
        e
    } else {
        match transition(e, steps[0].0, steps[0].1) {
            Ok(s) => apply_steps(e.with_state(s), steps.drop_first()),
            Err(_) => apply_steps(e, steps.drop_first()),
        }
    }
}

/// The net amount paid into the contract for an escrow over a sequence of
/// attempted operations.
pub open spec fn net_inflow(e: EscrowView, steps: Seq<(ActionView, u64)>) -> int
    decreases steps.len(),
{
    if steps.len() == 0 {
        0
    } else {
        match transition(e, steps[0].0, steps[0].1) {
            Ok(s) => holding_change(settlement_of(e.state, s), e.amount as int) + net_inflow(
                e.with_state(s),
                steps.drop_first(),
            ),
            Err(_) => net_inflow(e, steps.drop_first()),
        }
    }
}

/// Funds are conserved: over any sequence of operations on an escrow, the net
/// amount paid in is what the contract holds for it at the end; once an escrow
/// created in Init is settled, everything paid in has been paid out.
pub proof fn law_funds_are_conserved(e: EscrowView, steps: Seq<(ActionView, u64)>)
    ensures
        net_inflow(e, steps) == held_amount(apply_steps(e, steps).state, e.amount as int)
            - held_amount(e.state, e.amount as int),
        apply_steps(e, steps).amount == e.amount,
        e.state == EscrowState::Init && apply_steps(e, steps).state.is_terminal() ==> net_inflow(
            e,
            steps,
        ) == 0,
    decreases steps.len(),
{
    if steps.len() > 0 {
        law_settlement_matches_state(e, steps[0].0, steps[0].1);
        match transition(e, steps[0].0, steps[0].1) {
            Ok(s) => law_funds_are_conserved(e.with_state(s), steps.drop_first()),
            Err(_) => law_funds_are_conserved(e, steps.drop_first()),
        }
    }
}

/// An operation touches only the escrow it names: a refused one changes no
/// storage and publishes nothing; an accepted one changes that escrow's state and nothing else of
/// it, leaves every other escrow and the counter as they were, and the new
/// state is what a read returns.
pub proof fn law_operations_touch_only_their_escrow(
    before: Env,
    after: Env,
    id: u64,
    a: ActionView,
    now: u64,
    result: Result<(), ContractError>,
    other: u64,
)
    requires
        records_consistent(before),
        performed(before, after, id, a, now, result),
        other != id,
    ensures
        result is Err ==> same_state(before, after),
        result is Ok ==> (stored_escrow(before, id) matches Some(e) && (transition(e, a, now) matches Ok(
            s,
        ) && stored_escrow(after, id) == Some(e.with_state(s)))),
        stored_escrow(after, other) == stored_escrow(before, other),
        counter_value(after) == counter_value(before),
{
    if let Some(e) = stored_escrow(before, id) {
        assert(crate::storage::persistent_escrows(before).contains_key(
            crate::storage::DataKey::Escrow(id),
        ));
    }
}

/// An accepted operation publishes its events after all earlier ones, and a
/// refused one publishes none.
pub proof fn law_events_record_accepted_operations(
    before: Env,
    after: Env,
    id: u64,
    a: ActionView,
    now: u64,
    result: Result<(), ContractError>,
)
    requires
        performed(before, after, id, a, now, result),
    ensures
        result is Ok ==> crate::events::published_events(after) == crate::events::published_events(
            before,
        ) + emitted(id, a),
        result is Err ==> crate::events::published_events(after) == crate::events::published_events(
            before,
        ),
{
}

/// Creating an escrow asks for the buyer's authorization and nothing else of
/// the host; it hands out the next ID, starting from 1, never one that is
/// already in use, stores the new escrow in Init state where a read finds it,
/// and leaves every other escrow as it was.
pub proof fn law_creation_hands_out_fresh_ids(
    before: Env,
    after: Env,
    buyer: Seq<u8>,
    seller: Seq<u8>,
    arbitrator: Option<Seq<u8>>,
    amount: i128,
    token: Seq<u8>,
    deadline: u64,
    now: u64,
    result: Result<u64, ContractError>,
    other: u64,
)
    requires
        records_consistent(before),
        counter_value(before) < u64::MAX,
        created(before, after, buyer, seller, arbitrator, amount, token, deadline, now, result),
    ensures
        result matches Ok(id) ==> {
            &&& id == counter_value(before) + 1
            &&& id >= 1
            &&& stored_escrow(before, id) is None
            &&& stored_escrow(after, id) == Some(
                new_escrow_view(id, buyer, seller, arbitrator, amount, token, deadline, now),
            )
            &&& counter_value(after) == id
            &&& (other != id ==> stored_escrow(after, other) == stored_escrow(before, other))
        },
        result is Err ==> same_state(before, after),
        host_requests(after) == host_requests(before).push(HostRequest::Authorize(buyer)),
{
    if let Ok(id) = result {
        if crate::storage::persistent_escrows(before).contains_key(crate::storage::DataKey::Escrow(id)) {
            assert(false);
        }
    }
}

/// Only the escrow's own parties are ever asked to authorize an accepted
/// operation: the buyer funds and confirms, the disputing buyer or seller
/// signs its dispute, the arbitrator resolves; an expired escrow can be
/// refunded by anyone.
pub proof fn law_only_parties_authorize(e: EscrowView, a: ActionView, now: u64)
    ensures
        transition(e, a, now) is Ok ==> (authorizer_of(e, a) matches Some(s) ==> (s == e.buyer || s
            == e.seller || e.arbitrator == Some(s))),
        a == ActionView::Fund || a == ActionView::ConfirmDelivery ==> authorizer_of(e, a) == Some(
            e.buyer,
        ),
        a is ResolveDispute && transition(e, a, now) is Ok ==> authorizer_of(e, a) == e.arbitrator,
        authorizer_of(e, ActionView::RefundExpired) is None,
{
}

/// A contract whose storage holds no escrow yet is consistent.
pub proof fn law_empty_storage_is_consistent(env: Env)
    requires
        crate::storage::persistent_escrows(env) =~= Map::empty(),
    ensures
        records_consistent(env),
{
}

/// In consistent storage every disputed escrow has an arbitrator, so
/// `resolve_dispute` can always be called on it.
pub proof fn law_disputes_have_arbitrators(env: Env, id: u64)
    requires
        records_consistent(env),
    ensures
        stored_escrow(env, id) matches Some(e) ==> (e.state == EscrowState::Disputed
            ==> e.arbitrator is Some),
{
    if stored_escrow(env, id) is Some {
        assert(crate::storage::persistent_escrows(env).contains_key(crate::storage::DataKey::Escrow(id)));
    }
}

/// Two creations in a row hand out consecutive IDs.
pub proof fn law_consecutive_creations_increment_ids(
    first: Env,
    middle: Env,
    last: Env,
    buyer: Seq<u8>,
    seller: Seq<u8>,
    arbitrator: Option<Seq<u8>>,
    amount: i128,
    token: Seq<u8>,
    deadline: u64,
    now1: u64,
    now2: u64,
    id1: u64,
    id2: u64,
)
    requires
        created(first, middle, buyer, seller, arbitrator, amount, token, deadline, now1, Ok(id1)),
        created(middle, last, buyer, seller, arbitrator, amount, token, deadline, now2, Ok(id2)),
        id1 < u64::MAX,
    ensures
        id2 == id1 + 1,
{
    assert(counter_value(middle) == id1);
}

/// In consistent storage no escrow has ID 0 or an ID the counter has not
/// handed out yet, so a read of such an ID is `NotFound`.
pub proof fn law_unissued_ids_are_not_found(env: Env, id: u64)
    requires
        records_consistent(env),
        id == 0 || id > counter_value(env),
    ensures
        stored_escrow(env, id) is None,
{
    if crate::storage::persistent_escrows(env).contains_key(crate::storage::DataKey::Escrow(id)) {
        assert(false);
    }
}

/// A refused operation requests no transfer: at most the authorization it
/// asked for before the refusing check (funding after its deadline).
pub proof fn law_refused_operations_move_no_funds(
    before: Env,
    after: Env,
    id: u64,
    a: ActionView,
    now: u64,
    result: Result<(), ContractError>,
)
    requires
        performed(before, after, id, a, now, result),
        result is Err,
    ensures
        forall|i: int|
            host_requests(before).len() <= i < host_requests(after).len() ==> #[trigger] host_requests(
                after,
            )[i] is Authorize,
        host_requests(after).len() <= host_requests(before).len() + 1,
{
    if let Some(e) = stored_escrow(before, id) {
        assert(host_requests(after) =~= host_requests(before) + requests_for(e, a, now, running_contract(before)));
    }
}

/// Who authorizes: an accepted operation first asks for the authorization of
/// exactly one account, the buyer for funding and confirming, the disputing
/// party for a dispute and the arbitrator for a resolution (which a disputed
/// escrow in consistent storage has); an expiry refund asks nobody's.
pub proof fn law_who_authorizes(e: EscrowView, a: ActionView, now: u64, me: Seq<u8>)
    requires
        transition(e, a, now) is Ok,
    ensures
        a != ActionView::RefundExpired && authorizer_of(e, a) is Some ==> requests_for(e, a, now, me).len() >= 1 && requests_for(
            e,
            a,
            now,
            me,
        )[0] == HostRequest::Authorize(authorizer_of(e, a)->0),
        a == ActionView::Fund || a == ActionView::ConfirmDelivery ==> authorizer_of(e, a) == Some(
            e.buyer,
        ),
        a is ResolveDispute ==> authorizer_of(e, a) == e.arbitrator,
        a is RaiseDispute ==> authorizer_of(e, a) == Some(a->RaiseDispute_0),
        a == ActionView::RefundExpired ==> forall|i: int|
            0 <= i < requests_for(e, a, now, me).len() ==> !(#[trigger] requests_for(e, a, now, me)[i] is Authorize),
{
}

/// Who is paid: the transfers an accepted operation requests are those of
/// its settlement, in the escrow's token and for its amount: from the buyer to
/// the contract on funding, from the contract to the seller on confirming or
/// releasing a dispute, from the contract to the buyer on a refund or an
/// expiry, and none for a dispute.
pub proof fn law_who_is_paid(e: EscrowView, a: ActionView, now: u64, me: Seq<u8>)
    requires
        transition(e, a, now) is Ok,
    ensures
        requests_for(e, a, now, me) == authorization(authorizer_of(e, a)) + transfers_for(
            settlement_of(e.state, transition(e, a, now)->Ok_0),
            e,
            me,
        ),
        a == ActionView::Fund ==> transfers_for(settlement_of(e.state, transition(e, a, now)->Ok_0), e, me)
            == seq![HostRequest::Transfer { token: e.token, from: e.buyer, to: me, amount: e.amount }],
        a == ActionView::ConfirmDelivery || a == ActionView::ResolveDispute(true) ==> transfers_for(
            settlement_of(e.state, transition(e, a, now)->Ok_0),
            e,
            me,
        ) == seq![HostRequest::Transfer { token: e.token, from: me, to: e.seller, amount: e.amount }],
        a == ActionView::RefundExpired || a == ActionView::ResolveDispute(false) ==> transfers_for(
            settlement_of(e.state, transition(e, a, now)->Ok_0),
            e,
            me,
        ) == seq![HostRequest::Transfer { token: e.token, from: me, to: e.buyer, amount: e.amount }],
        a is RaiseDispute ==> transfers_for(settlement_of(e.state, transition(e, a, now)->Ok_0), e, me)
            == Seq::<HostRequest>::empty(),
{
}

/// The net amount of `token` that the transfer requests `reqs` move into the
/// account `me`.
pub open spec fn requested_inflow(reqs: Seq<HostRequest>, me: Seq<u8>, token: Seq<u8>) -> int
    decreases reqs.len(),
{
    if reqs.len() == 0 {
        0
    } else {
        let rest = requested_inflow(reqs.drop_last(), me, token);
        match reqs.last() {
            HostRequest::Transfer { token: t, from, to, amount } => {
                if t == token {
                    rest + (if to == me { amount as int } else { 0 }) - (if from == me {
                        amount as int
                    } else {
                        0
                    })
                } else {
                    rest
                }
            },
            HostRequest::Authorize(_) => rest,
        }
    }
}

/// Funds are conserved in what the contract requests: for an escrow whose
/// buyer and seller are not the contract itself, the transfers any operation
/// requests move into the contract exactly the change in what it holds for the
/// escrow, in the escrow's token, and nothing in any other token.
pub proof fn law_requested_transfers_match_holding(
    e: EscrowView,
    a: ActionView,
    now: u64,
    me: Seq<u8>,
    token: Seq<u8>,
)
    requires
        me != e.buyer,
        me != e.seller,
    ensures
        requested_inflow(requests_for(e, a, now, me), me, token) == if token == e.token {
            match transition(e, a, now) {
                Ok(s) => held_amount(s, e.amount as int) - held_amount(e.state, e.amount as int),
                Err(_) => 0,
            }
        } else {
            0
        },
{
    let reqs = requests_for(e, a, now, me);
    reveal_with_fuel(requested_inflow, 3);
    if reqs.len() == 2 {
        assert(reqs.drop_last().drop_last() =~= Seq::<HostRequest>::empty());
    }
    if reqs.len() == 1 {
        assert(reqs.drop_last() =~= Seq::<HostRequest>::empty());
    }
}

/// What the contract holds in `token` for the escrow stored under `id`.
pub open spec fn held_for(env: Env, id: u64, token: Seq<u8>) -> int {
    match stored_escrow(env, id) {
        Some(e) => if e.token == token {
            held_amount(e.state, e.amount as int)
        } else {
            0
        },
        None => 0,
    }
}

/// What the contract holds in `token` for the escrows with IDs 1 to `n`.
pub open spec fn held_upto(env: Env, token: Seq<u8>, n: nat) -> int
    decreases n,
{
    if n == 0 {
        0
    } else {
        held_upto(env, token, (n - 1) as nat) + held_for(env, n as u64, token)
    }
}

/// What the contract holds in `token` for all the escrows it has created.
pub open spec fn held_total(env: Env, token: Seq<u8>) -> int {
    held_upto(env, token, counter_value(env) as nat)
}

proof fn lemma_inflow_additive(a: Seq<HostRequest>, b: Seq<HostRequest>, me: Seq<u8>, token: Seq<u8>)
    ensures
        requested_inflow(a + b, me, token) == requested_inflow(a, me, token) + requested_inflow(
            b,
            me,
            token,
        ),
    decreases b.len(),
{
    if b.len() == 0 {
        assert(a + b =~= a);
    } else {
        assert((a + b).drop_last() =~= a + b.drop_last());
        assert((a + b).last() == b.last());
        lemma_inflow_additive(a, b.drop_last(), me, token);
    }
}

proof fn lemma_held_one_changed(before: Env, after: Env, id: u64, token: Seq<u8>, n: nat)
    requires
        forall|k: u64| k != id ==> stored_escrow(after, k) == stored_escrow(before, k),
        n <= u64::MAX,
    ensures
        held_upto(after, token, n) - held_upto(before, token, n) == if 1 <= id <= n {
            held_for(after, id, token) - held_for(before, id, token)
        } else {
            0
        },
    decreases n,
{
    if n > 0 {
        lemma_held_one_changed(before, after, id, token, (n - 1) as nat);
        if n as u64 != id {
            assert(stored_escrow(after, n as u64) == stored_escrow(before, n as u64));
        }
    }
}

/// The contract's holdings follow the transfers it requests: over any
/// operation on an escrow whose buyer and seller are not the contract itself,
/// and in every token, the net amount the requested transfers move into the
/// contract equals the change in what it holds for all its escrows. So if each
/// transfer moves what was requested, the contract's balance in a token less
/// what it holds in that token never changes.
pub proof fn law_holdings_follow_requested_transfers(
    before: Env,
    after: Env,
    id: u64,
    a: ActionView,
    now: u64,
    result: Result<(), ContractError>,
    token: Seq<u8>,
)
    requires
        records_consistent(before),
        performed(before, after, id, a, now, result),
        stored_escrow(before, id) matches Some(e) ==> running_contract(before) != e.buyer
            && running_contract(before) != e.seller,
    ensures
        requested_inflow(host_requests(after), running_contract(before), token) - requested_inflow(
            host_requests(before),
            running_contract(before),
            token,
        ) == held_total(after, token) - held_total(before, token),
{
    let me = running_contract(before);
    match stored_escrow(before, id) {
        None => {
            assert(host_requests(after) =~= host_requests(before));
            assert(crate::storage::persistent_escrows(after) == crate::storage::persistent_escrows(before));
            assert(counter_value(after) == counter_value(before));
            lemma_held_one_changed(before, after, id, token, counter_value(before) as nat);
        },
        Some(e) => {
            assert(crate::storage::persistent_escrows(before).contains_key(
                crate::storage::DataKey::Escrow(id),
            ));
            lemma_inflow_additive(host_requests(before), requests_for(e, a, now, me), me, token);
            law_requested_transfers_match_holding(e, a, now, me, token);
            assert(counter_value(after) == counter_value(before));
            assert forall|k: u64| k != id implies stored_escrow(after, k) == stored_escrow(before, k) by {
                assert(crate::storage::DataKey::Escrow(k) != crate::storage::DataKey::Escrow(id));
            }
            lemma_held_one_changed(before, after, id, token, counter_value(before) as nat);
        },
    }
}

/// Creating an escrow requests no transfer and changes nothing the contract
/// holds: the new escrow holds nothing until it is funded.
pub proof fn law_creation_holds_nothing(
    before: Env,
    after: Env,
    buyer: Seq<u8>,
    seller: Seq<u8>,
    arbitrator: Option<Seq<u8>>,
    amount: i128,
    token: Seq<u8>,
    deadline: u64,
    now: u64,
    result: Result<u64, ContractError>,
    t: Seq<u8>,
)
    requires
        records_consistent(before),
        counter_value(before) < u64::MAX,
        created(before, after, buyer, seller, arbitrator, amount, token, deadline, now, result),
    ensures
        requested_inflow(host_requests(after), running_contract(before), t) == requested_inflow(
            host_requests(before),
            running_contract(before),
            t,
        ),
        held_total(after, t) == held_total(before, t),
{
    let me = running_contract(before);
    lemma_inflow_additive(host_requests(before), seq![HostRequest::Authorize(buyer)], me, t);
    assert(host_requests(before).push(HostRequest::Authorize(buyer)) =~= host_requests(before)
        + seq![HostRequest::Authorize(buyer)]);
    reveal_with_fuel(requested_inflow, 2);
    assert(seq![HostRequest::Authorize(buyer)].drop_last() =~= Seq::<HostRequest>::empty());
    match result {
        Ok(id) => {
            let c = counter_value(before);
            assert(counter_value(after) == id);
            assert forall|k: u64| k != id implies stored_escrow(after, k) == stored_escrow(before, k) by {
                assert(crate::storage::DataKey::Escrow(k) != crate::storage::DataKey::Escrow(id));
            }
            lemma_held_one_changed(before, after, id, t, c as nat);
            assert(held_for(after, id, t) == 0);
        },
        Err(_) => {
            assert(counter_value(after) == counter_value(before));
            lemma_held_one_changed(before, after, 0, t, counter_value(before) as nat);
        },
    }
}

/// The counter only moves on a successful creation: every other operation,
/// accepted or refused, and every refused creation leave it as it was, and a
/// successful creation raises it by one to the ID it hands out.
pub proof fn law_counter_moves_only_on_creation(
    before: Env,
    after: Env,
    id: u64,
    a: ActionView,
    now: u64,
    result: Result<(), ContractError>,
    b2: Env,
    a2: Env,
    buyer: Seq<u8>,
    seller: Seq<u8>,
    arbitrator: Option<Seq<u8>>,
    amount: i128,
    token: Seq<u8>,
    deadline: u64,
    now2: u64,
    created_result: Result<u64, ContractError>,
)
    ensures
        performed(before, after, id, a, now, result) ==> counter_value(after) == counter_value(before),
        created(b2, a2, buyer, seller, arbitrator, amount, token, deadline, now2, created_result)
            ==> match created_result {
            Ok(n) => counter_value(b2) < u64::MAX ==> counter_value(a2) == n && n == counter_value(b2)
                + 1,
            Err(_) => counter_value(a2) == counter_value(b2),
        },
{
    if created(b2, a2, buyer, seller, arbitrator, amount, token, deadline, now2, created_result) {
        if let Ok(n) = created_result {
            assert(counter_value(a2) == n);
        }
    }
}

/// A history of the contract's storage in which no step lowers the counter.
pub open spec fn counter_never_decreases(h: Seq<Env>) -> bool {
    forall|k: int| 0 <= k < h.len() - 1 ==> counter_value(#[trigger] h[k]) <= counter_value(h[k + 1])
}

proof fn lemma_counter_monotone(h: Seq<Env>, i: int, j: int)
    requires
        counter_never_decreases(h),
        0 <= i <= j < h.len(),
    ensures
        counter_value(h[i]) <= counter_value(h[j]),
    decreases j - i,
{
    if i < j {
        lemma_counter_monotone(h, i, j - 1);
        assert(counter_value(h[j - 1]) <= counter_value(h[j]));
    }
}

/// IDs strictly increase over any history: in a history of operations (each
/// of which, by `law_counter_moves_only_on_creation`, leaves the counter as it
/// was or raises it), a creation that succeeds after an earlier successful
/// creation hands out a larger ID, so no ID is ever handed out twice.
pub proof fn law_ids_strictly_increase(
    h: Seq<Env>,
    i: int,
    j: int,
    buyer1: Seq<u8>,
    seller1: Seq<u8>,
    arbitrator1: Option<Seq<u8>>,
    amount1: i128,
    token1: Seq<u8>,
    deadline1: u64,
    now1: u64,
    id1: u64,
    buyer2: Seq<u8>,
    seller2: Seq<u8>,
    arbitrator2: Option<Seq<u8>>,
    amount2: i128,
    token2: Seq<u8>,
    deadline2: u64,
    now2: u64,
    id2: u64,
)
    requires
        counter_never_decreases(h),
        0 <= i < j,
        j + 1 < h.len(),
        created(h[i], h[i + 1], buyer1, seller1, arbitrator1, amount1, token1, deadline1, now1, Ok(id1)),
        created(h[j], h[j + 1], buyer2, seller2, arbitrator2, amount2, token2, deadline2, now2, Ok(id2)),
        counter_value(h[j]) < u64::MAX,
    ensures
        id1 < id2,
{
    lemma_counter_monotone(h, i + 1, j);
    assert(counter_value(h[i + 1]) == id1);
}

/// Each accepted operation moves an escrow along its own edge of the
/// lifecycle, and only that one: funding from Init to Funded, confirming from
/// Funded to Completed, disputing from Funded to Disputed, resolving from
/// Disputed to Completed (release) or Refunded (refund), and an expiry refund
/// from Funded to Expired.
pub proof fn law_each_operation_has_its_own_edge(e: EscrowView, a: ActionView, now: u64)
    ensures
        transition(e, a, now) matches Ok(s) ==> match a {
            ActionView::Fund => e.state == EscrowState::Init && s == EscrowState::Funded,
            ActionView::ConfirmDelivery => e.state == EscrowState::Funded && s
                == EscrowState::Completed,
            ActionView::RaiseDispute(_) => e.state == EscrowState::Funded && s
                == EscrowState::Disputed,
            ActionView::ResolveDispute(release) => e.state == EscrowState::Disputed && s == (if release {
                EscrowState::Completed
            } else {
                EscrowState::Refunded
            }),
            ActionView::RefundExpired => e.state == EscrowState::Funded && s == EscrowState::Expired,
        },
{
}

/// A dispute is resolved exactly when the escrow is in dispute, at any time:
/// the arbitrator's release pays the seller (Completed) and a refund repays
/// the buyer (Refunded); on any other state the resolution is refused with
/// `InvalidState`, whatever the time.
pub proof fn law_resolution_needs_only_a_dispute(e: EscrowView, release: bool, now1: u64, now2: u64)
    ensures
        transition(e, ActionView::ResolveDispute(release), now1) is Ok <==> e.state
            == EscrowState::Disputed,
        transition(e, ActionView::ResolveDispute(release), now1) == transition(
            e,
            ActionView::ResolveDispute(release),
            now2,
        ),
        e.state == EscrowState::Disputed ==> transition(e, ActionView::ResolveDispute(release), now1)
            == Ok::<EscrowState, ContractError>(
            if release {
                EscrowState::Completed
            } else {
                EscrowState::Refunded
            },
        ),
        e.state != EscrowState::Disputed ==> transition(e, ActionView::ResolveDispute(release), now1)
            == Err::<EscrowState, ContractError>(ContractError::InvalidState),
{
}

/// A dispute is accepted exactly when the escrow is funded, has an arbitrator
/// and is raised by its buyer or its seller, at any time; an accepted dispute
/// puts the escrow in Disputed state.
pub proof fn law_disputes_accepted_exactly(e: EscrowView, caller: Seq<u8>, now1: u64, now2: u64)
    ensures
        transition(e, ActionView::RaiseDispute(caller), now1) is Ok <==> (e.state
            == EscrowState::Funded && e.arbitrator is Some && (caller == e.buyer || caller
            == e.seller)),
        transition(e, ActionView::RaiseDispute(caller), now1) == transition(
            e,
            ActionView::RaiseDispute(caller),
            now2,
        ),
        transition(e, ActionView::RaiseDispute(caller), now1) is Ok ==> transition(
            e,
            ActionView::RaiseDispute(caller),
            now1,
        ) == Ok::<EscrowState, ContractError>(EscrowState::Disputed),
{
}

/// Delivery of a funded escrow can be confirmed at any time, before or after
/// the deadline, and completes it; an escrow in any other state refuses it
/// with `InvalidState`.
pub proof fn law_confirmation_at_any_time(e: EscrowView, now1: u64, now2: u64)
    ensures
        e.state == EscrowState::Funded ==> transition(e, ActionView::ConfirmDelivery, now1) == Ok::<
            EscrowState,
            ContractError,
        >(EscrowState::Completed),
        e.state != EscrowState::Funded ==> transition(e, ActionView::ConfirmDelivery, now1) == Err::<
            EscrowState,
            ContractError,
        >(ContractError::InvalidState),
        transition(e, ActionView::ConfirmDelivery, now1) == transition(
            e,
            ActionView::ConfirmDelivery,
            now2,
        ),
{
}

/// Funding is accepted exactly on an unfunded escrow up to and including its
/// deadline, and an expiry refund exactly on a funded escrow after it; if
/// funding is accepted at some time it is accepted at every earlier time, and
/// if an expiry refund is accepted at some time it is accepted at every later
/// time.
pub proof fn law_funding_and_expiry_windows(e: EscrowView, now1: u64, now2: u64)
    ensures
        transition(e, ActionView::Fund, now1) is Ok <==> (e.state == EscrowState::Init && now1
            <= e.deadline),
        transition(e, ActionView::RefundExpired, now1) is Ok <==> (e.state == EscrowState::Funded
            && now1 > e.deadline),
        now1 <= now2 && transition(e, ActionView::Fund, now2) is Ok ==> transition(
            e,
            ActionView::Fund,
            now1,
        ) is Ok,
        now1 <= now2 && transition(e, ActionView::RefundExpired, now1) is Ok ==> transition(
            e,
            ActionView::RefundExpired,
            now2,
        ) is Ok,
{
}

/// Creation accepts every request with a positive amount and a deadline in
/// the future, however far ahead, and refuses the others: a non-positive
/// amount with `InvalidAmount`, otherwise a deadline not after the time read
/// with `DeadlinePassed`. A request accepted at some time is accepted at every
/// earlier time.
pub proof fn law_creation_accepts_every_valid_request(
    amount: i128,
    deadline: u64,
    now1: u64,
    now2: u64,
)
    ensures
        creation_check(amount, deadline, now1) is Ok <==> (amount > 0 && deadline > now1),
        amount <= 0 ==> creation_check(amount, deadline, now1) == Err::<(), ContractError>(
            ContractError::InvalidAmount,
        ),
        amount > 0 && deadline <= now1 ==> creation_check(amount, deadline, now1) == Err::<
            (),
            ContractError,
        >(ContractError::DeadlinePassed),
        now1 <= now2 && creation_check(amount, deadline, now2) is Ok ==> creation_check(
            amount,
            deadline,
            now1,
        ) is Ok,
{
}

} // verus!
