//! Contract storage: escrow records in persistent storage, the ID counter in
//! instance storage.
use crate::errors::ContractError;
use crate::events::published_events;
use crate::host::AccountId;
use crate::types::{Escrow, EscrowState, EscrowView};
use soroban_sdk::{Env, Symbol};
use vstd::prelude::*;

verus! {

/// Storage keys used by the contract.
#[derive(Clone, Copy, Debug, PartialEq, Eq, Structural)]
pub enum DataKey {
    /// An escrow record, keyed by its numeric ID (persistent storage)
    Escrow(u64),
    /// The counter of escrow IDs handed out so far (instance storage)
    Counter,
}

/// The escrow records in the running contract's persistent storage, by key.
pub uninterp spec fn persistent_escrows(env: Env) -> Map<DataKey, EscrowView>;

/// The counters in the running contract's instance storage, by key.
pub uninterp spec fn instance_counters(env: Env) -> Map<DataKey, u64>;

/// The escrow stored under `id`, if any.
pub open spec fn stored_escrow(env: Env, id: u64) -> Option<EscrowView> {
    persistent_escrows(env).get(DataKey::Escrow(id))
}

/// The number of escrow IDs handed out so far (0 before the first).
pub open spec fn counter_value(env: Env) -> u64 {
    match instance_counters(env).get(DataKey::Counter) {
        Some(c) => c,
        None => 0,
    }
}

/// Neither storage area differs between `a` and `b`.
pub open spec fn same_storage(a: Env, b: Env) -> bool {
    &&& persistent_escrows(a) == persistent_escrows(b)
    &&& instance_counters(a) == instance_counters(b)
}

/// An escrow record as it is laid out in storage: the state as its code
/// (`EscrowState::spec_code`, its declaration index).
pub(crate) struct StoredEscrow {
    pub escrow_id: u64,
    pub buyer: AccountId,
    pub seller: AccountId,
    pub arbitrator: Option<AccountId>,
    pub amount: i128,
    pub token: AccountId,
    pub state_code: u32,
    pub deadline: u64,
    pub created_at: u64,
}

impl StoredEscrow {
    /// This record is the stored form of `e`.
    pub(crate) open spec fn encodes(self, e: EscrowView) -> bool {
        &&& self.escrow_id == e.escrow_id
        &&& self.buyer@ == e.buyer
        &&& self.seller@ == e.seller
        &&& crate::types::opt_view(self.arbitrator) == e.arbitrator
        &&& self.amount == e.amount
        &&& self.token@ == e.token
        &&& self.state_code == e.state.spec_code()
        &&& self.deadline == e.deadline
        &&& self.created_at == e.created_at
    }
}

/// `Persistent::get` under the key `(Symbol("Escrow"), id)`, the encoding of
/// `DataKey::Escrow(id)`, read as the tuple that `set_escrow` writes.
///
/// Claims that a record is found exactly when one is stored under the key, and
/// that it is the stored form of that record. The host decodes the tuple; it
/// only ever holds what `set_escrow` wrote there.
#[verifier::external_body]
fn load_escrow_record(env: &Env, id: u64) -> (record: Option<StoredEscrow>)
    ensures
        record is Some <==> persistent_escrows(*env).contains_key(DataKey::Escrow(id)),
        record matches Some(r) ==> r.encodes(persistent_escrows(*env)[DataKey::Escrow(id)]),
{
    let key = (Symbol::new(env, "Escrow"), id);
    let stored: Option<(u64, soroban_sdk::Address, soroban_sdk::Address, Option<soroban_sdk::Address>, i128, soroban_sdk::Address, u32, u64, u64)> =
        env.storage().persistent().get(&key);
    match stored {
        Some((escrow_id, buyer, seller, arbitrator, amount, token, state_code, deadline, created_at)) => Some(StoredEscrow {
            escrow_id, buyer: AccountId::new(buyer), seller: AccountId::new(seller),
            arbitrator: match arbitrator { Some(a) => Some(AccountId::new(a)), None => None },
            amount, token: AccountId::new(token), state_code, deadline, created_at,
        }),
        None => None,
    }
}

/// Persist an escrow under `DataKey::Escrow(escrow.escrow_id)` (create or
/// update): `Persistent::set` with the key `(Symbol("Escrow"), id)` and the
/// record as a tuple, the state by its declaration index.
///
/// Claims that afterwards exactly that record is stored under that key, and
/// that nothing else in storage, no event and no host request changed.
#[verifier::external_body]
pub fn set_escrow(env: &mut Env, escrow: &Escrow)
    ensures
        persistent_escrows(*final(env)) == persistent_escrows(*old(env)).insert(
            DataKey::Escrow(escrow.escrow_id),
            escrow@,
        ),
        instance_counters(*final(env)) == instance_counters(*old(env)),
        published_events(*final(env)) == published_events(*old(env)),
        crate::host::same_requests(*old(env), *final(env)),
{
    let key = (Symbol::new(env, "Escrow"), escrow.escrow_id);
    let arbitrator = match &escrow.arbitrator { Some(a) => Some(a.address.clone()), None => None };
    let record = (escrow.escrow_id, escrow.buyer.address.clone(), escrow.seller.address.clone(), arbitrator,
        escrow.amount, escrow.token.address.clone(), escrow.state as u32, escrow.deadline, escrow.created_at);
    env.storage().persistent().set(&key, &record);
}

/// `Instance::get` under the key `(Symbol("Counter"),)`, the encoding of
/// `DataKey::Counter`.
///
/// Claims that it returns what is stored under that key.
#[verifier::external_body]
fn load_counter(env: &Env) -> (counter: Option<u64>)
    ensures
        counter == instance_counters(*env).get(DataKey::Counter),
{
    env.storage().instance().get(&(Symbol::new(env, "Counter"),))
}

/// `Instance::set` under the key `(Symbol("Counter"),)`.
///
/// Claims that afterwards `value` is stored under `DataKey::Counter` and that
/// nothing else in storage, no event and no host request changed.
#[verifier::external_body]
fn save_counter(env: &mut Env, value: u64)
    ensures
        instance_counters(*final(env)) == instance_counters(*old(env)).insert(DataKey::Counter, value),
        persistent_escrows(*final(env)) == persistent_escrows(*old(env)),
        published_events(*final(env)) == published_events(*old(env)),
        crate::host::same_requests(*old(env), *final(env)),
{
    env.storage().instance().set(&(Symbol::new(env, "Counter"),), &value);
}

/// Load an escrow by ID, or `NotFound` if none is stored under it.
pub fn get_escrow(env: &Env, id: u64) -> (result: Result<Escrow, ContractError>)
    ensures
        match stored_escrow(*env, id) {
            Some(e) => result matches Ok(found) && found@ == e,
            None => result == Err::<Escrow, ContractError>(ContractError::NotFound),
        },
{
    match load_escrow_record(env, id) {
        Some(r) => {
            match EscrowState::from_code(r.state_code) {
                Some(state) => Ok(Escrow {
                    escrow_id: r.escrow_id,
                    buyer: r.buyer,
                    seller: r.seller,
                    arbitrator: r.arbitrator,
                    amount: r.amount,
                    token: r.token,
                    state,
                    deadline: r.deadline,
                    created_at: r.created_at,
                }),
                None => {
                    // a stored record always holds the code of a state
                    proof {
                        assert(false);
                    }
                    Err(ContractError::NotFound)
                },
            }
        },
        None => Err(ContractError::NotFound),
    }
}

/// The number of escrow IDs handed out so far.
pub fn escrow_count(env: &Env) -> (count: u64)
    ensures
        count == counter_value(*env),
{
    match load_counter(env) {
        Some(c) => c,
        None => 0,
    }
}

/// Increment the ID counter and return the new ID; the first ID is 1.
pub fn next_id(env: &mut Env) -> (id: u64)
    requires
        counter_value(*old(env)) < u64::MAX,
    ensures
        id == counter_value(*old(env)) + 1,
        instance_counters(*final(env)) == instance_counters(*old(env)).insert(DataKey::Counter, id),
        persistent_escrows(*final(env)) == persistent_escrows(*old(env)),
        published_events(*final(env)) == published_events(*old(env)),
        crate::host::same_requests(*old(env), *final(env)),
{
    let current = escrow_count(env);
    let next = current + 1;
    save_counter(env, next);
    next
}

} // verus!
