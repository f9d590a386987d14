//! Contract events. Every event has the two topics `("escrow", name)`.
use crate::host::AccountId;
use soroban_sdk::{Env, Symbol};
use vstd::prelude::*;

verus! {

/// The data an event carries.
pub enum EventPayload {
    /// An escrow ID
    Id(u64),
    /// An escrow ID and two accounts
    IdParties(u64, AccountId, AccountId),
    /// An escrow ID and one account
    IdParty(u64, AccountId),
    /// An escrow ID and a flag
    IdFlag(u64, bool),
}

/// An event's data as plain values.
pub enum PayloadView {
    Id(u64),
    IdParties(u64, Seq<u8>, Seq<u8>),
    IdParty(u64, Seq<u8>),
    IdFlag(u64, bool),
}

impl View for EventPayload {
    type V = PayloadView;

    open spec fn view(&self) -> PayloadView {
        match *self {
            EventPayload::Id(id) => PayloadView::Id(id),
            EventPayload::IdParties(id, a, b) => PayloadView::IdParties(id, a@, b@),
            EventPayload::IdParty(id, a) => PayloadView::IdParty(id, a@),
            EventPayload::IdFlag(id, flag) => PayloadView::IdFlag(id, flag),
        }
    }
}

/// A published event: its two topics and its data.
pub struct EventView {
    pub namespace: Seq<char>,
    pub name: Seq<char>,
    pub payload: PayloadView,
}

/// The events the running contract has published, oldest first.
pub uninterp spec fn published_events(env: Env) -> Seq<EventView>;

/// A character a host symbol may hold: `a-z`, `A-Z`, `0-9` or `_`.
pub open spec fn is_symbol_char(c: char) -> bool {
    ('a' <= c && c <= 'z') || ('A' <= c && c <= 'Z') || ('0' <= c && c <= '9') || c == '_'
}

/// Text that makes a host symbol: at most 32 symbol characters.
pub open spec fn is_symbol_text(s: Seq<char>) -> bool {
    s.len() <= 32 && forall|i: int| 0 <= i < s.len() ==> is_symbol_char(#[trigger] s[i])
}

/// The event `("escrow", name)` with the given data.
pub open spec fn escrow_event(name: Seq<char>, payload: PayloadView) -> EventView {
    EventView { namespace: "escrow"@, name, payload }
}

/// `Events::publish` with the topics `(Symbol(namespace), Symbol(name))` and the
/// payload as data: a bare ID, or a tuple of the ID and the rest.
///
/// `Symbol::new` panics on text that is not a symbol, hence the `requires`.
/// Claims that the event is appended to the contract's events and that
/// storage and the host requests are untouched.
#[verifier::external_body]
#[allow(deprecated)]
fn publish(env: &mut Env, namespace: &str, name: &str, payload: EventPayload)
    requires
        is_symbol_text(namespace@),
        is_symbol_text(name@),
    ensures
        published_events(*final(env)) == published_events(*old(env)).push(
            EventView { namespace: namespace@, name: name@, payload: payload@ },
        ),
        crate::storage::same_storage(*old(env), *final(env)),
        crate::host::same_requests(*old(env), *final(env)),
{
    let topics = (Symbol::new(env, namespace), Symbol::new(env, name));
    let events = env.events();
    match payload {
        EventPayload::Id(id) => events.publish(topics, id),
        EventPayload::IdParties(id, a, b) => events.publish(topics, (id, a.address, b.address)),
        EventPayload::IdParty(id, a) => events.publish(topics, (id, a.address)),
        EventPayload::IdFlag(id, flag) => events.publish(topics, (id, flag)),
    }
}

/// Emits `("escrow", "escrow_created")` with `(id, buyer, seller)`.
pub fn escrow_created(env: &mut Env, id: u64, buyer: AccountId, seller: AccountId)
    ensures
        published_events(*final(env)) == published_events(*old(env)).push(
            escrow_event("escrow_created"@, PayloadView::IdParties(id, buyer@, seller@)),
        ),
        crate::storage::same_storage(*old(env), *final(env)),
        crate::host::same_requests(*old(env), *final(env)),
{
    proof {
        reveal_strlit("escrow");
        reveal_strlit("escrow_created");
    }
    publish(env, "escrow", "escrow_created", EventPayload::IdParties(id, buyer, seller));
}

/// Emits `("escrow", "escrow_funded")` with the escrow ID.
pub fn escrow_funded(env: &mut Env, id: u64)
    ensures
        published_events(*final(env)) == published_events(*old(env)).push(
            escrow_event("escrow_funded"@, PayloadView::Id(id)),
        ),
        crate::storage::same_storage(*old(env), *final(env)),
        crate::host::same_requests(*old(env), *final(env)),
{
    proof {
        reveal_strlit("escrow");
        reveal_strlit("escrow_funded");
    }
    publish(env, "escrow", "escrow_funded", EventPayload::Id(id));
}

/// Emits `("escrow", "delivery_confirmed")` with the escrow ID.
pub fn delivery_confirmed(env: &mut Env, id: u64)
    ensures
        published_events(*final(env)) == published_events(*old(env)).push(
            escrow_event("delivery_confirmed"@, PayloadView::Id(id)),
        ),
        crate::storage::same_storage(*old(env), *final(env)),
        crate::host::same_requests(*old(env), *final(env)),
{
    proof {
        reveal_strlit("escrow");
        reveal_strlit("delivery_confirmed");
    }
    publish(env, "escrow", "delivery_confirmed", EventPayload::Id(id));
}

/// Emits `("escrow", "dispute_raised")` with `(id, raised_by)`.
pub fn dispute_raised(env: &mut Env, id: u64, raised_by: AccountId)
    ensures
        published_events(*final(env)) == published_events(*old(env)).push(
            escrow_event("dispute_raised"@, PayloadView::IdParty(id, raised_by@)),
        ),
        crate::storage::same_storage(*old(env), *final(env)),
        crate::host::same_requests(*old(env), *final(env)),
{
    proof {
        reveal_strlit("escrow");
        reveal_strlit("dispute_raised");
    }
    publish(env, "escrow", "dispute_raised", EventPayload::IdParty(id, raised_by));
}

/// Emits `("escrow", "dispute_resolved")` with `(id, release_to_seller)`.
pub fn dispute_resolved(env: &mut Env, id: u64, release_to_seller: bool)
    ensures
        published_events(*final(env)) == published_events(*old(env)).push(
            escrow_event("dispute_resolved"@, PayloadView::IdFlag(id, release_to_seller)),
        ),
        crate::storage::same_storage(*old(env), *final(env)),
        crate::host::same_requests(*old(env), *final(env)),
{
    proof {
        reveal_strlit("escrow");
        reveal_strlit("dispute_resolved");
    }
    publish(env, "escrow", "dispute_resolved", EventPayload::IdFlag(id, release_to_seller));
}

/// Emits `("escrow", "escrow_refunded")` with the escrow ID.
pub fn escrow_refunded(env: &mut Env, id: u64)
    ensures
        published_events(*final(env)) == published_events(*old(env)).push(
            escrow_event("escrow_refunded"@, PayloadView::Id(id)),
        ),
        crate::storage::same_storage(*old(env), *final(env)),
        crate::host::same_requests(*old(env), *final(env)),
{
    proof {
        reveal_strlit("escrow");
        reveal_strlit("escrow_refunded");
    }
    publish(env, "escrow", "escrow_refunded", EventPayload::Id(id));
}

/// Emits `("escrow", "escrow_expired")` with the escrow ID.
pub fn escrow_expired(env: &mut Env, id: u64)
    ensures
        published_events(*final(env)) == published_events(*old(env)).push(
            escrow_event("escrow_expired"@, PayloadView::Id(id)),
        ),
        crate::storage::same_storage(*old(env), *final(env)),
        crate::host::same_requests(*old(env), *final(env)),
{
    proof {
        reveal_strlit("escrow");
        reveal_strlit("escrow_expired");
    }
    publish(env, "escrow", "escrow_expired", EventPayload::Id(id));
}

} // verus!
