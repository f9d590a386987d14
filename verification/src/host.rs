//! The host environment the contract runs in: the outside types it carries, the
//! account identity the contract reasons about, and the host calls that touch
//! neither storage nor events.
use soroban_sdk::{Address, Env};
use vstd::prelude::*;

verus! {

/// The host environment handle, passed through to every host call.
#[verifier::external_type_specification]
#[verifier::external_body]
pub struct ExEnv(Env);

/// A host address (an account or a contract).
#[verifier::external_type_specification]
#[verifier::external_body]
pub struct ExAddress(Address);

/// A request the running contract makes of the host on someone else's
/// behalf: an account's authorization, or a token transfer.
pub enum HostRequest {
    /// `require_auth` of the account with this key
    Authorize(Seq<u8>),
    /// `transfer` of `amount` of `token` from `from` to `to` (keys)
    Transfer { token: Seq<u8>, from: Seq<u8>, to: Seq<u8>, amount: i128 },
}

/// The authorization and transfer requests the running contract has made of
/// the host, oldest first.
pub uninterp spec fn host_requests(env: Env) -> Seq<HostRequest>;

/// The key (strkey) of the running contract's own address.
pub uninterp spec fn running_contract(env: Env) -> Seq<u8>;

/// Neither the requests made nor the running contract differ between `a` and
/// `b`.
pub open spec fn same_requests(a: Env, b: Env) -> bool {
    host_requests(a) == host_requests(b) && running_contract(a) == running_contract(b)
}

/// `Address::clone`: a second handle to the same host address. Nothing is
/// stated: an address has no view that a clause could speak of.
pub assume_specification[<Address as Clone>::clone](address: &Address) -> Address;

/// An account or contract taking part in an escrow.
///
/// It carries the host address and, as plain bytes, the address's strkey
/// (the `G...`/`C...` text). The strkey identifies the address, so two
/// accounts are the same exactly when their keys are equal; the contracts
/// of this library speak of accounts through that key (the view).
/// The fields are not public: outside this crate an `AccountId` is only ever
/// made from an address by `AccountId::new`, which keeps the key and the
/// address in step.
#[derive(Clone, Debug)]
pub struct AccountId {
    pub(crate) key: std::vec::Vec<u8>,
    pub(crate) address: Address,
}

impl View for AccountId {
    type V = Seq<u8>;

    closed spec fn view(&self) -> Seq<u8> {
        self.key@
    }
}

impl AccountId {
    /// Wraps a host address, reading its strkey through `Address::to_string`
    /// and `soroban_sdk::String::copy_into_slice`.
    ///
    /// Nothing is stated of the key: the host computes it, and an address has
    /// no plain value that a clause could compare it with.
    #[verifier::external_body]
    pub fn new(address: Address) -> (account: AccountId) {
        let text = address.to_string();
        let mut key = std::vec![0u8; text.len() as usize];
        text.copy_into_slice(&mut key);
        AccountId { key, address }
    }

    /// The host address of this account (a clone of the handle).
    #[verifier::external_body]
    pub fn address(&self) -> Address {
        self.address.clone()
    }

    /// Whether two accounts are the same address, decided by the host's
    /// address comparison (`Address::eq`).
    ///
    /// Claims that the host finds two addresses equal exactly when their
    /// strkeys are equal, which holds since a strkey encodes the address one
    /// for one.
    #[verifier::external_body]
    pub(crate) fn same_as(&self, other: &AccountId) -> (same: bool)
        ensures
            same == (self@ == other@),
    {
        self.address == other.address
    }
}

/// `Address::require_auth`: returns only if the host finds that the account
/// authorized the current invocation; otherwise the host aborts the
/// invocation, and everything it did is rolled back.
///
/// Claims that the request is recorded: `account` is appended to the host
/// requests, and storage, events and the running contract are untouched.
/// Whether the host grants it rests on the signatures of the transaction and
/// is not stated; no `requires` can exclude the abort.
#[verifier::external_body]
pub(crate) fn require_auth(env: &mut Env, account: &AccountId)
    ensures
        host_requests(*final(env)) == host_requests(*old(env)).push(HostRequest::Authorize(account@)),
        running_contract(*final(env)) == running_contract(*old(env)),
        crate::storage::same_storage(*old(env), *final(env)),
        crate::events::published_events(*final(env)) == crate::events::published_events(*old(env)),
{
    account.address.require_auth();
}

/// `Ledger::timestamp`: the close time of the ledger being applied.
/// Nothing is stated of it: it depends on the ledger, not on the arguments.
#[verifier::external_body]
pub(crate) fn ledger_timestamp(env: &Env) -> (now: u64) {
    env.ledger().timestamp()
}

/// `Env::current_contract_address`: the address of the running contract.
///
/// Claims that its key is `running_contract(env)`.
#[verifier::external_body]
pub(crate) fn current_contract(env: &Env) -> (me: AccountId)
    ensures
        me@ == running_contract(*env),
{
    AccountId::new(env.current_contract_address())
}

/// `token::TokenClient::transfer`: asks the token contract `token` to move
/// `amount` from `from` to `to`.
///
/// Claims that the request is recorded: the transfer, as handed to the token
/// contract, is appended to the host requests; and that the running
/// contract, its storage and its events are as they were: a called contract
/// cannot write another contract's storage or publish in its name, and the
/// host refuses re-entry into the running contract.
/// Nothing is stated of balances: the token is whatever contract `token`
/// names. It may abort the invocation (a short balance, a failing token),
/// and everything the invocation did is then rolled back; no `requires` can
/// exclude that.
#[verifier::external_body]
pub(crate) fn transfer(env: &mut Env, token: &AccountId, from: &AccountId, to: &AccountId, amount: i128)
    ensures
        host_requests(*final(env)) == host_requests(*old(env)).push(
            HostRequest::Transfer { token: token@, from: from@, to: to@, amount },
        ),
        running_contract(*final(env)) == running_contract(*old(env)),
        crate::storage::same_storage(*old(env), *final(env)),
        crate::events::published_events(*final(env)) == crate::events::published_events(*old(env)),
{
    soroban_sdk::token::TokenClient::new(env, &token.address).transfer(&from.address, &to.address, &amount);
}

} // verus!
