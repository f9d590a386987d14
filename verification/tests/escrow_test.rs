use soroban_sdk::{
    testutils::{Address as _, ContractFunctionSet, EnvTestConfig, Events, Ledger},
    token::{StellarAssetClient, TokenClient},
    xdr::{ContractEventBody, ScVal},
    Address, Env, IntoVal, Symbol, Val,
};

use escrow::contract::validate_new_escrow;
use escrow::lifecycle::{authorizer, next_state, settlement, Action, Settlement};
use escrow::{AccountId, ContractError, Escrow, EscrowContract, EscrowState};

// ── Test helpers ──────────────────────────────────────────────────────────────

/// A contract with no entry points of its own: the escrow operations are run
/// inside its frame, so they use its storage and act as its address.
struct EscrowHost;

impl ContractFunctionSet for EscrowHost {
    fn call(&self, _func: &str, _env: Env, _args: &[Val]) -> Option<Val> {
        None
    }
}

/// The escrow contract deployed in a test environment.
struct Deployed<'a> {
    env: &'a Env,
    id: Address,
}

fn deploy_contract(env: &Env) -> Deployed<'_> {
    let id = env.register(EscrowHost, ());
    Deployed { env, id }
}

impl<'a> Deployed<'a> {
    fn run<T>(&self, f: impl FnOnce(&mut Env) -> T) -> T {
        let mut host = self.env.clone();
        self.env.as_contract(&self.id, || f(&mut host))
    }

    fn try_create_escrow(
        &self,
        buyer: &Address,
        seller: &Address,
        arbitrator: &Option<Address>,
        amount: &i128,
        token: &Address,
        deadline: &u64,
    ) -> Result<u64, ContractError> {
        self.run(|env| {
            EscrowContract::create_escrow(
                env,
                AccountId::new(buyer.clone()),
                AccountId::new(seller.clone()),
                arbitrator.clone().map(AccountId::new),
                *amount,
                AccountId::new(token.clone()),
                *deadline,
            )
        })
    }

    fn create_escrow(
        &self,
        buyer: &Address,
        seller: &Address,
        arbitrator: &Option<Address>,
        amount: &i128,
        token: &Address,
        deadline: &u64,
    ) -> u64 {
        self.try_create_escrow(buyer, seller, arbitrator, amount, token, deadline).unwrap()
    }

    fn try_fund_escrow(&self, id: &u64) -> Result<(), ContractError> {
        self.run(|env| EscrowContract::fund_escrow(env, *id))
    }

    fn fund_escrow(&self, id: &u64) {
        self.try_fund_escrow(id).unwrap()
    }

    fn try_confirm_delivery(&self, id: &u64) -> Result<(), ContractError> {
        self.run(|env| EscrowContract::confirm_delivery(env, *id))
    }

    fn confirm_delivery(&self, id: &u64) {
        self.try_confirm_delivery(id).unwrap()
    }

    fn try_raise_dispute(&self, id: &u64, caller: &Address) -> Result<(), ContractError> {
        self.run(|env| EscrowContract::raise_dispute(env, *id, AccountId::new(caller.clone())))
    }

    fn raise_dispute(&self, id: &u64, caller: &Address) {
        self.try_raise_dispute(id, caller).unwrap()
    }

    fn try_resolve_dispute(&self, id: &u64, release_to_seller: &bool) -> Result<(), ContractError> {
        self.run(|env| EscrowContract::resolve_dispute(env, *id, *release_to_seller))
    }

    fn resolve_dispute(&self, id: &u64, release_to_seller: &bool) {
        self.try_resolve_dispute(id, release_to_seller).unwrap()
    }

    fn try_refund_expired(&self, id: &u64) -> Result<(), ContractError> {
        self.run(|env| EscrowContract::refund_expired(env, *id))
    }

    fn refund_expired(&self, id: &u64) {
        self.try_refund_expired(id).unwrap()
    }

    fn try_get_escrow(&self, id: &u64) -> Result<Escrow, ContractError> {
        self.run(|env| EscrowContract::get_escrow(env, *id))
    }

    fn get_escrow(&self, id: &u64) -> Escrow {
        self.try_get_escrow(id).unwrap()
    }
}

/// A test environment that writes no snapshot file when dropped.
fn new_env() -> Env {
    Env::new_with_config(EnvTestConfig { capture_snapshot_at_drop: false })
}

fn deploy_token<'a>(env: &'a Env, admin: &Address) -> (Address, StellarAssetClient<'a>) {
    let token_id = env.register_stellar_asset_contract_v2(admin.clone());
    let sac = StellarAssetClient::new(env, &token_id.address());
    (token_id.address(), sac)
}

fn mint(_env: &Env, sac: &StellarAssetClient, recipient: &Address, amount: i128) {
    sac.mint(recipient, &amount);
}

fn set_time(env: &Env, timestamp: u64) {
    env.ledger().set_timestamp(timestamp);
}

fn future_deadline(now: u64) -> u64 {
    now + 7 * 24 * 60 * 60
}

const AMOUNT: i128 = 10_000_000;

// ── Tests ─────────────────────────────────────────────────────────────────────

#[test]
fn test_create_escrow_success() {
    let env = new_env();
    env.mock_all_auths();

    let client = deploy_contract(&env);
    let buyer = Address::generate(&env);
    let seller = Address::generate(&env);
    let admin = Address::generate(&env);
    let (token_id, _sac) = deploy_token(&env, &admin);

    set_time(&env, 1000);
    let deadline = future_deadline(1000);

    let id = client.create_escrow(&buyer, &seller, &None, &AMOUNT, &token_id, &deadline);
    assert_eq!(id, 1);

    let escrow = client.get_escrow(&id);
    assert_eq!(escrow.buyer.address(), buyer);
    assert_eq!(escrow.seller.address(), seller);
    assert_eq!(escrow.amount, AMOUNT);
    assert_eq!(escrow.state, EscrowState::Init);
    assert_eq!(escrow.deadline, deadline);
}

#[test]
fn test_create_escrow_invalid_amount() {
    let env = new_env();
    env.mock_all_auths();

    let client = deploy_contract(&env);
    let buyer = Address::generate(&env);
    let seller = Address::generate(&env);
    let admin = Address::generate(&env);
    let (token_id, _sac) = deploy_token(&env, &admin);

    set_time(&env, 1000);
    let deadline = future_deadline(1000);

    let result = client.try_create_escrow(&buyer, &seller, &None, &0, &token_id, &deadline);
    assert!(result.is_err());
}

#[test]
fn test_create_escrow_past_deadline() {
    let env = new_env();
    env.mock_all_auths();

    let client = deploy_contract(&env);
    let buyer = Address::generate(&env);
    let seller = Address::generate(&env);
    let admin = Address::generate(&env);
    let (token_id, _sac) = deploy_token(&env, &admin);

    set_time(&env, 10000);
    let result = client.try_create_escrow(&buyer, &seller, &None, &AMOUNT, &token_id, &500);
    assert!(result.is_err());
}

#[test]
fn test_fund_escrow_success() {
    let env = new_env();
    env.mock_all_auths();

    let client = deploy_contract(&env);
    let buyer = Address::generate(&env);
    let seller = Address::generate(&env);
    let admin = Address::generate(&env);
    let (token_id, sac) = deploy_token(&env, &admin);

    set_time(&env, 1000);
    let deadline = future_deadline(1000);
    mint(&env, &sac, &buyer, AMOUNT * 2);

    let id = client.create_escrow(&buyer, &seller, &None, &AMOUNT, &token_id, &deadline);
    client.fund_escrow(&id);

    let escrow = client.get_escrow(&id);
    assert_eq!(escrow.state, EscrowState::Funded);

    // Buyer spent AMOUNT — started with AMOUNT*2, now has AMOUNT
    let token_client = TokenClient::new(&env, &token_id);
    assert_eq!(token_client.balance(&buyer), AMOUNT);
}

#[test]
fn test_fund_escrow_wrong_state() {
    let env = new_env();
    env.mock_all_auths();

    let client = deploy_contract(&env);
    let buyer = Address::generate(&env);
    let seller = Address::generate(&env);
    let admin = Address::generate(&env);
    let (token_id, sac) = deploy_token(&env, &admin);

    set_time(&env, 1000);
    let deadline = future_deadline(1000);
    mint(&env, &sac, &buyer, AMOUNT * 3);

    let id = client.create_escrow(&buyer, &seller, &None, &AMOUNT, &token_id, &deadline);
    client.fund_escrow(&id);

    // Fund again — should fail (already Funded → InvalidState)
    let result = client.try_fund_escrow(&id);
    assert!(result.is_err());
}

#[test]
fn test_confirm_delivery_success() {
    let env = new_env();
    env.mock_all_auths();

    let client = deploy_contract(&env);
    let buyer = Address::generate(&env);
    let seller = Address::generate(&env);
    let admin = Address::generate(&env);
    let (token_id, sac) = deploy_token(&env, &admin);

    set_time(&env, 1000);
    let deadline = future_deadline(1000);
    mint(&env, &sac, &buyer, AMOUNT * 2);

    let id = client.create_escrow(&buyer, &seller, &None, &AMOUNT, &token_id, &deadline);
    client.fund_escrow(&id);
    client.confirm_delivery(&id);

    let escrow = client.get_escrow(&id);
    assert_eq!(escrow.state, EscrowState::Completed);

    let token_client = TokenClient::new(&env, &token_id);
    assert_eq!(token_client.balance(&seller), AMOUNT);
}

#[test]
fn test_confirm_delivery_unauthorized() {
    let env = new_env();
    env.mock_all_auths();

    let client = deploy_contract(&env);
    let buyer = Address::generate(&env);
    let seller = Address::generate(&env);
    let admin = Address::generate(&env);
    let (token_id, sac) = deploy_token(&env, &admin);

    set_time(&env, 1000);
    let deadline = future_deadline(1000);
    mint(&env, &sac, &buyer, AMOUNT * 2);

    let id = client.create_escrow(&buyer, &seller, &None, &AMOUNT, &token_id, &deadline);
    client.fund_escrow(&id);
    client.confirm_delivery(&id);

    // Already Completed — second confirm should fail with InvalidState
    let result = client.try_confirm_delivery(&id);
    assert!(result.is_err());
}

#[test]
fn test_raise_dispute_by_buyer() {
    let env = new_env();
    env.mock_all_auths();

    let client = deploy_contract(&env);
    let buyer = Address::generate(&env);
    let seller = Address::generate(&env);
    let arbitrator = Address::generate(&env);
    let admin = Address::generate(&env);
    let (token_id, sac) = deploy_token(&env, &admin);

    set_time(&env, 1000);
    let deadline = future_deadline(1000);
    mint(&env, &sac, &buyer, AMOUNT * 2);

    let id = client.create_escrow(
        &buyer,
        &seller,
        &Some(arbitrator.clone()),
        &AMOUNT,
        &token_id,
        &deadline,
    );
    client.fund_escrow(&id);
    client.raise_dispute(&id, &buyer);

    let escrow = client.get_escrow(&id);
    assert_eq!(escrow.state, EscrowState::Disputed);
}

#[test]
fn test_raise_dispute_by_seller() {
    let env = new_env();
    env.mock_all_auths();

    let client = deploy_contract(&env);
    let buyer = Address::generate(&env);
    let seller = Address::generate(&env);
    let arbitrator = Address::generate(&env);
    let admin = Address::generate(&env);
    let (token_id, sac) = deploy_token(&env, &admin);

    set_time(&env, 1000);
    let deadline = future_deadline(1000);
    mint(&env, &sac, &buyer, AMOUNT * 2);

    let id = client.create_escrow(
        &buyer,
        &seller,
        &Some(arbitrator.clone()),
        &AMOUNT,
        &token_id,
        &deadline,
    );
    client.fund_escrow(&id);
    client.raise_dispute(&id, &seller);

    let escrow = client.get_escrow(&id);
    assert_eq!(escrow.state, EscrowState::Disputed);
}

#[test]
fn test_raise_dispute_no_arbitrator() {
    let env = new_env();
    env.mock_all_auths();

    let client = deploy_contract(&env);
    let buyer = Address::generate(&env);
    let seller = Address::generate(&env);
    let admin = Address::generate(&env);
    let (token_id, sac) = deploy_token(&env, &admin);

    set_time(&env, 1000);
    let deadline = future_deadline(1000);
    mint(&env, &sac, &buyer, AMOUNT * 2);

    let id = client.create_escrow(&buyer, &seller, &None, &AMOUNT, &token_id, &deadline);
    client.fund_escrow(&id);

    // No arbitrator — Unauthorized
    let result = client.try_raise_dispute(&id, &buyer);
    assert!(result.is_err());
}

#[test]
fn test_resolve_dispute_release_to_seller() {
    let env = new_env();
    env.mock_all_auths();

    let client = deploy_contract(&env);
    let buyer = Address::generate(&env);
    let seller = Address::generate(&env);
    let arbitrator = Address::generate(&env);
    let admin = Address::generate(&env);
    let (token_id, sac) = deploy_token(&env, &admin);

    set_time(&env, 1000);
    let deadline = future_deadline(1000);
    mint(&env, &sac, &buyer, AMOUNT * 2);

    let id = client.create_escrow(
        &buyer,
        &seller,
        &Some(arbitrator.clone()),
        &AMOUNT,
        &token_id,
        &deadline,
    );
    client.fund_escrow(&id);
    client.raise_dispute(&id, &buyer);
    client.resolve_dispute(&id, &true);

    let escrow = client.get_escrow(&id);
    assert_eq!(escrow.state, EscrowState::Completed);

    let token_client = TokenClient::new(&env, &token_id);
    assert_eq!(token_client.balance(&seller), AMOUNT);
}

#[test]
fn test_resolve_dispute_refund_buyer() {
    let env = new_env();
    env.mock_all_auths();

    let client = deploy_contract(&env);
    let buyer = Address::generate(&env);
    let seller = Address::generate(&env);
    let arbitrator = Address::generate(&env);
    let admin = Address::generate(&env);
    let (token_id, sac) = deploy_token(&env, &admin);

    set_time(&env, 1000);
    let deadline = future_deadline(1000);
    mint(&env, &sac, &buyer, AMOUNT * 2);

    let id = client.create_escrow(
        &buyer,
        &seller,
        &Some(arbitrator.clone()),
        &AMOUNT,
        &token_id,
        &deadline,
    );
    client.fund_escrow(&id);
    client.raise_dispute(&id, &buyer);
    client.resolve_dispute(&id, &false);

    let escrow = client.get_escrow(&id);
    assert_eq!(escrow.state, EscrowState::Refunded);

    let token_client = TokenClient::new(&env, &token_id);
    assert_eq!(token_client.balance(&buyer), AMOUNT * 2);
}

#[test]
fn test_resolve_dispute_unauthorized() {
    let env = new_env();
    env.mock_all_auths();

    let client = deploy_contract(&env);
    let buyer = Address::generate(&env);
    let seller = Address::generate(&env);
    let arbitrator = Address::generate(&env);
    let admin = Address::generate(&env);
    let (token_id, sac) = deploy_token(&env, &admin);

    set_time(&env, 1000);
    let deadline = future_deadline(1000);
    mint(&env, &sac, &buyer, AMOUNT * 2);

    let id = client.create_escrow(
        &buyer,
        &seller,
        &Some(arbitrator.clone()),
        &AMOUNT,
        &token_id,
        &deadline,
    );
    client.fund_escrow(&id);
    client.raise_dispute(&id, &buyer);
    client.resolve_dispute(&id, &true);

    // Already Completed — second resolve should fail with InvalidState
    let result = client.try_resolve_dispute(&id, &false);
    assert!(result.is_err());
}

#[test]
fn test_refund_expired_success() {
    let env = new_env();
    env.mock_all_auths();

    let client = deploy_contract(&env);
    let buyer = Address::generate(&env);
    let seller = Address::generate(&env);
    let admin = Address::generate(&env);
    let (token_id, sac) = deploy_token(&env, &admin);

    set_time(&env, 1000);
    let deadline = 1000 + 100;
    mint(&env, &sac, &buyer, AMOUNT * 2);

    let id = client.create_escrow(&buyer, &seller, &None, &AMOUNT, &token_id, &deadline);
    client.fund_escrow(&id);

    // Advance time past deadline
    set_time(&env, deadline + 1);
    client.refund_expired(&id);

    let escrow = client.get_escrow(&id);
    assert_eq!(escrow.state, EscrowState::Expired);

    let token_client = TokenClient::new(&env, &token_id);
    assert_eq!(token_client.balance(&buyer), AMOUNT * 2);
}

#[test]
fn test_refund_expired_deadline_not_reached() {
    let env = new_env();
    env.mock_all_auths();

    let client = deploy_contract(&env);
    let buyer = Address::generate(&env);
    let seller = Address::generate(&env);
    let admin = Address::generate(&env);
    let (token_id, sac) = deploy_token(&env, &admin);

    set_time(&env, 1000);
    let deadline = future_deadline(1000);
    mint(&env, &sac, &buyer, AMOUNT * 2);

    let id = client.create_escrow(&buyer, &seller, &None, &AMOUNT, &token_id, &deadline);
    client.fund_escrow(&id);

    // Deadline has NOT passed
    let result = client.try_refund_expired(&id);
    assert!(result.is_err());
}

#[test]
fn test_full_happy_path() {
    let env = new_env();
    env.mock_all_auths();

    let client = deploy_contract(&env);
    let buyer = Address::generate(&env);
    let seller = Address::generate(&env);
    let admin = Address::generate(&env);
    let (token_id, sac) = deploy_token(&env, &admin);

    set_time(&env, 1000);
    let deadline = future_deadline(1000);
    mint(&env, &sac, &buyer, AMOUNT * 2);

    let token_client = TokenClient::new(&env, &token_id);
    let seller_balance_before = token_client.balance(&seller);

    // create → fund → confirm
    let id = client.create_escrow(&buyer, &seller, &None, &AMOUNT, &token_id, &deadline);
    assert_eq!(client.get_escrow(&id).state, EscrowState::Init);

    client.fund_escrow(&id);
    assert_eq!(client.get_escrow(&id).state, EscrowState::Funded);

    client.confirm_delivery(&id);
    assert_eq!(client.get_escrow(&id).state, EscrowState::Completed);

    assert_eq!(token_client.balance(&seller), seller_balance_before + AMOUNT);
    assert_eq!(token_client.balance(&buyer), AMOUNT);
}

#[test]
fn test_full_dispute_path() {
    let env = new_env();
    env.mock_all_auths();

    let client = deploy_contract(&env);
    let buyer = Address::generate(&env);
    let seller = Address::generate(&env);
    let arbitrator = Address::generate(&env);
    let admin = Address::generate(&env);
    let (token_id, sac) = deploy_token(&env, &admin);

    set_time(&env, 1000);
    let deadline = future_deadline(1000);
    mint(&env, &sac, &buyer, AMOUNT * 2);

    let token_client = TokenClient::new(&env, &token_id);

    // create → fund → dispute → resolve (refund buyer)
    let id = client.create_escrow(
        &buyer,
        &seller,
        &Some(arbitrator.clone()),
        &AMOUNT,
        &token_id,
        &deadline,
    );

    client.fund_escrow(&id);
    assert_eq!(client.get_escrow(&id).state, EscrowState::Funded);

    client.raise_dispute(&id, &buyer);
    assert_eq!(client.get_escrow(&id).state, EscrowState::Disputed);

    client.resolve_dispute(&id, &false);
    assert_eq!(client.get_escrow(&id).state, EscrowState::Refunded);

    // Buyer got their money back
    assert_eq!(token_client.balance(&buyer), AMOUNT * 2);
    assert_eq!(token_client.balance(&seller), 0);
}

// ── Further cases: each error, each law on concrete values ───────────────────

/// A deployed contract with a token, a buyer holding `AMOUNT * 2`, a seller
/// and an arbitrator, at time 1000.
struct World<'a> {
    env: &'a Env,
    client: Deployed<'a>,
    buyer: Address,
    seller: Address,
    arbitrator: Address,
    token: Address,
    token_client: TokenClient<'a>,
}

fn world(env: &Env) -> World<'_> {
    env.mock_all_auths();
    let client = deploy_contract(env);
    let buyer = Address::generate(env);
    let seller = Address::generate(env);
    let arbitrator = Address::generate(env);
    let admin = Address::generate(env);
    let (token, sac) = deploy_token(env, &admin);
    mint(env, &sac, &buyer, AMOUNT * 2);
    set_time(env, 1000);
    let token_client = TokenClient::new(env, &token);
    World { env, client, buyer, seller, arbitrator, token, token_client }
}

impl<'a> World<'a> {
    fn create(&self, with_arbitrator: bool, deadline: u64) -> u64 {
        let arbitrator = if with_arbitrator { Some(self.arbitrator.clone()) } else { None };
        self.client.create_escrow(&self.buyer, &self.seller, &arbitrator, &AMOUNT, &self.token, &deadline)
    }

    fn state(&self, id: u64) -> EscrowState {
        self.client.get_escrow(&id).state
    }

    fn held_by_contract(&self) -> i128 {
        self.token_client.balance(&self.client.id)
    }

    /// The names (second topic) of the events the contract published in the
    /// last invocation.
    fn last_event_names(&self) -> std::vec::Vec<std::string::String> {
        let all = self.env.events().all();
        let ours = all.filter_by_contract(&self.client.id);
        ours.events()
            .iter()
            .map(|e| {
                let ContractEventBody::V0(body) = &e.body;
                assert_eq!(body.topics[0], ScVal::Symbol("escrow".try_into().unwrap()));
                match &body.topics[1] {
                    ScVal::Symbol(s) => s.to_utf8_string().unwrap(),
                    other => panic!("unexpected topic {other:?}"),
                }
            })
            .collect()
    }
}

#[test]
fn test_create_escrow_errors_are_exact() {
    let env = new_env();
    let w = world(&env);
    let deadline = future_deadline(1000);
    assert_eq!(
        w.client.try_create_escrow(&w.buyer, &w.seller, &None, &0, &w.token, &deadline),
        Err(ContractError::InvalidAmount)
    );
    assert_eq!(
        w.client.try_create_escrow(&w.buyer, &w.seller, &None, &-5, &w.token, &deadline),
        Err(ContractError::InvalidAmount)
    );
    // amount is checked before the deadline
    assert_eq!(
        w.client.try_create_escrow(&w.buyer, &w.seller, &None, &0, &w.token, &500),
        Err(ContractError::InvalidAmount)
    );
    // a deadline equal to now is already passed
    assert_eq!(
        w.client.try_create_escrow(&w.buyer, &w.seller, &None, &AMOUNT, &w.token, &1000),
        Err(ContractError::DeadlinePassed)
    );
    // refused creations hand out no ID
    assert_eq!(w.client.run(|env| escrow::storage::escrow_count(env)), 0);
    assert_eq!(w.create(false, 1001), 1);
}

#[test]
fn test_ids_are_sequential_and_records_read_back() {
    let env = new_env();
    let w = world(&env);
    let a = w.create(false, 2000);
    let b = w.create(true, 3000);
    let c = w.create(false, 4000);
    assert_eq!((a, b, c), (1, 2, 3));
    assert_eq!(w.client.run(|env| escrow::storage::escrow_count(env)), 3);

    let e = w.client.get_escrow(&b);
    assert_eq!(e.escrow_id, 2);
    assert_eq!(e.buyer.address(), w.buyer);
    assert_eq!(e.seller.address(), w.seller);
    assert_eq!(e.arbitrator.as_ref().map(|x| x.address()), Some(w.arbitrator.clone()));
    assert_eq!(e.token.address(), w.token);
    assert_eq!(e.amount, AMOUNT);
    assert_eq!(e.deadline, 3000);
    assert_eq!(e.created_at, 1000);
    assert_eq!(e.state, EscrowState::Init);
    assert!(w.client.get_escrow(&a).arbitrator.is_none());
}

#[test]
fn test_missing_escrow_is_not_found() {
    let env = new_env();
    let w = world(&env);
    assert_eq!(w.client.try_get_escrow(&7).err(), Some(ContractError::NotFound));
    assert_eq!(w.client.try_fund_escrow(&7), Err(ContractError::NotFound));
    assert_eq!(w.client.try_confirm_delivery(&7), Err(ContractError::NotFound));
    assert_eq!(w.client.try_raise_dispute(&7, &w.buyer), Err(ContractError::NotFound));
    assert_eq!(w.client.try_resolve_dispute(&7, &true), Err(ContractError::NotFound));
    assert_eq!(w.client.try_refund_expired(&7), Err(ContractError::NotFound));
}

#[test]
fn test_deadline_splits_funding_and_expiry() {
    let env = new_env();
    let w = world(&env);
    let late = w.create(false, 1100);
    let on_time = w.create(false, 1100);
    // funding is open up to and including the deadline
    set_time(&env, 1100);
    w.client.fund_escrow(&on_time);
    assert_eq!(w.client.try_refund_expired(&on_time), Err(ContractError::DeadlineNotReached));
    set_time(&env, 1101);
    assert_eq!(w.client.try_fund_escrow(&late), Err(ContractError::DeadlinePassed));
    assert_eq!(w.state(late), EscrowState::Init);
    w.client.refund_expired(&on_time);
    assert_eq!(w.state(on_time), EscrowState::Expired);
    // an unfunded escrow cannot be refunded
    assert_eq!(w.client.try_refund_expired(&late), Err(ContractError::InvalidState));
}

#[test]
fn test_disputes_need_arbitrator_and_party() {
    let env = new_env();
    let w = world(&env);
    let id = w.create(true, future_deadline(1000));
    // not yet funded
    assert_eq!(w.client.try_raise_dispute(&id, &w.buyer), Err(ContractError::InvalidState));
    w.client.fund_escrow(&id);
    let stranger = Address::generate(&env);
    assert_eq!(w.client.try_raise_dispute(&id, &stranger), Err(ContractError::Unauthorized));
    assert_eq!(w.client.try_raise_dispute(&id, &w.arbitrator), Err(ContractError::Unauthorized));
    assert_eq!(w.state(id), EscrowState::Funded);
    // resolving needs a dispute first
    assert_eq!(w.client.try_resolve_dispute(&id, &true), Err(ContractError::InvalidState));
    w.client.raise_dispute(&id, &w.seller);
    assert_eq!(w.client.try_raise_dispute(&id, &w.buyer), Err(ContractError::InvalidState));
    // a disputed escrow can neither be confirmed nor refunded as expired
    assert_eq!(w.client.try_confirm_delivery(&id), Err(ContractError::InvalidState));
    set_time(&env, future_deadline(1000) + 1);
    assert_eq!(w.client.try_refund_expired(&id), Err(ContractError::InvalidState));

    let trustless = w.create(false, future_deadline(1000) + 100);
    w.client.fund_escrow(&trustless);
    assert_eq!(w.client.try_raise_dispute(&trustless, &w.buyer), Err(ContractError::Unauthorized));
}

#[test]
fn test_settled_escrows_refuse_everything() {
    let env = new_env();
    let w = world(&env);
    let completed = w.create(true, 5000);
    w.client.fund_escrow(&completed);
    w.client.confirm_delivery(&completed);
    let refunded = w.create(true, 5000);
    w.client.fund_escrow(&refunded);
    w.client.raise_dispute(&refunded, &w.buyer);
    w.client.resolve_dispute(&refunded, &false);
    set_time(&env, 900);
    let expired = w.create(true, 950);
    w.client.fund_escrow(&expired);
    set_time(&env, 951);
    w.client.refund_expired(&expired);

    for id in [completed, refunded, expired] {
        let before = w.state(id);
        assert_eq!(w.client.try_fund_escrow(&id), Err(ContractError::InvalidState));
        assert_eq!(w.client.try_confirm_delivery(&id), Err(ContractError::InvalidState));
        assert_eq!(w.client.try_raise_dispute(&id, &w.buyer), Err(ContractError::InvalidState));
        assert_eq!(w.client.try_resolve_dispute(&id, &true), Err(ContractError::InvalidState));
        assert_eq!(w.client.try_refund_expired(&id), Err(ContractError::InvalidState));
        assert_eq!(w.state(id), before);
    }
    assert_eq!(w.state(completed), EscrowState::Completed);
    assert_eq!(w.state(refunded), EscrowState::Refunded);
    assert_eq!(w.state(expired), EscrowState::Expired);
}

#[test]
fn test_no_operation_twice() {
    let env = new_env();
    let w = world(&env);
    let id = w.create(true, future_deadline(1000));
    w.client.fund_escrow(&id);
    assert_eq!(w.client.try_fund_escrow(&id), Err(ContractError::InvalidState));
    w.client.raise_dispute(&id, &w.buyer);
    assert_eq!(w.client.try_raise_dispute(&id, &w.buyer), Err(ContractError::InvalidState));

    let other = w.create(false, 1200);
    w.client.fund_escrow(&other);
    set_time(&env, 1201);
    w.client.refund_expired(&other);
    assert_eq!(w.client.try_refund_expired(&other), Err(ContractError::InvalidState));
}

#[test]
fn test_funds_are_conserved() {
    let env = new_env();
    let w = world(&env);
    let id = w.create(true, future_deadline(1000));
    assert_eq!(w.held_by_contract(), 0);
    w.client.fund_escrow(&id);
    assert_eq!(w.held_by_contract(), AMOUNT);
    assert_eq!(w.token_client.balance(&w.buyer), AMOUNT);
    w.client.raise_dispute(&id, &w.seller);
    assert_eq!(w.held_by_contract(), AMOUNT);
    w.client.resolve_dispute(&id, &true);
    assert_eq!(w.held_by_contract(), 0);
    assert_eq!(w.token_client.balance(&w.seller), AMOUNT);
    assert_eq!(w.token_client.balance(&w.buyer), AMOUNT);
    assert_eq!(w.token_client.balance(&w.arbitrator), 0);
}

#[test]
fn test_operations_touch_only_their_escrow() {
    let env = new_env();
    let w = world(&env);
    let first = w.create(true, future_deadline(1000));
    let second = w.create(true, future_deadline(1000));
    w.client.fund_escrow(&first);
    assert_eq!(w.state(second), EscrowState::Init);
    w.client.fund_escrow(&second);
    w.client.confirm_delivery(&first);
    assert_eq!(w.state(first), EscrowState::Completed);
    assert_eq!(w.state(second), EscrowState::Funded);
    let s = w.client.get_escrow(&second);
    assert_eq!(s.escrow_id, second);
    assert_eq!(s.amount, AMOUNT);
    assert_eq!(s.created_at, 1000);
    assert_eq!(s.deadline, future_deadline(1000));
    assert_eq!(w.held_by_contract(), AMOUNT);
}

#[test]
fn test_events_name_each_operation() {
    let env = new_env();
    let w = world(&env);
    let id = w.create(true, future_deadline(1000));
    assert_eq!(w.last_event_names(), ["escrow_created"]);
    w.client.fund_escrow(&id);
    assert_eq!(w.last_event_names(), ["escrow_funded"]);
    w.client.raise_dispute(&id, &w.buyer);
    assert_eq!(w.last_event_names(), ["dispute_raised"]);
    w.client.resolve_dispute(&id, &false);
    assert_eq!(w.last_event_names(), ["dispute_resolved", "escrow_refunded"]);

    let paid = w.create(true, future_deadline(1000));
    w.client.fund_escrow(&paid);
    w.client.raise_dispute(&paid, &w.seller);
    w.client.resolve_dispute(&paid, &true);
    assert_eq!(w.last_event_names(), ["dispute_resolved"]);

    let expired = w.create(false, 1500);
    w.client.fund_escrow(&expired);
    set_time(&env, 1501);
    w.client.refund_expired(&expired);
    assert_eq!(w.last_event_names(), ["escrow_expired"]);

    let confirmed = w.create(false, future_deadline(1000));
    w.client.fund_escrow(&confirmed);
    w.client.confirm_delivery(&confirmed);
    assert_eq!(w.last_event_names(), ["delivery_confirmed"]);
}

#[test]
fn test_refused_operation_publishes_nothing() {
    let env = new_env();
    let w = world(&env);
    let id = w.create(false, future_deadline(1000));
    assert_eq!(w.client.try_confirm_delivery(&id), Err(ContractError::InvalidState));
    assert!(w.last_event_names().is_empty());
}

#[test]
fn test_event_payloads() {
    let env = new_env();
    let w = world(&env);
    let id = w.create(true, future_deadline(1000));
    let expected: soroban_sdk::Vec<(Address, soroban_sdk::Vec<Val>, Val)> = soroban_sdk::Vec::from_array(
        &env,
        [(
            w.client.id.clone(),
            (Symbol::new(&env, "escrow"), Symbol::new(&env, "escrow_created")).into_val(&env),
            (id, w.buyer.clone(), w.seller.clone()).into_val(&env),
        )],
    );
    assert_eq!(env.events().all().filter_by_contract(&w.client.id), expected);
    w.client.fund_escrow(&id);
    w.client.raise_dispute(&id, &w.seller);
    let expected: soroban_sdk::Vec<(Address, soroban_sdk::Vec<Val>, Val)> = soroban_sdk::Vec::from_array(
        &env,
        [(
            w.client.id.clone(),
            (Symbol::new(&env, "escrow"), Symbol::new(&env, "dispute_raised")).into_val(&env),
            (id, w.seller.clone()).into_val(&env),
        )],
    );
    assert_eq!(env.events().all().filter_by_contract(&w.client.id), expected);
}

#[test]
fn test_error_codes() {
    let all = [
        ContractError::NotFound,
        ContractError::Unauthorized,
        ContractError::InvalidState,
        ContractError::DeadlinePassed,
        ContractError::DeadlineNotReached,
        ContractError::InvalidAmount,
        ContractError::AlreadyExists,
    ];
    let codes: std::vec::Vec<u32> = all.iter().map(|e| e.code()).collect();
    assert_eq!(codes, [1, 2, 3, 4, 5, 6, 7]);
}

#[test]
fn test_state_codes() {
    assert_eq!(EscrowState::from_code(0), Some(EscrowState::Init));
    assert_eq!(EscrowState::from_code(3), Some(EscrowState::Disputed));
    assert_eq!(EscrowState::from_code(5), Some(EscrowState::Expired));
    assert_eq!(EscrowState::from_code(6), None);
}

#[test]
fn test_validate_new_escrow() {
    assert_eq!(validate_new_escrow(1, 11, 10), Ok(()));
    assert_eq!(validate_new_escrow(1, 10, 10), Err(ContractError::DeadlinePassed));
    assert_eq!(validate_new_escrow(0, 11, 10), Err(ContractError::InvalidAmount));
    assert_eq!(validate_new_escrow(-1, 9, 10), Err(ContractError::InvalidAmount));
}

#[test]
fn test_settlement() {
    assert_eq!(settlement(EscrowState::Init, EscrowState::Funded), Settlement::Deposit);
    assert_eq!(settlement(EscrowState::Funded, EscrowState::Completed), Settlement::PaySeller);
    assert_eq!(settlement(EscrowState::Disputed, EscrowState::Completed), Settlement::PaySeller);
    assert_eq!(settlement(EscrowState::Funded, EscrowState::Disputed), Settlement::Hold);
    assert_eq!(settlement(EscrowState::Disputed, EscrowState::Refunded), Settlement::RefundBuyer);
    assert_eq!(settlement(EscrowState::Funded, EscrowState::Expired), Settlement::RefundBuyer);
}

#[test]
fn test_next_state_decisions() {
    let env = new_env();
    let w = world(&env);
    let id = w.create(true, 2000);
    let e = w.client.get_escrow(&id);
    let buyer = AccountId::new(w.buyer.clone());
    let stranger = AccountId::new(Address::generate(&env));
    assert_eq!(next_state(&e, &Action::Fund, 2000), Ok(EscrowState::Funded));
    assert_eq!(next_state(&e, &Action::Fund, 2001), Err(ContractError::DeadlinePassed));
    assert_eq!(next_state(&e, &Action::ConfirmDelivery, 0), Err(ContractError::InvalidState));
    w.client.fund_escrow(&id);
    let f = w.client.get_escrow(&id);
    assert_eq!(next_state(&f, &Action::ConfirmDelivery, 0), Ok(EscrowState::Completed));
    assert_eq!(next_state(&f, &Action::RaiseDispute(&buyer), 0), Ok(EscrowState::Disputed));
    assert_eq!(next_state(&f, &Action::RaiseDispute(&stranger), 0), Err(ContractError::Unauthorized));
    assert_eq!(next_state(&f, &Action::RefundExpired, 2000), Err(ContractError::DeadlineNotReached));
    assert_eq!(next_state(&f, &Action::RefundExpired, 2001), Ok(EscrowState::Expired));
    assert_eq!(next_state(&f, &Action::ResolveDispute(true), 0), Err(ContractError::InvalidState));
}

#[test]
fn test_accounts_keep_their_address() {
    let env = new_env();
    let a = Address::generate(&env);
    let b = Address::generate(&env);
    assert_eq!(AccountId::new(a.clone()).address(), a);
    assert_eq!(AccountId::new(b.clone()).address(), b);
    assert_ne!(AccountId::new(a).address(), b);
}

/// The address whose authorization `a` on `e` asks for.
fn signer(e: &Escrow, a: &Action) -> Option<Address> {
    authorizer(e, a).map(|s| s.address())
}

#[test]
fn test_authorizers() {
    let env = new_env();
    let w = world(&env);
    let with = w.client.get_escrow(&w.create(true, 5000));
    let without = w.client.get_escrow(&w.create(false, 5000));
    let stranger = AccountId::new(Address::generate(&env));
    assert_eq!(signer(&with, &Action::Fund), Some(w.buyer.clone()));
    assert_eq!(signer(&with, &Action::ConfirmDelivery), Some(w.buyer.clone()));
    assert_eq!(signer(&with, &Action::RaiseDispute(&stranger)), Some(stranger.address()));
    assert_eq!(signer(&with, &Action::ResolveDispute(true)), Some(w.arbitrator.clone()));
    assert_eq!(signer(&without, &Action::ResolveDispute(false)), None);
    assert_eq!(signer(&with, &Action::RefundExpired), None);
}

#[test]
fn test_operations_demand_authorization() {
    let env = new_env();
    let w = world(&env);
    let id = w.create(true, future_deadline(1000));
    env.set_auths(&[]);
    let mut host = env.clone();
    let attempt = env.try_as_contract::<Result<(), ContractError>, soroban_sdk::Error>(&w.client.id, || {
        EscrowContract::fund_escrow(&mut host, id)
    });
    assert!(attempt.is_err());
    env.mock_all_auths();
    assert_eq!(w.state(id), EscrowState::Init);
    w.client.fund_escrow(&id);
    assert_eq!(w.state(id), EscrowState::Funded);
}

#[test]
fn test_refused_operations_move_no_funds() {
    let env = new_env();
    let w = world(&env);
    let id = w.create(true, 1200);
    w.client.fund_escrow(&id);
    let (buyer, seller, held) = (w.token_client.balance(&w.buyer), w.token_client.balance(&w.seller), w.held_by_contract());
    assert_eq!(w.client.try_fund_escrow(&id), Err(ContractError::InvalidState));
    assert_eq!(w.client.try_refund_expired(&id), Err(ContractError::DeadlineNotReached));
    assert_eq!(w.client.try_resolve_dispute(&id, &true), Err(ContractError::InvalidState));
    w.client.raise_dispute(&id, &w.buyer);
    assert_eq!(w.client.try_confirm_delivery(&id), Err(ContractError::InvalidState));
    assert_eq!(w.token_client.balance(&w.buyer), buyer);
    assert_eq!(w.token_client.balance(&w.seller), seller);
    assert_eq!(w.held_by_contract(), held);
    assert_eq!(held, AMOUNT);
}

#[test]
fn test_escrows_can_be_cloned() {
    let env = new_env();
    let w = world(&env);
    let id = w.create(true, 5000);
    let e = w.client.get_escrow(&id);
    let copy = e.clone();
    assert_eq!(copy.escrow_id, e.escrow_id);
    assert_eq!(copy.buyer.address(), w.buyer);
    assert_eq!(copy.state, e.state);
}

#[test]
fn test_ids_increase_across_other_operations() {
    let env = new_env();
    let w = world(&env);
    let first = w.create(true, 5000);
    assert_eq!(
        w.client.try_create_escrow(&w.buyer, &w.seller, &None, &0, &w.token, &5000),
        Err(ContractError::InvalidAmount)
    );
    w.client.fund_escrow(&first);
    w.client.raise_dispute(&first, &w.seller);
    assert_eq!(w.client.try_fund_escrow(&first), Err(ContractError::InvalidState));
    assert_eq!(w.client.run(|env| escrow::storage::escrow_count(env)), 1);
    let second = w.create(false, 5000);
    assert_eq!(second, first + 1);
}
