//! The contract on a host, against a stand-in for Tholos that takes real bonds.

use asserter_consumer::config::{
    DataKey, DAY_IN_LEDGERS, INSTANCE_BUMP_AMOUNT, INSTANCE_LIFETIME_THRESHOLD,
};
use asserter_consumer::consumer::AsserterConsumer;
use asserter_consumer::error::Error;
use asserter_consumer::host::Host;
use asserter_consumer::tholos::ErrorCodes;
use soroban_sdk::testutils::storage::Instance as _;
use soroban_sdk::testutils::{
    Address as _, AuthorizedFunction, AuthorizedInvocation, ContractFunctionSet, Deployer as _,
    EnvTestConfig, Ledger as _, MockAuth, MockAuthInvoke,
};
use soroban_sdk::{
    token, Address, Env, FromVal, IntoVal, InvokeError, Symbol, TryFromVal, Val, Vec,
};

const CODES: ErrorCodes = ErrorCodes { not_initialized: 2, paused: 9, assertion_not_found: 5 };

const ALREADY_INITIALIZED: u32 = 1;

fn contract_error(code: u32) -> Val {
    soroban_sdk::Error::from_contract_error(code).to_val()
}

fn symbol(env: &Env, name: &str) -> Symbol {
    Symbol::new(env, name)
}

/// Makes out the assertions of the stand-in for Tholos.
fn decode_assertion(env: &Env, value: &Val) -> Result<soroban_sdk::Map<Symbol, Val>, ()> {
    soroban_sdk::Map::try_from_val(env, value).map_err(|_| ())
}

/// The contract, as the host dispatches to it.
struct Contract;

impl ContractFunctionSet for Contract {
    fn call(&self, func: &str, env: Env, args: &[Val]) -> Option<Val> {
        let mut host = Host::new(env.clone());
        let result = match func {
            "__constructor" => {
                AsserterConsumer::__constructor(&mut host, Address::from_val(&env, &args[0]));
                Ok(().into_val(&env))
            }
            "initialize" => AsserterConsumer::initialize(
                &mut host,
                Address::from_val(&env, &args[0]),
                Address::from_val(&env, &args[1]),
            )
            .map(|done| done.into_val(&env)),
            "create_assertion_as_self" => AsserterConsumer::create_assertion_as_self(
                &mut host,
                &CODES,
                i128::from_val(&env, &args[0]),
                bool::from_val(&env, &args[1]),
            )
            .map(|id| id.into_val(&env)),
            "get_status" => AsserterConsumer::get_status(
                &mut host,
                &CODES,
                u64::from_val(&env, &args[0]),
                decode_assertion,
            )
            .map(|assertion| assertion.to_val()),
            _ => return None,
        };
        Some(result.unwrap_or_else(|error| contract_error(error.code())))
    }
}

/// A stand-in for Tholos: it takes bonds and keeps assertions.
struct Tholos;

impl ContractFunctionSet for Tholos {
    fn call(&self, func: &str, env: Env, args: &[Val]) -> Option<Val> {
        let store = env.storage().instance();
        let token = symbol(&env, "token");
        let bond = symbol(&env, "bond");
        let paused = symbol(&env, "paused");
        let next = symbol(&env, "next");
        Some(match func {
            "__constructor" => {
                let admin = Address::from_val(&env, &args[0]);
                admin.require_auth();
                store.set(&symbol(&env, "admin"), &admin);
                ().into_val(&env)
            }
            "initialize" => {
                if store.has(&token) {
                    return Some(contract_error(ALREADY_INITIALIZED));
                }
                let admin: Address = store.get(&symbol(&env, "admin")).unwrap();
                admin.require_auth();
                store.set(&token, &args[0]);
                store.set(&bond, &args[1]);
                ().into_val(&env)
            }
            "set_paused" => {
                let admin: Address = store.get(&symbol(&env, "admin")).unwrap();
                admin.require_auth();
                store.set(&paused, &bool::from_val(&env, &args[0]));
                ().into_val(&env)
            }
            "assert_outcome" => {
                let token: Address = match store.get(&token) {
                    Some(token) => token,
                    None => return Some(contract_error(CODES.not_initialized)),
                };
                if store.get(&paused).unwrap_or(false) {
                    return Some(contract_error(CODES.paused));
                }
                let bond: i128 = store.get(&bond).unwrap();
                let asserter = Address::from_val(&env, &args[0]);
                asserter.require_auth();
                token::Client::new(&env, &token).transfer(
                    &asserter,
                    &env.current_contract_address(),
                    &bond,
                );
                let id: u64 = store.get(&next).unwrap_or(0);
                let mut assertion = soroban_sdk::Map::<Symbol, Val>::new(&env);
                assertion.set(symbol(&env, "asserter"), asserter.to_val());
                assertion.set(symbol(&env, "outcome"), args[1]);
                store.set(&id, &assertion);
                store.set(&next, &(id + 1));
                id.into_val(&env)
            }
            "get_assertion_state" => match store.get::<u64, Val>(&u64::from_val(&env, &args[0])) {
                Some(assertion) => assertion,
                None => contract_error(CODES.assertion_not_found),
            },
            _ => return None,
        })
    }
}

/// A contract that answers like nothing a consumer expects.
struct Stranger;

impl ContractFunctionSet for Stranger {
    fn call(&self, func: &str, env: Env, args: &[Val]) -> Option<Val> {
        match func {
            "assert_outcome" => Some(symbol(&env, "not_an_id").to_val()),
            "get_assertion_state" => Some(match u64::from_val(&env, &args[0]) {
                100 => symbol(&env, "not_an_assertion").to_val(),
                id => contract_error(ALREADY_INITIALIZED + id as u32),
            }),
            _ => None,
        }
    }
}

fn new_env() -> Env {
    Env::new_with_config(EnvTestConfig { capture_snapshot_at_drop: false })
}

/// What an invocation of the contract came to.
type Outcome<T> = Result<T, Result<Error, InvokeError>>;

fn error_of(code: u32) -> Option<Error> {
    [
        Error::InvalidTholosId,
        Error::TholosNotInitialized,
        Error::TholosPaused,
        Error::AssertionNotFound,
        Error::NotInitialized,
        Error::AlreadyInitialized,
    ]
    .into_iter()
    .find(|error| error.code() == code)
}

fn try_invoke<T: TryFromVal<Env, Val>>(
    env: &Env,
    contract: &Address,
    func: &str,
    args: Vec<Val>,
) -> Outcome<T> {
    match env.try_invoke_contract::<T, InvokeError>(contract, &symbol(env, func), args) {
        Ok(Ok(value)) => Ok(value),
        Ok(Err(_)) => panic!("the returned value does not decode"),
        Err(Ok(InvokeError::Contract(code))) => {
            Err(error_of(code).ok_or(InvokeError::Contract(code)))
        }
        Err(Ok(failure)) | Err(Err(failure)) => Err(Err(failure)),
    }
}

/// A client of the contract.
struct Client {
    env: Env,
    id: Address,
}

impl Client {
    fn initialize(&self, tholos_id: &Address, token_id: &Address) {
        self.env.invoke_contract(
            &self.id,
            &symbol(&self.env, "initialize"),
            (tholos_id, token_id).into_val(&self.env),
        )
    }

    fn try_initialize(&self, tholos_id: &Address, token_id: &Address) -> Outcome<()> {
        let args = (tholos_id, token_id).into_val(&self.env);
        try_invoke(&self.env, &self.id, "initialize", args)
    }

    fn create_assertion_as_self(&self, bond_amount: i128, outcome: bool) -> u64 {
        self.env.invoke_contract(
            &self.id,
            &symbol(&self.env, "create_assertion_as_self"),
            (bond_amount, outcome).into_val(&self.env),
        )
    }

    fn try_create_assertion_as_self(&self, bond_amount: i128, outcome: bool) -> Outcome<u64> {
        let args = (bond_amount, outcome).into_val(&self.env);
        try_invoke(&self.env, &self.id, "create_assertion_as_self", args)
    }

    fn get_status(&self, id: u64) -> soroban_sdk::Map<Symbol, Val> {
        self.env.invoke_contract(
            &self.id,
            &symbol(&self.env, "get_status"),
            (id,).into_val(&self.env),
        )
    }

    fn try_get_status(&self, id: u64) -> Outcome<soroban_sdk::Map<Symbol, Val>> {
        let args = (id,).into_val(&self.env);
        try_invoke(&self.env, &self.id, "get_status", args)
    }
}

fn asserter(env: &Env, state: &soroban_sdk::Map<Symbol, Val>) -> Address {
    Address::from_val(env, &state.get(symbol(env, "asserter")).unwrap())
}

fn outcome(env: &Env, state: &soroban_sdk::Map<Symbol, Val>) -> bool {
    bool::from_val(env, &state.get(symbol(env, "outcome")).unwrap())
}

fn three_addresses(env: &Env) -> Vec<Address> {
    Vec::from_array(
        env,
        [Address::generate(env), Address::generate(env), Address::generate(env)],
    )
}

/// A registered token, resolver committee, Tholos instance, and consumer.
struct Fixture {
    env: Env,
    tholos_id: Address,
    token_id: Address,
    consumer_id: Address,
    consumer_admin: Address,
    consumer_client: Client,
    resolvers: Vec<Address>,
    bond_amount: i128,
}

impl Fixture {
    fn new() -> Self {
        let env = new_env();

        env.mock_all_auths_allowing_non_root_auth();
        let tholos_admin = Address::generate(&env);
        let tholos_id = env.register(Tholos, (tholos_admin,));

        let token_admin = Address::generate(&env);
        let token_id = env.register_stellar_asset_contract_v2(token_admin).address();

        let resolvers = three_addresses(&env);

        let consumer_admin = Address::generate(&env);
        let consumer_id = env.register(Contract, (consumer_admin.clone(),));
        let consumer_client = Client { env: env.clone(), id: consumer_id.clone() };

        Fixture {
            env,
            tholos_id,
            token_id,
            consumer_id,
            consumer_admin,
            consumer_client,
            resolvers,
            bond_amount: 100,
        }
    }

    fn initialize_tholos(&self) {
        self.env.mock_all_auths();
        self.env.invoke_contract::<()>(
            &self.tholos_id,
            &symbol(&self.env, "initialize"),
            (&self.token_id, self.bond_amount, 3600u64, &self.resolvers, 0u32).into_val(&self.env),
        );
    }

    fn pause_tholos(&self) {
        self.env.invoke_contract::<()>(
            &self.tholos_id,
            &symbol(&self.env, "set_paused"),
            (true,).into_val(&self.env),
        );
    }

    fn initialize_consumer(&self) {
        self.env.mock_all_auths();
        self.consumer_client.initialize(&self.tholos_id, &self.token_id);
    }

    fn initialize_all(&self) {
        self.initialize_tholos();
        self.initialize_consumer();
    }

    fn fund_consumer(&self) {
        self.env.mock_all_auths();
        token::StellarAssetClient::new(&self.env, &self.token_id).mint(&self.consumer_id, &1_000);
    }

    fn balance(&self, owner: &Address) -> i128 {
        token::Client::new(&self.env, &self.token_id).balance(owner)
    }

    fn instance_ttl(&self) -> u32 {
        self.env.as_contract(&self.consumer_id, || self.env.storage().instance().get_ttl())
    }

    fn stored(&self, key: DataKey) -> Option<Address> {
        let key = (symbol(&self.env, key.name()),);
        let key: Vec<Val> = key.into_val(&self.env);
        self.env.as_contract(&self.consumer_id, || self.env.storage().instance().get(&key))
    }
}

/// A consumer that is pointed at `tholos_id`, with every authorization granted.
fn consumer_of(env: &Env, tholos_id: &Address) -> Client {
    let token_id = Address::generate(env);
    let admin = Address::generate(env);
    let id = env.register(Contract, (admin,));
    let client = Client { env: env.clone(), id };
    client.initialize(tholos_id, &token_id);
    client
}

#[test]
fn test_asserter_consumer_can_assert_as_itself_through_tholos() {
    let env = new_env();

    // Past the constructors, every call is granted the one signature that it needs and no other,
    // so that the transfer of the bond rests on what the contract itself authorizes.
    let admin = Address::generate(&env);
    env.mock_all_auths_allowing_non_root_auth();
    let tholos_id = env.register(Tholos, (admin.clone(),));

    let token_admin = Address::generate(&env);
    let token_contract = env.register_stellar_asset_contract_v2(token_admin.clone());
    let token_id = token_contract.address();
    let token_asset_client = token::StellarAssetClient::new(&env, &token_id);

    let resolvers = three_addresses(&env);
    let bond_amount: i128 = 100;

    let tholos_args: Vec<Val> =
        (&token_id, bond_amount, 3600u64, &resolvers, 0u32).into_val(&env);
    env.mock_auths(&[MockAuth {
        address: &admin,
        invoke: &MockAuthInvoke {
            contract: &tholos_id,
            fn_name: "initialize",
            args: tholos_args.clone(),
            sub_invokes: &[],
        },
    }]);
    env.invoke_contract::<()>(&tholos_id, &symbol(&env, "initialize"), tholos_args);

    let consumer_admin = Address::generate(&env);
    env.mock_all_auths_allowing_non_root_auth();
    let consumer_id = env.register(Contract, (consumer_admin.clone(),));
    let consumer_client = Client { env: env.clone(), id: consumer_id.clone() };

    env.mock_auths(&[MockAuth {
        address: &consumer_admin,
        invoke: &MockAuthInvoke {
            contract: &consumer_id,
            fn_name: "initialize",
            args: (tholos_id.clone(), token_id.clone()).into_val(&env),
            sub_invokes: &[],
        },
    }]);
    consumer_client.initialize(&tholos_id, &token_id);

    // The bond comes from the contract's own balance.
    env.mock_auths(&[MockAuth {
        address: &token_admin,
        invoke: &MockAuthInvoke {
            contract: &token_id,
            fn_name: "mint",
            args: (consumer_id.clone(), 1_000i128).into_val(&env),
            sub_invokes: &[],
        },
    }]);
    token_asset_client.mint(&consumer_id, &1_000);

    env.mock_auths(&[MockAuth {
        address: &consumer_admin,
        invoke: &MockAuthInvoke {
            contract: &consumer_id,
            fn_name: "create_assertion_as_self",
            args: (bond_amount, true).into_val(&env),
            sub_invokes: &[],
        },
    }]);
    let id = consumer_client.create_assertion_as_self(bond_amount, true);

    let state = consumer_client.get_status(id);
    assert!(outcome(&env, &state));
    assert_eq!(asserter(&env, &state), consumer_id);
    assert_eq!(token::Client::new(&env, &token_id).balance(&consumer_id), 900);
    assert_eq!(token::Client::new(&env, &token_id).balance(&tholos_id), 100);
}

#[test]
fn test_cannot_initialize_twice_and_preserves_trusted_configuration() {
    let f = Fixture::new();
    f.initialize_all();
    f.fund_consumer();

    let attacker_tholos = Address::generate(&f.env);
    let attacker_token = Address::generate(&f.env);
    assert_eq!(
        f.consumer_client.try_initialize(&attacker_tholos, &attacker_token),
        Err(Ok(Error::AlreadyInitialized))
    );

    let id = f.consumer_client.create_assertion_as_self(f.bond_amount, true);

    assert_eq!(f.balance(&f.consumer_id), 900);
    assert_eq!(f.balance(&f.tholos_id), 100);
    assert_eq!(f.balance(&attacker_tholos), 0);

    let state = f.consumer_client.get_status(id);
    assert_eq!(asserter(&f.env, &state), f.consumer_id);
    assert!(outcome(&f.env, &state));
}

#[test]
fn test_instance_storage_ttl_is_extended_by_create_assertion() {
    let f = Fixture::new();
    f.initialize_all();
    f.fund_consumer();

    assert_eq!(f.instance_ttl(), INSTANCE_BUMP_AMOUNT);

    f.env.ledger().with_mut(|l| l.sequence_number += INSTANCE_BUMP_AMOUNT - 10);

    f.consumer_client.create_assertion_as_self(f.bond_amount, true);
    assert_eq!(f.instance_ttl(), INSTANCE_BUMP_AMOUNT);
}

#[test]
fn test_create_assertion_as_self_fails_before_initialization() {
    let f = Fixture::new();
    f.env.mock_all_auths();

    assert_eq!(
        f.consumer_client.try_create_assertion_as_self(f.bond_amount, true),
        Err(Ok(Error::NotInitialized))
    );
}

#[test]
fn test_get_status_fails_before_initialization() {
    let f = Fixture::new();
    assert_eq!(f.consumer_client.try_get_status(0), Err(Ok(Error::NotInitialized)));
}

#[test]
fn test_create_assertion_as_self_fails_against_uninitialized_tholos() {
    let f = Fixture::new();
    f.initialize_consumer();
    f.env.mock_all_auths();

    assert_eq!(
        f.consumer_client.try_create_assertion_as_self(f.bond_amount, true),
        Err(Ok(Error::TholosNotInitialized))
    );
}

#[test]
fn test_create_assertion_as_self_fails_when_tholos_paused() {
    let f = Fixture::new();
    f.initialize_all();

    f.env.mock_all_auths();
    f.pause_tholos();

    assert_eq!(
        f.consumer_client.try_create_assertion_as_self(f.bond_amount, true),
        Err(Ok(Error::TholosPaused))
    );
}

#[test]
fn test_create_assertion_as_self_fails_for_invalid_tholos_id() {
    let env = new_env();
    env.mock_all_auths();
    let not_a_tholos_instance = Address::generate(&env);

    let consumer_client = consumer_of(&env, &not_a_tholos_instance);

    let result = consumer_client.try_create_assertion_as_self(100, true);
    assert_eq!(result, Err(Ok(Error::InvalidTholosId)));
}

#[test]
fn test_get_status_fails_for_nonexistent_assertion() {
    let f = Fixture::new();
    f.initialize_all();

    assert_eq!(f.consumer_client.try_get_status(999), Err(Ok(Error::AssertionNotFound)));
}

#[test]
fn test_get_status_fails_for_invalid_tholos_id() {
    let env = new_env();
    env.mock_all_auths();
    let not_a_tholos_instance = Address::generate(&env);

    let consumer_client = consumer_of(&env, &not_a_tholos_instance);

    let result = consumer_client.try_get_status(0);
    assert_eq!(result, Err(Ok(Error::InvalidTholosId)));
}

#[test]
#[should_panic]
fn test_create_assertion_as_self_rejects_unauthorized_caller() {
    let f = Fixture::new();
    f.initialize_all();

    let attacker = Address::generate(&f.env);
    f.env.mock_auths(&[MockAuth {
        address: &attacker,
        invoke: &MockAuthInvoke {
            contract: &f.consumer_id,
            fn_name: "create_assertion_as_self",
            args: (f.bond_amount, true).into_val(&f.env),
            sub_invokes: &[],
        },
    }]);
    f.consumer_client.create_assertion_as_self(f.bond_amount, true);
}

#[test]
#[should_panic]
fn test_create_assertion_as_self_rejects_missing_auth() {
    let f = Fixture::new();
    f.initialize_all();

    f.env.mock_auths(&[]);
    f.consumer_client.create_assertion_as_self(f.bond_amount, true);
}

#[test]
#[should_panic]
fn test_initialize_rejects_caller_without_admin_auth() {
    let env = new_env();
    env.mock_all_auths_allowing_non_root_auth();
    let admin = Address::generate(&env);
    let attacker = Address::generate(&env);
    let tholos_id = Address::generate(&env);
    let token_id = Address::generate(&env);

    let consumer_id = env.register(Contract, (admin,));
    let consumer_client = Client { env: env.clone(), id: consumer_id.clone() };

    env.mock_auths(&[MockAuth {
        address: &attacker,
        invoke: &MockAuthInvoke {
            contract: &consumer_id,
            fn_name: "initialize",
            args: (tholos_id.clone(), token_id.clone()).into_val(&env),
            sub_invokes: &[],
        },
    }]);
    consumer_client.initialize(&tholos_id, &token_id);
}

#[test]
#[should_panic]
fn test_constructor_requires_admin_auth() {
    let env = new_env();
    let admin = Address::generate(&env);

    let _ = env.register(Contract, (admin,));
}

// Reaching each rejected call above takes a set-up that does not itself panic.
#[test]
fn rejected_calls_are_reached_and_change_nothing() {
    let f = Fixture::new();
    f.initialize_all();
    f.fund_consumer();

    f.env.mock_auths(&[]);
    assert_eq!(
        f.consumer_client.try_create_assertion_as_self(f.bond_amount, true),
        Err(Err(InvokeError::Abort))
    );
    assert_eq!(f.balance(&f.consumer_id), 1_000);
    assert_eq!(f.balance(&f.tholos_id), 0);
    assert_eq!(f.consumer_client.try_get_status(0), Err(Ok(Error::AssertionNotFound)));
}

#[test]
fn initialize_without_authorization_leaves_the_instance_open() {
    let f = Fixture::new();
    f.env.mock_auths(&[]);
    assert_eq!(
        f.consumer_client.try_initialize(&f.tholos_id, &f.token_id),
        Err(Err(InvokeError::Abort))
    );
    assert_eq!(f.stored(DataKey::Tholos), None);
    assert_eq!(f.stored(DataKey::Token), None);

    f.initialize_consumer();
    assert_eq!(f.stored(DataKey::Tholos), Some(f.tholos_id.clone()));
}

#[test]
fn storage_holds_what_was_pinned() {
    let f = Fixture::new();
    assert_eq!(f.stored(DataKey::Admin), Some(f.consumer_admin.clone()));
    assert_eq!(f.stored(DataKey::Tholos), None);
    assert_eq!(f.stored(DataKey::Token), None);

    f.initialize_consumer();
    assert_eq!(f.stored(DataKey::Admin), Some(f.consumer_admin.clone()));
    assert_eq!(f.stored(DataKey::Tholos), Some(f.tholos_id.clone()));
    assert_eq!(f.stored(DataKey::Token), Some(f.token_id.clone()));

    let entries =
        f.env.as_contract(&f.consumer_id, || f.env.storage().instance().all());
    assert_eq!(entries.len(), 3);
}

#[test]
fn storage_is_the_same_after_every_later_invocation() {
    let f = Fixture::new();
    f.initialize_all();
    f.fund_consumer();
    let other = Address::generate(&f.env);

    let id = f.consumer_client.create_assertion_as_self(f.bond_amount, false);
    let state = f.consumer_client.get_status(id);
    assert!(!outcome(&f.env, &state));
    assert_eq!(
        f.consumer_client.try_initialize(&other, &other),
        Err(Ok(Error::AlreadyInitialized))
    );

    assert_eq!(f.stored(DataKey::Admin), Some(f.consumer_admin.clone()));
    assert_eq!(f.stored(DataKey::Tholos), Some(f.tholos_id.clone()));
    assert_eq!(f.stored(DataKey::Token), Some(f.token_id.clone()));
}

#[test]
fn only_the_admin_is_asked_for_authorization() {
    let f = Fixture::new();
    f.initialize_all();
    f.fund_consumer();

    f.consumer_client.create_assertion_as_self(f.bond_amount, true);
    let invocation = AuthorizedInvocation {
        function: AuthorizedFunction::Contract((
            f.consumer_id.clone(),
            symbol(&f.env, "create_assertion_as_self"),
            (f.bond_amount, true).into_val(&f.env),
        )),
        sub_invocations: vec![],
    };
    assert_eq!(f.env.auths(), vec![(f.consumer_admin.clone(), invocation)]);

    f.consumer_client.get_status(0);
    assert_eq!(f.env.auths(), vec![]);
}

#[test]
fn a_bond_other_than_the_one_authorized_is_not_paid() {
    let f = Fixture::new();
    f.initialize_all();
    f.fund_consumer();

    for bond_amount in [f.bond_amount - 1, f.bond_amount + 1] {
        f.env.mock_auths(&[MockAuth {
            address: &f.consumer_admin,
            invoke: &MockAuthInvoke {
                contract: &f.consumer_id,
                fn_name: "create_assertion_as_self",
                args: (bond_amount, true).into_val(&f.env),
                sub_invokes: &[],
            },
        }]);
        assert_eq!(
            f.consumer_client.try_create_assertion_as_self(bond_amount, true),
            Err(Ok(Error::InvalidTholosId))
        );
        assert_eq!(f.balance(&f.consumer_id), 1_000);
    }
}

#[test]
fn a_bond_that_the_contract_cannot_pay_fails() {
    let f = Fixture::new();
    f.initialize_all();

    assert_eq!(
        f.consumer_client.try_create_assertion_as_self(f.bond_amount, true),
        Err(Ok(Error::InvalidTholosId))
    );
}

#[test]
fn assertions_get_ids_of_their_own() {
    let f = Fixture::new();
    f.initialize_all();
    f.fund_consumer();

    assert_eq!(f.consumer_client.create_assertion_as_self(f.bond_amount, true), 0);
    assert_eq!(f.consumer_client.create_assertion_as_self(f.bond_amount, false), 1);
    assert!(outcome(&f.env, &f.consumer_client.get_status(0)));
    assert!(!outcome(&f.env, &f.consumer_client.get_status(1)));
    assert_eq!(f.balance(&f.consumer_id), 800);
}

#[test]
fn an_account_is_not_a_tholos_instance() {
    let env = new_env();
    env.mock_all_auths();
    let account =
        Address::from_str(&env, "GA7QYNF7SOWQ3GLR2BGMZEHXAVIRZA4KVWLTJJFC7MGXUA74P7UJVSGZ");

    let consumer_client = consumer_of(&env, &account);

    assert_eq!(
        consumer_client.try_create_assertion_as_self(100, true),
        Err(Ok(Error::InvalidTholosId))
    );
    assert_eq!(consumer_client.try_get_status(0), Err(Ok(Error::InvalidTholosId)));
}

#[test]
fn a_contract_that_answers_otherwise_is_not_a_tholos_instance() {
    let env = new_env();
    env.mock_all_auths();
    let stranger = env.register(Stranger, ());

    let consumer_client = consumer_of(&env, &stranger);

    assert_eq!(
        consumer_client.try_create_assertion_as_self(100, true),
        Err(Ok(Error::InvalidTholosId))
    );
    assert_eq!(consumer_client.try_get_status(0), Err(Ok(Error::InvalidTholosId)));
    assert_eq!(consumer_client.try_get_status(4), Err(Ok(Error::AssertionNotFound)));
    assert_eq!(consumer_client.try_get_status(100), Err(Ok(Error::InvalidTholosId)));
}

#[test]
fn instance_above_the_threshold_is_left_alone() {
    let f = Fixture::new();
    f.initialize_all();
    f.fund_consumer();

    f.env.ledger().with_mut(|l| l.sequence_number += DAY_IN_LEDGERS - 1);
    f.consumer_client.create_assertion_as_self(f.bond_amount, true);
    assert_eq!(f.instance_ttl(), INSTANCE_LIFETIME_THRESHOLD + 1);

    f.env.ledger().with_mut(|l| l.sequence_number += 1);
    f.consumer_client.create_assertion_as_self(f.bond_amount, true);
    assert_eq!(f.instance_ttl(), INSTANCE_BUMP_AMOUNT);
}

#[test]
fn reading_a_status_does_not_extend_the_instance() {
    let f = Fixture::new();
    f.initialize_all();
    f.fund_consumer();
    let id = f.consumer_client.create_assertion_as_self(f.bond_amount, true);

    f.env.ledger().with_mut(|l| l.sequence_number += 2 * DAY_IN_LEDGERS);
    f.consumer_client.get_status(id);
    assert_eq!(f.instance_ttl(), INSTANCE_BUMP_AMOUNT - 2 * DAY_IN_LEDGERS);
}

#[test]
fn a_status_asked_of_an_account_leaves_the_instance_alone() {
    let env = new_env();
    env.mock_all_auths();
    let account =
        Address::from_str(&env, "GA7QYNF7SOWQ3GLR2BGMZEHXAVIRZA4KVWLTJJFC7MGXUA74P7UJVSGZ");
    let consumer_client = consumer_of(&env, &account);

    env.ledger().with_mut(|l| l.sequence_number += 2 * DAY_IN_LEDGERS);
    assert_eq!(consumer_client.try_get_status(0), Err(Ok(Error::InvalidTholosId)));
    let ttl = env.as_contract(&consumer_client.id, || env.storage().instance().get_ttl());
    assert_eq!(ttl, INSTANCE_BUMP_AMOUNT - 2 * DAY_IN_LEDGERS);
}

#[test]
fn what_extends_nothing_works_in_the_last_ledgers() {
    let env = new_env();
    env.mock_all_auths();
    env.ledger().with_mut(|l| {
        l.sequence_number = u32::MAX - 600_000;
        l.min_persistent_entry_ttl = 580_000;
        l.max_entry_ttl = 590_000;
    });
    let stranger = env.register(Stranger, ());
    let consumer_client = consumer_of(&env, &stranger);

    env.ledger().with_mut(|l| l.sequence_number += 500_000);
    assert_eq!(consumer_client.try_get_status(4), Err(Ok(Error::AssertionNotFound)));
    assert_eq!(
        consumer_client.try_initialize(&stranger, &stranger),
        Err(Ok(Error::AlreadyInitialized))
    );
}

#[test]
fn other_entries_stay_as_they_were() {
    let f = Fixture::new();
    let key: Vec<Val> = (symbol(&f.env, "Other"),).into_val(&f.env);
    let other = Address::generate(&f.env);
    f.env.as_contract(&f.consumer_id, || f.env.storage().instance().set(&key, &other));

    f.initialize_all();
    f.fund_consumer();
    let id = f.consumer_client.create_assertion_as_self(f.bond_amount, true);
    f.consumer_client.get_status(id);

    let kept: Option<Address> =
        f.env.as_contract(&f.consumer_id, || f.env.storage().instance().get(&key));
    assert_eq!(kept, Some(other));
    let entries = f.env.as_contract(&f.consumer_id, || f.env.storage().instance().all());
    assert_eq!(entries.len(), 4);
}

#[test]
fn code_is_extended_with_the_instance() {
    let f = Fixture::new();
    let code_ttl = || f.env.deployer().get_contract_code_ttl(&f.consumer_id);
    assert_eq!(code_ttl(), INSTANCE_BUMP_AMOUNT);

    f.env.ledger().with_mut(|l| l.sequence_number += DAY_IN_LEDGERS - 1);
    f.initialize_consumer();
    assert_eq!(code_ttl(), INSTANCE_LIFETIME_THRESHOLD + 1);

    f.env.ledger().with_mut(|l| l.sequence_number += 1);
    assert_eq!(f.consumer_client.try_get_status(0), Err(Ok(Error::AssertionNotFound)));
    assert_eq!(code_ttl(), INSTANCE_LIFETIME_THRESHOLD);
    assert_eq!(
        f.consumer_client.try_initialize(&f.tholos_id, &f.token_id),
        Err(Ok(Error::AlreadyInitialized))
    );
    assert_eq!(code_ttl(), INSTANCE_LIFETIME_THRESHOLD);
}

#[test]
fn instance_is_extended_no_further_than_the_network_allows() {
    let f = Fixture::new();
    f.env.ledger().with_mut(|l| {
        l.sequence_number += INSTANCE_BUMP_AMOUNT - 10;
        l.max_entry_ttl = 100_000;
    });
    f.initialize_consumer();
    assert_eq!(f.instance_ttl(), 99_999);
}

#[test]
fn lifetimes_are_thirty_days_and_a_day_less() {
    assert_eq!(INSTANCE_BUMP_AMOUNT, 518_400);
    assert_eq!(INSTANCE_LIFETIME_THRESHOLD, 501_120);
}
