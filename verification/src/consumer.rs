//! The entry points of the contract.

use soroban_sdk::{Address, Env, Val};
use vstd::prelude::*;

use crate::call::{assert_outcome_call, get_assertion_state_call, transfer_call};
use crate::config::{Config, DataKey, INSTANCE_BUMP_AMOUNT, INSTANCE_LIFETIME_THRESHOLD};
use crate::error::Error;
use crate::host::{extended_code_ttl, extended_ttl, names_contract, Host, HostCall};
use crate::tholos::{decode_reply, decodes, reply_from, ErrorCodes, Received};

verus! {

/// How long an instance with `ttl` ledgers left stays live once it has been touched.
pub open spec fn touched(ttl: nat, limit: nat) -> nat {
    extended_ttl(ttl, INSTANCE_LIFETIME_THRESHOLD, INSTANCE_BUMP_AMOUNT, limit)
}

/// The same for the contract's code, where it is not built into the host.
pub open spec fn touched_code(ttl: Option<nat>, limit: nat) -> Option<nat> {
    extended_code_ttl(ttl, INSTANCE_LIFETIME_THRESHOLD, INSTANCE_BUMP_AMOUNT, limit)
}

/// Whether an invocation that found the instance with `before` ledgers left, and touched it, can
/// leave it with `after`. Checking an authorization may have extended it before it was touched.
pub open spec fn renewed(before: nat, after: nat, limit: nat) -> bool {
    exists|found: nat| before <= found && after == #[trigger] touched(found, limit)
}

/// Whether an invocation that found the instance with `before` ledgers left, touched it and then
/// called another contract can leave it with `after`.
pub open spec fn renewed_at_least(before: nat, after: nat, limit: nat) -> bool {
    exists|found: nat| before <= found && after >= #[trigger] touched(found, limit)
}

/// Whether an invocation that touched the contract's code can leave it with `after`.
pub open spec fn code_renewed(after: Option<nat>, limit: nat) -> bool {
    exists|found: Option<nat>| after == #[trigger] touched_code(found, limit)
}

/// Whether an invocation that `admin` authorized, and that touched the instance, can leave the
/// host with the contract as long to live as it has in `after`, where it found it as in `before`.
/// While the host checks the authorization of an account, no other contract runs.
pub open spec fn kept_alive(before: Host, after: Host, admin: Address) -> bool {
    &&& renewed(before.ttl(), after.ttl(), before.max_ttl())
    &&& code_renewed(after.code_ttl(), before.max_ttl())
    &&& !names_contract(admin) ==> {
        &&& after.ttl() == touched(before.ttl(), before.max_ttl())
        &&& after.code_ttl() == touched_code(before.code_ttl(), before.max_ttl())
    }
}

/// What the contract asks of the host to have `admin` authorize an invocation, and to stay live.
pub open spec fn opening_calls(admin: Address) -> Seq<HostCall> {
    seq![
        HostCall::RequireAuth { address: admin },
        HostCall::ExtendTtl {
            threshold: INSTANCE_LIFETIME_THRESHOLD,
            extend_to: INSTANCE_BUMP_AMOUNT,
        },
    ]
}

/// What the contract asks of the host to make an assertion, after its opening calls: to authorize
/// the transfer of the bond, in the pinned token, from the contract to the pinned Tholos instance,
/// and to call that instance. Only a contract can be called.
pub open spec fn assertion_calls(
    contract: Address,
    tholos: Address,
    token: Address,
    bond_amount: i128,
    outcome: bool,
    received: Received<u64>,
) -> Seq<HostCall> {
    let authorized = transfer_call(token, contract, tholos, bond_amount);
    if names_contract(tholos) {
        seq![
            HostCall::Authorize { authorized },
            HostCall::InvokeForNumber {
                call: assert_outcome_call(tholos, contract, outcome),
                number: received,
            },
        ]
    } else {
        seq![HostCall::Authorize { authorized }]
    }
}

/// What the contract asks of the host to report on an assertion. Only a contract can be called.
pub open spec fn status_calls(tholos: Address, id: u64, received: Received<Val>) -> Seq<HostCall> {
    if names_contract(tholos) {
        seq![HostCall::Invoke { call: get_assertion_state_call(tholos, id), value: received }]
    } else {
        Seq::empty()
    }
}

/// What `initialize` returns over the storage `config`.
pub open spec fn initialize_result(config: Config) -> Result<(), Error> {
    if config.initialized() {
        Err(Error::AlreadyInitialized)
    } else if config.admin is None {
        Err(Error::NotInitialized)
    } else {
        Ok(())
    }
}

/// The storage that `initialize` leaves behind.
pub open spec fn initialize_config(config: Config, tholos_id: Address, token_id: Address) -> Config {
    if initialize_result(config) is Ok {
        Config { tholos: Some(tholos_id), token: Some(token_id), ..config }
    } else {
        config
    }
}

/// The entries that `initialize` leaves behind, where it finds `entries` over the storage `config`.
pub open spec fn initialize_entries(
    config: Config,
    entries: Map<Seq<char>, Option<Address>>,
    tholos_id: Address,
    token_id: Address,
) -> Map<Seq<char>, Option<Address>> {
    if initialize_result(config) is Ok {
        entries.insert(DataKey::Tholos.symbol(), Some(tholos_id)).insert(
            DataKey::Token.symbol(),
            Some(token_id),
        )
    } else {
        entries
    }
}

/// What the constructor does: it leaves `admin` pinned, has it authorize that, and keeps the contract
/// live.
pub open spec fn constructs(before: Host, after: Host, admin: Address) -> bool {
    &&& after.continues(before)
    &&& after.config() == (Config { admin: Some(admin), ..before.config() })
    &&& after.entries() == before.entries().insert(
        DataKey::Admin.symbol(),
        Some(admin),
    )
    &&& kept_alive(before, after, admin)
    &&& after.calls() == before.calls() + opening_calls(admin)
}

/// What `initialize` does, and what it returns.
pub open spec fn initializes(
    before: Host,
    after: Host,
    tholos_id: Address,
    token_id: Address,
    result: Result<(), Error>,
) -> bool {
    &&& after.continues(before)
    &&& result == initialize_result(before.config())
    &&& after.config() == initialize_config(before.config(), tholos_id, token_id)
    &&& after.entries() == initialize_entries(
        before.config(),
        before.entries(),
        tholos_id,
        token_id,
    )
    &&& result is Ok ==> {
        &&& kept_alive(before, after, before.config().admin->0)
        &&& after.calls() == before.calls() + opening_calls(
            before.config().admin->0,
        )
    }
    &&& result is Err ==> {
        &&& after.ttl() == before.ttl()
        &&& after.code_ttl() == before.code_ttl()
        &&& after.calls() == before.calls()
    }
}

/// What `create_assertion_as_self` does, and what it returns.
pub open spec fn asserts(
    before: Host,
    after: Host,
    codes: ErrorCodes,
    bond_amount: i128,
    outcome: bool,
    result: Result<u64, Error>,
) -> bool {
    &&& after.continues(before)
    &&& after.config() == before.config()
    &&& after.entries() == before.entries()
    &&& match before.config() {
        Config { admin: None, .. } => {
            &&& result == Err::<u64, _>(Error::NotInitialized)
            &&& after.ttl() == before.ttl()
            &&& after.code_ttl() == before.code_ttl()
            &&& after.calls() == before.calls()
        },
        Config { admin: Some(admin), tholos: Some(tholos), token: Some(token) } => {
            &&& renewed_at_least(before.ttl(), after.ttl(), before.max_ttl())
            &&& !names_contract(admin) ==> after.ttl() >= touched(
                before.ttl(),
                before.max_ttl(),
            )
            &&& !names_contract(tholos) ==> {
                &&& result == Err::<u64, _>(Error::InvalidTholosId)
                &&& kept_alive(before, after, admin)
            }
            &&& exists|received: Received<u64>|
                {
                    &&& after.calls() == before.calls() + opening_calls(admin)
                        + #[trigger] assertion_calls(
                        before.contract(),
                        tholos,
                        token,
                        bond_amount,
                        outcome,
                        received,
                    )
                    &&& result == Error::answer(reply_from(codes, received))
                }
        },
        Config { admin: Some(admin), .. } => {
            &&& result == Err::<u64, _>(Error::NotInitialized)
            &&& kept_alive(before, after, admin)
            &&& after.calls() == before.calls() + opening_calls(admin)
        },
    }
}

/// What `get_status` does, and what it returns.
pub open spec fn reports<A, D: Fn(&Env, &Val) -> Result<A, ()>>(
    before: Host,
    after: Host,
    codes: ErrorCodes,
    id: u64,
    decode: D,
    result: Result<A, Error>,
) -> bool {
    &&& after.continues(before)
    &&& after.config() == before.config()
    &&& after.entries() == before.entries()
    &&& match before.config().tholos {
        None => {
            &&& result == Err::<A, _>(Error::NotInitialized)
            &&& after.ttl() == before.ttl()
            &&& after.code_ttl() == before.code_ttl()
            &&& after.calls() == before.calls()
        },
        Some(tholos) => {
            &&& after.ttl() >= before.ttl()
            &&& !names_contract(tholos) ==> {
                &&& result == Err::<A, _>(Error::InvalidTholosId)
                &&& after.ttl() == before.ttl()
                &&& after.code_ttl() == before.code_ttl()
            }
            &&& exists|received: Received<Val>, decoded: Received<A>|
                {
                    &&& after.calls() == before.calls() + #[trigger] status_calls(
                        tholos,
                        id,
                        received,
                    )
                    &&& #[trigger] decodes(decode, after.env(), received, decoded)
                    &&& result == Error::answer(reply_from(codes, decoded))
                }
        },
    }
}

/// The contract.
pub struct AsserterConsumer;

impl AsserterConsumer {
    /// Pins `admin`, as part of the creation of the instance: the host invokes a contract's
    /// constructor in the same operation that creates it, so nobody gets in between.
    pub fn __constructor(host: &mut Host, admin: Address)
        requires
            old(host).ready(),
            old(host).authorized_by(admin),
        ensures
            constructs(*old(host), *final(host), admin),
    {
        host.require_auth(&admin);
        let ghost found = *host;
        host.set(DataKey::Admin, &admin);
        Self::touch_instance_ttl(host);
        assert(host.ttl() == touched(found.ttl(), found.max_ttl()));
        assert(host.code_ttl() == touched_code(found.code_ttl(), found.max_ttl()));
        assert(host.calls() =~= old(host).calls() + opening_calls(admin));
    }

    /// Pins the trusted Tholos instance and the token of its bonds, once, with the authorization
    /// of the administrator that the constructor pinned.
    ///
    /// Fails with `AlreadyInitialized` on every later call, and with `NotInitialized` on an
    /// instance that was never constructed.
    pub fn initialize(host: &mut Host, tholos_id: Address, token_id: Address) -> (result: Result<
        (),
        Error,
    >)
        requires
            old(host).running(),
            initialize_result(old(host).config()) is Ok ==> {
                &&& old(host).ready()
                &&& old(host).authorized_by(old(host).config().admin->0)
            },
        ensures
            initializes(*old(host), *final(host), tholos_id, token_id, result),
    {
        if host.has(DataKey::Tholos) {
            return Err(Error::AlreadyInitialized);
        }
        let admin = match host.get(DataKey::Admin) {
            Some(admin) => admin,
            None => return Err(Error::NotInitialized),
        };
        host.require_auth(&admin);
        let ghost found = *host;

        host.set(DataKey::Tholos, &tholos_id);
        host.set(DataKey::Token, &token_id);
        Self::touch_instance_ttl(host);
        assert(host.ttl() == touched(found.ttl(), found.max_ttl()));
        assert(host.code_ttl() == touched_code(found.code_ttl(), found.max_ttl()));
        assert(host.calls() =~= old(host).calls() + opening_calls(admin));

        Ok(())
    }

    /// Posts an assertion with this contract as the asserter, so that the bond comes out of its
    /// own balance. `bond_amount` has to be what the pinned Tholos instance takes, and `codes` the
    /// numbers of its errors.
    ///
    /// Only the administrator can have this done: the contract authorizes the transfer of its own
    /// funds. The host grants a contract's own authorization only one call deep, and the token is
    /// two calls away, so the transfer is authorized beforehand, exactly as Tholos will make it.
    ///
    /// Fails with `NotInitialized` before the contract has been constructed and initialized, and
    /// otherwise with what becomes of Tholos's reply.
    pub fn create_assertion_as_self(
        host: &mut Host,
        codes: &ErrorCodes,
        bond_amount: i128,
        outcome: bool,
    ) -> (result: Result<u64, Error>)
        requires
            old(host).running(),
            old(host).config().admin matches Some(admin) ==> {
                &&& old(host).ready()
                &&& old(host).authorized_by(admin)
            },
            old(host).config() matches Config {
                admin: Some(_),
                tholos: Some(tholos),
                token: Some(_),
            } ==> old(host).answers(
                assert_outcome_call(tholos, old(host).contract(), outcome),
            ),
        ensures
            asserts(*old(host), *final(host), *codes, bond_amount, outcome, result),
    {
        let admin = match host.get(DataKey::Admin) {
            Some(admin) => admin,
            None => return Err(Error::NotInitialized),
        };
        host.require_auth(&admin);
        let ghost found = *host;
        Self::touch_instance_ttl(host);
        assert(host.ttl() == touched(found.ttl(), found.max_ttl()));
        assert(host.code_ttl() == touched_code(found.code_ttl(), found.max_ttl()));
        assert(host.calls() =~= old(host).calls() + opening_calls(admin));

        let tholos_id = match host.get(DataKey::Tholos) {
            Some(tholos_id) => tholos_id,
            None => return Err(Error::NotInitialized),
        };
        let token_id = match host.get(DataKey::Token) {
            Some(token_id) => token_id,
            None => return Err(Error::NotInitialized),
        };

        let curr_contract = host.current_contract();
        host.authorize_transfer(&token_id, &curr_contract, &tholos_id, bond_amount);

        let received = host.assert_outcome(&tholos_id, &curr_contract, outcome);
        proof {
            assert(host.ttl() >= touched(found.ttl(), found.max_ttl()));
            let asked = assertion_calls(
                old(host).contract(),
                tholos_id,
                token_id,
                bond_amount,
                outcome,
                received,
            );
            assert(host.calls() =~= old(host).calls() + opening_calls(admin) + asked);
        }
        Error::from_tholos_call(decode_reply(codes, received))
    }

    /// Passes on the state of an assertion from the pinned Tholos instance. `codes` are the
    /// numbers of its errors. `decode` makes out its assertions from the host's encoding, and may
    /// only read the host. Needs nobody's authorization.
    ///
    /// Fails with `NotInitialized` before the contract has been initialized, and otherwise with
    /// what becomes of Tholos's reply; in particular with `InvalidTholosId` where Tholos returned
    /// something that `decode` does not take for an assertion.
    pub fn get_status<A, D: Fn(&Env, &Val) -> Result<A, ()>>(
        host: &mut Host,
        codes: &ErrorCodes,
        id: u64,
        decode: D,
    ) -> (result: Result<A, Error>)
        requires
            old(host).running(),
            old(host).config().tholos matches Some(tholos) ==> old(host).answers(
                get_assertion_state_call(tholos, id),
            ),
            forall|env: Env, value: Val| call_requires(decode, (&env, &value)),
        ensures
            reports(*old(host), *final(host), *codes, id, decode, result),
    {
        let tholos_id = match host.get(DataKey::Tholos) {
            Some(tholos_id) => tholos_id,
            None => return Err(Error::NotInitialized),
        };
        let received = host.get_assertion_state(&tholos_id, id);
        assert(host.calls() =~= old(host).calls() + status_calls(tholos_id, id, received));
        let decoded = host.decode(received, decode);
        Error::from_tholos_call(decode_reply(codes, decoded))
    }

    /// Keeps the instance, and the code, live.
    fn touch_instance_ttl(host: &mut Host)
        requires
            old(host).ready(),
        ensures
            final(host).continues(*old(host)),
            final(host).entries() == old(host).entries(),
            final(host).ttl() == touched(old(host).ttl(), old(host).max_ttl()),
            final(host).code_ttl() == touched_code(old(host).code_ttl(), old(host).max_ttl()),
            final(host).calls() == old(host).calls().push(
                HostCall::ExtendTtl {
                    threshold: INSTANCE_LIFETIME_THRESHOLD,
                    extend_to: INSTANCE_BUMP_AMOUNT,
                },
            ),
    {
        host.extend_ttl(INSTANCE_LIFETIME_THRESHOLD, INSTANCE_BUMP_AMOUNT);
    }
}

} // verus!
