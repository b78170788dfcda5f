//! What holds of the contract as a whole.

use soroban_sdk::{Address, Env, Val};
use vstd::prelude::*;

use crate::call::{assert_outcome_call, transfer_call, Call, CallArg};
use crate::config::{Config, DataKey, INSTANCE_BUMP_AMOUNT, INSTANCE_LIFETIME_THRESHOLD};
use crate::consumer::{
    assertion_calls, asserts, constructs, initialize_config, initialize_result, initializes,
    opening_calls, renewed, renewed_at_least, reports, status_calls, touched, touched_code,
};
use crate::error::Error;
use crate::host::{
    answering, code_ttl, extended_code_ttl, extended_ttl, frames, instance, instance_ttl,
    ledgers_left, max_ttl, names_contract, requests, signers, strkey, Host, HostCall,
};
use crate::tholos;
use crate::tholos::{decodes, reply_from, ErrorCodes, InvokeError, Received};

verus! {

/// An invocation of the contract after its construction.
pub enum Invocation {
    Initialize { tholos_id: Address, token_id: Address },
    CreateAssertionAsSelf,
    GetStatus,
}

/// The storage that an invocation leaves behind.
pub open spec fn config_after(config: Config, invocation: Invocation) -> Config {
    match invocation {
        Invocation::Initialize { tholos_id, token_id } => initialize_config(
            config,
            tholos_id,
            token_id,
        ),
        Invocation::CreateAssertionAsSelf => config,
        Invocation::GetStatus => config,
    }
}

/// The storage that a series of invocations leaves behind.
pub open spec fn config_after_all(config: Config, invocations: Seq<Invocation>) -> Config
    decreases invocations.len(),
{
    if invocations.len() == 0 {
        config
    } else {
        config_after(config_after_all(config, invocations.drop_last()), invocations.last())
    }
}

/// The storage that the constructor leaves behind in a new instance.
pub open spec fn constructed(admin: Address) -> Config {
    Config { admin: Some(admin), tholos: None, token: None }
}

/// Storing an address and reading any entry gives that address back where it was stored, and what
/// was there before everywhere else.
pub proof fn law_read_after_write(config: Config, written: DataKey, address: Address, read: DataKey)
    ensures
        config.set(written, address).get(read) == (if read == written {
            Some(address)
        } else {
            config.get(read)
        }),
{
}

/// A new instance can be initialized, and from then on refuses to be, whatever it is offered, and
/// keeps what it was given first.
pub proof fn law_initialize_works_once(
    admin: Address,
    tholos_id: Address,
    token_id: Address,
    other_tholos_id: Address,
    other_token_id: Address,
)
    ensures
        initialize_result(constructed(admin)) is Ok,
        ({
            let pinned = initialize_config(constructed(admin), tholos_id, token_id);
            &&& pinned == (Config {
                admin: Some(admin),
                tholos: Some(tholos_id),
                token: Some(token_id),
            })
            &&& initialize_result(pinned) == Err::<(), _>(Error::AlreadyInitialized)
            &&& initialize_config(pinned, other_tholos_id, other_token_id) == pinned
        }),
{
}

/// Once an instance has been initialized, no series of invocations changes anything it has stored.
pub proof fn law_targets_stay_pinned(config: Config, invocations: Seq<Invocation>)
    requires
        config.initialized(),
    ensures
        config_after_all(config, invocations) == config,
    decreases invocations.len(),
{
    if invocations.len() > 0 {
        law_targets_stay_pinned(config, invocations.drop_last());
    }
}

/// No series of invocations changes the administrator.
pub proof fn law_admin_stays_pinned(config: Config, invocations: Seq<Invocation>)
    ensures
        config_after_all(config, invocations).admin == config.admin,
    decreases invocations.len(),
{
    if invocations.len() > 0 {
        law_admin_stays_pinned(config, invocations.drop_last());
    }
}

/// However an instance is used after its construction, it has a Tholos instance pinned exactly
/// when it has a token pinned.
pub proof fn law_targets_come_together(admin: Address, invocations: Seq<Invocation>)
    ensures
        ({
            let config = config_after_all(constructed(admin), invocations);
            config.tholos is Some <==> config.token is Some
        }),
    decreases invocations.len(),
{
    if invocations.len() > 0 {
        law_targets_come_together(admin, invocations.drop_last());
    }
}

/// Before an assertion authorizes a transfer of the contract's funds or calls Tholos, the
/// administrator has authorized it.
pub proof fn law_admin_authorizes_every_assertion(
    admin: Address,
    contract: Address,
    tholos: Address,
    token: Address,
    bond_amount: i128,
    outcome: bool,
    received: Received<u64>,
    i: int,
)
    requires
        ({
            let calls = opening_calls(admin) + assertion_calls(
                contract,
                tholos,
                token,
                bond_amount,
                outcome,
                received,
            );
            &&& 0 <= i < calls.len()
            &&& calls[i] is Authorize || calls[i] is InvokeForNumber || calls[i] is Invoke
        }),
    ensures
        ({
            let calls = opening_calls(admin) + assertion_calls(
                contract,
                tholos,
                token,
                bond_amount,
                outcome,
                received,
            );
            exists|j: int|
                0 <= j < i && #[trigger] calls[j] == (HostCall::RequireAuth { address: admin })
        }),
{
    let calls = opening_calls(admin) + assertion_calls(
        contract,
        tholos,
        token,
        bond_amount,
        outcome,
        received,
    );
    assert(calls[0] == (HostCall::RequireAuth { address: admin }));
}

/// An assertion authorizes one transfer and no other: the bond, in the pinned token, from the
/// contract to the pinned Tholos instance. It does so before it calls Tholos, and it asserts under
/// the contract's own address.
pub proof fn law_assertion_spends_only_the_bond(
    admin: Address,
    contract: Address,
    tholos: Address,
    token: Address,
    bond_amount: i128,
    outcome: bool,
    received: Received<u64>,
    i: int,
    j: int,
)
    requires
        ({
            let calls = opening_calls(admin) + assertion_calls(
                contract,
                tholos,
                token,
                bond_amount,
                outcome,
                received,
            );
            &&& 0 <= i < calls.len()
            &&& 0 <= j < calls.len()
            &&& calls[i] is Authorize
        }),
    ensures
        ({
            let calls = opening_calls(admin) + assertion_calls(
                contract,
                tholos,
                token,
                bond_amount,
                outcome,
                received,
            );
            &&& calls[i] == (HostCall::Authorize {
                authorized: transfer_call(token, contract, tholos, bond_amount),
            })
            &&& calls[j] is Authorize ==> i == j
            &&& calls[j] is InvokeForNumber ==> i < j && calls[j] == (HostCall::InvokeForNumber {
                call: assert_outcome_call(tholos, contract, outcome),
                number: received,
            })
            &&& calls[j] !is Invoke
        }),
{
}

/// Reading a status asks nobody's authorization, authorizes nothing and extends nothing.
pub proof fn law_status_only_reads(tholos: Address, id: u64, received: Received<Val>, i: int)
    requires
        0 <= i < status_calls(tholos, id, received).len(),
    ensures
        status_calls(tholos, id, received)[i] is Invoke,
{
}

/// A reply is passed on as the value that it carries, and only such a reply as a value.
pub proof fn law_values_pass_through<T, C>(
    reply: Result<Result<T, C>, Result<tholos::Error, InvokeError>>,
    value: T,
)
    ensures
        Error::answer(reply) == Ok::<T, Error>(value) <==> reply == Ok::<
            _,
            Result<tholos::Error, InvokeError>,
        >(Ok::<T, C>(value)),
{
}

/// Each error of Tholos that has a counterpart comes out as it, and nothing else does; a reply
/// that is neither a value nor one of these is an invalid Tholos address, and nothing else is. In
/// particular no reply is mistaken for a state of the consumer's own life cycle.
pub proof fn law_failures_are_told_apart<T, C>(
    reply: Result<Result<T, C>, Result<tholos::Error, InvokeError>>,
)
    ensures
        Error::answer(reply) == Err::<T, _>(Error::TholosNotInitialized) <==> reply == Err::<
            Result<T, C>,
            _,
        >(Ok::<_, InvokeError>(tholos::Error::NotInitialized)),
        Error::answer(reply) == Err::<T, _>(Error::TholosPaused) <==> reply == Err::<
            Result<T, C>,
            _,
        >(Ok::<_, InvokeError>(tholos::Error::Paused)),
        Error::answer(reply) == Err::<T, _>(Error::AssertionNotFound) <==> reply == Err::<
            Result<T, C>,
            _,
        >(Ok::<_, InvokeError>(tholos::Error::AssertionNotFound)),
        Error::answer(reply) == Err::<T, _>(Error::InvalidTholosId) <==> match reply {
            Ok(value) => value is Err,
            Err(Ok(error)) => error is Other,
            Err(Err(_)) => true,
        },
        Error::answer(reply) != Err::<T, _>(Error::NotInitialized),
        Error::answer(reply) != Err::<T, _>(Error::AlreadyInitialized),
{
}

/// An invocation that was aborted, or whose value does not decode, is an invalid Tholos address,
/// whatever the numbers of Tholos's errors.
pub proof fn law_broken_calls_are_invalid<T>(codes: ErrorCodes)
    ensures
        Error::answer(reply_from(codes, Err::<Result<T, ()>, _>(InvokeError::Abort))) == Err::<
            T,
            _,
        >(Error::InvalidTholosId),
        Error::answer(reply_from(codes, Ok::<_, InvokeError>(Err::<T, ()>(())))) == Err::<T, _>(
            Error::InvalidTholosId,
        ),
{
}

/// A contract error is known by its number: each of the three known numbers comes out as its own
/// error, and every other number as an invalid Tholos address.
pub proof fn law_contract_errors_are_known_by_number<T>(codes: ErrorCodes, code: u32)
    requires
        codes.not_initialized != codes.paused,
        codes.not_initialized != codes.assertion_not_found,
        codes.paused != codes.assertion_not_found,
    ensures
        ({
            let result = Error::answer(
                reply_from(codes, Err::<Result<T, ()>, _>(InvokeError::Contract(code))),
            );
            &&& result is Err
            &&& result->Err_0 == Error::TholosNotInitialized <==> code == codes.not_initialized
            &&& result->Err_0 == Error::TholosPaused <==> code == codes.paused
            &&& result->Err_0 == Error::AssertionNotFound <==> code == codes.assertion_not_found
            &&& result->Err_0 == Error::InvalidTholosId <==> {
                &&& code != codes.not_initialized
                &&& code != codes.paused
                &&& code != codes.assertion_not_found
            }
        }),
{
}

/// No two errors of the consumer are reported under the same number.
pub proof fn law_error_numbers_differ(a: Error, b: Error)
    ensures
        a.number() == b.number() <==> a == b,
{
}

/// Touching an instance never shortens its life, and doing so again changes nothing. It leaves the
/// instance with more ledgers than the threshold unless the network's limit is in the way, and an
/// instance at or below the threshold with exactly the full amount. The contract's code fares the
/// same.
pub proof fn law_touching_keeps_alive(ttl: nat, limit: nat)
    ensures
        touched(ttl, limit) >= ttl,
        touched(touched(ttl, limit), limit) == touched(ttl, limit),
        touched(ttl, limit) > INSTANCE_LIFETIME_THRESHOLD || touched(ttl, limit) >= limit,
        ttl <= INSTANCE_LIFETIME_THRESHOLD && INSTANCE_BUMP_AMOUNT <= limit ==> touched(ttl, limit)
            == INSTANCE_BUMP_AMOUNT,
        touched_code(Some(ttl), limit) == Some(touched(ttl, limit)),
{
}

/// An invocation that touches the instance leaves it no closer to its end than it was, and past
/// the threshold unless the network's limit is in the way, also where it calls another contract
/// afterwards.
pub proof fn law_renewal_keeps_alive(before: nat, after: nat, limit: nat)
    requires
        renewed(before, after, limit) || renewed_at_least(before, after, limit),
    ensures
        after >= before,
        after > INSTANCE_LIFETIME_THRESHOLD || after >= limit,
{
}

/// The names that the host is spoken of by stand for the host itself: what it stores, what was asked
/// of it, which contract it runs, for how long that stays live, and who has authorized it.
pub proof fn law_host_is_read_as_it_is(host: Host, address: Address)
    ensures
        host.entries() == instance(host.env()),
        host.calls() == requests(host.env()),
        host.contract() == frames(host.env()).last(),
        host.ttl() == instance_ttl(host.env()),
        host.code_ttl() == code_ttl(host.env()),
        host.max_ttl() == max_ttl(host.env()),
        host.authorized_by(address) <==> signers(host.env()).contains(address),
{
}

/// The contract keeps its three addresses under `Admin`, `Tholos` and `Token`, and each is pinned
/// exactly where an address is stored under its name.
pub proof fn law_storage_is_read_by_name(host: Host)
    ensures
        host.config().admin == (if host.entries().contains_key("Admin"@) {
            host.entries()["Admin"@]
        } else {
            None
        }),
        host.config().tholos == (if host.entries().contains_key("Tholos"@) {
            host.entries()["Tholos"@]
        } else {
            None
        }),
        host.config().token == (if host.entries().contains_key("Token"@) {
            host.entries()["Token"@]
        } else {
            None
        }),
        DataKey::Admin.symbol() == "Admin"@,
        DataKey::Tholos.symbol() == "Tholos"@,
        DataKey::Token.symbol() == "Token"@,
{
}

/// Each entry is read and written in its own place.
pub proof fn law_entries_have_their_own_places(config: Config, address: Address)
    ensures
        config.get(DataKey::Admin) == config.admin,
        config.get(DataKey::Tholos) == config.tholos,
        config.get(DataKey::Token) == config.token,
        config.set(DataKey::Admin, address) == (Config { admin: Some(address), ..config }),
        config.set(DataKey::Tholos, address) == (Config { tholos: Some(address), ..config }),
        config.set(DataKey::Token, address) == (Config { token: Some(address), ..config }),
        config.initialized() <==> config.tholos is Some,
{
}

/// A contract can be invoked wherever one is running whose own entries are addresses. It can also
/// be extended where the ledgers to come last for thirty days and for the network's limit.
pub proof fn law_what_an_invocation_needs(host: Host)
    ensures
        host.running() <==> {
            &&& frames(host.env()).len() > 0
            &&& host.entries().contains_key("Admin"@) ==> host.entries()["Admin"@] is Some
            &&& host.entries().contains_key("Tholos"@) ==> host.entries()["Tholos"@] is Some
            &&& host.entries().contains_key("Token"@) ==> host.entries()["Token"@] is Some
        },
        host.ready() <==> {
            &&& host.running()
            &&& 518_400 <= ledgers_left(host.env())
            &&& max_ttl(host.env()) <= ledgers_left(host.env())
        },
{
    assert(DataKey::Admin.symbol() == "Admin"@);
    assert(DataKey::Tholos.symbol() == "Tholos"@);
    assert(DataKey::Token.symbol() == "Token"@);
}

/// An address is that of a contract exactly where its text starts with a `C`, and only of a call of
/// a contract is it asked that it come back.
pub proof fn law_contracts_are_known_by_their_text(host: Host, call: Call)
    ensures
        names_contract(call.contract) <==> strkey(call.contract)[0] == 67,
        host.answers(call) <==> (strkey(call.contract)[0] == 67 ==> answering(
            host.env(),
        ).contains(call)),
{
}

/// Constructing an instance stores the administrator under `Admin` and nothing else, with the
/// administrator's authorization asked first, and keeps the contract live for thirty days.
pub proof fn law_construction_pins_the_admin(before: Host, after: Host, admin: Address)
    requires
        constructs(before, after, admin),
    ensures
        after.entries() == before.entries().insert("Admin"@, Some(admin)),
        after.config().admin == Some(admin),
        after.config().tholos == before.config().tholos,
        after.config().token == before.config().token,
        after.contract() == before.contract(),
        after.calls().len() == before.calls().len() + 2,
        after.calls().take(before.calls().len() as int) == before.calls(),
        after.calls()[before.calls().len() as int] == (HostCall::RequireAuth { address: admin }),
        after.calls().last() == (HostCall::ExtendTtl { threshold: 501_120, extend_to: 518_400 }),
        after.ttl() >= before.ttl(),
        after.ttl() > 501_120 || after.ttl() >= before.max_ttl(),
        after.code_ttl() matches Some(code) ==> code > 501_120 || code >= before.max_ttl(),
        !names_contract(admin) ==> {
            &&& after.ttl() == touched(before.ttl(), before.max_ttl())
            &&& after.code_ttl() == touched_code(before.code_ttl(), before.max_ttl())
        },
{
    law_renewal_keeps_alive(before.ttl(), after.ttl(), before.max_ttl());
}

/// Initializing an instance that has an administrator and no Tholos instance yet succeeds, stores
/// both addresses under `Tholos` and `Token` and nothing else, and asks for the authorization of
/// the stored administrator first.
pub proof fn law_initialization_pins_the_targets(
    before: Host,
    after: Host,
    tholos_id: Address,
    token_id: Address,
    result: Result<(), Error>,
    admin: Address,
)
    requires
        initializes(before, after, tholos_id, token_id, result),
        before.config().admin == Some(admin),
        before.config().tholos is None,
    ensures
        result == Ok::<(), Error>(()),
        after.entries() == before.entries().insert("Tholos"@, Some(tholos_id)).insert(
            "Token"@,
            Some(token_id),
        ),
        after.config() == (Config {
            admin: Some(admin),
            tholos: Some(tholos_id),
            token: Some(token_id),
        }),
        after.contract() == before.contract(),
        after.calls().len() == before.calls().len() + 2,
        after.calls().take(before.calls().len() as int) == before.calls(),
        after.calls()[before.calls().len() as int] == (HostCall::RequireAuth { address: admin }),
        after.calls().last() == (HostCall::ExtendTtl { threshold: 501_120, extend_to: 518_400 }),
        after.ttl() >= before.ttl(),
        after.ttl() > 501_120 || after.ttl() >= before.max_ttl(),
        after.code_ttl() matches Some(code) ==> code > 501_120 || code >= before.max_ttl(),
        !names_contract(admin) ==> {
            &&& after.ttl() == touched(before.ttl(), before.max_ttl())
            &&& after.code_ttl() == touched_code(before.code_ttl(), before.max_ttl())
        },
{
    law_renewal_keeps_alive(before.ttl(), after.ttl(), before.max_ttl());
}

/// Initializing fails with `AlreadyInitialized` where a Tholos instance is pinned, and with
/// `NotInitialized` where neither it nor an administrator is; it then changes nothing and asks for
/// nothing.
pub proof fn law_refused_initialization_does_nothing(
    before: Host,
    after: Host,
    tholos_id: Address,
    token_id: Address,
    result: Result<(), Error>,
)
    requires
        initializes(before, after, tholos_id, token_id, result),
        before.config().tholos is Some || before.config().admin is None,
    ensures
        before.config().tholos is Some ==> result == Err::<(), _>(Error::AlreadyInitialized),
        before.config().tholos is None ==> result == Err::<(), _>(Error::NotInitialized),
        after.entries() == before.entries(),
        after.config() == before.config(),
        after.contract() == before.contract(),
        after.ttl() == before.ttl(),
        after.code_ttl() == before.code_ttl(),
        after.calls() == before.calls(),
{
}

/// On an instance that has everything pinned, with a contract as its Tholos instance, an assertion
/// of any outcome for any bond asks four things of the host, in this order: that the administrator
/// have authorized it; that the contract be kept live; that one call be authorized, of `transfer`
/// on the token, from the contract to Tholos, of the bond; and last, that `assert_outcome` be called
/// on Tholos, with the contract as the asserter and with that outcome. What it returns is what
/// became of that call: the id that Tholos gave, or the error that its failure stands for.
pub proof fn law_assertion_is_posted(
    before: Host,
    after: Host,
    codes: ErrorCodes,
    bond_amount: i128,
    outcome: bool,
    result: Result<u64, Error>,
    admin: Address,
    tholos: Address,
    token: Address,
)
    requires
        asserts(before, after, codes, bond_amount, outcome, result),
        before.config() == (Config {
            admin: Some(admin),
            tholos: Some(tholos),
            token: Some(token),
        }),
        names_contract(tholos),
    ensures
        after.calls().len() == before.calls().len() + 4,
        after.calls().take(before.calls().len() as int) == before.calls(),
        after.calls()[before.calls().len() as int] == (HostCall::RequireAuth { address: admin }),
        after.calls()[before.calls().len() + 1int] == (HostCall::ExtendTtl {
            threshold: 501_120,
            extend_to: 518_400,
        }),
        after.calls()[before.calls().len() + 2int] matches HostCall::Authorize { authorized } && {
            &&& authorized.contract == token
            &&& authorized.function == "transfer"@
            &&& authorized.args.len() == 3
            &&& authorized.args[0] == CallArg::Address(before.contract())
            &&& authorized.args[1] == CallArg::Address(tholos)
            &&& authorized.args[2] == CallArg::I128(bond_amount)
        },
        after.calls().last() matches HostCall::InvokeForNumber { call, number } && {
            &&& call.contract == tholos
            &&& call.function == "assert_outcome"@
            &&& call.args.len() == 2
            &&& call.args[0] == CallArg::Address(before.contract())
            &&& call.args[1] == CallArg::Bool(outcome)
            &&& match number {
                Ok(Ok(id)) => result == Ok::<u64, Error>(id),
                Ok(Err(_)) => result == Err::<u64, _>(Error::InvalidTholosId),
                Err(InvokeError::Abort) => result == Err::<u64, _>(Error::InvalidTholosId),
                Err(InvokeError::Contract(code)) => result == Err::<u64, _>(
                    if code == codes.not_initialized {
                        Error::TholosNotInitialized
                    } else if code == codes.paused {
                        Error::TholosPaused
                    } else if code == codes.assertion_not_found {
                        Error::AssertionNotFound
                    } else {
                        Error::InvalidTholosId
                    },
                ),
            }
        },
{
    let received = choose|received: Received<u64>|
        {
            &&& after.calls() == before.calls() + opening_calls(admin)
                + #[trigger] assertion_calls(
                before.contract(),
                tholos,
                token,
                bond_amount,
                outcome,
                received,
            )
            &&& result == Error::answer(reply_from(codes, received))
        };
    let asked = assertion_calls(before.contract(), tholos, token, bond_amount, outcome, received);
    let n = before.calls().len() as int;
    assert(after.calls() == before.calls() + opening_calls(admin) + asked);
    assert(after.calls().take(n) =~= before.calls());
    assert(after.calls()[n + 2] == asked[0]);
    assert(after.calls()[n + 3] == asked[1]);
}

/// With an account pinned in place of a Tholos instance an assertion calls nothing and fails with
/// `InvalidTholosId`, whatever the bond and the outcome.
pub proof fn law_assertion_to_an_account_fails(
    before: Host,
    after: Host,
    codes: ErrorCodes,
    bond_amount: i128,
    outcome: bool,
    result: Result<u64, Error>,
    admin: Address,
    tholos: Address,
    token: Address,
)
    requires
        asserts(before, after, codes, bond_amount, outcome, result),
        before.config() == (Config {
            admin: Some(admin),
            tholos: Some(tholos),
            token: Some(token),
        }),
        !names_contract(tholos),
    ensures
        result == Err::<u64, _>(Error::InvalidTholosId),
        after.calls().len() == before.calls().len() + 3,
        after.calls().take(before.calls().len() as int) == before.calls(),
        after.calls()[before.calls().len() as int] == (HostCall::RequireAuth { address: admin }),
        after.calls()[before.calls().len() + 1int] == (HostCall::ExtendTtl {
            threshold: 501_120,
            extend_to: 518_400,
        }),
        after.calls().last() matches HostCall::Authorize { authorized } && {
            &&& authorized.contract == token
            &&& authorized.function == "transfer"@
            &&& authorized.args.len() == 3
            &&& authorized.args[0] == CallArg::Address(before.contract())
            &&& authorized.args[1] == CallArg::Address(tholos)
            &&& authorized.args[2] == CallArg::I128(bond_amount)
        },
        after.ttl() >= before.ttl(),
        after.ttl() > 501_120 || after.ttl() >= before.max_ttl(),
        after.code_ttl() matches Some(code) ==> code > 501_120 || code >= before.max_ttl(),
        !names_contract(admin) ==> {
            &&& after.ttl() == touched(before.ttl(), before.max_ttl())
            &&& after.code_ttl() == touched_code(before.code_ttl(), before.max_ttl())
        },
{
    let received = choose|received: Received<u64>|
        {
            &&& after.calls() == before.calls() + opening_calls(admin)
                + #[trigger] assertion_calls(
                before.contract(),
                tholos,
                token,
                bond_amount,
                outcome,
                received,
            )
            &&& result == Error::answer(reply_from(codes, received))
        };
    let asked = assertion_calls(before.contract(), tholos, token, bond_amount, outcome, received);
    let n = before.calls().len() as int;
    assert(after.calls() == before.calls() + opening_calls(admin) + asked);
    assert(after.calls().take(n) =~= before.calls());
    law_renewal_keeps_alive(before.ttl(), after.ttl(), before.max_ttl());
    assert(after.calls()[n + 2] == asked[0]);
}

/// An assertion on an instance that lacks one of its addresses fails with `NotInitialized`. Without
/// an administrator it asks for nothing; with one, for the administrator's authorization and for
/// the contract to be kept live, and neither authorizes nor calls anything.
pub proof fn law_assertion_needs_initialization(
    before: Host,
    after: Host,
    codes: ErrorCodes,
    bond_amount: i128,
    outcome: bool,
    result: Result<u64, Error>,
)
    requires
        asserts(before, after, codes, bond_amount, outcome, result),
        before.config().admin is None || before.config().tholos is None
            || before.config().token is None,
    ensures
        result == Err::<u64, _>(Error::NotInitialized),
        before.config().admin is None ==> after.calls() == before.calls() && after.ttl()
            == before.ttl() && after.code_ttl() == before.code_ttl(),
        before.config().admin matches Some(admin) ==> {
            &&& after.calls().len() == before.calls().len() + 2
            &&& after.calls().take(before.calls().len() as int) == before.calls()
            &&& after.calls()[before.calls().len() as int] == (HostCall::RequireAuth {
                address: admin,
            })
            &&& after.calls().last() == (HostCall::ExtendTtl {
                threshold: 501_120,
                extend_to: 518_400,
            })
            &&& after.code_ttl() matches Some(code) ==> code > 501_120 || code
                >= before.max_ttl()
            &&& !names_contract(admin) ==> {
                &&& after.ttl() == touched(before.ttl(), before.max_ttl())
                &&& after.code_ttl() == touched_code(before.code_ttl(), before.max_ttl())
            }
        },
{
    assert(before.config().admin is Some ==> after.calls().take(before.calls().len() as int)
        =~= before.calls());
}

/// Whatever becomes of it, an assertion changes nothing that is stored, and where there is an
/// administrator it leaves the contract no closer to its end than it was, and past the threshold
/// unless the network's limit is in the way.
pub proof fn law_assertion_keeps_the_contract(
    before: Host,
    after: Host,
    codes: ErrorCodes,
    bond_amount: i128,
    outcome: bool,
    result: Result<u64, Error>,
)
    requires
        asserts(before, after, codes, bond_amount, outcome, result),
    ensures
        after.entries() == before.entries(),
        after.config() == before.config(),
        after.contract() == before.contract(),
        after.ttl() >= before.ttl(),
        before.config().admin is Some ==> after.ttl() > 501_120 || after.ttl()
            >= before.max_ttl(),
        before.config().admin matches Some(admin) && !names_contract(admin) ==> after.ttl()
            >= touched(before.ttl(), before.max_ttl()),
{
    if before.config().admin is Some {
        law_renewal_keeps_alive(before.ttl(), after.ttl(), before.max_ttl());
    }
}

/// On an instance with a contract pinned as its Tholos instance, reading the status of any id asks
/// one thing of the host: that `get_assertion_state` be called on Tholos with that id. What it
/// returns is what became of that call: the assertion that the returned value decodes to, or the
/// error that the failure stands for.
pub proof fn law_status_is_read<A, D: Fn(&Env, &Val) -> Result<A, ()>>(
    before: Host,
    after: Host,
    codes: ErrorCodes,
    id: u64,
    decode: D,
    result: Result<A, Error>,
    tholos: Address,
)
    requires
        reports(before, after, codes, id, decode, result),
        before.config().tholos == Some(tholos),
        names_contract(tholos),
    ensures
        after.calls().len() == before.calls().len() + 1,
        after.calls().take(before.calls().len() as int) == before.calls(),
        after.calls().last() matches HostCall::Invoke { call, value } && {
            &&& call.contract == tholos
            &&& call.function == "get_assertion_state"@
            &&& call.args.len() == 1
            &&& call.args[0] == CallArg::U64(id)
            &&& match value {
                Ok(Ok(raw)) => exists|decoded: Result<A, ()>|
                    {
                        &&& #[trigger] call_ensures(decode, (&after.env(), &raw), decoded)
                        &&& match decoded {
                            Ok(assertion) => result == Ok::<A, Error>(assertion),
                            Err(_) => result == Err::<A, _>(Error::InvalidTholosId),
                        }
                    },
                Ok(Err(_)) => result == Err::<A, _>(Error::InvalidTholosId),
                Err(InvokeError::Abort) => result == Err::<A, _>(Error::InvalidTholosId),
                Err(InvokeError::Contract(code)) => result == Err::<A, _>(
                    if code == codes.not_initialized {
                        Error::TholosNotInitialized
                    } else if code == codes.paused {
                        Error::TholosPaused
                    } else if code == codes.assertion_not_found {
                        Error::AssertionNotFound
                    } else {
                        Error::InvalidTholosId
                    },
                ),
            }
        },
{
    let (received, decoded) = choose|received: Received<Val>, decoded: Received<A>|
        {
            &&& after.calls() == before.calls() + #[trigger] status_calls(tholos, id, received)
            &&& #[trigger] decodes(decode, after.env(), received, decoded)
            &&& result == Error::answer(reply_from(codes, decoded))
        };
    let asked = status_calls(tholos, id, received);
    assert(after.calls() == before.calls() + asked);
    assert(after.calls().take(before.calls().len() as int) =~= before.calls());
    assert(after.calls().last() == asked[0]);
    if let Ok(Ok(raw)) = received {
        assert(call_ensures(decode, (&after.env(), &raw), decoded->Ok_0));
    }
}

/// Reading a status fails with `NotInitialized` where no Tholos instance is pinned, and with
/// `InvalidTholosId` where an account is pinned in its place; it then asks for nothing.
pub proof fn law_status_without_tholos_fails<A, D: Fn(&Env, &Val) -> Result<A, ()>>(
    before: Host,
    after: Host,
    codes: ErrorCodes,
    id: u64,
    decode: D,
    result: Result<A, Error>,
)
    requires
        reports(before, after, codes, id, decode, result),
        before.config().tholos matches Some(tholos) ==> !names_contract(tholos),
    ensures
        before.config().tholos is None ==> result == Err::<A, _>(Error::NotInitialized),
        before.config().tholos is Some ==> result == Err::<A, _>(Error::InvalidTholosId),
        after.ttl() == before.ttl(),
        after.code_ttl() == before.code_ttl(),
        after.calls() == before.calls(),
{
    assert(before.calls() + Seq::<HostCall>::empty() =~= before.calls());
}

/// Reading a status changes nothing that is stored, and does not bring the contract closer to its
/// end.
pub proof fn law_status_keeps_the_contract<A, D: Fn(&Env, &Val) -> Result<A, ()>>(
    before: Host,
    after: Host,
    codes: ErrorCodes,
    id: u64,
    decode: D,
    result: Result<A, Error>,
)
    requires
        reports(before, after, codes, id, decode, result),
    ensures
        after.entries() == before.entries(),
        after.config() == before.config(),
        after.contract() == before.contract(),
        after.ttl() >= before.ttl(),
{
}

/// Reading the status of two different ids never leads to the same call.
pub proof fn law_ids_are_not_confused(
    tholos: Address,
    a: u64,
    b: u64,
    received_a: Received<Val>,
    received_b: Received<Val>,
)
    requires
        names_contract(tholos),
        status_calls(tholos, a, received_a) == status_calls(tholos, b, received_b),
    ensures
        a == b,
{
    assert(status_calls(tholos, a, received_a)[0]->Invoke_call.args[0] == CallArg::U64(a));
    assert(status_calls(tholos, b, received_b)[0]->Invoke_call.args[0] == CallArg::U64(b));
}

/// Assertions with different bonds or outcomes never lead to the same calls.
pub proof fn law_assertions_are_not_confused(
    contract: Address,
    tholos: Address,
    token: Address,
    bond_a: i128,
    bond_b: i128,
    outcome_a: bool,
    outcome_b: bool,
    received_a: Received<u64>,
    received_b: Received<u64>,
)
    requires
        names_contract(tholos),
        assertion_calls(contract, tholos, token, bond_a, outcome_a, received_a) == assertion_calls(
            contract,
            tholos,
            token,
            bond_b,
            outcome_b,
            received_b,
        ),
    ensures
        bond_a == bond_b,
        outcome_a == outcome_b,
        received_a == received_b,
{
    let a = assertion_calls(contract, tholos, token, bond_a, outcome_a, received_a);
    let b = assertion_calls(contract, tholos, token, bond_b, outcome_b, received_b);
    assert(a[0]->authorized.args[2] == CallArg::I128(bond_a));
    assert(b[0]->authorized.args[2] == CallArg::I128(bond_b));
    assert(a[1]->InvokeForNumber_call.args[1] == CallArg::Bool(outcome_a));
    assert(b[1]->InvokeForNumber_call.args[1] == CallArg::Bool(outcome_b));
    assert(a[1]->number == received_a);
    assert(b[1]->number == received_b);
}

/// A value that the host handed back is passed on as it is, all the way to what the consumer
/// returns, whatever the numbers of Tholos's errors; and only such a value comes out as one.
pub proof fn law_received_values_pass_through<T>(
    codes: ErrorCodes,
    received: Received<T>,
    value: T,
)
    ensures
        reply_from(codes, received) == Ok::<_, Result<tholos::Error, InvokeError>>(
            Ok::<T, ()>(value),
        ) <==> received == Ok::<_, InvokeError>(Ok::<T, ()>(value)),
        Error::answer(reply_from(codes, received)) == Ok::<T, Error>(value) <==> received == Ok::<
            _,
            InvokeError,
        >(Ok::<T, ()>(value)),
{
}

/// A failure that the host handed back comes out as the error of its number, the first of the
/// three that has it, and as an invalid Tholos address where none has; what Tholos reported keeps
/// its number.
pub proof fn law_received_failures_are_looked_up<T>(codes: ErrorCodes, code: u32)
    ensures
        tholos::Error::reported(codes, InvokeError::Abort) == Err::<tholos::Error, _>(
            InvokeError::Abort,
        ),
        code == codes.not_initialized ==> tholos::Error::reported(
            codes,
            InvokeError::Contract(code),
        ) == Ok::<_, InvokeError>(tholos::Error::NotInitialized),
        code == codes.paused && code != codes.not_initialized ==> tholos::Error::reported(
            codes,
            InvokeError::Contract(code),
        ) == Ok::<_, InvokeError>(tholos::Error::Paused),
        code == codes.assertion_not_found && code != codes.not_initialized && code != codes.paused
            ==> tholos::Error::reported(codes, InvokeError::Contract(code)) == Ok::<
            _,
            InvokeError,
        >(tholos::Error::AssertionNotFound),
        code != codes.not_initialized && code != codes.paused && code != codes.assertion_not_found
            ==> tholos::Error::reported(codes, InvokeError::Contract(code)) == Ok::<
            _,
            InvokeError,
        >(tholos::Error::Other(code)),
        reply_from(codes, Err::<Result<T, ()>, _>(InvokeError::Abort)) == Err::<Result<T, ()>, _>(
            Err::<tholos::Error, _>(InvokeError::Abort),
        ),
        reply_from(codes, Err::<Result<T, ()>, _>(InvokeError::Contract(code))) == Err::<
            Result<T, ()>,
            _,
        >(tholos::Error::reported(codes, InvokeError::Contract(code))),
        reply_from(codes, Ok::<_, InvokeError>(Err::<T, ()>(()))) == Ok::<
            _,
            Result<tholos::Error, InvokeError>,
        >(Err::<T, ()>(())),
{
}

/// A value is what it decodes to; what failed before it could be decoded stays the failure that it
/// was.
pub proof fn law_decoding_touches_only_values<T, D: Fn(&Env, &Val) -> Result<T, ()>>(
    decode: D,
    env: Env,
    value: Val,
    failure: InvokeError,
    decoded: Received<T>,
)
    ensures
        decodes(decode, env, Ok(Ok(value)), decoded) <==> decoded is Ok && call_ensures(
            decode,
            (&env, &value),
            decoded->Ok_0,
        ),
        decodes(decode, env, Ok(Err(())), decoded) <==> decoded == Ok::<_, InvokeError>(
            Err::<T, ()>(()),
        ),
        decodes(decode, env, Err(failure), decoded) <==> decoded == Err::<Result<T, ()>, _>(
            failure,
        ),
{
}

/// Each entry point leaves behind the storage that a series of invocations is reckoned with.
pub proof fn law_invocations_leave_their_storage<A, D: Fn(&Env, &Val) -> Result<A, ()>>(
    before: Host,
    after: Host,
    tholos_id: Address,
    token_id: Address,
    initialized: Result<(), Error>,
    codes: ErrorCodes,
    bond_amount: i128,
    outcome: bool,
    asserted: Result<u64, Error>,
    id: u64,
    decode: D,
    reported: Result<A, Error>,
)
    ensures
        initializes(before, after, tholos_id, token_id, initialized) ==> after.config()
            == config_after(before.config(), Invocation::Initialize { tholos_id, token_id }),
        asserts(before, after, codes, bond_amount, outcome, asserted) ==> after.config()
            == config_after(before.config(), Invocation::CreateAssertionAsSelf),
        reports(before, after, codes, id, decode, reported) ==> after.config() == config_after(
            before.config(),
            Invocation::GetStatus,
        ),
{
}

/// The errors of the consumer are reported under the numbers from one to six.
pub proof fn law_errors_are_numbered()
    ensures
        Error::InvalidTholosId.number() == 1,
        Error::TholosNotInitialized.number() == 2,
        Error::TholosPaused.number() == 3,
        Error::AssertionNotFound.number() == 4,
        Error::NotInitialized.number() == 5,
        Error::AlreadyInitialized.number() == 6,
{
}

/// Extending an entry leaves it alone where it has more than the threshold left, and otherwise
/// brings it to the target or to the network's limit, whichever is less, unless it has more.
pub proof fn law_extension(ttl: nat, threshold: u32, extend_to: u32, limit: nat)
    ensures
        ttl > threshold ==> extended_ttl(ttl, threshold, extend_to, limit) == ttl,
        ttl <= threshold && ttl <= extend_to <= limit ==> extended_ttl(
            ttl,
            threshold,
            extend_to,
            limit,
        ) == extend_to,
        ttl <= threshold && ttl <= limit <= extend_to ==> extended_ttl(
            ttl,
            threshold,
            extend_to,
            limit,
        ) == limit,
        ttl >= extend_to || ttl >= limit ==> extended_ttl(ttl, threshold, extend_to, limit) == ttl,
        extended_code_ttl(Some(ttl), threshold, extend_to, limit) == Some(
            extended_ttl(ttl, threshold, extend_to, limit),
        ),
        extended_code_ttl(None, threshold, extend_to, limit) is None,
{
}

/// Touching the contract does nothing where it has more than twenty-nine days left, counted in
/// ledgers of five seconds, and otherwise keeps it live for thirty, or for as long as the network
/// allows.
pub proof fn law_touching_lasts_thirty_days(ttl: nat, limit: nat)
    ensures
        ttl > 501_120 ==> touched(ttl, limit) == ttl,
        ttl <= 501_120 && limit >= 518_400 ==> touched(ttl, limit) == 518_400,
        ttl <= 501_120 && ttl <= limit < 518_400 ==> touched(ttl, limit) == limit,
        limit <= ttl ==> touched(ttl, limit) == ttl,
        touched_code(Some(ttl), limit) == Some(touched(ttl, limit)),
        touched_code(None, limit) is None,
        501_120 == 29 * 24 * 60 * 60 / 5,
        518_400 == 30 * 24 * 60 * 60 / 5,
{
}

} // verus!
