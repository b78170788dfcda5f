//! The host that runs the contract.
//!
//! The private functions here call the host through `soroban_sdk` and are taken at their word:
//! nothing below proves them. They speak of the host by the names declared first. [`Host`] is built
//! on them and is what the rest of the crate uses.
//!
//! The host meters every call and traps, undoing the whole invocation, once the resources that the
//! transaction paid for are used up. Nothing here speaks of that.

use soroban_sdk::auth::{ContractContext, InvokerContractAuthEntry, SubContractInvocation};
use soroban_sdk::{Address, Env, IntoVal, Symbol, Val};
use vstd::prelude::*;

use crate::call::{
    assert_outcome_call, get_assertion_state_call, transfer_call, Call, CallArg,
};
use crate::config::{lemma_symbols_differ, Config, DataKey, INSTANCE_BUMP_AMOUNT};
use crate::tholos::{decodes, InvokeError, Received};

verus! {

/// A handle to the host. Handles to one host share its state; this crate never works with more
/// than one at a time. Addresses, values and vectors belong to a host too, and all that meet in a
/// call are of the same one.
#[verifier::external_type_specification]
#[verifier::external_body]
pub struct ExEnv(Env);

/// The address of an account or of a contract, as a handle issued by the host. Two addresses are
/// taken for equal where `soroban_sdk` finds them so.
#[verifier::external_type_specification]
#[verifier::external_body]
pub struct ExAddress(Address);

/// A vector that the host holds. Pushing to one changes the handle, never what other handles see.
#[verifier::external_type_specification]
#[verifier::external_body]
#[verifier::reject_recursive_types(T)]
pub struct ExHostVec<T>(soroban_sdk::Vec<T>);

/// `Address::clone`: another handle to the same address.
pub assume_specification[ <soroban_sdk::Address as Clone>::clone ](
    address: &soroban_sdk::Address,
) -> (copy: soroban_sdk::Address)
    ensures
        copy == *address,
;

/// The contracts whose invocations are open in the host, the running one last.
pub uninterp spec fn frames(env: Env) -> Seq<Address>;

/// The entries in the instance storage of the running contract whose keys are vectors of one
/// symbol, by that symbol. A value that is not an address stands as `None`.
pub uninterp spec fn instance(env: Env) -> Map<Seq<char>, Option<Address>>;

/// The number of ledgers, past the current one, for which the instance of the running contract
/// stays live.
pub uninterp spec fn instance_ttl(env: Env) -> nat;

/// The number of ledgers, past the current one, for which the code of the running contract stays
/// live, unless that code is built into the host.
pub uninterp spec fn code_ttl(env: Env) -> Option<nat>;

/// The largest number of ledgers, past the current one, for which the network lets an entry stay
/// live.
pub uninterp spec fn max_ttl(env: Env) -> nat;

/// The number of ledgers that can still be numbered after the current one.
pub uninterp spec fn ledgers_left(env: Env) -> nat;

/// The addresses, other than that of the running contract, for which the host would accept at this
/// moment that they have authorized the running invocation with its arguments.
pub uninterp spec fn signers(env: Env) -> Set<Address>;

/// The calls that come back to the running contract, be it with a failure, whenever it makes them,
/// at this or any later moment of the running invocation. A call is not among them where it fails
/// in a way that the host does not let the caller recover from, and so ends the caller too: by an
/// internal error of the host, such as the overflow of a ledger number, or by the use of an entry
/// that the transaction did not declare.
pub uninterp spec fn answering(env: Env) -> Set<Call>;

/// What the running contract has asked of the host, in order, with what came back where it called
/// another contract. Reading and writing its own storage, asking for its own address and asking
/// for the text form of an address are left out.
pub uninterp spec fn requests(env: Env) -> Seq<HostCall>;

/// The items of a vector, in order, as arguments of a call. What an item of a type that no argument
/// has is read as is left open.
pub uninterp spec fn arguments(args: soroban_sdk::Vec<Val>) -> Seq<CallArg>;

/// The text form of an address, in ASCII.
pub uninterp spec fn strkey(address: Address) -> Seq<u8>;

/// Something that a contract asks of the host.
pub enum HostCall {
    /// That an address have authorized the running invocation.
    RequireAuth { address: Address },
    /// That the instance and the code be extended.
    ExtendTtl { threshold: u32, extend_to: u32 },
    /// That a call, with no calls below it, be authorized on behalf of the contract.
    Authorize { authorized: Call },
    /// That a function that returns a number be called, and what came back.
    InvokeForNumber { call: Call, number: Received<u64> },
    /// That any function be called, and what came back, in the host's own encoding.
    Invoke { call: Call, value: Received<Val> },
}

/// The characters that a symbol is made of.
pub open spec fn is_symbol_char(c: char) -> bool {
    ||| 'a' <= c <= 'z'
    ||| 'A' <= c <= 'Z'
    ||| '0' <= c <= '9'
    ||| c == '_'
}

/// Whether the host can represent `name` as a symbol.
pub open spec fn is_symbol(name: Seq<char>) -> bool {
    &&& name.len() <= 32
    &&& forall|i: int| 0 <= i < name.len() ==> is_symbol_char(#[trigger] name[i])
}

/// Whether the host, on its way from `a` to `b`, has kept running the same contract over the same
/// instance storage, in the same ledger and under the same limit on how long an entry may stay
/// live. The calls that came back then still do.
pub open spec fn same_instance(a: Env, b: Env) -> bool {
    &&& frames(a) == frames(b)
    &&& instance(a) == instance(b)
    &&& max_ttl(a) == max_ttl(b)
    &&& ledgers_left(a) == ledgers_left(b)
    &&& answering(a).subset_of(answering(b))
}

/// How long an entry stays live once it has been extended to `extend_to` ledgers, as far as the
/// network's limit lets it, provided it had at most `threshold` ledgers left. It never gets fewer.
pub open spec fn extended_ttl(ttl: nat, threshold: u32, extend_to: u32, limit: nat) -> nat {
    let target = if extend_to <= limit {
        extend_to as nat
    } else {
        limit
    };
    if ttl <= threshold && ttl < target {
        target
    } else {
        ttl
    }
}

/// The same for the code of a contract, where it is not built into the host.
pub open spec fn extended_code_ttl(
    ttl: Option<nat>,
    threshold: u32,
    extend_to: u32,
    limit: nat,
) -> Option<nat> {
    match ttl {
        Some(ttl) => Some(extended_ttl(ttl, threshold, extend_to, limit)),
        None => None,
    }
}

/// `Env::current_contract_address`: the address of the running contract. Traps where no contract
/// is running.
#[verifier::external_body]
fn current_contract_address(env: &Env) -> (contract: Address)
    requires
        frames(*env).len() > 0,
    ensures
        contract == frames(*env).last(),
{
    env.current_contract_address()
}

/// `storage::Instance::has`: whether the instance storage of the running contract has an entry
/// under the vector of the one symbol `name`. Traps where no contract is running, or where `name`
/// is not a symbol.
#[verifier::external_body]
fn instance_has(env: &Env, name: &str) -> (found: bool)
    requires
        frames(*env).len() > 0,
        is_symbol(name@),
    ensures
        found == instance(*env).contains_key(name@),
{
    let key: soroban_sdk::Vec<Val> = (Symbol::new(env, name),).into_val(env);
    env.storage().instance().has(&key)
}

/// `storage::Instance::get`: the address that the instance storage of the running contract holds
/// under the vector of the one symbol `name`, or nothing where it has no such entry. Traps as
/// `instance_has` does, and where the entry is not an address.
#[verifier::external_body]
fn instance_get(env: &Env, name: &str) -> (address: Option<Address>)
    requires
        frames(*env).len() > 0,
        is_symbol(name@),
        instance(*env).contains_key(name@) ==> instance(*env)[name@] is Some,
    ensures
        instance(*env).contains_key(name@) ==> address == instance(*env)[name@],
        !instance(*env).contains_key(name@) ==> address is None,
{
    let key: soroban_sdk::Vec<Val> = (Symbol::new(env, name),).into_val(env);
    env.storage().instance().get(&key)
}

/// `storage::Instance::set`: stores an address in the instance storage of the running contract
/// under the vector of the one symbol `name`, and changes no other entry. Traps as `instance_has`
/// does.
#[verifier::external_body]
fn instance_set(env: &mut Env, name: &str, address: &Address)
    requires
        frames(*old(env)).len() > 0,
        is_symbol(name@),
    ensures
        frames(*final(env)) == frames(*old(env)),
        instance(*final(env)) == instance(*old(env)).insert(name@, Some(*address)),
        instance_ttl(*final(env)) == instance_ttl(*old(env)),
        code_ttl(*final(env)) == code_ttl(*old(env)),
        max_ttl(*final(env)) == max_ttl(*old(env)),
        ledgers_left(*final(env)) == ledgers_left(*old(env)),
        signers(*final(env)) == signers(*old(env)),
        answering(*old(env)).subset_of(answering(*final(env))),
        requests(*final(env)) == requests(*old(env)),
{
    let key: soroban_sdk::Vec<Val> = (Symbol::new(env, name),).into_val(env);
    env.storage().instance().set(&key, address)
}

/// `storage::Instance::extend_ttl`: extends the instance of the running contract, and its code, to
/// `extend_to` ledgers, or to the network's limit where that is less, each provided it has at most
/// `threshold` ledgers left. Traps where no contract is running, where the threshold is past the
/// target, or where the target or the network's limit is past the last ledger that can be numbered.
#[verifier::external_body]
fn instance_extend_ttl(env: &mut Env, threshold: u32, extend_to: u32)
    requires
        frames(*old(env)).len() > 0,
        threshold <= extend_to <= ledgers_left(*old(env)),
        max_ttl(*old(env)) <= ledgers_left(*old(env)),
    ensures
        same_instance(*old(env), *final(env)),
        instance_ttl(*final(env)) == extended_ttl(
            instance_ttl(*old(env)),
            threshold,
            extend_to,
            max_ttl(*old(env)),
        ),
        code_ttl(*final(env)) == extended_code_ttl(
            code_ttl(*old(env)),
            threshold,
            extend_to,
            max_ttl(*old(env)),
        ),
        signers(*final(env)) == signers(*old(env)),
        requests(*final(env)) == requests(*old(env)).push(
            HostCall::ExtendTtl { threshold, extend_to },
        ),
{
    env.storage().instance().extend_ttl(threshold, extend_to)
}

/// `Address::require_auth`: returns where the address has authorized the running invocation with
/// its arguments, and traps where it has not. For an account the host decides itself. Another
/// contract decides by code of its own, which cannot reach the storage of the running contract but
/// can extend its life; what becomes of the life of its code is then left unsaid.
#[allow(unused_variables)]
#[verifier::external_body]
fn require_auth(env: &mut Env, address: &Address)
    requires
        frames(*old(env)).len() > 0,
        signers(*old(env)).contains(*address),
    ensures
        same_instance(*old(env), *final(env)),
        instance_ttl(*old(env)) <= instance_ttl(*final(env)),
        !names_contract(*address) ==> {
            &&& instance_ttl(*final(env)) == instance_ttl(*old(env))
            &&& code_ttl(*final(env)) == code_ttl(*old(env))
        },
        requests(*final(env)) == requests(*old(env)).push(
            HostCall::RequireAuth { address: *address },
        ),
{
    address.require_auth()
}

/// `Vec::new`: an empty vector.
#[verifier::external_body]
fn new_arguments(env: &Env) -> (args: soroban_sdk::Vec<Val>)
    ensures
        arguments(args) == Seq::<CallArg>::empty(),
{
    soroban_sdk::Vec::new(env)
}

/// `Vec::push_back`: puts a value, in the host's encoding, behind those that are there.
#[verifier::external_body]
fn push_argument(args: &mut soroban_sdk::Vec<Val>, arg: CallArg)
    ensures
        arguments(*final(args)) == arguments(*old(args)).push(arg),
{
    let val: Val = match arg {
        CallArg::Address(address) => address.into_val(args.env()),
        CallArg::Bool(flag) => flag.into_val(args.env()),
        CallArg::U64(number) => number.into_val(args.env()),
        CallArg::I128(number) => number.into_val(args.env()),
    };
    args.push_back(val)
}

/// `Env::authorize_as_current_contract`: authorizes, on behalf of the running contract, one call
/// of `function` on `contract` with the arguments `args`, and nothing below it, within the running
/// contract's next call. Traps where no contract is running, or where `function` is not a symbol.
#[verifier::external_body]
fn authorize_call(
    env: &mut Env,
    contract: &Address,
    function: &str,
    args: &soroban_sdk::Vec<Val>,
)
    requires
        frames(*old(env)).len() > 0,
        is_symbol(function@),
    ensures
        same_instance(*old(env), *final(env)),
        instance_ttl(*final(env)) == instance_ttl(*old(env)),
        code_ttl(*final(env)) == code_ttl(*old(env)),
        requests(*final(env)) == requests(*old(env)).push(
            HostCall::Authorize {
                authorized: Call {
                    contract: *contract,
                    function: function@,
                    args: arguments(*args),
                },
            },
        ),
{
    let context = ContractContext {
        contract: contract.clone(),
        fn_name: Symbol::new(env, function),
        args: args.clone(),
    };
    let sub_invocations = soroban_sdk::Vec::new(env);
    let invocation = SubContractInvocation { context, sub_invocations };
    let entry = InvokerContractAuthEntry::Contract(invocation);
    env.authorize_as_current_contract(soroban_sdk::Vec::from_array(env, [entry]))
}

/// `Address::to_string`: the text form of an address, which has 56 characters for an account and
/// for a contract alike.
#[verifier::external_body]
fn address_to_string(address: &Address) -> (text: [u8; 56])
    ensures
        text@ == strkey(*address),
{
    let mut text = [0u8; 56];
    address.to_string().copy_into_slice(&mut text);
    text
}

/// `Env::try_invoke_contract`, for a function that returns a number: invokes `function` on
/// `contract` with the arguments `args`. Traps where no contract is running, where `function` is
/// not a symbol, where `contract` is not the address of a contract, or where the invocation fails
/// beyond recovery. What comes back is up to the invoked contract, and so is how long the running
/// one stays live, though never less than before; the storage of the running contract is out of its
/// reach, for the host refuses to enter a contract again while it runs. What becomes of the life of
/// the running contract's code is left unsaid.
#[verifier::external_body]
fn try_invoke_for_number(
    env: &mut Env,
    contract: &Address,
    function: &str,
    args: &soroban_sdk::Vec<Val>,
) -> (received: Received<u64>)
    requires
        frames(*old(env)).len() > 0,
        is_symbol(function@),
        names_contract(*contract),
        answering(*old(env)).contains(
            Call { contract: *contract, function: function@, args: arguments(*args) },
        ),
    ensures
        same_instance(*old(env), *final(env)),
        instance_ttl(*old(env)) <= instance_ttl(*final(env)),
        requests(*final(env)) == requests(*old(env)).push(
            HostCall::InvokeForNumber {
                call: Call { contract: *contract, function: function@, args: arguments(*args) },
                number: received,
            },
        ),
{
    let name = Symbol::new(env, function);
    let args = args.clone();
    match env.try_invoke_contract::<u64, soroban_sdk::InvokeError>(contract, &name, args) {
        Ok(Ok(number)) => Ok(Ok(number)),
        Ok(Err(_)) => Ok(Err(())),
        Err(Ok(soroban_sdk::InvokeError::Contract(code))) => Err(InvokeError::Contract(code)),
        Err(_) => Err(InvokeError::Abort),
    }
}

/// `Env::try_invoke_contract`, for a function that may return anything. The same holds of it as of
/// `try_invoke_for_number`.
#[verifier::external_body]
fn try_invoke(
    env: &mut Env,
    contract: &Address,
    function: &str,
    args: &soroban_sdk::Vec<Val>,
) -> (received: Received<Val>)
    requires
        frames(*old(env)).len() > 0,
        is_symbol(function@),
        names_contract(*contract),
        answering(*old(env)).contains(
            Call { contract: *contract, function: function@, args: arguments(*args) },
        ),
    ensures
        same_instance(*old(env), *final(env)),
        instance_ttl(*old(env)) <= instance_ttl(*final(env)),
        requests(*final(env)) == requests(*old(env)).push(
            HostCall::Invoke {
                call: Call { contract: *contract, function: function@, args: arguments(*args) },
                value: received,
            },
        ),
{
    let name = Symbol::new(env, function);
    let args = args.clone();
    match env.try_invoke_contract::<Val, soroban_sdk::InvokeError>(contract, &name, args) {
        Ok(Ok(value)) => Ok(Ok(value)),
        Ok(Err(_)) => Ok(Err(())),
        Err(Ok(soroban_sdk::InvokeError::Contract(code))) => Err(InvokeError::Contract(code)),
        Err(_) => Err(InvokeError::Abort),
    }
}

/// Whether an address is that of a contract, rather than of an account: the text form of the one
/// starts with `C`, that of the other with `G`.
pub open spec fn names_contract(address: Address) -> bool {
    strkey(address)[0] == 67
}

/// Tells the address of a contract from that of an account.
fn is_contract(address: &Address) -> (yes: bool)
    ensures
        yes == names_contract(*address),
{
    let text = address_to_string(address);
    text[0] == 67
}

/// The host, as the running contract uses it.
pub struct Host {
    env: Env,
}

impl Host {
    pub closed spec fn env(self) -> Env {
        self.env
    }

    /// What the contract has asked of the host, in order.
    pub open spec fn calls(self) -> Seq<HostCall> {
        requests(self.env())
    }

    /// Whether a contract is running, with nothing but addresses stored under the data keys.
    pub open spec fn running(self) -> bool {
        &&& frames(self.env()).len() > 0
        &&& forall|key: DataKey|
            self.entries().contains_key(#[trigger] key.symbol()) ==> self.entries()[key.symbol()]
                is Some
    }

    /// Whether a contract is running, with ledgers to come for as long as its instance is kept
    /// live, and for as long as the network lets any entry stay live.
    pub open spec fn ready(self) -> bool {
        &&& self.running()
        &&& INSTANCE_BUMP_AMOUNT <= ledgers_left(self.env())
        &&& max_ttl(self.env()) <= ledgers_left(self.env())
    }

    /// Whether this is the host that was `before`, further on in the same invocation.
    pub open spec fn continues(self, before: Host) -> bool {
        &&& self.running()
        &&& self.ready() == before.ready()
        &&& self.contract() == before.contract()
        &&& self.max_ttl() == before.max_ttl()
        &&& forall|call: Call| before.answers(call) ==> #[trigger] self.answers(call)
    }

    /// The instance storage of the running contract, as far as its keys are vectors of one symbol.
    pub open spec fn entries(self) -> Map<Seq<char>, Option<Address>> {
        instance(self.env())
    }

    /// The running contract.
    pub open spec fn contract(self) -> Address {
        frames(self.env()).last()
    }

    /// The address stored under `key`, if there is one.
    pub open spec fn stored(self, key: DataKey) -> Option<Address> {
        if self.entries().contains_key(key.symbol()) {
            self.entries()[key.symbol()]
        } else {
            None
        }
    }

    /// What the contract has in its storage.
    pub open spec fn config(self) -> Config {
        Config {
            admin: self.stored(DataKey::Admin),
            tholos: self.stored(DataKey::Tholos),
            token: self.stored(DataKey::Token),
        }
    }

    /// For how many ledgers the contract's instance stays live.
    pub open spec fn ttl(self) -> nat {
        instance_ttl(self.env())
    }

    /// For how many ledgers the contract's code stays live, unless it is built into the host.
    pub open spec fn code_ttl(self) -> Option<nat> {
        code_ttl(self.env())
    }

    /// For how many ledgers an instance can stay live at most.
    pub open spec fn max_ttl(self) -> nat {
        max_ttl(self.env())
    }

    /// Whether an address has authorized the running invocation.
    pub open spec fn authorized_by(self, address: Address) -> bool {
        signers(self.env()).contains(address)
    }

    /// Whether a call can be made without ending the running contract: it comes back, or the callee
    /// is not a contract, and then nothing is asked of it.
    pub open spec fn answers(self, call: Call) -> bool {
        names_contract(call.contract) ==> answering(self.env()).contains(call)
    }

    /// Takes hold of the host for one invocation. Handles to one host share its state, so nothing
    /// may change the host through another handle for as long as this one is in use: what the
    /// functions of this crate promise of the host rests on it.
    pub fn new(env: Env) -> (host: Host)
        ensures
            host.env() == env,
    {
        Host { env }
    }

    /// The address of the running contract.
    pub(crate) fn current_contract(&self) -> (contract: Address)
        requires
            self.running(),
        ensures
            contract == self.contract(),
    {
        current_contract_address(&self.env)
    }

    /// Whether anything is stored under `key`.
    pub(crate) fn has(&self, key: DataKey) -> (found: bool)
        requires
            self.running(),
        ensures
            found == (self.config().get(key) is Some),
    {
        instance_has(&self.env, key.name())
    }

    /// The address stored under `key`, if there is one.
    pub(crate) fn get(&self, key: DataKey) -> (address: Option<Address>)
        requires
            self.running(),
        ensures
            address == self.config().get(key),
    {
        instance_get(&self.env, key.name())
    }

    /// Stores an address under `key`.
    pub(crate) fn set(&mut self, key: DataKey, address: &Address)
        requires
            old(self).running(),
        ensures
            final(self).continues(*old(self)),
            final(self).entries() == old(self).entries().insert(key.symbol(), Some(*address)),
            final(self).config() == old(self).config().set(key, *address),
            final(self).ttl() == old(self).ttl(),
            final(self).code_ttl() == old(self).code_ttl(),
            final(self).calls() == old(self).calls(),
    {
        proof {
            assert forall|other: DataKey| #[trigger]
                other.symbol() == key.symbol() implies other == key by {
                lemma_symbols_differ(other, key);
            }
            lemma_symbols_differ(DataKey::Admin, key);
            lemma_symbols_differ(DataKey::Tholos, key);
            lemma_symbols_differ(DataKey::Token, key);
        }
        instance_set(&mut self.env, key.name(), address);
    }

    /// Extends the instance, and the code, to `extend_to` ledgers where it has at most `threshold`
    /// left.
    pub(crate) fn extend_ttl(&mut self, threshold: u32, extend_to: u32)
        requires
            old(self).ready(),
            threshold <= extend_to <= INSTANCE_BUMP_AMOUNT,
        ensures
            final(self).continues(*old(self)),
            final(self).entries() == old(self).entries(),
            final(self).ttl() == extended_ttl(
                old(self).ttl(),
                threshold,
                extend_to,
                old(self).max_ttl(),
            ),
            final(self).code_ttl() == extended_code_ttl(
                old(self).code_ttl(),
                threshold,
                extend_to,
                old(self).max_ttl(),
            ),
            final(self).calls() == old(self).calls().push(
                HostCall::ExtendTtl { threshold, extend_to },
            ),
    {
        instance_extend_ttl(&mut self.env, threshold, extend_to);
    }

    /// Makes sure that `address` has authorized the running invocation.
    pub(crate) fn require_auth(&mut self, address: &Address)
        requires
            old(self).running(),
            old(self).authorized_by(*address),
        ensures
            final(self).continues(*old(self)),
            final(self).entries() == old(self).entries(),
            old(self).ttl() <= final(self).ttl(),
            !names_contract(*address) ==> {
                &&& final(self).ttl() == old(self).ttl()
                &&& final(self).code_ttl() == old(self).code_ttl()
            },
            final(self).calls() == old(self).calls().push(
                HostCall::RequireAuth { address: *address },
            ),
    {
        require_auth(&mut self.env, address);
    }

    /// Authorizes, on behalf of the running contract, a transfer within its next call.
    pub(crate) fn authorize_transfer(
        &mut self,
        token: &Address,
        from: &Address,
        to: &Address,
        amount: i128,
    )
        requires
            old(self).running(),
        ensures
            final(self).continues(*old(self)),
            final(self).entries() == old(self).entries(),
            final(self).ttl() == old(self).ttl(),
            final(self).code_ttl() == old(self).code_ttl(),
            final(self).calls() == old(self).calls().push(
                HostCall::Authorize { authorized: transfer_call(*token, *from, *to, amount) },
            ),
    {
        let mut args = new_arguments(&self.env);
        push_argument(&mut args, CallArg::Address(from.clone()));
        push_argument(&mut args, CallArg::Address(to.clone()));
        push_argument(&mut args, CallArg::I128(amount));
        proof {
            reveal_strlit("transfer");
            assert(arguments(args) =~= transfer_call(*token, *from, *to, amount).args);
        }
        authorize_call(&mut self.env, token, "transfer", &args);
    }

    /// Asks Tholos to take an assertion. Where the address is not that of a contract, nothing is
    /// asked, and the answer is that of an aborted invocation.
    pub(crate) fn assert_outcome(&mut self, tholos: &Address, asserter: &Address, outcome: bool)
        -> (received: Received<u64>)
        requires
            old(self).running(),
            old(self).answers(assert_outcome_call(*tholos, *asserter, outcome)),
        ensures
            final(self).continues(*old(self)),
            final(self).entries() == old(self).entries(),
            old(self).ttl() <= final(self).ttl(),
            names_contract(*tholos) ==> final(self).calls() == old(self).calls().push(
                HostCall::InvokeForNumber {
                    call: assert_outcome_call(*tholos, *asserter, outcome),
                    number: received,
                },
            ),
            !names_contract(*tholos) ==> {
                &&& received == Err::<Result<u64, ()>, _>(InvokeError::Abort)
                &&& final(self).ttl() == old(self).ttl()
                &&& final(self).code_ttl() == old(self).code_ttl()
                &&& final(self).calls() == old(self).calls()
            },
    {
        if is_contract(tholos) {
            let mut args = new_arguments(&self.env);
            push_argument(&mut args, CallArg::Address(asserter.clone()));
            push_argument(&mut args, CallArg::Bool(outcome));
            proof {
                reveal_strlit("assert_outcome");
                assert(arguments(args) =~= assert_outcome_call(*tholos, *asserter, outcome).args);
            }
            try_invoke_for_number(&mut self.env, tholos, "assert_outcome", &args)
        } else {
            Err(InvokeError::Abort)
        }
    }

    /// Asks Tholos to report on an assertion. Where the address is not that of a contract, nothing
    /// is asked, and the answer is that of an aborted invocation.
    pub(crate) fn get_assertion_state(&mut self, tholos: &Address, id: u64) -> (received: Received<
        Val,
    >)
        requires
            old(self).running(),
            old(self).answers(get_assertion_state_call(*tholos, id)),
        ensures
            final(self).continues(*old(self)),
            final(self).entries() == old(self).entries(),
            old(self).ttl() <= final(self).ttl(),
            names_contract(*tholos) ==> final(self).calls() == old(self).calls().push(
                HostCall::Invoke {
                    call: get_assertion_state_call(*tholos, id),
                    value: received,
                },
            ),
            !names_contract(*tholos) ==> {
                &&& received == Err::<Result<Val, ()>, _>(InvokeError::Abort)
                &&& final(self).ttl() == old(self).ttl()
                &&& final(self).code_ttl() == old(self).code_ttl()
                &&& final(self).calls() == old(self).calls()
            },
    {
        if is_contract(tholos) {
            let mut args = new_arguments(&self.env);
            push_argument(&mut args, CallArg::U64(id));
            proof {
                reveal_strlit("get_assertion_state");
                assert(arguments(args) =~= get_assertion_state_call(*tholos, id).args);
            }
            try_invoke(&mut self.env, tholos, "get_assertion_state", &args)
        } else {
            Err(InvokeError::Abort)
        }
    }

    /// Decodes a value that the host handed back.
    pub(crate) fn decode<T, D: Fn(&Env, &Val) -> Result<T, ()>>(
        &self,
        received: Received<Val>,
        decode: D,
    ) -> (decoded: Received<T>)
        requires
            forall|env: Env, value: Val| call_requires(decode, (&env, &value)),
        ensures
            decodes(decode, self.env(), received, decoded),
    {
        match received {
            Ok(Ok(value)) => Ok(decode(&self.env, &value)),
            Ok(Err(())) => Ok(Err(())),
            Err(failure) => Err(failure),
        }
    }
}

} // verus!
