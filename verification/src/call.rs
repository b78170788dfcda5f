//! The calls of other contracts that the contract makes or authorizes.

use soroban_sdk::Address;
use vstd::prelude::*;

verus! {

/// An argument of a call.
pub enum CallArg {
    Address(Address),
    Bool(bool),
    U64(u64),
    I128(i128),
}

/// A call of a function of a contract.
pub struct Call {
    pub contract: Address,
    pub function: Seq<char>,
    pub args: Seq<CallArg>,
}

/// The call that transfers `amount` of a token.
pub open spec fn transfer_call(token: Address, from: Address, to: Address, amount: i128) -> Call {
    Call {
        contract: token,
        function: "transfer"@,
        args: seq![CallArg::Address(from), CallArg::Address(to), CallArg::I128(amount)],
    }
}

/// The call that has Tholos take an assertion.
pub open spec fn assert_outcome_call(tholos: Address, asserter: Address, outcome: bool) -> Call {
    Call {
        contract: tholos,
        function: "assert_outcome"@,
        args: seq![CallArg::Address(asserter), CallArg::Bool(outcome)],
    }
}

/// The call that has Tholos report on an assertion.
pub open spec fn get_assertion_state_call(tholos: Address, id: u64) -> Call {
    Call {
        contract: tholos,
        function: "get_assertion_state"@,
        args: seq![CallArg::U64(id)],
    }
}

} // verus!
