//! What the contract keeps in its instance storage, and how long that stays live.

use soroban_sdk::Address;
use vstd::prelude::*;

use crate::host::is_symbol;

verus! {

/// Ledgers that close in a day, at one every five seconds.
pub const DAY_IN_LEDGERS: u32 = 17280;

/// For how many ledgers the instance is kept live.
pub const INSTANCE_BUMP_AMOUNT: u32 = 30 * DAY_IN_LEDGERS;

/// How few ledgers the instance may have left before it is extended.
pub const INSTANCE_LIFETIME_THRESHOLD: u32 = INSTANCE_BUMP_AMOUNT - DAY_IN_LEDGERS;

/// The entries of the contract's instance storage.
#[derive(Clone, Copy, Debug, PartialEq, Eq, Structural)]
pub enum DataKey {
    /// Who may initialize the contract and have it assert.
    Admin,
    /// The trusted Tholos instance.
    Tholos,
    /// The token in which Tholos takes its bonds.
    Token,
}

impl DataKey {
    /// The symbol that an entry is stored under.
    pub open spec fn symbol(self) -> Seq<char> {
        match self {
            DataKey::Admin => "Admin"@,
            DataKey::Tholos => "Tholos"@,
            DataKey::Token => "Token"@,
        }
    }

    /// The symbol that an entry is stored under.
    pub fn name(self) -> (name: &'static str)
        ensures
            name@ == self.symbol(),
            is_symbol(name@),
    {
        proof {
            reveal_strlit("Admin");
            reveal_strlit("Tholos");
            reveal_strlit("Token");
        }
        match self {
            DataKey::Admin => "Admin",
            DataKey::Tholos => "Tholos",
            DataKey::Token => "Token",
        }
    }
}

/// No two entries share a symbol, so none is ever read or written in another's place.
pub proof fn lemma_symbols_differ(a: DataKey, b: DataKey)
    ensures
        a.symbol() == b.symbol() <==> a == b,
{
    reveal_strlit("Admin");
    reveal_strlit("Tholos");
    reveal_strlit("Token");
    assert("Admin"@[0] != "Tholos"@[0]);
    assert("Tholos"@.len() != "Token"@.len());
    assert("Admin"@[0] != "Token"@[0]);
}

/// The contents of the instance storage, entry by entry.
pub struct Config {
    pub admin: Option<Address>,
    pub tholos: Option<Address>,
    pub token: Option<Address>,
}

impl Config {
    /// The address stored under `key`, if there is one.
    pub open spec fn get(self, key: DataKey) -> Option<Address> {
        match key {
            DataKey::Admin => self.admin,
            DataKey::Tholos => self.tholos,
            DataKey::Token => self.token,
        }
    }

    /// The contents after `address` is stored under `key`.
    pub open spec fn set(self, key: DataKey, address: Address) -> Config {
        match key {
            DataKey::Admin => Config { admin: Some(address), ..self },
            DataKey::Tholos => Config { tholos: Some(address), ..self },
            DataKey::Token => Config { token: Some(address), ..self },
        }
    }

    /// Whether the contract has been pointed at a Tholos instance.
    pub open spec fn initialized(self) -> bool {
        self.tholos is Some
    }
}

} // verus!
