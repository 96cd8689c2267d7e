//! An on-ledger exchange-and-notification service over a fungible-token
//! balance ledger: parties buy ledger units at an operator-set price, the
//! operator mints units, reprices and force-charges accounts, and each
//! account keeps a registry of notification subscriptions.
//!
//! Every operation runs as one atomic unit: a failure anywhere aborts the
//! whole call and leaves the contract unchanged. The hosting environment
//! supplies the signer and the attached native value as plain arguments and
//! carries out the returned value-transfer orders.

pub mod account;
pub mod audit;
pub mod errors;
pub mod laws;
pub mod ledger;
pub mod owner;
pub mod public;
pub mod registry;
pub mod subscriptions;

pub use account::AccountId;
pub use audit::{AuditRecord, PurchaseReceipt, ValueTransfer};
pub use errors::ContractError;
pub use ledger::{Ledger, LedgerError};

use crate::ledger::balance_in;
use crate::subscriptions::UserSubscriptionV;
use vstd::prelude::*;

verus! {

/// Token balances and native-currency amounts are unsigned 128-bit integers.
pub type Balance = u128;

/// The smaller of two balances.
pub open spec fn min_bal(a: Balance, b: Balance) -> Balance {
    if a <= b {
        a
    } else {
        b
    }
}

/// The contract state: the operator, the exchange price, the balance
/// ledger, the per-account subscription registry, and the token metadata
/// the audit records cite.
pub struct Contract {
    owner_id: AccountId,
    exchange_price_in_yocto_near: Balance,
    token: ledger::Ledger,
    subscriptions: registry::SubscriptionRegistry,
    name: String,
    symbol: String,
}

impl Contract {
    /// The operator's account identifier, fixed at initialization.
    pub closed spec fn spec_owner(&self) -> Seq<char> {
        self.owner_id@
    }

    /// Native-value units required to buy one ledger unit.
    pub closed spec fn spec_price(&self) -> Balance {
        self.exchange_price_in_yocto_near
    }

    /// The ledger's balance mapping, keyed by registered account.
    pub closed spec fn balances(&self) -> Map<Seq<char>, Balance> {
        self.token@
    }

    /// The sum of all ledger balances.
    pub closed spec fn spec_total_supply(&self) -> Balance {
        self.token.spec_total_supply()
    }

    /// The subscription registry's mapping.
    pub closed spec fn subs(&self) -> Map<Seq<char>, Seq<UserSubscriptionV>> {
        self.subscriptions@
    }

    pub closed spec fn spec_name(&self) -> Seq<char> {
        self.name@
    }

    pub closed spec fn spec_symbol(&self) -> Seq<char> {
        self.symbol@
    }

    /// Well-formedness: both stores are well-formed and the operator is
    /// registered on the ledger (initialization registers it and nothing
    /// ever unregisters an account).
    pub closed spec fn wf(&self) -> bool {
        &&& self.token.wf()
        &&& self.subscriptions.wf()
        &&& self.token@.contains_key(self.owner_id@)
    }

    /// Initializes the contract: the given owner becomes the operator and
    /// holds the entire initial supply; no account has subscriptions yet.
    pub fn new(
        owner_id: AccountId,
        total_supply: Balance,
        exchange_price_in_yocto_near: Balance,
        name: String,
        symbol: String,
    ) -> (r: Contract)
        ensures
            r.wf(),
            r.spec_owner() == owner_id@,
            r.spec_price() == exchange_price_in_yocto_near,
            r.balances() == Map::<Seq<char>, Balance>::empty().insert(owner_id@, total_supply),
            r.spec_total_supply() == total_supply,
            r.subs() == Map::<Seq<char>, Seq<UserSubscriptionV>>::empty(),
            r.spec_name() == name@,
            r.spec_symbol() == symbol@,
    {
        let mut token = ledger::Ledger::new();
        token.register(&owner_id);
        let _ = token.deposit(&owner_id, total_supply);
        proof {
            assert(token@ =~= Map::<Seq<char>, Balance>::empty().insert(owner_id@, total_supply));
        }
        Contract {
            owner_id,
            exchange_price_in_yocto_near,
            token,
            subscriptions: registry::SubscriptionRegistry::new(),
            name,
            symbol,
        }
    }

    /// The current exchange price.
    pub fn exchange_price(&self) -> (r: Balance)
        ensures
            r == self.spec_price(),
    {
        self.exchange_price_in_yocto_near
    }

    /// The account's ledger balance; zero if it was never registered.
    pub fn ft_balance_of(&self, account_id: &AccountId) -> (r: Balance)
        requires
            self.wf(),
        ensures
            r == balance_in(self.balances(), account_id@),
    {
        self.token.balance_of(account_id)
    }

    /// The total ledger supply.
    pub fn ft_total_supply(&self) -> (r: Balance)
        ensures
            r == self.spec_total_supply(),
    {
        self.token.total_supply()
    }
}

} // verus!
