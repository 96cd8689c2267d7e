//! The contract's error taxonomy. Every failure aborts the whole operation
//! atomically: the caller observes the error and an unchanged contract.

use crate::account::AccountId;
use crate::ledger::LedgerError;
use vstd::prelude::*;

verus! {

/// Why a contract call was aborted. No state is mutated on any of these.
#[derive(Debug)]
pub enum ContractError {
    /// An administrative call whose signer is not the operator.
    NotOwner,
    /// A purchase attempted while the exchange price is zero; the price is
    /// an operator-supplied configuration value and dividing by it would be
    /// undefined.
    ZeroExchangePrice,
    /// A deletion named a subscription id the signer's collection does not
    /// hold; the offending account and id identify the failure.
    SubscriptionNotFound { account: AccountId, id: u8 },
    /// The signer's subscription id space is exhausted: the highest
    /// existing id is already the largest representable one.
    SubscriptionIdsExhausted,
    /// The balance ledger refused the underlying operation.
    Ledger(LedgerError),
}

} // verus!
