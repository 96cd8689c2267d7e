//! Typed audit records and native-value transfer orders. The contract
//! returns these instead of writing log lines or moving native currency
//! itself; the hosting environment formats the records and performs the
//! transfers.

use crate::account::AccountId;
use crate::Balance;
use vstd::prelude::*;

verus! {

/// An order to send `amount` of native value to `receiver`, fire-and-forget.
#[derive(Debug)]
pub struct ValueTransfer {
    pub receiver: AccountId,
    pub amount: Balance,
}

/// Mathematical image of a `ValueTransfer`.
pub struct ValueTransferV {
    pub receiver: Seq<char>,
    pub amount: Balance,
}

impl View for ValueTransfer {
    type V = ValueTransferV;

    open spec fn view(&self) -> ValueTransferV {
        ValueTransferV { receiver: self.receiver@, amount: self.amount }
    }
}

impl DeepView for ValueTransfer {
    type V = ValueTransferV;

    open spec fn deep_view(&self) -> ValueTransferV {
        self@
    }
}

/// One audit record per observable administrative or exchange event.
#[derive(Debug)]
pub enum AuditRecord {
    /// A buyer exchanged native value for ledger units; the surplus that
    /// did not divide evenly by the price was refunded.
    Purchase { buyer: AccountId, amount: Balance, symbol: String, surplus: Balance },
    /// The operator minted `amount` new units into their own account.
    Mint { amount: Balance },
    /// The operator replaced the exchange price.
    PriceChange { new_price: Balance },
    /// An account was charged exactly the requested amount.
    Charge { account: AccountId, amount: Balance, symbol: String },
    /// An account held less than requested and was charged its entire
    /// balance; the originally requested amount is kept for auditability.
    ChargeClamped { account: AccountId, charged: Balance, requested: Balance, symbol: String },
}

/// Mathematical image of an `AuditRecord`.
pub enum AuditRecordV {
    Purchase { buyer: Seq<char>, amount: Balance, symbol: Seq<char>, surplus: Balance },
    Mint { amount: Balance },
    PriceChange { new_price: Balance },
    Charge { account: Seq<char>, amount: Balance, symbol: Seq<char> },
    ChargeClamped { account: Seq<char>, charged: Balance, requested: Balance, symbol: Seq<char> },
}

impl View for AuditRecord {
    type V = AuditRecordV;

    open spec fn view(&self) -> AuditRecordV {
        match self {
            AuditRecord::Purchase { buyer, amount, symbol, surplus } => AuditRecordV::Purchase {
                buyer: buyer@,
                amount: *amount,
                symbol: symbol@,
                surplus: *surplus,
            },
            AuditRecord::Mint { amount } => AuditRecordV::Mint { amount: *amount },
            AuditRecord::PriceChange { new_price } => AuditRecordV::PriceChange {
                new_price: *new_price,
            },
            AuditRecord::Charge { account, amount, symbol } => AuditRecordV::Charge {
                account: account@,
                amount: *amount,
                symbol: symbol@,
            },
            AuditRecord::ChargeClamped { account, charged, requested, symbol } => (
            AuditRecordV::ChargeClamped {
                account: account@,
                charged: *charged,
                requested: *requested,
                symbol: symbol@,
            }),
        }
    }
}

impl DeepView for AuditRecord {
    type V = AuditRecordV;

    open spec fn deep_view(&self) -> AuditRecordV {
        self@
    }
}

/// What a completed purchase hands back: the settlement amounts, the two
/// native-value transfer orders (treasury first, refund second — that order
/// is part of the contract), and the audit record.
#[derive(Debug)]
pub struct PurchaseReceipt {
    pub affordable_amount: Balance,
    pub surplus: Balance,
    pub payouts: Vec<ValueTransfer>,
    pub audit: AuditRecord,
}

} // verus!
