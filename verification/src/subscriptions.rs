//! The subscription records and the trigger data model: a closed, tagged
//! set of event shapes with match-predicates. Each predicate list is
//! conjunctive when later evaluated by an off-chain consumer; only the data
//! shape is defined here.

use crate::account::AccountId;
use crate::Balance;
use vstd::prelude::*;

verus! {

/// A predicate over the outcome of a receipt with transfer actions.
#[derive(Debug)]
pub enum TransferTrigger {
    SignerId(AccountId),
    ReceiverId(AccountId),
    AmountEqualOrGreater(Balance),
    AmountEqualOrLower(Balance),
}

/// A predicate over the outcome of a receipt with function-call actions.
#[derive(Debug)]
pub enum FunctionCallTrigger {
    ReceiverId(AccountId),
    FunctionNameExact(String),
    FunctionNameLike(String),
}

/// The event a subscription waits for: one variant per receipt kind, each
/// carrying an ordered, conjunctive list of triggers.
#[derive(Debug)]
pub enum Event {
    ReceiptTransferResult(Vec<TransferTrigger>),
    ReceiptFunctionCallResult(Vec<FunctionCallTrigger>),
}

/// The record of what a user is subscribed for.
#[derive(Debug)]
pub struct UserSubscription {
    /// Identifier, unique within the owning account's collection.
    pub id: u8,
    /// Whether the subscription is active; always true on creation.
    pub enabled: bool,
    /// Encoded webhook address, unvalidated.
    pub endpoint: String,
    /// The event itself.
    pub event: Event,
}

/// Mathematical image of a `TransferTrigger`.
pub enum TransferTriggerV {
    SignerId(Seq<char>),
    ReceiverId(Seq<char>),
    AmountEqualOrGreater(Balance),
    AmountEqualOrLower(Balance),
}

/// Mathematical image of a `FunctionCallTrigger`.
pub enum FunctionCallTriggerV {
    ReceiverId(Seq<char>),
    FunctionNameExact(Seq<char>),
    FunctionNameLike(Seq<char>),
}

/// Mathematical image of an `Event`.
pub enum EventV {
    ReceiptTransferResult(Seq<TransferTriggerV>),
    ReceiptFunctionCallResult(Seq<FunctionCallTriggerV>),
}

/// Mathematical image of a `UserSubscription`.
pub struct UserSubscriptionV {
    pub id: u8,
    pub enabled: bool,
    pub endpoint: Seq<char>,
    pub event: EventV,
}

impl View for TransferTrigger {
    type V = TransferTriggerV;

    open spec fn view(&self) -> TransferTriggerV {
        match self {
            TransferTrigger::SignerId(a) => TransferTriggerV::SignerId(a@),
            TransferTrigger::ReceiverId(a) => TransferTriggerV::ReceiverId(a@),
            TransferTrigger::AmountEqualOrGreater(n) => TransferTriggerV::AmountEqualOrGreater(*n),
            TransferTrigger::AmountEqualOrLower(n) => TransferTriggerV::AmountEqualOrLower(*n),
        }
    }
}

impl DeepView for TransferTrigger {
    type V = TransferTriggerV;

    open spec fn deep_view(&self) -> TransferTriggerV {
        self@
    }
}

impl View for FunctionCallTrigger {
    type V = FunctionCallTriggerV;

    open spec fn view(&self) -> FunctionCallTriggerV {
        match self {
            FunctionCallTrigger::ReceiverId(a) => FunctionCallTriggerV::ReceiverId(a@),
            FunctionCallTrigger::FunctionNameExact(s) => FunctionCallTriggerV::FunctionNameExact(
                s@,
            ),
            FunctionCallTrigger::FunctionNameLike(s) => FunctionCallTriggerV::FunctionNameLike(s@),
        }
    }
}

impl DeepView for FunctionCallTrigger {
    type V = FunctionCallTriggerV;

    open spec fn deep_view(&self) -> FunctionCallTriggerV {
        self@
    }
}

impl View for Event {
    type V = EventV;

    open spec fn view(&self) -> EventV {
        match self {
            Event::ReceiptTransferResult(ts) => EventV::ReceiptTransferResult(ts.deep_view()),
            Event::ReceiptFunctionCallResult(ts) => EventV::ReceiptFunctionCallResult(
                ts.deep_view(),
            ),
        }
    }
}

impl DeepView for Event {
    type V = EventV;

    open spec fn deep_view(&self) -> EventV {
        self@
    }
}

impl View for UserSubscription {
    type V = UserSubscriptionV;

    open spec fn view(&self) -> UserSubscriptionV {
        UserSubscriptionV {
            id: self.id,
            enabled: self.enabled,
            endpoint: self.endpoint@,
            event: self.event@,
        }
    }
}

impl DeepView for UserSubscription {
    type V = UserSubscriptionV;

    open spec fn deep_view(&self) -> UserSubscriptionV {
        self@
    }
}

/// The highest id in a subscription sequence; zero when empty. The id a
/// creation assigns is always one more than this, recomputed fresh on each
/// call rather than kept as a counter, so a freed highest id is reused.
pub open spec fn max_id(s: Seq<UserSubscriptionV>) -> int
    decreases s.len(),
{
    if s.len() == 0 {
        0
    } else if s.last().id > max_id(s.drop_last()) {
        s.last().id as int
    } else {
        max_id(s.drop_last())
    }
}

/// Whether some record of the sequence carries the id.
pub open spec fn has_sub(s: Seq<UserSubscriptionV>, id: u8) -> bool {
    exists|i: int| 0 <= i < s.len() && s[i].id == id
}

/// The position of the first record carrying the id; -1 when none does.
pub open spec fn first_index_of(s: Seq<UserSubscriptionV>, id: u8) -> int
    decreases s.len(),
{
    if s.len() == 0 {
        -1
    } else if s.first().id == id {
        0
    } else if first_index_of(s.drop_first(), id) == -1 {
        -1
    } else {
        1 + first_index_of(s.drop_first(), id)
    }
}

/// A position that carries the id and has no earlier carrier is the first.
pub proof fn lemma_first_index_char(s: Seq<UserSubscriptionV>, id: u8, i: int)
    requires
        0 <= i < s.len(),
        s[i].id == id,
        forall|j: int| 0 <= j < i ==> s[j].id != id,
    ensures
        first_index_of(s, id) == i,
    decreases s.len(),
{
    if i == 0 {
    } else {
        let rest = s.drop_first();
        assert(s[0].id != id);
        assert(rest[i - 1].id == id);
        assert(forall|j: int| 0 <= j < i - 1 ==> #[trigger] rest[j].id != id);
        lemma_first_index_char(rest, id, i - 1);
    }
}

impl Clone for TransferTrigger {
    fn clone(&self) -> (r: Self)
        ensures
            r == *self,
    {
        match self {
            TransferTrigger::SignerId(a) => TransferTrigger::SignerId(a.clone()),
            TransferTrigger::ReceiverId(a) => TransferTrigger::ReceiverId(a.clone()),
            TransferTrigger::AmountEqualOrGreater(n) => TransferTrigger::AmountEqualOrGreater(*n),
            TransferTrigger::AmountEqualOrLower(n) => TransferTrigger::AmountEqualOrLower(*n),
        }
    }
}

impl Clone for FunctionCallTrigger {
    fn clone(&self) -> (r: Self)
        ensures
            r == *self,
    {
        match self {
            FunctionCallTrigger::ReceiverId(a) => FunctionCallTrigger::ReceiverId(a.clone()),
            FunctionCallTrigger::FunctionNameExact(s) => FunctionCallTrigger::FunctionNameExact(
                s.clone(),
            ),
            FunctionCallTrigger::FunctionNameLike(s) => FunctionCallTrigger::FunctionNameLike(
                s.clone(),
            ),
        }
    }
}

impl Clone for Event {
    fn clone(&self) -> (r: Self)
        ensures
            r@ == self@,
    {
        match self {
            Event::ReceiptTransferResult(ts) => {
                let mut out: Vec<TransferTrigger> = Vec::new();
                let mut i: usize = 0;
                while i < ts.len()
                    invariant
                        i <= ts.len(),
                        out@.len() == i,
                        forall|j: int| 0 <= j < i ==> out@[j] == ts@[j],
                    decreases ts.len() - i,
                {
                    out.push(ts[i].clone());
                    i += 1;
                }
                proof {
                    assert(out@ =~= ts@);
                }
                Event::ReceiptTransferResult(out)
            },
            Event::ReceiptFunctionCallResult(ts) => {
                let mut out: Vec<FunctionCallTrigger> = Vec::new();
                let mut i: usize = 0;
                while i < ts.len()
                    invariant
                        i <= ts.len(),
                        out@.len() == i,
                        forall|j: int| 0 <= j < i ==> out@[j] == ts@[j],
                    decreases ts.len() - i,
                {
                    out.push(ts[i].clone());
                    i += 1;
                }
                proof {
                    assert(out@ =~= ts@);
                }
                Event::ReceiptFunctionCallResult(out)
            },
        }
    }
}

impl Clone for UserSubscription {
    fn clone(&self) -> (r: Self)
        ensures
            r@ == self@,
    {
        UserSubscription {
            id: self.id,
            enabled: self.enabled,
            endpoint: self.endpoint.clone(),
            event: self.event.clone(),
        }
    }
}

} // verus!
