//! The publicly callable exchange and subscription operations: buying
//! ledger units, and creating, deleting and listing subscriptions.

use crate::account::AccountId;
use crate::audit::{AuditRecord, AuditRecordV, PurchaseReceipt, ValueTransfer, ValueTransferV};
use crate::errors::ContractError;
use crate::ledger::{balance_in, map_transfer, LedgerError};
use crate::registry::{clone_subscription_list, subs_in};
use crate::subscriptions::{
    first_index_of, has_sub, lemma_first_index_char, max_id, UserSubscription, UserSubscriptionV,
};
use crate::{Balance, Contract};
use vstd::arithmetic::div_mod::{
    lemma_basic_div, lemma_fundamental_div_mod, lemma_mod_decreases,
    lemma_mod_division_less_than_divisor, lemma_small_mod,
};
use vstd::prelude::*;

verus! {

/// How many whole ledger units `paid` buys at `price` (floor division).
pub open spec fn affordable_of(paid: Balance, price: Balance) -> int
    recommends
        price > 0,
{
    paid as int / price as int
}

/// The part of `paid` that does not divide evenly by `price` and is
/// refunded to the payer.
pub open spec fn surplus_of(paid: Balance, price: Balance) -> int
    recommends
        price > 0,
{
    paid as int % price as int
}

/// The balance mapping with `a` registered: unchanged if it already is,
/// otherwise extended with a zero balance.
pub open spec fn with_registered(m: Map<Seq<char>, Balance>, a: Seq<char>) -> Map<
    Seq<char>,
    Balance,
> {
    if m.contains_key(a) {
        m
    } else {
        m.insert(a, 0)
    }
}

impl Contract {
    /// Exchanges attached native value for ledger units at the current
    /// price. The buyer is registered if absent, the units move from the
    /// operator to the buyer, and the receipt orders the native-value
    /// movements: the spent part to the operator, the surplus back to the
    /// buyer, strictly after the ledger transfer.
    #[verifier::rlimit(50)]
    pub fn buy_ft_tokens(&mut self, signer_account_id: &AccountId, attached_deposit: Balance) -> (
        r: Result<PurchaseReceipt, ContractError>)
        requires
            old(self).wf(),
        ensures
            final(self).wf(),
            r is Ok <==> old(self).spec_price() != 0 && balance_in(
                old(self).balances(),
                old(self).spec_owner(),
            ) >= affordable_of(attached_deposit, old(self).spec_price()),
            old(self).spec_price() == 0 ==> (r matches Err(e) && e matches
                ContractError::ZeroExchangePrice),
            old(self).spec_price() != 0 && balance_in(old(self).balances(), old(self).spec_owner())
                < affordable_of(attached_deposit, old(self).spec_price()) ==> (r matches Err(e)
                && e matches ContractError::Ledger(LedgerError::InsufficientBalance)),
            r is Err ==> *final(self) == *old(self),
            r matches Ok(rec) ==> {
                &&& rec.affordable_amount == affordable_of(
                    attached_deposit,
                    old(self).spec_price(),
                )
                &&& rec.surplus == surplus_of(attached_deposit, old(self).spec_price())
                &&& rec.affordable_amount * old(self).spec_price() + rec.surplus
                    == attached_deposit
                &&& rec.surplus < old(self).spec_price()
                &&& attached_deposit < old(self).spec_price() ==> rec.affordable_amount == 0
                    && rec.surplus == attached_deposit
                &&& final(self).balances() == map_transfer(
                    with_registered(old(self).balances(), signer_account_id@),
                    old(self).spec_owner(),
                    signer_account_id@,
                    rec.affordable_amount,
                )
                &&& final(self).spec_total_supply() == old(self).spec_total_supply()
                &&& final(self).spec_price() == old(self).spec_price()
                &&& final(self).spec_owner() == old(self).spec_owner()
                &&& final(self).subs() == old(self).subs()
                &&& final(self).spec_name() == old(self).spec_name()
                &&& final(self).spec_symbol() == old(self).spec_symbol()
                &&& rec.payouts.deep_view() == seq![
                    ValueTransferV {
                        receiver: old(self).spec_owner(),
                        amount: (attached_deposit - rec.surplus) as Balance,
                    },
                    ValueTransferV { receiver: signer_account_id@, amount: rec.surplus },
                ]
                &&& rec.audit@ == (AuditRecordV::Purchase {
                    buyer: signer_account_id@,
                    amount: rec.affordable_amount,
                    symbol: old(self).spec_symbol(),
                    surplus: rec.surplus,
                })
            },
    {
        if self.exchange_price_in_yocto_near == 0 {
            return Err(ContractError::ZeroExchangePrice);
        }
        let price = self.exchange_price_in_yocto_near;
        let affordable_amount = attached_deposit / price;
        let surplus = attached_deposit % price;
        proof {
            lemma_fundamental_div_mod(attached_deposit as int, price as int);
            lemma_mod_division_less_than_divisor(attached_deposit as int, price as int);
            lemma_mod_decreases(attached_deposit as nat, price as nat);
            assert((attached_deposit as int / price as int) * price as int == price as int * (
            attached_deposit as int / price as int)) by (nonlinear_arith);
            if attached_deposit < price {
                lemma_basic_div(attached_deposit as int, price as int);
                lemma_small_mod(attached_deposit as nat, price as nat);
            }
            assert(affordable_amount * price + surplus == attached_deposit);
            assert(attached_deposit < price ==> affordable_amount == 0 && surplus
                == attached_deposit);
        }
        let owner_balance = self.token.balance_of(&self.owner_id);
        if owner_balance < affordable_amount {
            return Err(ContractError::Ledger(LedgerError::InsufficientBalance));
        }
        self.token.register(signer_account_id);
        let _ = self.token.transfer(&self.owner_id, signer_account_id, affordable_amount);
        let treasury_amount = attached_deposit - surplus;
        let mut payouts: Vec<ValueTransfer> = Vec::new();
        payouts.push(ValueTransfer { receiver: self.owner_id.clone(), amount: treasury_amount });
        payouts.push(ValueTransfer { receiver: signer_account_id.clone(), amount: surplus });
        let audit = AuditRecord::Purchase {
            buyer: signer_account_id.clone(),
            amount: affordable_amount,
            symbol: self.symbol.clone(),
            surplus,
        };
        proof {
            assert(payouts.deep_view() =~= seq![
                ValueTransferV {
                    receiver: old(self).spec_owner(),
                    amount: (attached_deposit - surplus) as Balance,
                },
                ValueTransferV { receiver: signer_account_id@, amount: surplus },
            ]);
        }
        Ok(PurchaseReceipt { affordable_amount, surplus, payouts, audit })
    }

    /// Appends a new subscription for the signer, enabled, with the next
    /// identifier: one more than the highest existing id, or 1 for a first
    /// subscription. Fails only when the id space is exhausted.
    pub fn create_subscription(
        &mut self,
        signer_account_id: &AccountId,
        endpoint: String,
        event: crate::subscriptions::Event,
    ) -> (r: Result<u8, ContractError>)
        requires
            old(self).wf(),
        ensures
            final(self).wf(),
            r is Ok <==> max_id(subs_in(old(self).subs(), signer_account_id@)) < 255,
            subs_in(old(self).subs(), signer_account_id@).len() == 0 ==> (r matches Ok(id) && id
                == 1),
            r matches Ok(id) ==> {
                &&& id == max_id(subs_in(old(self).subs(), signer_account_id@)) + 1
                &&& final(self).subs() == old(self).subs().insert(
                    signer_account_id@,
                    subs_in(old(self).subs(), signer_account_id@).push(
                        UserSubscriptionV { id, enabled: true, endpoint: endpoint@, event: event@ },
                    ),
                )
                &&& final(self).balances() == old(self).balances()
                &&& final(self).spec_total_supply() == old(self).spec_total_supply()
                &&& final(self).spec_price() == old(self).spec_price()
                &&& final(self).spec_owner() == old(self).spec_owner()
                &&& final(self).spec_name() == old(self).spec_name()
                &&& final(self).spec_symbol() == old(self).spec_symbol()
            },
            r is Err ==> *final(self) == *old(self) && (r matches Err(e) && e matches
                ContractError::SubscriptionIdsExhausted),
    {
        let ghost ep = endpoint@;
        let ghost ev = event@;
        let mut list: Vec<UserSubscription> = match self.subscriptions.get(signer_account_id) {
            Some(l) => clone_subscription_list(l),
            None => Vec::new(),
        };
        let ghost s0 = subs_in(self.subs(), signer_account_id@);
        proof {
            assert(list.deep_view() =~= s0);
        }
        let ghost dv = list.deep_view();
        let mut mx: u8 = 0;
        let mut i: usize = 0;
        while i < list.len()
            invariant
                i <= list@.len(),
                dv == list.deep_view(),
                dv.len() == list@.len(),
                mx == max_id(dv.take(i as int)),
            decreases list@.len() - i,
        {
            let v = list[i].id;
            proof {
                let next = dv.take(i as int + 1);
                assert(next.drop_last() =~= dv.take(i as int));
                assert(next.last() == dv[i as int]);
                assert(dv[i as int] == list@[i as int].deep_view());
            }
            if v > mx {
                mx = v;
            }
            i += 1;
        }
        proof {
            assert(dv.take(dv.len() as int) =~= dv);
        }
        if mx == 255 {
            return Err(ContractError::SubscriptionIdsExhausted);
        }
        let subscription_id = mx + 1;
        list.push(UserSubscription { id: subscription_id, enabled: true, endpoint, event });
        proof {
            assert(list.deep_view() =~= s0.push(
                UserSubscriptionV { id: subscription_id, enabled: true, endpoint: ep, event: ev },
            ));
        }
        self.subscriptions.set(signer_account_id, list);
        Ok(subscription_id)
    }

    /// Removes the signer's first subscription carrying the given id,
    /// keeping the order of the remainder. An unknown id aborts the call
    /// and leaves the sequence unchanged.
    pub fn delete_subscription(&mut self, signer_account_id: &AccountId, id: u8) -> (r: Result<
        (),
        ContractError,
    >)
        requires
            old(self).wf(),
        ensures
            final(self).wf(),
            r is Ok <==> has_sub(subs_in(old(self).subs(), signer_account_id@), id),
            r is Ok ==> {
                &&& final(self).subs() == old(self).subs().insert(
                    signer_account_id@,
                    subs_in(old(self).subs(), signer_account_id@).remove(
                        first_index_of(subs_in(old(self).subs(), signer_account_id@), id),
                    ),
                )
                &&& final(self).balances() == old(self).balances()
                &&& final(self).spec_total_supply() == old(self).spec_total_supply()
                &&& final(self).spec_price() == old(self).spec_price()
                &&& final(self).spec_owner() == old(self).spec_owner()
                &&& final(self).spec_name() == old(self).spec_name()
                &&& final(self).spec_symbol() == old(self).spec_symbol()
            },
            r is Err ==> *final(self) == *old(self) && (r matches Err(e) && e matches
                ContractError::SubscriptionNotFound { account, id: missing } && account@
                == signer_account_id@ && missing == id),
    {
        let mut list: Vec<UserSubscription>;
        match self.subscriptions.get(signer_account_id) {
            None => {
                return Err(
                    ContractError::SubscriptionNotFound {
                        account: signer_account_id.clone(),
                        id,
                    },
                );
            },
            Some(l) => {
                list = clone_subscription_list(l);
            },
        }
        let ghost s0 = subs_in(self.subs(), signer_account_id@);
        proof {
            assert(list.deep_view() =~= s0);
        }
        let ghost dv = list.deep_view();
        let mut i: usize = 0;
        while i < list.len()
            invariant
                i <= list@.len(),
                dv == list.deep_view(),
                dv.len() == list@.len(),
                dv == s0,
                forall|j: int| 0 <= j < i ==> #[trigger] dv[j].id != id,
                *self == *old(self),
                self.wf(),
                s0 == subs_in(old(self).subs(), signer_account_id@),
            decreases list@.len() - i,
        {
            proof {
                assert(dv[i as int] == list@[i as int].deep_view());
            }
            if list[i].id == id {
                proof {
                    lemma_first_index_char(dv, id, i as int);
                }
                list.remove(i);
                proof {
                    assert(list.deep_view() =~= dv.remove(i as int));
                }
                self.subscriptions.set(signer_account_id, list);
                return Ok(());
            }
            i += 1;
        }
        proof {
            assert(!has_sub(s0, id));
        }
        Err(ContractError::SubscriptionNotFound { account: signer_account_id.clone(), id })
    }

    /// The account's full subscription sequence, verbatim and in insertion
    /// order; empty if the account has never created one. Read-only.
    pub fn subscriptions_of(&self, account_id: &AccountId) -> (r: Vec<UserSubscription>)
        requires
            self.wf(),
        ensures
            r.deep_view() == subs_in(self.subs(), account_id@),
    {
        match self.subscriptions.get(account_id) {
            Some(list) => clone_subscription_list(list),
            None => Vec::new(),
        }
    }
}

} // verus!
