//! Operator-gated administration: minting, repricing, and forced debits.
//! Every operation first checks that the signer is the operator and aborts
//! with no state change otherwise.

use crate::account::AccountId;
use crate::audit::{AuditRecord, AuditRecordV};
use crate::errors::ContractError;
use crate::ledger::balance_in;
use crate::{min_bal, Balance, Contract};
use vstd::prelude::*;

verus! {

/// One forced debit: the account is charged `min(requested, balance)`, so
/// an account holding less than requested loses its entire balance and an
/// unregistered account is untouched.
pub open spec fn charge_one(
    m: Map<Seq<char>, Balance>,
    account: Seq<char>,
    requested: Balance,
) -> Map<Seq<char>, Balance> {
    if m.contains_key(account) {
        m.insert(account, (m[account] - min_bal(requested, m[account])) as Balance)
    } else {
        m
    }
}

/// The balance mapping after charging every `(account, amount)` pair of
/// `list` in order; a repeated account is charged against the balance left
/// by the earlier entries.
pub open spec fn apply_charges(
    m: Map<Seq<char>, Balance>,
    list: Seq<(Seq<char>, Balance)>,
) -> Map<Seq<char>, Balance>
    decreases list.len(),
{
    if list.len() == 0 {
        m
    } else {
        charge_one(apply_charges(m, list.drop_last()), list.last().0, list.last().1)
    }
}

/// The sum actually debited over the whole list (each entry clamped to the
/// balance available at its turn).
pub open spec fn total_charged(m: Map<Seq<char>, Balance>, list: Seq<(Seq<char>, Balance)>) -> int
    decreases list.len(),
{
    if list.len() == 0 {
        0
    } else {
        total_charged(m, list.drop_last()) + min_bal(
            list.last().1,
            balance_in(apply_charges(m, list.drop_last()), list.last().0),
        )
    }
}

/// The audit record for one debit: a full charge when the balance covers
/// the request, otherwise a clamped charge that keeps the requested amount
/// for auditability.
pub open spec fn charge_audit_one(
    m: Map<Seq<char>, Balance>,
    account: Seq<char>,
    requested: Balance,
    symbol: Seq<char>,
) -> AuditRecordV {
    if balance_in(m, account) >= requested {
        AuditRecordV::Charge { account, amount: requested, symbol }
    } else {
        AuditRecordV::ChargeClamped {
            account,
            charged: balance_in(m, account),
            requested,
            symbol,
        }
    }
}

/// The audit records of a whole charge list, in list order.
pub open spec fn charge_audits(
    m: Map<Seq<char>, Balance>,
    list: Seq<(Seq<char>, Balance)>,
    symbol: Seq<char>,
) -> Seq<AuditRecordV>
    decreases list.len(),
{
    if list.len() == 0 {
        Seq::empty()
    } else {
        charge_audits(m, list.drop_last(), symbol).push(
            charge_audit_one(
                apply_charges(m, list.drop_last()),
                list.last().0,
                list.last().1,
                symbol,
            ),
        )
    }
}

impl Contract {
    /// Mints `amount` new ledger units into the operator's own account.
    /// Only the operator may call this; an overflowing supply is refused.
    pub fn print_tokens(&mut self, signer_account_id: &AccountId, amount: Balance) -> (r: Result<
        AuditRecord,
        ContractError,
    >)
        requires
            old(self).wf(),
        ensures
            final(self).wf(),
            r is Ok <==> signer_account_id@ == old(self).spec_owner() && old(
                self,
            ).spec_total_supply() + amount <= u128::MAX,
            signer_account_id@ != old(self).spec_owner() ==> (r matches Err(e) && e matches
                ContractError::NotOwner),
            signer_account_id@ == old(self).spec_owner() && old(self).spec_total_supply() + amount
                > u128::MAX ==> (r matches Err(e) && e matches ContractError::Ledger(
                crate::ledger::LedgerError::BalanceOverflow,
            )),
            r is Err ==> *final(self) == *old(self),
            r matches Ok(rec) ==> {
                &&& rec@ == AuditRecordV::Mint { amount }
                &&& final(self).balances() == old(self).balances().insert(
                    old(self).spec_owner(),
                    (old(self).balances()[old(self).spec_owner()] + amount) as Balance,
                )
                &&& final(self).spec_total_supply() == old(self).spec_total_supply() + amount
                &&& final(self).spec_owner() == old(self).spec_owner()
                &&& final(self).spec_price() == old(self).spec_price()
                &&& final(self).subs() == old(self).subs()
                &&& final(self).spec_name() == old(self).spec_name()
                &&& final(self).spec_symbol() == old(self).spec_symbol()
            },
    {
        if !(self.owner_id == *signer_account_id) {
            return Err(ContractError::NotOwner);
        }
        match self.token.deposit(&self.owner_id, amount) {
            Ok(()) => Ok(AuditRecord::Mint { amount }),
            Err(e) => Err(ContractError::Ledger(e)),
        }
    }

    /// Unconditionally replaces the exchange price — the operator is
    /// trusted, no bounds are checked. Only the operator may call this.
    pub fn replace_exchange_price(
        &mut self,
        signer_account_id: &AccountId,
        new_price_in_yocto_nears: Balance,
    ) -> (r: Result<AuditRecord, ContractError>)
        requires
            old(self).wf(),
        ensures
            final(self).wf(),
            r is Ok <==> signer_account_id@ == old(self).spec_owner(),
            r is Err ==> *final(self) == *old(self) && (r matches Err(e) && e matches
                ContractError::NotOwner),
            r matches Ok(rec) ==> {
                &&& rec@ == AuditRecordV::PriceChange { new_price: new_price_in_yocto_nears }
                &&& final(self).spec_price() == new_price_in_yocto_nears
                &&& final(self).balances() == old(self).balances()
                &&& final(self).spec_total_supply() == old(self).spec_total_supply()
                &&& final(self).spec_owner() == old(self).spec_owner()
                &&& final(self).subs() == old(self).subs()
                &&& final(self).spec_name() == old(self).spec_name()
                &&& final(self).spec_symbol() == old(self).spec_symbol()
            },
    {
        if !(self.owner_id == *signer_account_id) {
            return Err(ContractError::NotOwner);
        }
        self.exchange_price_in_yocto_near = new_price_in_yocto_nears;
        Ok(AuditRecord::PriceChange { new_price: new_price_in_yocto_nears })
    }

    /// Debits each listed account in order, clamping every debit to the
    /// balance available at its turn; a shortfall is not an error. Only the
    /// operator may call this.
    pub fn charge_users(
        &mut self,
        signer_account_id: &AccountId,
        charge_list: Vec<(AccountId, Balance)>,
    ) -> (r: Result<Vec<AuditRecord>, ContractError>)
        requires
            old(self).wf(),
        ensures
            final(self).wf(),
            r is Ok <==> signer_account_id@ == old(self).spec_owner(),
            r is Err ==> *final(self) == *old(self) && (r matches Err(e) && e matches
                ContractError::NotOwner),
            r matches Ok(records) ==> {
                &&& records.deep_view() == charge_audits(
                    old(self).balances(),
                    charge_list.deep_view(),
                    old(self).spec_symbol(),
                )
                &&& final(self).balances() == apply_charges(
                    old(self).balances(),
                    charge_list.deep_view(),
                )
                &&& final(self).spec_total_supply() == old(self).spec_total_supply()
                    - total_charged(old(self).balances(), charge_list.deep_view())
                &&& final(self).spec_price() == old(self).spec_price()
                &&& final(self).spec_owner() == old(self).spec_owner()
                &&& final(self).subs() == old(self).subs()
                &&& final(self).spec_name() == old(self).spec_name()
                &&& final(self).spec_symbol() == old(self).spec_symbol()
            },
    {
        if !(self.owner_id == *signer_account_id) {
            return Err(ContractError::NotOwner);
        }
        let ghost m0 = self.token@;
        let ghost supply0 = self.token.spec_total_supply();
        let ghost dv = charge_list.deep_view();
        let mut records: Vec<AuditRecord> = Vec::new();
        let mut i: usize = 0;
        while i < charge_list.len()
            invariant
                i <= charge_list@.len(),
                dv == charge_list.deep_view(),
                dv.len() == charge_list@.len(),
                self.token.wf(),
                self.token@ == apply_charges(m0, dv.take(i as int)),
                self.token@.contains_key(self.owner_id@),
                self.token.spec_total_supply() == supply0 - total_charged(m0, dv.take(i as int)),
                records.deep_view() == charge_audits(m0, dv.take(i as int), self.symbol@),
                self.subscriptions.wf(),
                self.owner_id == old(self).owner_id,
                self.exchange_price_in_yocto_near == old(self).exchange_price_in_yocto_near,
                self.subscriptions == old(self).subscriptions,
                self.name == old(self).name,
                self.symbol == old(self).symbol,
            decreases charge_list@.len() - i,
        {
            let ghost prefix = dv.take(i as int);
            let ghost mi = self.token@;
            let entry = &charge_list[i];
            let account = &entry.0;
            let requested = entry.1;
            proof {
                assert(dv[i as int] == charge_list@[i as int].deep_view());
                assert(dv[i as int].0 == account@);
                assert(dv[i as int].1 == requested);
            }
            let bal = self.token.balance_of(account);
            let charged = if bal >= requested {
                requested
            } else {
                bal
            };
            if self.token.is_registered(account) {
                let _ = self.token.withdraw(account, charged);
            }
            let rec = if bal >= requested {
                AuditRecord::Charge {
                    account: account.clone(),
                    amount: requested,
                    symbol: self.symbol.clone(),
                }
            } else {
                AuditRecord::ChargeClamped {
                    account: account.clone(),
                    charged: bal,
                    requested,
                    symbol: self.symbol.clone(),
                }
            };
            records.push(rec);
            i += 1;
            proof {
                let next = dv.take(i as int);
                assert(next.drop_last() =~= prefix);
                assert(next.last() == dv[i as int - 1]);
                assert(self.token@ =~= charge_one(mi, account@, requested));
                assert(records.deep_view() =~= charge_audits(m0, next, self.symbol@));
            }
        }
        proof {
            assert(dv.take(dv.len() as int) =~= dv);
        }
        Ok(records)
    }
}

} // verus!
