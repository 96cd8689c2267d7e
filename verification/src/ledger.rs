//! The balance ledger: register, deposit, withdraw, transfer and
//! balance-lookup over a mapping from account identifier to balance, with a
//! running total supply. Arithmetic is checked: an operation that would
//! overflow or underflow fails and leaves the ledger unchanged.

use crate::account::AccountId;
use crate::Balance;
use vstd::prelude::*;

verus! {

/// Why a ledger operation was refused. The ledger itself is left unchanged.
#[derive(Clone, Copy, Debug, PartialEq, Eq, Structural)]
pub enum LedgerError {
    /// The named account has never been registered.
    NotRegistered,
    /// A withdrawal or transfer asked for more than the account holds.
    InsufficientBalance,
    /// A deposit would push the total supply past the 128-bit limit.
    BalanceOverflow,
}

struct LedgerEntry {
    account: AccountId,
    balance: Balance,
}

/// The ledger: a mapping from registered account to balance, in insertion
/// order, plus the total supply (always the sum of all balances).
pub struct Ledger {
    entries: Vec<LedgerEntry>,
    total_supply: Balance,
}

/// The balance an account holds under mapping `m`: zero if unregistered.
pub open spec fn balance_in(m: Map<Seq<char>, Balance>, a: Seq<char>) -> Balance {
    if m.contains_key(a) {
        m[a]
    } else {
        0
    }
}

/// What a transfer of `n` from `f` to `t` does to a balance mapping.
/// A self-transfer moves nothing.
pub open spec fn map_transfer(
    m: Map<Seq<char>, Balance>,
    f: Seq<char>,
    t: Seq<char>,
    n: Balance,
) -> Map<Seq<char>, Balance> {
    if f == t {
        m
    } else {
        m.insert(f, (m[f] - n) as Balance).insert(t, (m[t] + n) as Balance)
    }
}

spec fn entries_map(s: Seq<LedgerEntry>) -> Map<Seq<char>, Balance>
    decreases s.len(),
{
    if s.len() == 0 {
        Map::empty()
    } else {
        entries_map(s.drop_last()).insert(s.last().account@, s.last().balance)
    }
}

spec fn distinct_accounts(s: Seq<LedgerEntry>) -> bool {
    forall|i: int, j: int| 0 <= i < j < s.len() ==> s[i].account@ != s[j].account@
}

spec fn sum_balances(s: Seq<LedgerEntry>) -> int
    decreases s.len(),
{
    if s.len() == 0 {
        0
    } else {
        sum_balances(s.drop_last()) + s.last().balance
    }
}

proof fn lemma_entries_map_domain(s: Seq<LedgerEntry>)
    ensures
        forall|k: Seq<char>|
            entries_map(s).contains_key(k) <==> (exists|i: int|
                0 <= i < s.len() && #[trigger] s[i].account@ == k),
    decreases s.len(),
{
    if s.len() > 0 {
        lemma_entries_map_domain(s.drop_last());
        assert forall|k: Seq<char>| entries_map(s).contains_key(k) implies (exists|i: int|
            0 <= i < s.len() && #[trigger] s[i].account@ == k) by {
            if s.last().account@ == k {
                assert(s[s.len() - 1].account@ == k);
            } else {
                assert(entries_map(s.drop_last()).contains_key(k));
                let i = choose|i: int|
                    0 <= i < s.drop_last().len() && #[trigger] s.drop_last()[i].account@ == k;
                assert(s[i].account@ == k);
            }
        }
        assert forall|k: Seq<char>|
            (exists|i: int|
                0 <= i < s.len() && #[trigger] s[i].account@ == k) implies entries_map(
            s,
        ).contains_key(k) by {
            let i = choose|i: int| 0 <= i < s.len() && #[trigger] s[i].account@ == k;
            if i < s.len() - 1 {
                assert(s.drop_last()[i].account@ == k);
                assert(exists|i2: int|
                    0 <= i2 < s.drop_last().len() && #[trigger] s.drop_last()[i2].account@ == k);
                assert(entries_map(s.drop_last()).contains_key(k));
            } else {
                assert(s.last().account@ == k);
            }
        }
    }
}

proof fn lemma_entries_map_index(s: Seq<LedgerEntry>, i: int)
    requires
        distinct_accounts(s),
        0 <= i < s.len(),
    ensures
        entries_map(s).contains_key(s[i].account@),
        entries_map(s)[s[i].account@] == s[i].balance,
    decreases s.len(),
{
    if i == s.len() - 1 {
    } else {
        assert(distinct_accounts(s.drop_last()));
        assert(s.drop_last()[i] == s[i]);
        lemma_entries_map_index(s.drop_last(), i);
        assert(s[i].account@ != s.last().account@);
    }
}

proof fn lemma_entries_map_update(s: Seq<LedgerEntry>, i: int, e: LedgerEntry)
    requires
        distinct_accounts(s),
        0 <= i < s.len(),
        e.account@ == s[i].account@,
    ensures
        entries_map(s.update(i, e)) == entries_map(s).insert(e.account@, e.balance),
    decreases s.len(),
{
    let t = s.update(i, e);
    if i == s.len() - 1 {
        assert(t.drop_last() =~= s.drop_last());
        assert(entries_map(t) =~= entries_map(s).insert(e.account@, e.balance));
    } else {
        assert(distinct_accounts(s.drop_last()));
        assert(s.drop_last()[i] == s[i]);
        lemma_entries_map_update(s.drop_last(), i, e);
        assert(t.drop_last() =~= s.drop_last().update(i, e));
        assert(t.last() == s.last());
        assert(s[i].account@ != s.last().account@);
        assert(entries_map(t) =~= entries_map(s).insert(e.account@, e.balance));
    }
}

proof fn lemma_sum_nonneg(s: Seq<LedgerEntry>)
    ensures
        sum_balances(s) >= 0,
    decreases s.len(),
{
    if s.len() > 0 {
        lemma_sum_nonneg(s.drop_last());
    }
}

proof fn lemma_sum_update(s: Seq<LedgerEntry>, i: int, e: LedgerEntry)
    requires
        0 <= i < s.len(),
    ensures
        sum_balances(s.update(i, e)) == sum_balances(s) - s[i].balance + e.balance,
    decreases s.len(),
{
    let t = s.update(i, e);
    if i == s.len() - 1 {
        assert(t.drop_last() =~= s.drop_last());
    } else {
        assert(s.drop_last()[i] == s[i]);
        lemma_sum_update(s.drop_last(), i, e);
        assert(t.drop_last() =~= s.drop_last().update(i, e));
        assert(t.last() == s.last());
    }
}

proof fn lemma_elem_le_sum(s: Seq<LedgerEntry>, i: int)
    requires
        0 <= i < s.len(),
    ensures
        s[i].balance <= sum_balances(s),
    decreases s.len(),
{
    if i == s.len() - 1 {
        lemma_sum_nonneg(s.drop_last());
    } else {
        assert(s.drop_last()[i] == s[i]);
        lemma_elem_le_sum(s.drop_last(), i);
    }
}

proof fn lemma_two_le_sum(s: Seq<LedgerEntry>, i: int, j: int)
    requires
        0 <= i < s.len(),
        0 <= j < s.len(),
        i != j,
    ensures
        s[i].balance + s[j].balance <= sum_balances(s),
{
    let zeroed = LedgerEntry { account: s[i].account, balance: 0 };
    let t = s.update(i, zeroed);
    lemma_sum_update(s, i, zeroed);
    lemma_elem_le_sum(t, j);
    assert(t[j] == s[j]);
}

impl View for Ledger {
    type V = Map<Seq<char>, Balance>;

    closed spec fn view(&self) -> Map<Seq<char>, Balance> {
        entries_map(self.entries@)
    }
}

impl Ledger {
    /// Well-formedness: one entry per account, and the recorded total supply
    /// is exactly the sum of all balances.
    pub closed spec fn wf(&self) -> bool {
        &&& distinct_accounts(self.entries@)
        &&& self.total_supply == sum_balances(self.entries@)
    }

    pub closed spec fn spec_total_supply(&self) -> Balance {
        self.total_supply
    }

    /// An empty ledger: no accounts, no supply.
    pub fn new() -> (r: Ledger)
        ensures
            r.wf(),
            r@ == Map::<Seq<char>, Balance>::empty(),
            r.spec_total_supply() == 0,
    {
        Ledger { entries: Vec::new(), total_supply: 0 }
    }

    /// The sum of all balances ever deposited and not yet withdrawn.
    pub fn total_supply(&self) -> (r: Balance)
        ensures
            r == self.spec_total_supply(),
    {
        self.total_supply
    }

    fn find(&self, a: &AccountId) -> (r: Option<usize>)
        ensures
            match r {
                Some(i) => i < self.entries@.len() && self.entries@[i as int].account@ == a@,
                None => forall|i: int|
                    0 <= i < self.entries@.len() ==> self.entries@[i].account@ != a@,
            },
    {
        let mut i: usize = 0;
        while i < self.entries.len()
            invariant
                i <= self.entries@.len(),
                forall|j: int| 0 <= j < i ==> self.entries@[j].account@ != a@,
            decreases self.entries@.len() - i,
        {
            let e = &self.entries[i];
            if e.account == *a {
                return Some(i);
            }
            i += 1;
        }
        None
    }

    /// Whether the account has been registered.
    pub fn is_registered(&self, a: &AccountId) -> (r: bool)
        requires
            self.wf(),
        ensures
            r == self@.contains_key(a@),
    {
        proof {
            lemma_entries_map_domain(self.entries@);
        }
        self.find(a).is_some()
    }

    /// The account's balance; zero if it was never registered.
    pub fn balance_of(&self, a: &AccountId) -> (r: Balance)
        requires
            self.wf(),
        ensures
            r == balance_in(self@, a@),
    {
        proof {
            lemma_entries_map_domain(self.entries@);
        }
        match self.find(a) {
            Some(i) => {
                proof {
                    lemma_entries_map_index(self.entries@, i as int);
                }
                self.entries[i].balance
            },
            None => 0,
        }
    }

    /// Registers the account with a zero balance; registering an account a
    /// second time changes nothing.
    pub fn register(&mut self, a: &AccountId)
        requires
            old(self).wf(),
        ensures
            final(self).wf(),
            final(self)@ == if old(self)@.contains_key(a@) {
                old(self)@
            } else {
                old(self)@.insert(a@, 0)
            },
            final(self).spec_total_supply() == old(self).spec_total_supply(),
    {
        proof {
            lemma_entries_map_domain(self.entries@);
        }
        if self.find(a).is_none() {
            let ghost s = self.entries@;
            self.entries.push(LedgerEntry { account: a.clone(), balance: 0 });
            proof {
                assert(self.entries@.drop_last() =~= s);
                lemma_sum_nonneg(s);
            }
        }
    }

    /// Adds `amount` to the account's balance and to the total supply.
    /// Fails on an unregistered account or if the supply would overflow.
    pub fn deposit(&mut self, a: &AccountId, amount: Balance) -> (r: Result<(), LedgerError>)
        requires
            old(self).wf(),
        ensures
            final(self).wf(),
            r is Ok <==> old(self)@.contains_key(a@) && old(self).spec_total_supply() + amount
                <= u128::MAX,
            r is Ok ==> final(self)@ == old(self)@.insert(
                a@,
                (old(self)@[a@] + amount) as Balance,
            ) && final(self).spec_total_supply() == old(self).spec_total_supply() + amount,
            r is Err ==> *final(self) == *old(self),
            !old(self)@.contains_key(a@) ==> r == Err::<(), LedgerError>(
                LedgerError::NotRegistered,
            ),
            old(self)@.contains_key(a@) && old(self).spec_total_supply() + amount > u128::MAX
                ==> r == Err::<(), LedgerError>(LedgerError::BalanceOverflow),
    {
        proof {
            lemma_entries_map_domain(self.entries@);
        }
        match self.find(a) {
            None => Err(LedgerError::NotRegistered),
            Some(i) => {
                if amount > u128::MAX - self.total_supply {
                    Err(LedgerError::BalanceOverflow)
                } else {
                    proof {
                        lemma_entries_map_index(self.entries@, i as int);
                        lemma_elem_le_sum(self.entries@, i as int);
                    }
                    let ghost s = self.entries@;
                    let bal = self.entries[i].balance;
                    self.entries[i].balance = bal + amount;
                    self.total_supply = self.total_supply + amount;
                    proof {
                        assert(self.entries@ =~= s.update(
                            i as int,
                            LedgerEntry { account: s[i as int].account, balance: self.entries@[i as int].balance },
                        ));
                        lemma_entries_map_update(s, i as int, self.entries@[i as int]);
                        lemma_sum_update(s, i as int, self.entries@[i as int]);
                    }
                    Ok(())
                }
            },
        }
    }

    /// Removes `amount` from the account's balance and from the total
    /// supply. Fails on an unregistered account or an insufficient balance.
    pub fn withdraw(&mut self, a: &AccountId, amount: Balance) -> (r: Result<(), LedgerError>)
        requires
            old(self).wf(),
        ensures
            final(self).wf(),
            r is Ok <==> old(self)@.contains_key(a@) && old(self)@[a@] >= amount,
            r is Ok ==> final(self)@ == old(self)@.insert(
                a@,
                (old(self)@[a@] - amount) as Balance,
            ) && final(self).spec_total_supply() == old(self).spec_total_supply() - amount,
            r is Err ==> *final(self) == *old(self),
            !old(self)@.contains_key(a@) ==> r == Err::<(), LedgerError>(
                LedgerError::NotRegistered,
            ),
            old(self)@.contains_key(a@) && old(self)@[a@] < amount ==> r == Err::<(
            ), LedgerError>(LedgerError::InsufficientBalance),
    {
        proof {
            lemma_entries_map_domain(self.entries@);
        }
        match self.find(a) {
            None => Err(LedgerError::NotRegistered),
            Some(i) => {
                proof {
                    lemma_entries_map_index(self.entries@, i as int);
                    lemma_elem_le_sum(self.entries@, i as int);
                }
                let bal = self.entries[i].balance;
                if bal < amount {
                    Err(LedgerError::InsufficientBalance)
                } else {
                    let ghost s = self.entries@;
                    self.entries[i].balance = bal - amount;
                    self.total_supply = self.total_supply - amount;
                    proof {
                        assert(self.entries@ =~= s.update(
                            i as int,
                            LedgerEntry { account: s[i as int].account, balance: self.entries@[i as int].balance },
                        ));
                        lemma_entries_map_update(s, i as int, self.entries@[i as int]);
                        lemma_sum_update(s, i as int, self.entries@[i as int]);
                    }
                    Ok(())
                }
            },
        }
    }

    /// Moves `amount` from one registered account to another; the total
    /// supply is unchanged. Fails if either account is unregistered or the
    /// source balance is insufficient.
    pub fn transfer(&mut self, from: &AccountId, to: &AccountId, amount: Balance) -> (r: Result<
        (),
        LedgerError,
    >)
        requires
            old(self).wf(),
        ensures
            final(self).wf(),
            r is Ok <==> old(self)@.contains_key(from@) && old(self)@.contains_key(to@) && old(
                self,
            )@[from@] >= amount,
            r is Ok ==> final(self)@ == map_transfer(old(self)@, from@, to@, amount),
            final(self).spec_total_supply() == old(self).spec_total_supply(),
            r is Err ==> *final(self) == *old(self),
            !old(self)@.contains_key(from@) || !old(self)@.contains_key(to@) ==> r == Err::<(
            ), LedgerError>(LedgerError::NotRegistered),
            old(self)@.contains_key(from@) && old(self)@.contains_key(to@) && old(self)@[from@]
                < amount ==> r == Err::<(), LedgerError>(LedgerError::InsufficientBalance),
    {
        proof {
            lemma_entries_map_domain(self.entries@);
        }
        let found_from = self.find(from);
        let found_to = self.find(to);
        match (found_from, found_to) {
            (Some(i), Some(j)) => {
                proof {
                    lemma_entries_map_index(self.entries@, i as int);
                    lemma_entries_map_index(self.entries@, j as int);
                }
                let from_bal = self.entries[i].balance;
                if from_bal < amount {
                    Err(LedgerError::InsufficientBalance)
                } else if i == j {
                    Ok(())
                } else {
                    proof {
                        lemma_two_le_sum(self.entries@, i as int, j as int);
                        lemma_sum_nonneg(self.entries@);
                    }
                    let ghost s = self.entries@;
                    let to_bal = self.entries[j].balance;
                    self.entries[i].balance = from_bal - amount;
                    proof {
                        assert(self.entries@ =~= s.update(
                            i as int,
                            LedgerEntry { account: s[i as int].account, balance: (from_bal - amount) as Balance },
                        ));
                        lemma_entries_map_update(s, i as int, self.entries@[i as int]);
                        lemma_sum_update(s, i as int, self.entries@[i as int]);
                    }
                    let ghost s2 = self.entries@;
                    self.entries[j].balance = to_bal + amount;
                    proof {
                        assert(s2[j as int] == s[j as int]);
                        assert(self.entries@ =~= s2.update(
                            j as int,
                            LedgerEntry { account: s2[j as int].account, balance: (to_bal + amount) as Balance },
                        ));
                        lemma_entries_map_update(s2, j as int, self.entries@[j as int]);
                        lemma_sum_update(s2, j as int, self.entries@[j as int]);
                    }
                    Ok(())
                }
            },
            _ => Err(LedgerError::NotRegistered),
        }
    }
}

} // verus!
