//! Per-account subscription storage: a mapping from account identifier to
//! an ordered sequence of subscription records, insertion order kept. An
//! emptied sequence persists as an empty sequence, not a removed key.

use crate::account::AccountId;
use crate::subscriptions::{UserSubscription, UserSubscriptionV};
use vstd::prelude::*;

verus! {

struct RegistryEntry {
    account: AccountId,
    list: Vec<UserSubscription>,
}

/// The subscription registry, keyed by account identifier.
pub struct SubscriptionRegistry {
    entries: Vec<RegistryEntry>,
}

/// The sequence an account holds under mapping `m`: empty if the account
/// has never created a subscription.
pub open spec fn subs_in(
    m: Map<Seq<char>, Seq<UserSubscriptionV>>,
    a: Seq<char>,
) -> Seq<UserSubscriptionV> {
    if m.contains_key(a) {
        m[a]
    } else {
        Seq::empty()
    }
}

spec fn entries_map(s: Seq<RegistryEntry>) -> Map<Seq<char>, Seq<UserSubscriptionV>>
    decreases s.len(),
{
    if s.len() == 0 {
        Map::empty()
    } else {
        entries_map(s.drop_last()).insert(s.last().account@, s.last().list.deep_view())
    }
}

spec fn distinct_accounts(s: Seq<RegistryEntry>) -> bool {
    forall|i: int, j: int| 0 <= i < j < s.len() ==> s[i].account@ != s[j].account@
}

proof fn lemma_entries_map_domain(s: Seq<RegistryEntry>)
    ensures
        forall|k: Seq<char>|
            entries_map(s).contains_key(k) <==> (exists|i: int|
                0 <= i < s.len() && #[trigger] s[i].account@ == k),
    decreases s.len(),
{
    if s.len() > 0 {
        lemma_entries_map_domain(s.drop_last());
        assert forall|k: Seq<char>| entries_map(s).contains_key(k) implies (exists|i: int|
            0 <= i < s.len() && #[trigger] s[i].account@ == k) by {
            if s.last().account@ == k {
                assert(s[s.len() - 1].account@ == k);
            } else {
                assert(entries_map(s.drop_last()).contains_key(k));
                let i = choose|i: int|
                    0 <= i < s.drop_last().len() && #[trigger] s.drop_last()[i].account@ == k;
                assert(s[i].account@ == k);
            }
        }
        assert forall|k: Seq<char>|
            (exists|i: int|
                0 <= i < s.len() && #[trigger] s[i].account@ == k) implies entries_map(
            s,
        ).contains_key(k) by {
            let i = choose|i: int| 0 <= i < s.len() && #[trigger] s[i].account@ == k;
            if i < s.len() - 1 {
                assert(s.drop_last()[i].account@ == k);
                assert(exists|i2: int|
                    0 <= i2 < s.drop_last().len() && #[trigger] s.drop_last()[i2].account@ == k);
                assert(entries_map(s.drop_last()).contains_key(k));
            } else {
                assert(s.last().account@ == k);
            }
        }
    }
}

proof fn lemma_entries_map_index(s: Seq<RegistryEntry>, i: int)
    requires
        distinct_accounts(s),
        0 <= i < s.len(),
    ensures
        entries_map(s).contains_key(s[i].account@),
        entries_map(s)[s[i].account@] == s[i].list.deep_view(),
    decreases s.len(),
{
    if i == s.len() - 1 {
    } else {
        assert(distinct_accounts(s.drop_last()));
        assert(s.drop_last()[i] == s[i]);
        lemma_entries_map_index(s.drop_last(), i);
        assert(s[i].account@ != s.last().account@);
    }
}

proof fn lemma_entries_map_update(s: Seq<RegistryEntry>, i: int, e: RegistryEntry)
    requires
        distinct_accounts(s),
        0 <= i < s.len(),
        e.account@ == s[i].account@,
    ensures
        entries_map(s.update(i, e)) == entries_map(s).insert(e.account@, e.list.deep_view()),
    decreases s.len(),
{
    let t = s.update(i, e);
    if i == s.len() - 1 {
        assert(t.drop_last() =~= s.drop_last());
        assert(entries_map(t) =~= entries_map(s).insert(e.account@, e.list.deep_view()));
    } else {
        assert(distinct_accounts(s.drop_last()));
        assert(s.drop_last()[i] == s[i]);
        lemma_entries_map_update(s.drop_last(), i, e);
        assert(t.drop_last() =~= s.drop_last().update(i, e));
        assert(t.last() == s.last());
        assert(s[i].account@ != s.last().account@);
        assert(entries_map(t) =~= entries_map(s).insert(e.account@, e.list.deep_view()));
    }
}

impl View for SubscriptionRegistry {
    type V = Map<Seq<char>, Seq<UserSubscriptionV>>;

    closed spec fn view(&self) -> Map<Seq<char>, Seq<UserSubscriptionV>> {
        entries_map(self.entries@)
    }
}

impl SubscriptionRegistry {
    /// Well-formedness: one entry per account.
    pub closed spec fn wf(&self) -> bool {
        distinct_accounts(self.entries@)
    }

    /// An empty registry.
    pub fn new() -> (r: SubscriptionRegistry)
        ensures
            r.wf(),
            r@ == Map::<Seq<char>, Seq<UserSubscriptionV>>::empty(),
    {
        SubscriptionRegistry { entries: Vec::new() }
    }

    fn find(&self, a: &AccountId) -> (r: Option<usize>)
        ensures
            match r {
                Some(i) => i < self.entries@.len() && self.entries@[i as int].account@ == a@,
                None => forall|i: int|
                    0 <= i < self.entries@.len() ==> self.entries@[i].account@ != a@,
            },
    {
        let mut i: usize = 0;
        while i < self.entries.len()
            invariant
                i <= self.entries@.len(),
                forall|j: int| 0 <= j < i ==> self.entries@[j].account@ != a@,
            decreases self.entries@.len() - i,
        {
            let e = &self.entries[i];
            if e.account == *a {
                return Some(i);
            }
            i += 1;
        }
        None
    }

    /// The account's stored sequence, if the account has one.
    pub fn get(&self, a: &AccountId) -> (r: Option<&Vec<UserSubscription>>)
        requires
            self.wf(),
        ensures
            r is Some <==> self@.contains_key(a@),
            r matches Some(list) ==> list.deep_view() == self@[a@],
    {
        proof {
            lemma_entries_map_domain(self.entries@);
        }
        match self.find(a) {
            Some(i) => {
                proof {
                    lemma_entries_map_index(self.entries@, i as int);
                }
                Some(&self.entries[i].list)
            },
            None => None,
        }
    }

    /// Stores `list` as the account's sequence, replacing any previous one.
    pub fn set(&mut self, a: &AccountId, list: Vec<UserSubscription>)
        requires
            old(self).wf(),
        ensures
            final(self).wf(),
            final(self)@ == old(self)@.insert(a@, list.deep_view()),
    {
        proof {
            lemma_entries_map_domain(self.entries@);
        }
        match self.find(a) {
            Some(i) => {
                let ghost s = self.entries@;
                let ghost dv = list.deep_view();
                self.entries[i].list = list;
                proof {
                    assert(self.entries@ =~= s.update(
                        i as int,
                        RegistryEntry { account: s[i as int].account, list: self.entries@[i as int].list },
                    ));
                    assert(self.entries@[i as int].list.deep_view() == dv);
                    lemma_entries_map_update(s, i as int, self.entries@[i as int]);
                }
            },
            None => {
                let ghost s = self.entries@;
                self.entries.push(RegistryEntry { account: a.clone(), list });
                proof {
                    assert(self.entries@.drop_last() =~= s);
                }
            },
        }
    }
}

/// An element-wise copy of a subscription sequence; the records' contents
/// are preserved exactly.
pub fn clone_subscription_list(v: &Vec<UserSubscription>) -> (r: Vec<UserSubscription>)
    ensures
        r.deep_view() == v.deep_view(),
        r@.len() == v@.len(),
{
    let mut out: Vec<UserSubscription> = Vec::new();
    let mut i: usize = 0;
    while i < v.len()
        invariant
            i <= v.len(),
            out@.len() == i,
            forall|j: int| 0 <= j < i ==> out@[j]@ == #[trigger] v@[j]@,
        decreases v.len() - i,
    {
        out.push(v[i].clone());
        i += 1;
    }
    proof {
        assert(out.deep_view() =~= v.deep_view());
    }
    out
}

} // verus!
