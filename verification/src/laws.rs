//! Laws the library guarantees across operations, stated over the same
//! spec functions the operations' contracts use.

use crate::ledger::balance_in;
use crate::owner::{apply_charges, charge_one};
use crate::subscriptions::{first_index_of, max_id, UserSubscriptionV};
use crate::{min_bal, Balance};
use vstd::prelude::*;

verus! {

/// Charging an account with balance `b` for a requested amount `a` leaves
/// it with balance `b - min(a, b)`, which is never negative.
pub proof fn lemma_charge_clamps(m: Map<Seq<char>, Balance>, account: Seq<char>, requested: Balance)
    ensures
        balance_in(charge_one(m, account, requested), account) == balance_in(m, account) - min_bal(
            requested,
            balance_in(m, account),
        ),
        balance_in(m, account) - min_bal(requested, balance_in(m, account)) >= 0,
        apply_charges(m, seq![(account, requested)]) == charge_one(m, account, requested),
{
    let single = seq![(account, requested)];
    assert(single.drop_last() =~= Seq::<(Seq<char>, Balance)>::empty());
    assert(apply_charges(m, single.drop_last()) == m);
}

/// After deleting an account's only subscription, the next creation is
/// assigned id 1 again: the id policy is "highest existing id plus one",
/// recomputed fresh on every call, not a persisted counter, so a freed id
/// is reused.
pub proof fn lemma_id_reuse(s: Seq<UserSubscriptionV>, id: u8)
    requires
        s.len() == 1,
        s[0].id == id,
    ensures
        first_index_of(s, id) == 0,
        max_id(s.remove(first_index_of(s, id))) + 1 == 1,
{
    assert(s.first().id == id);
    assert(s.remove(0) =~= Seq::<UserSubscriptionV>::empty());
}

} // verus!
