//! The ledger: a persistent mapping holder -> share balance, plus the
//! aggregate total-share-supply counter.
//!
//! A holder that is absent reads as balance zero; a zero balance and an
//! absent entry are equivalent. The ledger itself enforces nothing beyond
//! non-negativity (the balances are unsigned): all business invariants are
//! the vault engine's to keep.

use vstd::prelude::*;

verus! {

/// A holder's entry appears at most once among the entries.
pub open spec fn keys_unique(s: Seq<(u64, u128)>) -> bool {
    forall|i: int, j: int| 0 <= i < j < s.len() ==> s[i].0 != s[j].0
}

/// The share balance recorded for `holder`: zero when absent.
pub open spec fn lookup(s: Seq<(u64, u128)>, holder: u64) -> u128
    decreases s.len(),
{
    if s.len() == 0 {
        0
    } else if s.last().0 == holder {
        s.last().1
    } else {
        lookup(s.drop_last(), holder)
    }
}

/// The sum of all recorded share balances.
pub open spec fn sum_balances(s: Seq<(u64, u128)>) -> int
    decreases s.len(),
{
    if s.len() == 0 {
        0
    } else {
        sum_balances(s.drop_last()) + s.last().1
    }
}

/// A holder with no entry has balance zero.
proof fn lemma_lookup_absent(s: Seq<(u64, u128)>, holder: u64)
    requires
        forall|k: int| 0 <= k < s.len() ==> (#[trigger] s[k]).0 != holder,
    ensures
        lookup(s, holder) == 0,
    decreases s.len(),
{
    if s.len() > 0 {
        lemma_lookup_absent(s.drop_last(), holder);
    }
}

/// With unique keys, the entry at index `i` is what `lookup` finds.
proof fn lemma_lookup_at(s: Seq<(u64, u128)>, i: int)
    requires
        keys_unique(s),
        0 <= i < s.len(),
    ensures
        lookup(s, s[i].0) == s[i].1,
    decreases s.len(),
{
    if i == s.len() - 1 {
    } else {
        assert(s.last().0 != s[i].0);
        assert(s.drop_last()[i] == s[i]);
        assert(keys_unique(s.drop_last())) by {
            assert(forall|p: int, q: int|
                0 <= p < q < s.drop_last().len() ==> s.drop_last()[p] == s[p]
                    && s.drop_last()[q] == s[q]);
        }
        lemma_lookup_at(s.drop_last(), i);
    }
}

/// Overwriting the balance at index `i` moves the sum by the difference.
proof fn lemma_sum_update(s: Seq<(u64, u128)>, i: int, v: u128)
    requires
        0 <= i < s.len(),
    ensures
        sum_balances(s.update(i, (s[i].0, v))) == sum_balances(s) - s[i].1 + v,
    decreases s.len(),
{
    let s2 = s.update(i, (s[i].0, v));
    if i == s.len() - 1 {
        assert(s2.drop_last() =~= s.drop_last());
        assert(s2.last() == (s[i].0, v));
    } else {
        assert(s2.drop_last() =~= s.drop_last().update(i, (s.drop_last()[i].0, v)));
        assert(s2.last() == s.last());
        lemma_sum_update(s.drop_last(), i, v);
    }
}

/// Appending an entry adds its balance to the sum.
proof fn lemma_sum_push(s: Seq<(u64, u128)>, e: (u64, u128))
    ensures
        sum_balances(s.push(e)) == sum_balances(s) + e.1,
{
    assert(s.push(e).drop_last() =~= s);
    assert(s.push(e).last() == e);
}

/// The sum of balances is never negative.
proof fn lemma_sum_nonneg(s: Seq<(u64, u128)>)
    ensures
        sum_balances(s) >= 0,
    decreases s.len(),
{
    if s.len() > 0 {
        lemma_sum_nonneg(s.drop_last());
    }
}

/// No single balance exceeds the sum of all balances.
proof fn lemma_lookup_le_sum(s: Seq<(u64, u128)>, holder: u64)
    ensures
        lookup(s, holder) <= sum_balances(s),
    decreases s.len(),
{
    if s.len() > 0 {
        if s.last().0 == holder {
            lemma_sum_nonneg(s.drop_last());
        } else {
            lemma_lookup_le_sum(s.drop_last(), holder);
        }
    }
}

/// Holder -> share balance, with the total-share-supply counter.
#[derive(Debug)]
pub struct Ledger {
    entries: Vec<(u64, u128)>,
    total_supply: u128,
}

impl Ledger {
    /// No holder appears twice among the entries.
    pub closed spec fn wf(&self) -> bool {
        keys_unique(self.entries@)
    }

    /// The balance recorded for `holder` (zero when absent).
    pub closed spec fn spec_balance_of(&self, holder: u64) -> u128 {
        lookup(self.entries@, holder)
    }

    /// The sum of all recorded balances.
    pub closed spec fn spec_sum(&self) -> int {
        sum_balances(self.entries@)
    }

    /// The recorded total share supply.
    pub closed spec fn spec_total_supply(&self) -> u128 {
        self.total_supply
    }

    /// An empty ledger: every holder reads as zero, supply is zero.
    pub fn new() -> (r: Ledger)
        ensures
            r.wf(),
            r.spec_total_supply() == 0,
            r.spec_sum() == 0,
            forall|h: u64| r.spec_balance_of(h) == 0,
    {
        let r = Ledger { entries: Vec::new(), total_supply: 0 };
        proof {
            assert(forall|h: u64| lookup(r.entries@, h) == 0);
        }
        r
    }

    /// Read a holder's balance; absent entries read as zero.
    pub fn get_balance(&self, holder: u64) -> (r: u128)
        requires
            self.wf(),
        ensures
            r == self.spec_balance_of(holder),
    {
        let n = self.entries.len();
        let mut i: usize = 0;
        while i < n
            invariant
                n == self.entries@.len(),
                0 <= i <= n,
                self.wf(),
                forall|k: int| 0 <= k < i ==> (#[trigger] self.entries@[k]).0 != holder,
            decreases n - i,
        {
            if self.entries[i].0 == holder {
                proof {
                    lemma_lookup_at(self.entries@, i as int);
                }
                return self.entries[i].1;
            }
            i = i + 1;
        }
        proof {
            lemma_lookup_absent(self.entries@, holder);
        }
        0
    }

    /// Overwrite a holder's balance, creating the entry if absent.
    pub fn set_balance(&mut self, holder: u64, value: u128)
        requires
            old(self).wf(),
        ensures
            final(self).wf(),
            final(self).spec_balance_of(holder) == value,
            forall|h: u64|
                h != holder ==> final(self).spec_balance_of(h) == old(self).spec_balance_of(h),
            final(self).spec_sum() == old(self).spec_sum() - old(self).spec_balance_of(holder)
                + value,
            final(self).spec_total_supply() == old(self).spec_total_supply(),
    {
        let ghost s0 = self.entries@;
        let n = self.entries.len();
        let mut i: usize = 0;
        while i < n
            invariant
                self == old(self),
                s0 == self.entries@,
                n == s0.len(),
                0 <= i <= n,
                keys_unique(s0),
                forall|k: int| 0 <= k < i ==> (#[trigger] s0[k]).0 != holder,
            decreases n - i,
        {
            if self.entries[i].0 == holder {
                self.entries[i] = (holder, value);
                proof {
                    let s1 = self.entries@;
                    assert(s1 =~= s0.update(i as int, (s0[i as int].0, value)));
                    assert(keys_unique(s1));
                    lemma_sum_update(s0, i as int, value);
                    lemma_lookup_at(s0, i as int);
                    lemma_lookup_at(s1, i as int);
                    assert forall|h: u64| h != holder implies lookup(s1, h) == lookup(s0, h) by {
                        if exists|j: int| 0 <= j < s0.len() && (#[trigger] s0[j]).0 == h {
                            let j = choose|j: int| 0 <= j < s0.len() && (#[trigger] s0[j]).0 == h;
                            assert(s1[j] == s0[j]);
                            lemma_lookup_at(s0, j);
                            lemma_lookup_at(s1, j);
                        } else {
                            assert(forall|k: int| 0 <= k < s0.len()
                                ==> (#[trigger] s0[k]).0 != h);
                            assert(forall|k: int| 0 <= k < s1.len()
                                ==> (#[trigger] s1[k]).0 != h);
                            lemma_lookup_absent(s0, h);
                            lemma_lookup_absent(s1, h);
                        }
                    }
                }
                return;
            }
            i = i + 1;
        }
        self.entries.push((holder, value));
        proof {
            let s1 = self.entries@;
            assert(s1 == s0.push((holder, value)));
            assert(keys_unique(s1)) by {
                assert(forall|k: int| 0 <= k < s0.len() ==> s1[k] == s0[k]);
            }
            lemma_sum_push(s0, (holder, value));
            lemma_lookup_absent(s0, holder);
            assert(lookup(s1, holder) == value);
            assert forall|h: u64| h != holder implies lookup(s1, h) == lookup(s0, h) by {
                assert(s1.drop_last() =~= s0);
            }
        }
    }

    /// A single holder's balance never exceeds the sum of all balances,
    /// and the sum is never negative.
    pub proof fn lemma_balance_le_sum(&self, holder: u64)
        ensures
            0 <= self.spec_sum(),
            self.spec_balance_of(holder) <= self.spec_sum(),
    {
        lemma_sum_nonneg(self.entries@);
        lemma_lookup_le_sum(self.entries@, holder);
    }

    /// Read the total share supply.
    pub fn get_total_supply(&self) -> (r: u128)
        ensures
            r == self.spec_total_supply(),
    {
        self.total_supply
    }

    /// Overwrite the total share supply.
    pub fn set_total_supply(&mut self, value: u128)
        ensures
            final(self).spec_total_supply() == value,
            final(self).wf() == old(self).wf(),
            final(self).spec_sum() == old(self).spec_sum(),
            forall|h: u64| final(self).spec_balance_of(h) == old(self).spec_balance_of(h),
    {
        self.total_supply = value;
    }
}

} // verus!
