//! A table of non-negative holdings keyed by holder, with its running total.
use vstd::prelude::*;

verus! {

/// A holder's identity, as resolved by the host for each operation.
pub type Identity = u64;

/// One holder's balance.
#[derive(Clone, Copy, Debug)]
pub struct Holding {
    pub holder: Identity,
    pub units: i128,
}

/// The balance recorded for `who`: the entry nearest the end wins, and an absent holder has 0.
pub open spec fn lookup(s: Seq<Holding>, who: Identity) -> int
    decreases s.len(),
{
    if s.len() == 0 {
        0
    } else if s.last().holder == who {
        s.last().units as int
    } else {
        lookup(s.drop_last(), who)
    }
}

/// The sum of all balances.
pub open spec fn sum_units(s: Seq<Holding>) -> int
    decreases s.len(),
{
    if s.len() == 0 {
        0
    } else {
        sum_units(s.drop_last()) + s.last().units
    }
}

pub open spec fn holders_unique(s: Seq<Holding>) -> bool {
    forall|i: int, j: int| 0 <= i < j < s.len() ==> s[i].holder != s[j].holder
}

pub open spec fn units_nonneg(s: Seq<Holding>) -> bool {
    forall|i: int| 0 <= i < s.len() ==> s[i].units >= 0
}

proof fn lemma_lookup_absent(s: Seq<Holding>, who: Identity)
    requires
        forall|i: int| 0 <= i < s.len() ==> s[i].holder != who,
    ensures
        lookup(s, who) == 0,
    decreases s.len(),
{
    if s.len() > 0 {
        lemma_lookup_absent(s.drop_last(), who);
    }
}

proof fn lemma_lookup_at(s: Seq<Holding>, i: int)
    requires
        holders_unique(s),
        0 <= i < s.len(),
    ensures
        lookup(s, s[i].holder) == s[i].units,
    decreases s.len(),
{
    if i < s.len() - 1 {
        lemma_lookup_at(s.drop_last(), i);
    }
}

proof fn lemma_lookup_update(s: Seq<Holding>, i: int, h: Holding, who: Identity)
    requires
        holders_unique(s),
        0 <= i < s.len(),
        h.holder == s[i].holder,
    ensures
        lookup(s.update(i, h), who) == if who == h.holder {
            h.units as int
        } else {
            lookup(s, who)
        },
    decreases s.len(),
{
    let t = s.update(i, h);
    if i == s.len() - 1 {
        assert(t.drop_last() =~= s.drop_last());
    } else {
        assert(t.drop_last() =~= s.drop_last().update(i, h));
        lemma_lookup_update(s.drop_last(), i, h, who);
    }
}

proof fn lemma_sum_update(s: Seq<Holding>, i: int, h: Holding)
    requires
        0 <= i < s.len(),
    ensures
        sum_units(s.update(i, h)) == sum_units(s) - s[i].units + h.units,
    decreases s.len(),
{
    let t = s.update(i, h);
    if i == s.len() - 1 {
        assert(t.drop_last() =~= s.drop_last());
    } else {
        assert(t.drop_last() =~= s.drop_last().update(i, h));
        lemma_sum_update(s.drop_last(), i, h);
    }
}

proof fn lemma_sum_covers(s: Seq<Holding>, who: Identity)
    requires
        holders_unique(s),
        units_nonneg(s),
    ensures
        sum_units(s) >= lookup(s, who),
        lookup(s, who) >= 0,
        sum_units(s) >= 0,
    decreases s.len(),
{
    if s.len() > 0 {
        let d = s.drop_last();
        assert(holders_unique(d));
        assert(units_nonneg(d));
        lemma_sum_covers(d, who);
        assert(s.last().units >= 0);
    }
}

/// Balances of many holders, each listed at most once, none negative.
#[derive(Clone, Debug)]
pub struct Ledger {
    entries: Vec<Holding>,
}

impl Ledger {
    pub closed spec fn wf(&self) -> bool {
        holders_unique(self.entries@) && units_nonneg(self.entries@)
    }

    /// The balance of `who`; 0 for a holder never recorded.
    pub closed spec fn units_of(&self, who: Identity) -> int {
        lookup(self.entries@, who)
    }

    /// The sum of every holder's balance.
    pub closed spec fn total(&self) -> int {
        sum_units(self.entries@)
    }

    /// No balance is negative, and none exceeds the total.
    pub proof fn lemma_within_total(&self, who: Identity)
        requires
            self.wf(),
        ensures
            0 <= self.units_of(who) <= self.total(),
    {
        lemma_sum_covers(self.entries@, who);
    }

    pub fn new() -> (r: Ledger)
        ensures
            r.wf(),
            r.total() == 0,
            forall|who: Identity| r.units_of(who) == 0,
    {
        Ledger { entries: Vec::new() }
    }

    fn find(&self, who: Identity) -> (r: Option<usize>)
        ensures
            match r {
                Some(i) => i < self.entries@.len() && self.entries@[i as int].holder == who,
                None => forall|i: int|
                    0 <= i < self.entries@.len() ==> self.entries@[i].holder != who,
            },
    {
        let mut i: usize = 0;
        while i < self.entries.len()
            invariant
                i <= self.entries@.len(),
                forall|j: int| 0 <= j < i ==> self.entries@[j].holder != who,
            decreases self.entries@.len() - i,
        {
            if self.entries[i].holder == who {
                return Some(i);
            }
            i = i + 1;
        }
        None
    }

    /// The balance of `who`.
    pub fn get(&self, who: Identity) -> (r: i128)
        requires
            self.wf(),
        ensures
            r == self.units_of(who),
    {
        match self.find(who) {
            Some(i) => {
                proof {
                    lemma_lookup_at(self.entries@, i as int);
                }
                self.entries[i].units
            },
            None => {
                proof {
                    lemma_lookup_absent(self.entries@, who);
                }
                0
            },
        }
    }

    /// Sets the balance of `who` to `units`; other holders keep theirs.
    pub fn set(&mut self, who: Identity, units: i128)
        requires
            old(self).wf(),
            units >= 0,
        ensures
            final(self).wf(),
            final(self).units_of(who) == units,
            forall|o: Identity| o != who ==> final(self).units_of(o) == old(self).units_of(o),
            final(self).total() == old(self).total() - old(self).units_of(who) + units,
    {
        let h = Holding { holder: who, units };
        match self.find(who) {
            Some(i) => {
                proof {
                    lemma_lookup_at(self.entries@, i as int);
                    lemma_sum_update(self.entries@, i as int, h);
                    assert forall|o: Identity| true implies lookup(
                        self.entries@.update(i as int, h),
                        o,
                    ) == if o == who {
                        units as int
                    } else {
                        lookup(self.entries@, o)
                    } by {
                        lemma_lookup_update(self.entries@, i as int, h, o);
                    }
                }
                self.entries.set(i, h);
            },
            None => {
                proof {
                    lemma_lookup_absent(self.entries@, who);
                    assert(self.entries@.push(h).drop_last() =~= self.entries@);
                }
                self.entries.push(h);
            },
        }
    }
}

} // verus!
