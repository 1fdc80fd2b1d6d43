use vstd::prelude::*;

use crate::account::AccountId;
use crate::types::{Duration, PropId, Timestamp};

verus! {

/// One paid period: who paid for which property, when, and for how many months.
#[derive(Clone, Copy, Debug)]
pub struct TimespanEntry {
    pub property: PropId,
    pub tenant: AccountId,
    pub start: Timestamp,
    pub duration: Duration,
}

/// The record for `(property, tenant)` in `s`; a later entry hides an earlier one.
pub open spec fn lookup(s: Seq<TimespanEntry>, property: PropId, tenant: AccountId) -> Option<
    (Timestamp, Duration),
>
    decreases s.len(),
{
    if s.len() == 0 {
        None
    } else if s.last().property == property && s.last().tenant == tenant {
        Some((s.last().start, s.last().duration))
    } else {
        lookup(s.drop_last(), property, tenant)
    }
}

/// Paid periods keyed by property and tenant.
#[derive(Debug)]
pub struct TimespanTable {
    entries: Vec<TimespanEntry>,
}

impl View for TimespanTable {
    type V = Map<(PropId, AccountId), (Timestamp, Duration)>;

    closed spec fn view(&self) -> Self::V {
        Map::new(
            |k: (PropId, AccountId)| lookup(self.entries@, k.0, k.1) is Some,
            |k: (PropId, AccountId)| lookup(self.entries@, k.0, k.1)->Some_0,
        )
    }
}

impl TimespanTable {
    pub fn new() -> (r: TimespanTable)
        ensures
            r@ == Map::<(PropId, AccountId), (Timestamp, Duration)>::empty(),
    {
        let r = TimespanTable { entries: Vec::new() };
        assert(r@ =~= Map::<(PropId, AccountId), (Timestamp, Duration)>::empty());
        r
    }

    /// The record for `(property, tenant)`, if one was written.
    pub fn get(&self, property: PropId, tenant: &AccountId) -> (r: Option<(Timestamp, Duration)>)
        ensures
            r == if self@.contains_key((property, *tenant)) {
                Some(self@[(property, *tenant)])
            } else {
                None
            },
    {
        assert(lookup(self.entries@, property, *tenant) == if self@.contains_key((property, *tenant)) {
            Some(self@[(property, *tenant)])
        } else {
            None
        });
        let mut i: usize = self.entries.len();
        assert(self.entries@.take(i as int) =~= self.entries@);
        while i > 0
            invariant
                i <= self.entries.len(),
                lookup(self.entries@.take(i as int), property, *tenant) == lookup(
                    self.entries@,
                    property,
                    *tenant,
                ),
            decreases i,
        {
            assert(self.entries@.take(i as int).drop_last() =~= self.entries@.take(i - 1));
            let e = &self.entries[i - 1];
            if e.property == property && e.tenant.same(tenant) {
                return Some((e.start, e.duration));
            }
            i = i - 1;
        }
        None
    }

    /// The entries that do not belong to `(property, tenant)`, in their order.
    fn others(&self, property: PropId, tenant: &AccountId) -> (r: Vec<TimespanEntry>)
        ensures
            forall|q: PropId, a: AccountId| #[trigger]
                lookup(r@, q, a) == if q == property && a == *tenant {
                    None
                } else {
                    lookup(self.entries@, q, a)
                },
    {
        let mut kept: Vec<TimespanEntry> = Vec::new();
        let mut i: usize = 0;
        while i < self.entries.len()
            invariant
                i <= self.entries.len(),
                forall|q: PropId, a: AccountId| #[trigger]
                    lookup(kept@, q, a) == if q == property && a == *tenant {
                        None
                    } else {
                        lookup(self.entries@.take(i as int), q, a)
                    },
            decreases self.entries.len() - i,
        {
            let e = self.entries[i];
            assert(self.entries@.take(i + 1).drop_last() =~= self.entries@.take(i as int));
            let ghost before = kept@;
            if !(e.property == property && e.tenant.same(tenant)) {
                kept.push(e);
                assert(kept@.drop_last() =~= before);
            }
            assert forall|q: PropId, a: AccountId|
                #[trigger] lookup(kept@, q, a) == if q == property && a == *tenant {
                    None
                } else {
                    lookup(self.entries@.take(i + 1), q, a)
                } by {
                assert(lookup(before, q, a) == if q == property && a == *tenant {
                    None
                } else {
                    lookup(self.entries@.take(i as int), q, a)
                });
            }
            i = i + 1;
        }
        assert(self.entries@.take(self.entries.len() as int) =~= self.entries@);
        kept
    }

    /// Writes the record for `(property, tenant)`, replacing an earlier one.
    pub fn insert(&mut self, property: PropId, tenant: AccountId, start: Timestamp, duration: Duration)
        ensures
            final(self)@ == old(self)@.insert((property, tenant), (start, duration)),
    {
        let mut kept = self.others(property, &tenant);
        let ghost before = kept@;
        kept.push(TimespanEntry { property, tenant, start, duration });
        assert(kept@.drop_last() =~= before);
        self.entries = kept;
        assert forall|k: (PropId, AccountId)|
            #[trigger] lookup(self.entries@, k.0, k.1) == if k == (property, tenant) {
                Some((start, duration))
            } else {
                lookup(old(self).entries@, k.0, k.1)
            } by {
            assert(lookup(before, k.0, k.1) == if k.0 == property && k.1 == tenant {
                None
            } else {
                lookup(old(self).entries@, k.0, k.1)
            });
        }
        assert(self@ =~= old(self)@.insert((property, tenant), (start, duration)));
    }

    /// Deletes the record for `(property, tenant)`, if any.
    pub fn remove(&mut self, property: PropId, tenant: &AccountId)
        ensures
            final(self)@ == old(self)@.remove((property, *tenant)),
    {
        self.entries = self.others(property, tenant);
        assert(final(self)@ =~= old(self)@.remove((property, *tenant)));
    }
}

} // verus!
