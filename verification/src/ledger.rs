//! The notification dedup ledger: which instances have already received a
//! "ready" notification.

use vstd::prelude::*;

verus! {

/// The set of instance names already notified as ready. The health monitor
/// checks membership before re-notifying, which is what makes "ready"
/// at-most-once. Deliberately, restarting an instance does not clear its
/// entry: an instance once notified is not notified again after a later
/// restart unless the embedding binary calls `clear` itself.
pub struct NotificationLedger {
    notified: Vec<String>,
}

impl View for NotificationLedger {
    type V = Set<Seq<char>>;

    closed spec fn view(&self) -> Set<Seq<char>> {
        Set::new(
            |n: Seq<char>|
                exists|i: int| 0 <= i < self.notified@.len() && self.notified@[i]@ == n,
        )
    }
}

impl NotificationLedger {
    /// An empty ledger: nothing has been notified yet.
    pub fn new() -> (l: Self)
        ensures
            l@ =~= Set::<Seq<char>>::empty(),
    {
        let l = NotificationLedger { notified: Vec::new() };
        proof {
            assert(l@ =~= Set::<Seq<char>>::empty());
        }
        l
    }

    /// Whether `name` has already received its "ready" notification.
    pub fn is_notified(&self, name: &String) -> (r: bool)
        ensures
            r == self@.contains(name@),
    {
        let n = self.notified.len();
        let mut i: usize = 0;
        while i < n
            invariant
                self.notified@.len() == n as int,
                i <= n,
                forall|j: int| 0 <= j < i ==> self.notified@[j]@ != name@,
            decreases n - i,
        {
            if self.notified[i] == *name {
                proof {
                    assert(self@.contains(name@));
                }
                return true;
            }
            i += 1;
        }
        proof {
            assert(!self@.contains(name@));
        }
        false
    }

    /// Records that `name` has been notified.
    pub fn mark_notified(&mut self, name: &String)
        ensures
            final(self)@ == old(self)@.insert(name@),
    {
        if !self.is_notified(name) {
            let ghost pre = self.notified@;
            self.notified.push(name.clone());
            proof {
                assert(forall|j: int| 0 <= j < pre.len() ==> self.notified@[j]@ == pre[j]@);
                assert(self.notified@[pre.len() as int]@ == name@);
                assert(self@ =~= old(self)@.insert(name@));
            }
        } else {
            proof {
                assert(self@ =~= old(self)@.insert(name@));
            }
        }
    }

    /// Forgets `name`, making it eligible for a fresh "ready" notification.
    pub fn clear(&mut self, name: &String)
        ensures
            final(self)@ == old(self)@.remove(name@),
    {
        let n = self.notified.len();
        let mut kept: Vec<String> = Vec::new();
        let mut i: usize = 0;
        while i < n
            invariant
                self.notified@.len() == n as int,
                i <= n,
                forall|j: int|
                    0 <= j < kept@.len() ==> kept@[j]@ != name@ && (exists|k: int|
                        0 <= k < i && self.notified@[k]@ == kept@[j]@),
                forall|k: int|
                    0 <= k < i && self.notified@[k]@ != name@ ==> (exists|j: int|
                        0 <= j < kept@.len() && kept@[j]@ == self.notified@[k]@),
            decreases n - i,
        {
            let ghost pre_kept = kept@;
            if !(self.notified[i] == *name) {
                kept.push(self.notified[i].clone());
            }
            proof {
                assert forall|k: int|
                    0 <= k < i + 1 && self.notified@[k]@ != name@ implies (exists|j: int|
                    0 <= j < kept@.len() && kept@[j]@ == self.notified@[k]@) by {
                    if k < i {
                        let j = choose|j: int|
                            0 <= j < pre_kept.len() && pre_kept[j]@ == self.notified@[k]@;
                        assert(kept@[j]@ == self.notified@[k]@);
                    } else {
                        assert(kept@[pre_kept.len() as int]@ == self.notified@[k]@);
                    }
                }
            }
            i += 1;
        }
        self.notified = kept;
        proof {
            assert(self@ =~= old(self)@.remove(name@));
        }
    }
}

} // verus!
