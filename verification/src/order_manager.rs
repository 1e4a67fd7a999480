use vstd::prelude::*;

verus! {

/// Duplicate guard: the set of previously accepted order keys. Grows
/// monotonically for the life of the process; a key that has entered
/// the set is never accepted again.
pub struct OrderManager {
    orders: Vec<String>,
}

impl View for OrderManager {
    type V = Set<Seq<char>>;

    /// The set of keys seen so far.
    closed spec fn view(&self) -> Set<Seq<char>> {
        Set::new(|k: Seq<char>| exists|i: int| 0 <= i < self.orders@.len() && self.orders@[i]@ == k)
    }
}

impl OrderManager {
    pub fn new() -> (r: OrderManager)
        ensures
            r@ == Set::<Seq<char>>::empty(),
    {
        let r = OrderManager { orders: Vec::new() };
        proof {
            assert(r@ =~= Set::<Seq<char>>::empty());
        }
        r
    }

    /// Atomic check-then-insert: returns `true` if `order_id` was
    /// already present (a duplicate, to be rejected), otherwise
    /// records it and returns `false` (accepted). Cannot fail.
    pub fn check_and_insert(&mut self, order_id: &str) -> (duplicate: bool)
        ensures
            duplicate == old(self)@.contains(order_id@),
            final(self)@ == old(self)@.insert(order_id@),
    {
        let key = order_id.to_owned();
        let mut i: usize = 0;
        while i < self.orders.len()
            invariant
                i <= self.orders@.len(),
                key@ == order_id@,
                forall|j: int| 0 <= j < i ==> (#[trigger] self.orders@[j])@ != order_id@,
            decreases self.orders@.len() - i,
        {
            if self.orders[i] == key {
                proof {
                    assert(self@.contains(order_id@));
                    assert(self@.insert(order_id@) =~= self@);
                }
                return true;
            }
            i = i + 1;
        }
        proof {
            assert(!self@.contains(order_id@));
        }
        let ghost before = self@;
        self.orders.push(key);
        proof {
            assert forall|k: Seq<char>| self@.contains(k) implies before.insert(
                order_id@,
            ).contains(k) by {
                let idx = choose|idx: int|
                    0 <= idx < self.orders@.len() && self.orders@[idx]@ == k;
                if idx < self.orders@.len() - 1 {
                    assert(before.contains(k));
                }
            }
            assert forall|k: Seq<char>| before.insert(order_id@).contains(k) implies self@.contains(
                k,
            ) by {
                if k == order_id@ {
                    assert(self.orders@[self.orders@.len() - 1]@ == k);
                } else {
                    let idx = choose|idx: int|
                        0 <= idx < old(self).orders@.len() && old(self).orders@[idx]@ == k;
                    assert(self.orders@[idx]@ == k);
                }
            }
            assert(self@ =~= before.insert(order_id@));
        }
        false
    }
}

/// Folds a list of keys into the guard's set, in order: the state of
/// the guard after those keys have been accepted.
pub open spec fn insert_all(s: Set<Seq<char>>, ks: Seq<Seq<char>>) -> Set<Seq<char>>
    decreases ks.len(),
{
    if ks.len() == 0 {
        s
    } else {
        insert_all(s.insert(ks[0]), ks.drop_first())
    }
}

/// Once present, a key stays present under any further insertions.
pub proof fn lemma_insert_all_preserves(s: Set<Seq<char>>, ks: Seq<Seq<char>>, k: Seq<char>)
    requires
        s.contains(k),
    ensures
        insert_all(s, ks).contains(k),
    decreases ks.len(),
{
    if ks.len() > 0 {
        lemma_insert_all_preserves(s.insert(ks[0]), ks.drop_first(), k);
    }
}

/// Dedup idempotence: for a key `k` not yet seen, the first
/// `check_and_insert` reports no duplicate (its result is
/// `s.contains(k)`, here false) and leaves the set `s.insert(k)`; the
/// second call with `k` reports a duplicate, no matter which other
/// keys (`between`) were accepted in the meantime.
pub proof fn lemma_dedup_idempotence(s: Set<Seq<char>>, k: Seq<char>, between: Seq<Seq<char>>)
    requires
        !s.contains(k),
    ensures
        insert_all(s.insert(k), between).contains(k),
{
    lemma_insert_all_preserves(s.insert(k), between, k);
}

} // verus!
