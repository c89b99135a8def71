use vstd::prelude::*;

verus! {

/// The durable per-order ledger: once an order hash is written here it is
/// never removed, and any later settlement attempt for it is refused.
pub struct OrderRegistry {
    processed: Vec<String>,
}

impl View for OrderRegistry {
    type V = Seq<Seq<char>>;

    closed spec fn view(&self) -> Seq<Seq<char>> {
        self.processed.deep_view()
    }
}

impl OrderRegistry {
    /// An order hash is marked when the ledger holds it.
    pub open spec fn is_marked(self, order_hash: Seq<char>) -> bool {
        self@.contains(order_hash)
    }

    /// An empty ledger: no order is marked.
    pub fn new() -> (r: OrderRegistry)
        ensures
            r@ == Seq::<Seq<char>>::empty(),
    {
        let r = OrderRegistry { processed: Vec::new() };
        proof {
            assert(r@ =~= Seq::<Seq<char>>::empty());
        }
        r
    }

    /// Whether the order hash was already admitted for settlement.
    pub fn is_processed(&self, order_hash: &String) -> (r: bool)
        ensures
            r == self.is_marked(order_hash@),
    {
        let n = self.processed.len();
        let mut i: usize = 0;
        while i < n
            invariant
                0 <= i <= n,
                n == self.processed.len(),
                forall|j: int| 0 <= j < i ==> self@[j] != order_hash@,
            decreases n - i,
        {
            if self.processed[i] == *order_hash {
                proof {
                    assert(self@[i as int] == order_hash@);
                }
                return true;
            }
            i += 1;
        }
        proof {
            if self@.contains(order_hash@) {
                let j = choose|j: int| 0 <= j < self@.len() && self@[j] == order_hash@;
                assert(self@[j] != order_hash@);
            }
        }
        false
    }

    /// Writes the order hash into the ledger; everything marked before
    /// stays marked.
    pub fn mark_processed(&mut self, order_hash: String)
        ensures
            final(self)@ == old(self)@.push(order_hash@),
            final(self).is_marked(order_hash@),
            forall|h: Seq<char>| old(self).is_marked(h) ==> final(self).is_marked(h),
    {
        let ghost prior = self@;
        self.processed.push(order_hash);
        proof {
            assert(self@ =~= prior.push(order_hash@));
            assert(self@[prior.len() as int] == order_hash@);
            assert forall|h: Seq<char>| prior.contains(h) implies self@.contains(h) by {
                let j = choose|j: int| 0 <= j < prior.len() && prior[j] == h;
                assert(self@[j] == h);
            }
        }
    }
}

/// Law: an order marked in an earlier registry state stays refused in any
/// later state that kept everything marked before, whatever happened to
/// the order's sub-calls in between.
pub proof fn lemma_processed_is_permanent(
    earlier: Seq<Seq<char>>,
    later: Seq<Seq<char>>,
    order_hash: Seq<char>,
)
    requires
        earlier.contains(order_hash),
        forall|h: Seq<char>| earlier.contains(h) ==> later.contains(h),
    ensures
        later.contains(order_hash),
{
}

} // verus!
