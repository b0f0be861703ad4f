use vstd::prelude::*;

verus! {

/// The replay guard: the set of nonces already consumed by a successful
/// claim on this bridge instance.
///
/// The set grows monotonically — entries are never removed — so a nonce,
/// once consumed, can never authorize a second claim.  It is viewed as the
/// mathematical set of its entries.
#[derive(Debug)]
pub struct ConsumedNonceSet {
    entries: Vec<u64>,
}

impl View for ConsumedNonceSet {
    type V = Set<u64>;

    closed spec fn view(&self) -> Set<u64> {
        Set::new(|nonce: u64| self.entries@.contains(nonce))
    }
}

impl ConsumedNonceSet {
    /// A fresh guard with no consumed nonce.
    pub fn empty() -> (r: ConsumedNonceSet)
        ensures
            r@ == Set::<u64>::empty(),
    {
        let r = ConsumedNonceSet { entries: Vec::new() };
        proof {
            assert(r@ =~= Set::<u64>::empty());
        }
        r
    }

    /// Whether `nonce` has already been consumed.
    pub fn contains(&self, nonce: u64) -> (r: bool)
        ensures
            r == self@.contains(nonce),
    {
        let n = self.entries.len();
        for i in 0..n
            invariant
                n == self.entries.len(),
                forall|k: int| 0 <= k < i ==> self.entries@[k] != nonce,
        {
            if self.entries[i] == nonce {
                return true;
            }
        }
        proof {
            assert(!self.entries@.contains(nonce));
        }
        false
    }

    /// Marks `nonce` as consumed.  The set only ever grows.
    pub fn insert(&mut self, nonce: u64)
        ensures
            final(self)@ == old(self)@.insert(nonce),
    {
        self.entries.push(nonce);
        proof {
            let before = old(self).entries@;
            let after = self.entries@;
            assert forall|n: u64| after.contains(n) implies before.contains(n) || n == nonce by {
                let k = choose|k: int| 0 <= k < after.len() && after[k] == n;
                if k < before.len() {
                    assert(before[k] == n);
                } else {
                    assert(after[k] == nonce);
                }
            }
            assert forall|n: u64| before.contains(n) implies after.contains(n) by {
                let k = choose|k: int| 0 <= k < before.len() && before[k] == n;
                assert(after[k] == n);
            }
            assert(after.contains(nonce)) by {
                assert(after[before.len() as int] == nonce);
            }
            assert(self@ =~= old(self)@.insert(nonce));
        }
    }
}

} // verus!
