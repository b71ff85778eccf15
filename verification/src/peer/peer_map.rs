//! A map from peer identities to values.

use crate::peer::address::PeerId;
use vstd::prelude::*;

verus! {

/// A map keyed by peer identity. No identity occurs twice.
#[derive(Debug)]
pub struct PeerMap<V> {
    entries: Vec<(PeerId, V)>,
}

/// The position of the entry of `peer` among `entries`, if there is one.
pub open spec fn position_of<V>(entries: Seq<(PeerId, V)>, peer: Seq<u8>) -> Option<int> {
    if exists|i: int| 0 <= i < entries.len() && (#[trigger] entries[i]).0@ == peer {
        Some(choose|i: int| 0 <= i < entries.len() && (#[trigger] entries[i]).0@ == peer)
    } else {
        None
    }
}

/// Whether no identity occurs twice among `entries`.
pub open spec fn distinct_keys<V>(entries: Seq<(PeerId, V)>) -> bool {
    forall|i: int, j: int|
        0 <= i < entries.len() && 0 <= j < entries.len() && (#[trigger] entries[i]).0@ == (
        #[trigger] entries[j]).0@ ==> i == j
}

impl<V> View for PeerMap<V> {
    type V = Map<Seq<u8>, V>;

    closed spec fn view(&self) -> Map<Seq<u8>, V> {
        Map::new(
            |peer: Seq<u8>| position_of(self.entries@, peer) is Some,
            |peer: Seq<u8>| self.entries@[position_of(self.entries@, peer).unwrap()].1,
        )
    }
}

impl<V> PeerMap<V> {
    /// Whether the map is what it should be: no identity occurs twice.
    pub closed spec fn wf(&self) -> bool {
        distinct_keys(self.entries@)
    }

    /// A map without entries.
    pub fn new() -> (map: Self)
        ensures
            map.wf(),
            map@ == Map::<Seq<u8>, V>::empty(),
    {
        let map = PeerMap { entries: Vec::new() };
        assert(map@ =~= Map::<Seq<u8>, V>::empty());
        map
    }

    /// The position of the entry of `peer`.
    fn find(&self, peer: &PeerId) -> (at: Option<usize>)
        requires
            self.wf(),
        ensures
            match at {
                Some(i) => i < self.entries@.len() && self.entries@[i as int].0@ == peer@
                    && self@.dom().contains(peer@) && self@[peer@] == self.entries@[i as int].1,
                None => !self@.dom().contains(peer@) && forall|i: int|
                    0 <= i < self.entries@.len() ==> (#[trigger] self.entries@[i]).0@ != peer@,
            },
    {
        let mut i: usize = 0;
        while i < self.entries.len()
            invariant
                self.wf(),
                i <= self.entries@.len(),
                forall|k: int| 0 <= k < i ==> (#[trigger] self.entries@[k]).0@ != peer@,
            decreases self.entries@.len() - i,
        {
            if self.entries[i].0.same_as(peer) {
                proof {
                    assert(self.entries@[i as int].0@ == peer@);
                    let j = position_of(self.entries@, peer@).unwrap();
                    assert(self.entries@[j].0@ == self.entries@[i as int].0@);
                }
                return Some(i);
            }
            i = i + 1;
        }
        None
    }

    /// Whether `peer` has an entry.
    pub fn contains_key(&self, peer: &PeerId) -> (found: bool)
        requires
            self.wf(),
        ensures
            found == self@.dom().contains(peer@),
    {
        self.find(peer).is_some()
    }

    /// The value of `peer`, if it has one.
    pub fn get(&self, peer: &PeerId) -> (value: Option<&V>)
        requires
            self.wf(),
        ensures
            match value {
                Some(v) => self@.dom().contains(peer@) && *v == self@[peer@],
                None => !self@.dom().contains(peer@),
            },
    {
        match self.find(peer) {
            Some(i) => Some(&self.entries[i].1),
            None => None,
        }
    }

    /// Takes the entry of `peer` out of the map and hands back its value.
    pub fn remove(&mut self, peer: &PeerId) -> (value: Option<V>)
        requires
            old(self).wf(),
        ensures
            final(self).wf(),
            final(self)@ == old(self)@.remove(peer@),
            match value {
                Some(v) => old(self)@.dom().contains(peer@) && v == old(self)@[peer@],
                None => !old(self)@.dom().contains(peer@),
            },
    {
        match self.find(peer) {
            Some(i) => {
                let ghost before = self.entries@;
                let entry = self.entries.remove(i);
                proof {
                    let after = self.entries@;
                    assert(after =~= before.remove(i as int));
                    assert forall|a: int, b: int|
                        0 <= a < after.len() && 0 <= b < after.len() && (#[trigger] after[a]).0@
                            == (#[trigger] after[b]).0@ implies a == b by {
                        let a0 = if a < i { a } else { a + 1 };
                        let b0 = if b < i { b } else { b + 1 };
                        assert(before[a0] == after[a]);
                        assert(before[b0] == after[b]);
                    }
                    assert forall|k: Seq<u8>| position_of(after, k) is Some <==> (position_of(
                        before,
                        k,
                    ) is Some && k != peer@) by {
                        if position_of(after, k) is Some {
                            let a = position_of(after, k).unwrap();
                            let a0 = if a < i { a } else { a + 1 };
                            assert(before[a0] == after[a]);
                        }
                        if position_of(before, k) is Some && k != peer@ {
                            let b = position_of(before, k).unwrap();
                            let b1 = if b < i { b } else { b - 1 };
                            assert(after[b1] == before[b]);
                        }
                    }
                    assert forall|k: Seq<u8>| position_of(after, k) is Some implies after[position_of(
                        after,
                        k,
                    ).unwrap()].1 == before[position_of(before, k).unwrap()].1 by {
                        let a = position_of(after, k).unwrap();
                        let a0 = if a < i { a } else { a + 1 };
                        assert(before[a0] == after[a]);
                        let b = position_of(before, k).unwrap();
                        assert(b == a0);
                    }
                    assert(self@ =~= old(self)@.remove(peer@));
                }
                Some(entry.1)
            },
            None => {
                assert(self@ =~= old(self)@.remove(peer@));
                None
            },
        }
    }

    /// Gives `peer` the value `value`. An earlier value of `peer` is replaced.
    pub fn insert(&mut self, peer: PeerId, value: V)
        requires
            old(self).wf(),
        ensures
            final(self).wf(),
            final(self)@ == old(self)@.insert(peer@, value),
    {
        let _ = self.remove(&peer);
        let ghost before = self.entries@;
        let ghost key = peer@;
        assert(!self@.dom().contains(key));
        assert(position_of(before, key) is None);
        self.entries.push((peer, value));
        proof {
            let after = self.entries@;
            let n = before.len() as int;
            assert(after =~= before.push(after[n]));
            assert(after[n].0@ == key && after[n].1 == value);
            assert forall|a: int, b: int|
                0 <= a < after.len() && 0 <= b < after.len() && (#[trigger] after[a]).0@ == (
                #[trigger] after[b]).0@ implies a == b by {
                if a < n {
                    assert(before[a] == after[a]);
                }
                if b < n {
                    assert(before[b] == after[b]);
                }
            }
            assert forall|k: Seq<u8>| position_of(after, k) is Some <==> (position_of(
                before,
                k,
            ) is Some || k == key) by {
                if position_of(after, k) is Some {
                    let a = position_of(after, k).unwrap();
                    if a < n {
                        assert(before[a] == after[a]);
                    }
                }
                if position_of(before, k) is Some {
                    let b = position_of(before, k).unwrap();
                    assert(after[b] == before[b]);
                }
                if k == key {
                    assert(after[n].0@ == k);
                }
            }
            assert forall|k: Seq<u8>| position_of(after, k) is Some implies after[position_of(
                after,
                k,
            ).unwrap()].1 == (if k == key {
                value
            } else {
                before[position_of(before, k).unwrap()].1
            }) by {
                let a = position_of(after, k).unwrap();
                if a < n {
                    assert(before[a] == after[a]);
                    let b = position_of(before, k).unwrap();
                    assert(after[b] == before[b]);
                }
            }
            assert(self@ =~= old(self)@.remove(key).insert(key, value));
            assert(old(self)@.remove(key).insert(key, value) =~= old(self)@.insert(key, value));
        }
    }
}

} // verus!
