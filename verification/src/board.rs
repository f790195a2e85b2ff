use vstd::prelude::*;

verus! {

/// Keys of a board: a small fixed set, each with its own rank below `count()`.
pub trait BoardKey: Sized + Copy {
    spec fn rank(self) -> nat;

    spec fn count() -> nat;

    fn index(&self) -> (i: usize)
        ensures
            i == self.rank(),
            i < Self::count(),
    ;

    fn size() -> (n: usize)
        ensures
            n == Self::count(),
    ;

    fn from_index(i: usize) -> (k: Self)
        requires
            i < Self::count(),
        ensures
            k.rank() == i,
    ;

    proof fn lemma_rank_bound(k: Self)
        ensures
            k.rank() < Self::count(),
    ;

    proof fn lemma_rank_injective(a: Self, b: Self)
        requires
            a.rank() == b.rank(),
        ensures
            a == b,
    ;
}

/// A map from the keys of `K` to lists of items, walked in key order.
pub struct Board<K: BoardKey, T> {
    slots: Vec<Option<Vec<T>>>,
    keys: core::marker::PhantomData<K>,
}

impl<K: BoardKey, T> Board<K, T> {
    #[verifier::type_invariant]
    spec fn inv(&self) -> bool {
        self.slots.len() == K::count()
    }

    fn empty_slots() -> (v: Vec<Option<Vec<T>>>)
        ensures
            v.len() == K::count(),
            forall|j: int| 0 <= j < v.len() ==> v@[j] is None,
    {
        let mut slots: Vec<Option<Vec<T>>> = Vec::new();
        let n = K::size();
        for i in 0..n
            invariant
                n == K::count(),
                slots.len() == i,
                forall|j: int| 0 <= j < i ==> slots@[j] is None,
        {
            slots.push(None);
        }
        slots
    }

    /// The list held under `k`, if any.
    pub closed spec fn slot(&self, k: K) -> Option<Seq<T>> {
        match self.slots@[k.rank() as int] {
            Some(v) => Some(v@),
            None => None,
        }
    }

    /// The list held under `k`, or the empty list.
    pub open spec fn items(&self, k: K) -> Seq<T> {
        match self.slot(k) {
            Some(s) => s,
            None => seq![],
        }
    }

    /// An empty board.
    pub fn new() -> (b: Self)
        ensures
            forall|k: K| #[trigger] b.slot(k) is None,
    {
        let slots = Self::empty_slots();
        let b = Board { slots, keys: core::marker::PhantomData };
        assert forall|k: K| #[trigger] b.slot(k) is None by {
            K::lemma_rank_bound(k);
        }
        b
    }

    /// The list held under `k`.
    pub fn get(&self, k: &K) -> (r: Option<&Vec<T>>)
        ensures
            match r {
                Some(v) => self.slot(*k) == Some(v@),
                None => self.slot(*k) is None,
            },
    {
        proof {
            use_type_invariant(self);
        }
        let i = k.index();
        match &self.slots[i] {
            Some(v) => Some(v),
            None => None,
        }
    }

    /// Puts `v` under `k`, replacing what was there.
    pub fn insert(&mut self, k: K, v: Vec<T>)
        ensures
            final(self).slot(k) == Some(v@),
            forall|j: K| j != k ==> #[trigger] final(self).slot(j) == old(self).slot(j),
    {
        proof {
            use_type_invariant(&*self);
        }
        let i = k.index();
        let mut slots = Self::empty_slots();
        core::mem::swap(&mut slots, &mut self.slots);
        slots.set(i, Some(v));
        self.slots = slots;
        assert forall|j: K| j != k implies #[trigger] self.slot(j) == old(self).slot(j) by {
            K::lemma_rank_bound(j);
            if j.rank() == k.rank() {
                K::lemma_rank_injective(j, k);
            }
        }
    }

    /// Takes the list under `k` out, leaving nothing there.
    pub fn remove(&mut self, k: K) -> (r: Option<Vec<T>>)
        ensures
            match r {
                Some(v) => old(self).slot(k) == Some(v@),
                None => old(self).slot(k) is None,
            },
            final(self).slot(k) is None,
            forall|j: K| j != k ==> #[trigger] final(self).slot(j) == old(self).slot(j),
    {
        proof {
            use_type_invariant(&*self);
        }
        let i = k.index();
        let mut taken: Option<Vec<T>> = None;
        let mut slots = Self::empty_slots();
        core::mem::swap(&mut slots, &mut self.slots);
        slots.set_and_swap(i, &mut taken);
        self.slots = slots;
        assert forall|j: K| j != k implies #[trigger] self.slot(j) == old(self).slot(j) by {
            K::lemma_rank_bound(j);
            if j.rank() == k.rank() {
                K::lemma_rank_injective(j, k);
            }
        }
        taken
    }

    /// Puts an empty list under `k` when nothing is there (`entry(k).or_insert(vec![])`).
    pub fn or_insert_empty(&mut self, k: K)
        ensures
            final(self).slot(k) == Some(old(self).items(k)),
            forall|j: K| j != k ==> #[trigger] final(self).slot(j) == old(self).slot(j),
    {
        proof {
            use_type_invariant(&*self);
        }
        let i = k.index();
        if self.slots[i].is_none() {
            self.insert(k, Vec::new());
        }
    }

    /// Whether no key holds a list.
    pub fn is_empty(&self) -> (b: bool)
        ensures
            b == forall|k: K| #[trigger] self.slot(k) is None,
    {
        proof {
            use_type_invariant(self);
        }
        let n = self.slots.len();
        for i in 0..n
            invariant
                n == self.slots.len(),
                n == K::count(),
                forall|j: int| 0 <= j < i ==> self.slots@[j] is None,
        {
            if self.slots[i].is_some() {
                let k = K::from_index(i);
                assert(self.slot(k) is Some);
                return false;
            }
        }
        assert forall|k: K| #[trigger] self.slot(k) is None by {
            K::lemma_rank_bound(k);
        }
        true
    }

    /// The keys that hold a list, in key order.
    pub fn present_keys(&self) -> (ks: Vec<K>)
        ensures
            forall|i: int, j: int| 0 <= i < j < ks.len() ==> ks@[i].rank() < ks@[j].rank(),
            forall|k: K| #[trigger] self.slot(k) is Some <==> ks@.contains(k),
    {
        proof {
            use_type_invariant(self);
        }
        let mut ks: Vec<K> = Vec::new();
        let n = self.slots.len();
        for i in 0..n
            invariant
                n == self.slots.len(),
                n == K::count(),
                forall|a: int, b: int| 0 <= a < b < ks.len() ==> ks@[a].rank() < ks@[b].rank(),
                forall|a: int| 0 <= a < ks.len() ==> ks@[a].rank() < i,
                forall|k: K|
                    k.rank() < i ==> (#[trigger] self.slot(k) is Some <==> ks@.contains(k)),
                forall|a: int| 0 <= a < ks.len() ==> self.slot(#[trigger] ks@[a]) is Some,
        {
            if self.slots[i].is_some() {
                let k = K::from_index(i);
                assert(self.slot(k) is Some);
                let ghost before = ks@;
                ks.push(k);
                assert forall|j: K| j.rank() < i + 1 implies (#[trigger] self.slot(j) is Some
                    <==> ks@.contains(j)) by {
                    if j.rank() == i {
                        K::lemma_rank_injective(j, k);
                        assert(ks@[ks.len() - 1] == k);
                    } else {
                        if ks@.contains(j) {
                            let a = choose|a: int| 0 <= a < ks.len() && ks@[a] == j;
                            assert(a < before.len());
                            assert(before[a] == j);
                        }
                        if before.contains(j) {
                            let a = choose|a: int| 0 <= a < before.len() && before[a] == j;
                            assert(ks@[a] == j);
                        }
                    }
                }
            } else {
                assert forall|j: K| j.rank() == i implies !ks@.contains(j) by {
                    if ks@.contains(j) {
                        let a = choose|a: int| 0 <= a < ks.len() && ks@[a] == j;
                    }
                }
            }
        }
        assert forall|k: K| #[trigger] self.slot(k) is Some <==> ks@.contains(k) by {
            K::lemma_rank_bound(k);
            if ks@.contains(k) {
                let a = choose|a: int| 0 <= a < ks.len() && ks@[a] == k;
            }
        }
        ks
    }
}

} // verus!
