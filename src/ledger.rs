//! An address-keyed ledger: a finite map from addresses to values, kept as
//! two parallel vectors whose keys are pairwise distinct.
use vstd::prelude::*;

verus! {

pub struct AddrMap<V> {
    keys: Vec<String>,
    vals: Vec<V>,
    contents: Ghost<Map<Seq<char>, V>>,
}

impl<V> View for AddrMap<V> {
    type V = Map<Seq<char>, V>;

    closed spec fn view(&self) -> Map<Seq<char>, V> {
        self.contents@
    }
}

impl<V: Copy> AddrMap<V> {
    /// The two vectors describe exactly the ghost map, with no key twice.
    pub closed spec fn wf(&self) -> bool {
        &&& self.keys@.len() == self.vals@.len()
        &&& forall|i: int, j: int|
            0 <= i < j < self.keys@.len() ==> self.keys@[i]@ != self.keys@[j]@
        &&& forall|i: int|
            0 <= i < self.keys@.len() ==> #[trigger] self.contents@.contains_key(self.keys@[i]@)
                && self.contents@[self.keys@[i]@] == self.vals@[i]
        &&& forall|k: Seq<char>|
            #[trigger] self.contents@.contains_key(k) ==> exists|i: int|
                0 <= i < self.keys@.len() && self.keys@[i]@ == k
    }

    pub fn new() -> (r: Self)
        ensures
            r.wf(),
            r@ == Map::<Seq<char>, V>::empty(),
    {
        AddrMap { keys: Vec::new(), vals: Vec::new(), contents: Ghost(Map::empty()) }
    }

    /// Position of `k` among the keys, if it is there.
    fn find(&self, k: &String) -> (r: Option<usize>)
        requires
            self.wf(),
        ensures
            match r {
                Some(i) => i < self.keys@.len() && self.keys@[i as int]@ == k@,
                None => !self@.contains_key(k@),
            },
    {
        let mut i: usize = 0;
        while i < self.keys.len()
            invariant
                self.wf(),
                i <= self.keys@.len(),
                forall|j: int| 0 <= j < i ==> self.keys@[j]@ != k@,
            decreases self.keys@.len() - i,
        {
            if self.keys[i] == *k {
                return Some(i);
            }
            i = i + 1;
        }
        None
    }

    pub fn get(&self, k: &String) -> (r: Option<V>)
        requires
            self.wf(),
        ensures
            r == (if self@.contains_key(k@) { Some(self@[k@]) } else { None::<V> }),
    {
        match self.find(k) {
            Some(i) => Some(self.vals[i]),
            None => None,
        }
    }

    pub fn contains_key(&self, k: &String) -> (r: bool)
        requires
            self.wf(),
        ensures
            r == self@.contains_key(k@),
    {
        self.find(k).is_some()
    }

    pub fn insert(&mut self, k: String, v: V)
        requires
            old(self).wf(),
        ensures
            final(self).wf(),
            final(self)@ == old(self)@.insert(k@, v),
    {
        let ghost pre = *self;
        let ghost kv = k@;
        match self.find(&k) {
            Some(i) => {
                self.vals.set(i, v);
                self.contents = Ghost(self.contents@.insert(kv, v));
                assert forall|j: int| 0 <= j < self.keys@.len() implies #[trigger] self.contents@.contains_key(
                    self.keys@[j]@) && self.contents@[self.keys@[j]@] == self.vals@[j] by {
                    if j != i {
                        assert(pre.contents@.contains_key(pre.keys@[j]@));
                        if j < i {
                            assert(pre.keys@[j]@ != pre.keys@[i as int]@);
                        } else {
                            assert(pre.keys@[i as int]@ != pre.keys@[j]@);
                        }
                    }
                }
                assert forall|q: Seq<char>| #[trigger] self.contents@.contains_key(q) implies exists|j: int|
                    0 <= j < self.keys@.len() && self.keys@[j]@ == q by {
                    if q != kv {
                        assert(pre.contents@.contains_key(q));
                        let j = choose|j: int| 0 <= j < pre.keys@.len() && pre.keys@[j]@ == q;
                        assert(self.keys@[j]@ == q);
                    } else {
                        assert(self.keys@[i as int]@ == q);
                    }
                }
            },
            None => {
                self.keys.push(k);
                self.vals.push(v);
                self.contents = Ghost(self.contents@.insert(kv, v));
                assert forall|j: int| 0 <= j < self.keys@.len() implies #[trigger] self.contents@.contains_key(
                    self.keys@[j]@) && self.contents@[self.keys@[j]@] == self.vals@[j] by {
                    if j < pre.keys@.len() {
                        assert(pre.contents@.contains_key(pre.keys@[j]@));
                    }
                }
                assert forall|q: Seq<char>| #[trigger] self.contents@.contains_key(q) implies exists|j: int|
                    0 <= j < self.keys@.len() && self.keys@[j]@ == q by {
                    if q != kv {
                        assert(pre.contents@.contains_key(q));
                        let j = choose|j: int| 0 <= j < pre.keys@.len() && pre.keys@[j]@ == q;
                        assert(self.keys@[j]@ == q);
                    } else {
                        assert(self.keys@[pre.keys@.len() as int]@ == q);
                    }
                }
                assert forall|a: int, b: int| 0 <= a < b < self.keys@.len() implies self.keys@[a]@
                    != self.keys@[b]@ by {
                    if b == pre.keys@.len() {
                        assert(pre.contents@.contains_key(pre.keys@[a]@));
                    }
                }
            },
        }
    }

    /// Every entry, in no particular order, each key once.
    pub fn entries(&self) -> (r: Vec<(String, V)>)
        requires
            self.wf(),
        ensures
            r@.len() == self@.len(),
            forall|i: int|
                0 <= i < r@.len() ==> #[trigger] self@.contains_key(r@[i].0@) && self@[r@[i].0@]
                    == r@[i].1,
            forall|k: Seq<char>|
                #[trigger] self@.contains_key(k) ==> exists|i: int| 0 <= i < r@.len() && r@[i].0@ == k,
    {
        let mut r: Vec<(String, V)> = Vec::new();
        let mut i: usize = 0;
        while i < self.keys.len()
            invariant
                self.wf(),
                i <= self.keys@.len(),
                r@.len() == i,
                forall|j: int| 0 <= j < i ==> #[trigger] r@[j].0@ == self.keys@[j]@ && r@[j].1 == self.vals@[j],
            decreases self.keys@.len() - i,
        {
            r.push((self.keys[i].clone(), self.vals[i]));
            i = i + 1;
        }
        proof {
            self.lemma_len();
            assert forall|k: Seq<char>| #[trigger] self@.contains_key(k) implies exists|i: int|
                0 <= i < r@.len() && r@[i].0@ == k by {
                let i = choose|i: int| 0 <= i < self.keys@.len() && self.keys@[i]@ == k;
                assert(r@[i].0@ == k);
            }
        }
        r
    }

    /// The map has exactly as many entries as the vectors.
    proof fn lemma_len(&self)
        requires
            self.wf(),
        ensures
            self@.len() == self.keys@.len(),
    {
        let ks = self.keys@.map_values(|s: String| s@);
        assert(ks.no_duplicates()) by {
            assert forall|i: int, j: int| 0 <= i < ks.len() && 0 <= j < ks.len() && i != j implies ks[i]
                != ks[j] by {
                if i < j {
                    assert(self.keys@[i]@ != self.keys@[j]@);
                } else {
                    assert(self.keys@[j]@ != self.keys@[i]@);
                }
            }
        }
        ks.unique_seq_to_set();
        assert forall|k: Seq<char>| #[trigger] self@.dom().contains(k) <==> ks.to_set().contains(k) by {
            if self@.dom().contains(k) {
                let i = choose|i: int| 0 <= i < self.keys@.len() && self.keys@[i]@ == k;
                assert(ks[i] == k);
            }
            if ks.to_set().contains(k) {
                let i = choose|i: int| 0 <= i < ks.len() && ks[i] == k;
                assert(self@.contains_key(self.keys@[i]@));
            }
        }
        assert(self@.dom() =~= ks.to_set());
    }
}

} // verus!
