use vstd::prelude::*;

use crate::error::BridgeError;
use crate::value::GenericValue;

verus! {

/// Remembers, for the lifetime of one connection, the identifier each method
/// name resolved to, so that a name is resolved at most once.
pub struct DispatchCache {
    names: Vec<String>,
    ids: Vec<i32>,
    model: Ghost<Map<Seq<char>, i32>>,
}

impl View for DispatchCache {
    type V = Map<Seq<char>, i32>;

    closed spec fn view(&self) -> Map<Seq<char>, i32> {
        self.model@
    }
}

impl DispatchCache {
    /// Names are distinct, and the entries are exactly the model.
    pub closed spec fn wf(&self) -> bool {
        &&& self.names@.len() == self.ids@.len()
        &&& forall|i: int, j: int|
            0 <= i < j < self.names@.len() ==> self.names@[i]@ != self.names@[j]@
        &&& forall|i: int|
            0 <= i < self.names@.len() ==> self.model@.contains_key(#[trigger] self.names@[i]@)
                && self.model@[self.names@[i]@] == self.ids@[i]
        &&& forall|k: Seq<char>|
            #[trigger] self.model@.contains_key(k) ==> exists|i: int|
                0 <= i < self.names@.len() && self.names@[i]@ == k
    }

    pub fn new() -> (r: DispatchCache)
        ensures
            r.wf(),
            r@ == Map::<Seq<char>, i32>::empty(),
    {
        DispatchCache { names: Vec::new(), ids: Vec::new(), model: Ghost(Map::empty()) }
    }

    /// The identifier cached for `name`, if any.
    pub fn lookup(&self, name: &str) -> (r: Option<i32>)
        requires
            self.wf(),
        ensures
            r == (if self@.contains_key(name@) {
                Some(self@[name@])
            } else {
                None
            }),
    {
        let key = String::from_str(name);
        let mut i: usize = 0;
        while i < self.names.len()
            invariant
                self.wf(),
                key@ == name@,
                i <= self.names@.len(),
                forall|j: int| 0 <= j < i ==> self.names@[j]@ != name@,
            decreases self.names@.len() - i,
        {
            if self.names[i] == key {
                return Some(self.ids[i]);
            }
            i = i + 1;
        }
        None
    }

    /// Records that `name` resolved to `id`.
    pub fn record(&mut self, name: &str, id: i32)
        requires
            old(self).wf(),
        ensures
            final(self).wf(),
            final(self)@ == old(self)@.insert(name@, id),
    {
        let key = String::from_str(name);
        let mut i: usize = 0;
        while i < self.names.len()
            invariant
                self.wf(),
                key@ == name@,
                self.names@ == old(self).names@,
                self.ids@ == old(self).ids@,
                self.model@ == old(self).model@,
                i <= self.names@.len(),
                forall|j: int| 0 <= j < i ==> self.names@[j]@ != name@,
            decreases self.names@.len() - i,
        {
            if self.names[i] == key {
                self.ids.set(i, id);
                self.model = Ghost(self.model@.insert(name@, id));
                assert forall|k: Seq<char>| #[trigger] self.model@.contains_key(k) implies exists|
                    j: int,
                | 0 <= j < self.names@.len() && self.names@[j]@ == k by {
                    if k != name@ {
                        assert(old(self).model@.contains_key(k));
                        let j = choose|j: int|
                            0 <= j < self.names@.len() && self.names@[j]@ == k;
                        assert(self.names@[j]@ == k);
                    } else {
                        assert(self.names@[i as int]@ == k);
                    }
                }
                return;
            }
            i = i + 1;
        }
        let ghost old_names = self.names@;
        self.names.push(key);
        self.ids.push(id);
        self.model = Ghost(self.model@.insert(name@, id));
        assert forall|k: Seq<char>| #[trigger] self.model@.contains_key(k) implies exists|j: int|
            0 <= j < self.names@.len() && self.names@[j]@ == k by {
            if k != name@ {
                assert(old(self).model@.contains_key(k));
                let j = choose|j: int| 0 <= j < old_names.len() && old_names[j]@ == k;
                assert(self.names@[j]@ == k);
            } else {
                assert(self.names@[old_names.len() as int]@ == k);
            }
        }
    }
}

} // verus!
