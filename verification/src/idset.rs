//! Sets of names.

use crate::text;
use vstd::prelude::*;

verus! {

/// A set of names.
pub struct IdSet {
    pub items: Vec<String>,
}

impl View for IdSet {
    type V = Set<Seq<char>>;

    open spec fn view(&self) -> Set<Seq<char>> {
        text::views(self.items@).to_set()
    }
}

impl IdSet {
    /// No name occurs twice.
    pub open spec fn wf(&self) -> bool {
        text::views(self.items@).no_duplicates()
    }

    pub fn new() -> (r: IdSet)
        ensures
            r.wf(),
            r@ == Set::<Seq<char>>::empty(),
    {
        let r = IdSet { items: Vec::new() };
        assert(text::views(r.items@) =~= Seq::empty());
        assert(r@ =~= Set::empty());
        r
    }

    fn position(&self, id: &str) -> (r: Option<usize>)
        ensures
            r is Some <==> self@.contains(id@),
            r matches Some(i) ==> i < self.items@.len() && self.items@[i as int]@ == id@,
    {
        let mut i: usize = 0;
        while i < self.items.len()
            invariant
                i <= self.items@.len(),
                forall|j: int| 0 <= j < i ==> (#[trigger] self.items@[j])@ != id@,
            decreases self.items@.len() - i,
        {
            if text::same(&self.items[i], id) {
                assert(text::views(self.items@)[i as int] == id@);
                return Some(i);
            }
            i += 1;
        }
        assert(!self@.contains(id@)) by {
            if self@.contains(id@) {
                let j = choose|j: int|
                    0 <= j < text::views(self.items@).len() && text::views(self.items@)[j] == id@;
                assert(self.items@[j]@ == id@);
            }
        }
        None
    }

    pub fn contains(&self, id: &str) -> (r: bool)
        ensures
            r == self@.contains(id@),
    {
        self.position(id).is_some()
    }

    pub fn is_empty(&self) -> (r: bool)
        ensures
            r == (self@ == Set::<Seq<char>>::empty()),
    {
        let r = self.items.len() == 0;
        proof {
            if r {
                assert(self@ =~= Set::empty());
            } else {
                assert(self@.contains(text::views(self.items@)[0]));
            }
        }
        r
    }

    pub fn insert(&mut self, id: String)
        requires
            old(self).wf(),
        ensures
            final(self).wf(),
            final(self)@ == old(self)@.insert(id@),
    {
        let ghost before = text::views(self.items@);
        let ghost name = id@;
        if self.contains(&id) {
            assert(self@ =~= self@.insert(name));
        } else {
            self.items.push(id);
            let ghost after = text::views(self.items@);
            assert(after =~= before.push(name));
            proof {
                assert forall|k: Seq<char>| self@.contains(k) <==> before.to_set().insert(
                    name,
                ).contains(k) by {
                    if before.to_set().contains(k) {
                        let j = choose|j: int| 0 <= j < before.len() && before[j] == k;
                        assert(after[j] == k);
                    }
                    if k == name {
                        assert(after[before.len() as int] == k);
                    }
                    if self@.contains(k) {
                        let j = choose|j: int| 0 <= j < after.len() && after[j] == k;
                        if j < before.len() {
                            assert(before[j] == k);
                        }
                    }
                }
            }
            assert(self@ =~= before.to_set().insert(name));
        }
    }

    /// Takes a name out of the set; says whether it was in it.
    pub fn remove(&mut self, id: &str) -> (r: bool)
        requires
            old(self).wf(),
        ensures
            final(self).wf(),
            final(self)@ == old(self)@.remove(id@),
            r == old(self)@.contains(id@),
    {
        let ghost before = text::views(self.items@);
        match self.position(id) {
            None => {
                assert(self@ =~= self@.remove(id@));
                false
            },
            Some(i) => {
                let _ = self.items.remove(i);
                let ghost after = text::views(self.items@);
                proof {
                    assert(after =~= before.remove(i as int));
                    assert(before[i as int] == id@);
                    assert forall|k: Seq<char>| self@.contains(k) <==> before.to_set().remove(
                        id@,
                    ).contains(k) by {
                        if after.to_set().contains(k) {
                            let j = choose|j: int| 0 <= j < after.len() && after[j] == k;
                            let m = if j < i {
                                j
                            } else {
                                j + 1
                            };
                            assert(before[m] == k);
                        }
                        if before.to_set().contains(k) && k != id@ {
                            let j = choose|j: int| 0 <= j < before.len() && before[j] == k;
                            let m = if j < i {
                                j
                            } else {
                                j - 1
                            };
                            assert(after[m] == k);
                        }
                    }
                    assert(self@ =~= before.to_set().remove(id@));
                }
                true
            },
        }
    }

    /// Adds every one of these names.
    pub fn extend(&mut self, names: &Vec<String>)
        requires
            old(self).wf(),
        ensures
            final(self).wf(),
            final(self)@ == old(self)@.union(text::views(names@).to_set()),
    {
        let ghost before = self@;
        let ghost all = text::views(names@);
        let mut i: usize = 0;
        assert(all.subrange(0, 0).to_set() =~= Set::empty());
        assert(before =~= before.union(all.subrange(0, 0).to_set()));
        while i < names.len()
            invariant
                i <= names@.len(),
                all == text::views(names@),
                self.wf(),
                self@ == before.union(all.subrange(0, i as int).to_set()),
            decreases names@.len() - i,
        {
            self.insert(names[i].clone());
            proof {
                let s = all.subrange(0, i as int);
                let t = all.subrange(0, i + 1);
                assert(t =~= s.push(all[i as int]));
                s.lemma_push_to_set_commute(all[i as int]);
                assert(self@ =~= before.union(t.to_set()));
            }
            i += 1;
        }
        assert(all.subrange(0, all.len() as int) =~= all);
    }

    /// Empties the set and hands out its names, each once.
    pub fn drain(&mut self) -> (r: Vec<String>)
        requires
            old(self).wf(),
        ensures
            final(self).wf(),
            final(self)@ == Set::<Seq<char>>::empty(),
            text::views(r@).no_duplicates(),
            text::views(r@).to_set() == old(self)@,
    {
        let mut r: Vec<String> = Vec::new();
        std::mem::swap(&mut r, &mut self.items);
        assert(text::views(self.items@) =~= Seq::empty());
        assert(self@ =~= Set::empty());
        r
    }
}

} // verus!
