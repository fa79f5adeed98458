//! Things kept under a name, one under each.
use vstd::prelude::*;

use crate::text::same;

verus! {

/// Things kept under names.
#[derive(Clone, Debug, PartialEq, Eq)]
pub struct Named<T> {
    entries: Vec<(String, T)>,
}

/// What some entries keep under each name; a later one under the same name
/// stands for both.
pub closed spec fn kept<T>(entries: Seq<(String, T)>) -> Map<Seq<char>, T>
    decreases entries.len(),
{
    if entries.len() == 0 {
        Map::empty()
    } else {
        kept(entries.drop_last()).insert(entries.last().0@, entries.last().1)
    }
}

/// Whether no name occurs twice.
spec fn each_once<T>(entries: Seq<(String, T)>) -> bool {
    forall|i: int, j: int|
        0 <= i < j < entries.len() ==> (#[trigger] entries[i]).0@ != (#[trigger] entries[j]).0@
}

proof fn kept_holds<T>(entries: Seq<(String, T)>, name: Seq<char>)
    requires
        each_once(entries),
    ensures
        forall|i: int|
            0 <= i < entries.len() && (#[trigger] entries[i]).0@ == name ==> kept(
                entries,
            ).contains_key(name) && kept(entries)[name] == entries[i].1,
        (forall|i: int| 0 <= i < entries.len() ==> (#[trigger] entries[i]).0@ != name) ==> !kept(
            entries,
        ).contains_key(name),
    decreases entries.len(),
{
    if entries.len() > 0 {
        let before = entries.drop_last();
        assert(each_once(before)) by {
            assert forall|i: int, j: int| 0 <= i < j < before.len() implies (
            #[trigger] before[i]).0@ != (#[trigger] before[j]).0@ by {
                assert(before[i] == entries[i] && before[j] == entries[j]);
            }
        }
        kept_holds(before, name);
        assert forall|i: int|
            0 <= i < entries.len() && (#[trigger] entries[i]).0@ == name implies kept(
            entries,
        ).contains_key(name) && kept(entries)[name] == entries[i].1 by {
            if i < before.len() {
                assert(before[i] == entries[i]);
                assert(entries[i].0@ != entries[entries.len() - 1].0@);
            }
        }
        if forall|i: int| 0 <= i < entries.len() ==> (#[trigger] entries[i]).0@ != name {
            assert forall|i: int| 0 <= i < before.len() implies (#[trigger] before[i]).0@
                != name by {
                assert(before[i] == entries[i]);
            }
            assert(entries[entries.len() - 1].0@ != name);
        }
    }
}

impl<T> View for Named<T> {
    type V = Map<Seq<char>, T>;

    closed spec fn view(&self) -> Map<Seq<char>, T> {
        kept(self.entries@)
    }
}

impl<T> Named<T> {
    /// Whether no name occurs twice.
    pub closed spec fn wf(self) -> bool {
        each_once(self.entries@)
    }

    /// Nothing is kept.
    pub fn new() -> (n: Named<T>)
        ensures
            n.wf(),
            n@ == Map::<Seq<char>, T>::empty(),
    {
        Named { entries: Vec::new() }
    }

    fn find(&self, name: &str) -> (r: Option<usize>)
        ensures
            match r {
                Some(i) => i < self.entries@.len() && self.entries@[i as int].0@ == name@,
                None => forall|i: int|
                    0 <= i < self.entries@.len() ==> (#[trigger] self.entries@[i]).0@ != name@,
            },
    {
        let mut i: usize = 0;
        while i < self.entries.len()
            invariant
                i <= self.entries@.len(),
                forall|j: int| 0 <= j < i ==> (#[trigger] self.entries@[j]).0@ != name@,
            decreases self.entries@.len() - i,
        {
            if same(self.entries[i].0.as_str(), name) {
                return Some(i);
            }
            i = i + 1;
        }
        None
    }

    /// What is kept under a name.
    pub fn get(&self, name: &str) -> (r: Option<&T>)
        requires
            self.wf(),
        ensures
            match r {
                Some(t) => self@.contains_key(name@) && *t == self@[name@],
                None => !self@.contains_key(name@),
            },
    {
        proof {
            kept_holds(self.entries@, name@);
        }
        match self.find(name) {
            Some(i) => Some(&self.entries[i].1),
            None => None,
        }
    }

    /// Keeps something under a name, in place of what was kept there.
    pub fn insert(&mut self, name: &str, t: T)
        requires
            old(self).wf(),
        ensures
            final(self).wf(),
            final(self)@ == old(self)@.insert(name@, t),
    {
        let ghost before = self.entries@;
        match self.find(name) {
            Some(i) => {
                let key = self.entries[i].0.clone();
                self.entries.set(i, (key, t));
            },
            None => {
                self.entries.push((name.to_owned(), t));
            },
        }
        proof {
            let after = self.entries@;
            assert(each_once(after));
            let got = kept(after);
            let want = kept(before).insert(name@, t);
            assert forall|k: Seq<char>|
                #![trigger got.dom().contains(k)]
                #![trigger want.dom().contains(k)]
                #![trigger got[k]]
                #![trigger want[k]]
                got.dom().contains(k) == want.dom().contains(k) && (got.dom().contains(k) ==> got[k]
                    == want[k]) by {
                kept_holds(after, k);
                kept_holds(before, k);
                if exists|i: int| 0 <= i < after.len() && (#[trigger] after[i]).0@ == k {
                    let i = choose|i: int| 0 <= i < after.len() && (#[trigger] after[i]).0@ == k;
                    if k != name@ {
                        assert(before[i] == after[i]);
                    } else {
                        assert(after[i].1 == t);
                    }
                } else if exists|i: int| 0 <= i < before.len() && (#[trigger] before[i]).0@ == k {
                    let i = choose|i: int| 0 <= i < before.len() && (#[trigger] before[i]).0@ == k;
                    assert(after[i].0@ == k);
                    assert(false);
                } else if k == name@ {
                    if after.len() > before.len() {
                        assert(after[after.len() - 1].0@ == k);
                    }
                    assert(false);
                }
            }
            assert(got =~= want);
        }
    }

    /// Lets go of what is kept under a name, and gives it back.
    pub fn remove(&mut self, name: &str) -> (r: Option<T>)
        requires
            old(self).wf(),
        ensures
            final(self).wf(),
            final(self)@ == old(self)@.remove(name@),
            match r {
                Some(t) => old(self)@.contains_key(name@) && t == old(self)@[name@],
                None => !old(self)@.contains_key(name@),
            },
    {
        let ghost before = self.entries@;
        proof {
            kept_holds(before, name@);
        }
        match self.find(name) {
            Some(i) => {
                let (_, t) = self.entries.remove(i);
                proof {
                    let after = self.entries@;
                    assert forall|x: int, y: int| 0 <= x < y < after.len() implies (
                    #[trigger] after[x]).0@ != (#[trigger] after[y]).0@ by {
                        let ox = if x < i {
                            x
                        } else {
                            x + 1
                        };
                        let oy = if y < i {
                            y
                        } else {
                            y + 1
                        };
                        assert(after[x] == before[ox] && after[y] == before[oy]);
                    }
                    let got = kept(after);
                    let want = kept(before).remove(name@);
                    assert forall|k: Seq<char>|
                        #![trigger got.dom().contains(k)]
                        #![trigger want.dom().contains(k)]
                        #![trigger got[k]]
                        #![trigger want[k]]
                        got.dom().contains(k) == want.dom().contains(k) && (got.dom().contains(k)
                            ==> got[k] == want[k]) by {
                        kept_holds(after, k);
                        kept_holds(before, k);
                        if exists|j: int| 0 <= j < after.len() && (#[trigger] after[j]).0@ == k {
                            let j = choose|j: int|
                                0 <= j < after.len() && (#[trigger] after[j]).0@ == k;
                            let oj = if j < i {
                                j
                            } else {
                                j + 1
                            };
                            assert(after[j] == before[oj]);
                            assert(before[i as int].0@ == name@);
                            if oj < i {
                                assert(before[oj].0@ != before[i as int].0@);
                            } else {
                                assert(before[i as int].0@ != before[oj].0@);
                            }
                        } else if k != name@ && exists|j: int|
                            0 <= j < before.len() && (#[trigger] before[j]).0@ == k {
                            let j = choose|j: int|
                                0 <= j < before.len() && (#[trigger] before[j]).0@ == k;
                            let nj = if j < i {
                                j
                            } else {
                                j - 1
                            };
                            assert(after[nj].0@ == k);
                            assert(false);
                        }
                    }
                    assert(got =~= want);
                }
                Some(t)
            },
            None => {
                assert(kept(before) =~= kept(before).remove(name@));
                None
            },
        }
    }
}

} // verus!
