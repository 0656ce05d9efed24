//! The table of transient datasets: lazy computation graphs held by name.
//! No name occurs twice.

use crate::text::{text_eq, texts_of};
use polars::prelude::LazyFrame;
use vstd::prelude::*;

verus! {

/// Lazy computation graphs by name.
pub struct TransientTable {
    entries: Vec<(String, LazyFrame)>,
}

/// Whether the entry at position `i` goes by the name `name`.
pub open spec fn named_at(entries: Seq<(String, LazyFrame)>, name: Seq<char>, i: int) -> bool {
    0 <= i < entries.len() && entries[i].0@ == name
}

/// Whether no two entries go by the same name.
pub open spec fn no_name_twice(entries: Seq<(String, LazyFrame)>) -> bool {
    forall|i: int, j: int|
        0 <= i < j < entries.len() ==> #[trigger] entries[i].0@ != #[trigger] entries[j].0@
}

/// The graphs of `entries` by their names.
pub open spec fn graphs_of(entries: Seq<(String, LazyFrame)>) -> Map<Seq<char>, LazyFrame> {
    Map::new(
        |n: Seq<char>| exists|i: int| named_at(entries, n, i),
        |n: Seq<char>| entries[choose|i: int| named_at(entries, n, i)].1,
    )
}

/// Where no name occurs twice, the graph by a name is the graph of the
/// entry that goes by this name.
pub proof fn lemma_graph_at(entries: Seq<(String, LazyFrame)>, name: Seq<char>, i: int)
    requires
        no_name_twice(entries),
        named_at(entries, name, i),
    ensures
        graphs_of(entries).contains_key(name),
        graphs_of(entries)[name] == entries[i].1,
{
    let k = choose|k: int| named_at(entries, name, k);
    if k < i {
        assert(entries[k].0@ != entries[i].0@);
    } else if i < k {
        assert(entries[i].0@ != entries[k].0@);
    }
}

impl TransientTable {
    #[verifier::type_invariant]
    spec fn well_formed(self) -> bool {
        no_name_twice(self.entries@)
    }

    /// The graphs of the table by their names.
    pub closed spec fn graphs(&self) -> Map<Seq<char>, LazyFrame> {
        graphs_of(self.entries@)
    }

    /// The table without any entry.
    pub fn new() -> (r: TransientTable)
        ensures
            r.graphs() == Map::<Seq<char>, LazyFrame>::empty(),
    {
        let r = TransientTable { entries: Vec::new() };
        assert(r.graphs() =~= Map::<Seq<char>, LazyFrame>::empty());
        r
    }

    fn position(&self, name: &str) -> (r: Option<usize>)
        ensures
            match r {
                Some(i) => named_at(self.entries@, name@, i as int),
                None => !self.graphs().contains_key(name@),
            },
    {
        let mut i: usize = 0;
        while i < self.entries.len()
            invariant
                i <= self.entries.len(),
                forall|j: int| 0 <= j < i ==> !named_at(self.entries@, name@, j),
            decreases self.entries.len() - i,
        {
            if text_eq(self.entries[i].0.as_str(), name) {
                return Some(i);
            }
            i += 1;
        }
        None
    }

    /// Whether the table holds a graph under `name`.
    pub fn contains(&self, name: &str) -> (r: bool)
        ensures
            r == self.graphs().contains_key(name@),
    {
        proof {
            use_type_invariant(self);
        }
        match self.position(name) {
            Some(i) => {
                proof {
                    lemma_graph_at(self.entries@, name@, i as int);
                }
                true
            },
            None => false,
        }
    }

    /// The graph held under `name`, if there is one.
    pub fn get(&self, name: &str) -> (r: Option<&LazyFrame>)
        ensures
            match r {
                Some(graph) => self.graphs().contains_key(name@) && *graph == self.graphs()[name@],
                None => !self.graphs().contains_key(name@),
            },
    {
        proof {
            use_type_invariant(self);
        }
        match self.position(name) {
            Some(i) => {
                proof {
                    lemma_graph_at(self.entries@, name@, i as int);
                }
                Some(&self.entries[i].1)
            },
            None => None,
        }
    }

    /// Holds `frame` under `name` from now on, in place of what was held
    /// under that name. What is held under other names stays.
    pub fn insert(&mut self, name: String, frame: LazyFrame)
        ensures
            final(self).graphs() == old(self).graphs().insert(name@, frame),
    {
        proof {
            use_type_invariant(&*self);
        }
        let found = self.position(name.as_str());
        let ghost before = self.entries@;
        let mut entries: Vec<(String, LazyFrame)> = Vec::new();
        core::mem::swap(&mut self.entries, &mut entries);
        let ghost at: int;
        match found {
            Some(i) => {
                entries.set(i, (name, frame));
                proof {
                    at = i as int;
                }
            },
            None => {
                entries.push((name, frame));
                proof {
                    at = before.len() as int;
                    assert forall|j: int| 0 <= j < before.len() implies before[j].0@ != name@ by {
                        if before[j].0@ == name@ {
                            assert(named_at(before, name@, j));
                        }
                    }
                }
            },
        }
        proof {
            let after = entries@;
            assert forall|a: int, b: int| 0 <= a < b < after.len() implies #[trigger] after[a].0@
                != #[trigger] after[b].0@ by {
                if a != at && b != at {
                    assert(after[a] == before[a] && after[b] == before[b]);
                } else if a == at {
                    assert(after[b] == before[b]);
                } else {
                    assert(after[a] == before[a]);
                }
            }
            let wanted = graphs_of(before).insert(name@, frame);
            assert forall|n: Seq<char>| graphs_of(after).contains_key(n) == wanted.contains_key(
                n,
            ) by {
                if graphs_of(after).contains_key(n) && n != name@ {
                    let k = choose|k: int| named_at(after, n, k);
                    assert(named_at(before, n, k));
                }
                if wanted.contains_key(n) {
                    if n == name@ {
                        assert(named_at(after, n, at));
                    } else {
                        let k = choose|k: int| named_at(before, n, k);
                        assert(named_at(after, n, k));
                    }
                }
            }
            assert forall|n: Seq<char>| wanted.contains_key(n) implies graphs_of(after)[n]
                == wanted[n] by {
                if n == name@ {
                    lemma_graph_at(after, n, at);
                } else {
                    let k = choose|k: int| named_at(before, n, k);
                    lemma_graph_at(before, n, k);
                    assert(named_at(after, n, k));
                    lemma_graph_at(after, n, k);
                }
            }
            assert(graphs_of(after) =~= wanted);
        }
        core::mem::swap(&mut self.entries, &mut entries);
    }

    /// Lets go of what is held under `name`. Says whether there was
    /// anything. What is held under other names stays.
    pub fn remove(&mut self, name: &str) -> (r: bool)
        ensures
            r == old(self).graphs().contains_key(name@),
            final(self).graphs() == old(self).graphs().remove(name@),
    {
        proof {
            use_type_invariant(&*self);
        }
        let found = self.position(name);
        let ghost before = self.entries@;
        match found {
            Some(i) => {
                let mut entries: Vec<(String, LazyFrame)> = Vec::new();
                core::mem::swap(&mut self.entries, &mut entries);
                entries.remove(i);
                proof {
                    let after = entries@;
                    lemma_graph_at(before, name@, i as int);
                    assert forall|a: int| 0 <= a < after.len() implies #[trigger] after[a]
                        == before[if a < i {
                        a
                    } else {
                        a + 1
                    }] by {}
                    assert forall|a: int, b: int| 0 <= a < b < after.len() implies #[trigger] after[a].0@
                        != #[trigger] after[b].0@ by {
                        let a0 = if a < i {
                            a
                        } else {
                            a + 1
                        };
                        let b0 = if b < i {
                            b
                        } else {
                            b + 1
                        };
                        assert(after[a] == before[a0] && after[b] == before[b0]);
                    }
                    let wanted = graphs_of(before).remove(name@);
                    assert forall|n: Seq<char>| graphs_of(after).contains_key(n)
                        == wanted.contains_key(n) by {
                        if graphs_of(after).contains_key(n) {
                            let k = choose|k: int| named_at(after, n, k);
                            let k0 = if k < i {
                                k
                            } else {
                                k + 1
                            };
                            assert(after[k] == before[k0]);
                            assert(named_at(before, n, k0));
                            if n == name@ {
                                if k0 < i {
                                    assert(before[k0].0@ != before[i as int].0@);
                                } else {
                                    assert(before[i as int].0@ != before[k0].0@);
                                }
                            }
                        }
                        if wanted.contains_key(n) {
                            let k = choose|k: int| named_at(before, n, k);
                            let k1 = if k < i {
                                k
                            } else {
                                k - 1
                            };
                            assert(after[k1] == before[k]);
                            assert(named_at(after, n, k1));
                        }
                    }
                    assert forall|n: Seq<char>| wanted.contains_key(n) implies graphs_of(after)[n]
                        == wanted[n] by {
                        let k = choose|k: int| named_at(before, n, k);
                        let k1 = if k < i {
                            k
                        } else {
                            k - 1
                        };
                        assert(after[k1] == before[k]);
                        assert(named_at(after, n, k1));
                        lemma_graph_at(before, n, k);
                        lemma_graph_at(after, n, k1);
                    }
                    assert(graphs_of(after) =~= wanted);
                }
                core::mem::swap(&mut self.entries, &mut entries);
                true
            },
            None => {
                assert(graphs_of(before).remove(name@) =~= graphs_of(before));
                false
            },
        }
    }

    /// Lets go of every entry.
    pub fn clear(&mut self)
        ensures
            final(self).graphs() == Map::<Seq<char>, LazyFrame>::empty(),
    {
        let mut entries: Vec<(String, LazyFrame)> = Vec::new();
        core::mem::swap(&mut self.entries, &mut entries);
        assert(graphs_of(self.entries@) =~= Map::<Seq<char>, LazyFrame>::empty());
    }

    /// The names of the table, each once, in no particular order.
    pub fn name_list(&self) -> (r: Vec<String>)
        ensures
            texts_of(r@).to_set() == self.graphs().dom(),
    {
        let mut out: Vec<String> = Vec::new();
        let mut i: usize = 0;
        while i < self.entries.len()
            invariant
                i <= self.entries.len(),
                out.len() == i,
                forall|j: int| 0 <= j < i ==> #[trigger] texts_of(out@)[j] == self.entries[j].0@,
            decreases self.entries.len() - i,
        {
            let ghost prev = out@;
            let name = self.entries[i].0.clone();
            assert(name@ == self.entries[i as int].0@);
            out.push(name);
            assert forall|j: int| 0 <= j < i + 1 implies #[trigger] texts_of(out@)[j]
                == self.entries[j].0@ by {
                if j < i {
                    assert(texts_of(prev)[j] == self.entries[j].0@);
                    assert(out@[j] == prev[j]);
                }
            }
            i += 1;
        }
        assert forall|n: Seq<char>| texts_of(out@).to_set().contains(n)
            == self.graphs().dom().contains(n) by {
            if texts_of(out@).to_set().contains(n) {
                let k = choose|k: int| 0 <= k < out.len() && texts_of(out@)[k] == n;
                assert(named_at(self.entries@, n, k));
            }
            if self.graphs().dom().contains(n) {
                let k = choose|k: int| named_at(self.entries@, n, k);
                assert(texts_of(out@)[k] == n);
            }
        }
        assert(texts_of(out@).to_set() =~= self.graphs().dom());
        out
    }
}

} // verus!
