use vstd::prelude::*;

verus! {

broadcast use vstd::seq_lib::group_seq_properties;

/// A set of code addresses at which execution stops.
#[derive(Default)]
pub struct Breakpoints {
    breakpoints: Vec<usize>,
}

/// The addresses in `s` ascend strictly.
pub open spec fn ascending(s: Seq<usize>) -> bool {
    forall|i: int, j: int| 0 <= i < j < s.len() ==> s[i] < s[j]
}

impl View for Breakpoints {
    type V = Set<usize>;

    closed spec fn view(&self) -> Set<usize> {
        self.breakpoints@.to_set()
    }
}

impl Breakpoints {
    /// No address is held twice.
    pub closed spec fn wf(&self) -> bool {
        self.breakpoints@.no_duplicates()
    }

    pub fn new() -> (r: Self)
        ensures
            r.wf(),
            r@ == Set::<usize>::empty(),
    {
        let r = Breakpoints { breakpoints: Vec::new() };
        proof {
            assert(r.breakpoints@.to_set() =~= Set::<usize>::empty());
        }
        r
    }

    /// The position of `bp` among the stored addresses, if it is there.
    fn position(&self, bp: usize) -> (r: Option<usize>)
        ensures
            match r {
                Some(i) => i < self.breakpoints@.len() && self.breakpoints@[i as int] == bp,
                None => !self.breakpoints@.contains(bp),
            },
    {
        let mut i: usize = 0;
        while i < self.breakpoints.len()
            invariant
                i <= self.breakpoints@.len(),
                forall|j: int| 0 <= j < i ==> self.breakpoints@[j] != bp,
            decreases self.breakpoints@.len() - i,
        {
            if self.breakpoints[i] == bp {
                return Some(i);
            }
            i = i + 1;
        }
        None
    }

    /// Adds a breakpoint; `Some(bp)` if it was new, `None` if it was set already.
    pub fn add(&mut self, bp: usize) -> (r: Option<usize>)
        requires
            old(self).wf(),
        ensures
            final(self).wf(),
            final(self)@ == old(self)@.insert(bp),
            r == if old(self)@.contains(bp) { None } else { Some(bp) },
    {
        match self.position(bp) {
            None => {
                self.breakpoints.push(bp);
                proof {
                    assert(final(self).breakpoints@.to_set() =~= old(self).breakpoints@.to_set().insert(bp));
                }
                Some(bp)
            },
            Some(_) => {
                proof {
                    assert(old(self).breakpoints@.to_set().insert(bp) =~= old(self).breakpoints@.to_set());
                }
                None
            },
        }
    }

    /// Removes a breakpoint; `Some(bp)` if it was set, `None` if not.
    pub fn remove(&mut self, bp: usize) -> (r: Option<usize>)
        requires
            old(self).wf(),
        ensures
            final(self).wf(),
            final(self)@ == old(self)@.remove(bp),
            r == if old(self)@.contains(bp) { Some(bp) } else { None },
    {
        match self.position(bp) {
            Some(pos) => {
                let ghost before = self.breakpoints@;
                self.breakpoints.remove(pos);
                proof {
                    let after = self.breakpoints@;
                    assert(after =~= before.remove(pos as int));
                    assert forall|x: usize| after.contains(x) <==> before.contains(x) && x != bp by {
                        if after.contains(x) {
                            let j = choose|j: int| 0 <= j < after.len() && after[j] == x;
                            if j < pos {
                                assert(before[j] == x);
                            } else {
                                assert(before[j + 1] == x);
                            }
                        }
                        if before.contains(x) && x != bp {
                            let j = choose|j: int| 0 <= j < before.len() && before[j] == x;
                            if j < pos {
                                assert(after[j] == x);
                            } else {
                                assert(j != pos);
                                assert(after[j - 1] == x);
                            }
                        }
                    }
                    assert(after.to_set() =~= before.to_set().remove(bp));
                    assert(after.no_duplicates()) by {
                        assert forall|i: int, j: int| 0 <= i < after.len() && 0 <= j < after.len() && i != j
                            implies after[i] != after[j] by {
                            let bi = if i < pos { i } else { i + 1 };
                            let bj = if j < pos { j } else { j + 1 };
                            assert(before[bi] == after[i] && before[bj] == after[j]);
                        }
                    }
                }
                Some(bp)
            },
            None => {
                proof {
                    assert(old(self).breakpoints@.to_set().remove(bp) =~= old(self).breakpoints@.to_set());
                }
                None
            },
        }
    }

    /// The breakpoints in ascending order.
    pub fn get(&self) -> (r: Vec<usize>)
        requires
            self.wf(),
        ensures
            ascending(r@),
            r@.to_set() == self@,
            r@.len() == self@.len(),
    {
        let mut sorted: Vec<usize> = Vec::new();
        let mut i: usize = 0;
        while i < self.breakpoints.len()
            invariant
                i <= self.breakpoints@.len(),
                self.breakpoints@.no_duplicates(),
                ascending(sorted@),
                sorted@.to_set() == self.breakpoints@.subrange(0, i as int).to_set(),
                sorted@.len() == i,
            decreases self.breakpoints@.len() - i,
        {
            let x = self.breakpoints[i];
            // the first position holding a larger address
            let mut p: usize = 0;
            while p < sorted.len() && sorted[p] < x
                invariant
                    p <= sorted@.len(),
                    forall|j: int| 0 <= j < p ==> sorted@[j] < x,
                decreases sorted@.len() - p,
            {
                p = p + 1;
            }
            proof {
                assert(!self.breakpoints@.subrange(0, i as int).contains(x)) by {
                    if self.breakpoints@.subrange(0, i as int).contains(x) {
                        let j = choose|j: int| 0 <= j < i && self.breakpoints@.subrange(0, i as int)[j] == x;
                        assert(self.breakpoints@[j] == self.breakpoints@[i as int]);
                    }
                }
                assert(!sorted@.to_set().contains(x));
                assert(!sorted@.contains(x));
            }
            let ghost old_sorted = sorted@;
            sorted.insert(p, x);
            proof {
                assert(sorted@ =~= old_sorted.insert(p as int, x));
                assert forall|a: int, b: int| 0 <= a < b < sorted@.len() implies sorted@[a] < sorted@[b] by {
                    if p < old_sorted.len() {
                        assert(old_sorted[p as int] != x);
                        assert(old_sorted[p as int] > x);
                    }
                }
                assert(self.breakpoints@.subrange(0, i + 1) =~= self.breakpoints@.subrange(0, i as int).push(x));
                assert(self.breakpoints@.subrange(0, i + 1).to_set() =~= self.breakpoints@.subrange(0, i as int).to_set().insert(x));
                assert(sorted@.to_set() =~= old_sorted.to_set().insert(x)) by {
                    assert forall|y: usize| sorted@.contains(y) <==> old_sorted.contains(y) || y == x by {
                        if sorted@.contains(y) {
                            let j = choose|j: int| 0 <= j < sorted@.len() && sorted@[j] == y;
                            if j < p {
                                assert(old_sorted[j] == y);
                            } else if j > p {
                                assert(old_sorted[j - 1] == y);
                            }
                        }
                        if old_sorted.contains(y) {
                            let j = choose|j: int| 0 <= j < old_sorted.len() && old_sorted[j] == y;
                            if j < p {
                                assert(sorted@[j] == y);
                            } else {
                                assert(sorted@[j + 1] == y);
                            }
                        }
                        if y == x {
                            assert(sorted@[p as int] == x);
                        }
                    }
                }
            }
            i = i + 1;
        }
        proof {
            assert(self.breakpoints@.subrange(0, self.breakpoints@.len() as int) =~= self.breakpoints@);
            self.breakpoints@.unique_seq_to_set();
        }
        sorted
    }

    /// Removes every breakpoint.
    pub fn clear(&mut self)
        ensures
            final(self).wf(),
            final(self)@ == Set::<usize>::empty(),
    {
        self.breakpoints.clear();
        proof {
            assert(final(self).breakpoints@.to_set() =~= Set::<usize>::empty());
        }
    }

    /// Whether `offset` is a breakpoint.
    pub fn hit(&self, offset: usize) -> (r: bool)
        ensures
            r == self@.contains(offset),
    {
        self.position(offset).is_some()
    }
}

/// Setting a breakpoint makes it hit, removing it makes it miss, and removing
/// one that was added where none was before leaves the set as it was.
pub proof fn lemma_add_remove(s: Set<usize>, bp: usize)
    ensures
        s.insert(bp).contains(bp),
        !s.remove(bp).contains(bp),
        !s.contains(bp) ==> s.insert(bp).remove(bp) == s,
        s.contains(bp) ==> s.remove(bp).insert(bp) == s,
{
    assert(!s.contains(bp) ==> s.insert(bp).remove(bp) =~= s);
    assert(s.contains(bp) ==> s.remove(bp).insert(bp) =~= s);
}

} // verus!
