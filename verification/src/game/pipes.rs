use vstd::prelude::*;

verus! {

/// A fixed number of pipes kept in a ring: the slot after the newest pipe
/// holds the oldest one, and recycling the oldest pipe replaces it by a new
/// pipe that becomes the newest.
pub struct Pipes<T> {
    pipes: Vec<T>,
    smaller_pipe: usize,
}

impl<T> Pipes<T> {
    /// The ring holds at least one pipe and the oldest slot is one of its slots.
    #[verifier::type_invariant]
    closed spec fn well_formed(self) -> bool {
        &&& self.pipes@.len() > 0
        &&& self.smaller_pipe < self.pipes@.len()
    }

    /// The pipes from the oldest to the newest.
    pub closed spec fn spec_queue(self) -> Seq<T> {
        Seq::new(
            self.pipes@.len(),
            |i: int| self.pipes@[(self.smaller_pipe + i) % (self.pipes@.len() as int)],
        )
    }

    /// The slots, in storage order.
    pub closed spec fn spec_slots(self) -> Seq<T> {
        self.pipes@
    }

    /// The slot of the oldest pipe.
    pub closed spec fn spec_oldest_slot(self) -> int {
        self.smaller_pipe as int
    }

    /// Makes a ring whose oldest pipe is the first of `pipes`.
    pub fn new(pipes: Vec<T>) -> (r: Pipes<T>)
        requires
            pipes@.len() > 0,
        ensures
            r.spec_slots() == pipes@,
            r.spec_oldest_slot() == 0,
            r.spec_queue() == pipes@,
    {
        let r = Pipes { pipes, smaller_pipe: 0 };
        assert(r.spec_queue() =~= pipes@) by {
            assert forall|i: int| 0 <= i < pipes@.len() implies #[trigger] r.spec_queue()[i] == pipes@[i] by {
                assert((0 + i) % (pipes@.len() as int) == i) by (nonlinear_arith)
                    requires
                        0 <= i < pipes@.len(),
                ;
            }
        }
        r
    }

    /// All pipes, in storage order.
    pub fn get_pipes(&self) -> (r: &Vec<T>)
        ensures
            r@ == self.spec_slots(),
            r@.len() > 0,
            0 <= self.spec_oldest_slot() < r@.len(),
    {
        proof {
            use_type_invariant(self);
        }
        &self.pipes
    }

    /// The oldest pipe.
    pub fn oldest(&self) -> (r: &T)
        ensures
            *r == self.spec_slots()[self.spec_oldest_slot()],
            self.spec_queue().len() > 0,
            *r == self.spec_queue()[0],
    {
        proof {
            use_type_invariant(self);
            assert((self.smaller_pipe + 0) % (self.pipes@.len() as int) == self.smaller_pipe) by (nonlinear_arith)
                requires
                    self.smaller_pipe < self.pipes@.len(),
            ;
        }
        &self.pipes[self.smaller_pipe]
    }

    /// The pipe in the slot before the oldest one, that is the newest pipe:
    /// the slot before the first one is the last one.
    pub fn previous(&self) -> (r: &T)
        ensures
            self.spec_queue().len() > 0,
            *r == self.spec_queue().last(),
            *r == self.spec_slots()[if self.spec_oldest_slot() == 0 {
                self.spec_slots().len() - 1
            } else {
                self.spec_oldest_slot() - 1
            }],
    {
        proof {
            use_type_invariant(self);
        }
        let idx = if self.smaller_pipe == 0 {
            self.pipes.len() - 1
        } else {
            self.smaller_pipe - 1
        };
        proof {
            self.lemma_previous_is_newest();
        }
        &self.pipes[idx]
    }

    /// Replaces the oldest pipe by `pipe`, which becomes the newest.
    pub fn recycle(&mut self, pipe: T)
        ensures
            final(self).spec_slots() == old(self).spec_slots().update(old(self).spec_oldest_slot(), pipe),
            final(self).spec_oldest_slot() == (old(self).spec_oldest_slot() + 1) % (old(self).spec_slots().len() as int),
            final(self).spec_queue() == old(self).spec_queue().drop_first().push(pipe),
    {
        proof {
            use_type_invariant(&*self);
        }
        let ghost old_queue = self.spec_queue();
        let ghost n = self.pipes@.len() as int;
        let ghost s = self.smaller_pipe as int;
        let len = self.pipes.len();
        let smaller = self.smaller_pipe;
        let ghost old_slots = self.pipes@;
        self.pipes[smaller] = pipe;
        self.smaller_pipe = (smaller + 1) % len;
        proof {
            let q = self.spec_queue();
            let want = old_queue.drop_first().push(pipe);
            assert forall|i: int| 0 <= i < n implies #[trigger] q[i] == want[i] by {
                lemma_ring_step(s, n, i);
                if i < n - 1 {
                    assert(want[i] == old_queue[i + 1]);
                    assert(old_queue[i + 1] == old_slots[(s + (i + 1)) % n]);
                    assert((s + (i + 1)) % n != s);
                } else {
                    assert(want[i] == pipe);
                }
            }
            assert(q =~= want);
        }
    }
}

impl<T> Pipes<T> {
    /// In every ring the slot before the oldest one holds the newest pipe, so
    /// a new pipe is always placed after the newest.
    pub proof fn lemma_previous_is_newest(self)
        requires
            self.spec_slots().len() > 0,
            0 <= self.spec_oldest_slot() < self.spec_slots().len(),
        ensures
            self.spec_queue().len() > 0,
            self.spec_queue().last() == self.spec_slots()[if self.spec_oldest_slot() == 0 {
                self.spec_slots().len() - 1
            } else {
                self.spec_oldest_slot() - 1
            }],
    {
        let n = self.pipes@.len() as int;
        let s = self.smaller_pipe as int;
        assert(self.spec_queue().last() == self.pipes@[(s + (n - 1)) % n]);
        if s > 0 {
            assert((s + (n - 1)) % n == s - 1) by (nonlinear_arith)
                requires
                    0 < s < n,
            ;
        } else {
            assert((0 + (n - 1)) % n == n - 1) by (nonlinear_arith)
                requires
                    n > 0,
            ;
        }
    }
}

proof fn lemma_ring_step(s: int, n: int, i: int)
    requires
        0 <= s < n,
        0 <= i < n,
    ensures
        ((s + 1) % n + i) % n == (s + (i + 1)) % n,
        i < n - 1 ==> (s + (i + 1)) % n != s,
        i == n - 1 ==> (s + (i + 1)) % n == s,
{
    if s + 1 < n {
        assert((s + 1) % n == s + 1) by (nonlinear_arith)
            requires
                0 <= s + 1 < n,
        ;
    } else {
        assert((s + 1) % n == 0) by (nonlinear_arith)
            requires
                s + 1 == n,
                n > 0,
        ;
        assert((s + (i + 1)) % n == i % n) by (nonlinear_arith)
            requires
                s + 1 == n,
                n > 0,
                0 <= i,
        ;
    }
    assert(i < n - 1 ==> (s + (i + 1)) % n != s) by (nonlinear_arith)
        requires
            0 <= s < n,
            0 <= i < n,
    ;
    assert(i == n - 1 ==> (s + (i + 1)) % n == s) by (nonlinear_arith)
        requires
            0 <= s < n,
            0 <= i < n,
    ;
}

} // verus!
