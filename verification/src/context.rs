//! Bookkeeping for the names a graphics context has handed out: which raw
//! values are live, and which value comes next. Allocation never repeats a
//! live name and never hands out zero; release retires a name exactly once.

use vstd::prelude::*;
use crate::name::Name;

verus! {

/// The allocation state of one external context.
pub struct Context {
    next: u32,
    live: Vec<u32>,
}

impl Context {
    /// The value the next successful allocation will hand out.
    pub closed spec fn spec_next(&self) -> u32 {
        self.next
    }

    /// The names currently live, in allocation order.
    pub closed spec fn spec_live(&self) -> Seq<u32> {
        self.live@
    }

    /// Every live name is strictly positive, below the allocation cursor,
    /// and distinct from every other live name.
    pub open spec fn wf(&self) -> bool {
        &&& 1 <= self.spec_next()
        &&& forall|i: int|
            0 <= i < self.spec_live().len() ==> 0 < #[trigger] self.spec_live()[i]
                < self.spec_next()
        &&& forall|i: int, j: int|
            0 <= i < j < self.spec_live().len() ==> self.spec_live()[i] != self.spec_live()[j]
    }

    /// A fresh context: nothing live, names starting at one.
    pub fn new() -> (r: Context)
        ensures
            r.wf(),
            r.spec_next() == 1,
            r.spec_live() == Seq::<u32>::empty(),
    {
        Context { next: 1, live: Vec::new() }
    }

    /// Allocates the next name. `None` only when the name space is spent;
    /// otherwise the name is non-zero, fresh, and exceeds every live name,
    /// so successive allocations strictly increase.
    pub fn allocate(&mut self) -> (r: Option<Name>)
        requires
            old(self).wf(),
        ensures
            final(self).wf(),
            r is Some <==> old(self).spec_next() < u32::MAX,
            r matches Some(n) ==> {
                &&& n@ == old(self).spec_next()
                &&& n@ != 0
                &&& final(self).spec_next() == old(self).spec_next() + 1
                &&& final(self).spec_live() == old(self).spec_live().push(n@)
                &&& !old(self).spec_live().contains(n@)
                &&& forall|h: u32| old(self).spec_live().contains(h) ==> h < n@
            },
            r is None ==> *final(self) == *old(self),
    {
        if self.next < u32::MAX {
            let raw = self.next;
            let name = Name::new(raw);
            match name {
                Some(n) => {
                    self.live.push(raw);
                    self.next = self.next + 1;
                    proof {
                        let new_live = self.spec_live();
                        let old_live = old(self).spec_live();
                        assert(new_live == old_live.push(raw));
                        assert(!old_live.contains(raw)) by {
                            if old_live.contains(raw) {
                                let i = old_live.index_of(raw);
                                assert(old_live[i] < raw);
                            }
                        }
                        assert(forall|h: u32| old_live.contains(h) ==> h < raw) by {
                            assert forall|h: u32| old_live.contains(h) implies h < raw by {
                                let i = old_live.index_of(h);
                                assert(old_live[i] < raw);
                            }
                        }
                    }
                    Some(n)
                },
                None => {
                    proof {
                        assert(false);
                    }
                    None
                },
            }
        } else {
            None
        }
    }

    /// Whether `name` is currently live.
    pub fn is_live(&self, name: u32) -> (r: bool)
        ensures
            r == self.spec_live().contains(name),
    {
        let mut i: usize = 0;
        while i < self.live.len()
            invariant
                i <= self.live.len(),
                forall|k: int| 0 <= k < i ==> self.spec_live()[k] != name,
            decreases self.live.len() - i,
        {
            if self.live[i] == name {
                return true;
            }
            i = i + 1;
        }
        false
    }

    /// Retires a live name. The caller pairs this with the matching
    /// external destroy call; a name can be retired only once, because it
    /// is no longer live afterwards.
    #[verifier::loop_isolation(false)]
    pub fn release(&mut self, name: u32)
        requires
            old(self).wf(),
            old(self).spec_live().contains(name),
        ensures
            final(self).wf(),
            final(self).spec_next() == old(self).spec_next(),
            final(self).spec_live().len() == old(self).spec_live().len() - 1,
            forall|h: u32|
                #[trigger] final(self).spec_live().contains(h) <==> old(self).spec_live().contains(
                    h,
                ) && h != name,
    {
        let mut i: usize = 0;
        while i < self.live.len()
            invariant
                self.live@ == old(self).spec_live(),
                self.next == old(self).spec_next(),
                i <= self.live.len(),
                forall|k: int| 0 <= k < i ==> old(self).spec_live()[k] != name,
            decreases self.live.len() - i,
        {
            if self.live[i] == name {
                self.live.swap_remove(i);
                proof {
                    let s = old(self).spec_live();
                    let t = self.spec_live();
                    lemma_distinct_swap_remove(s, i as int, name, t);
                    assert forall|k: int|
                        0 <= k < t.len() implies 0 < #[trigger] t[k] < self.spec_next() by {
                        let m = choose|m: int| 0 <= m < s.len() && s[m] == t[k];
                        assert(0 < s[m] < old(self).spec_next());
                    }
                }
                return ;
            }
            i = i + 1;
        }
        proof {
            let j = old(self).spec_live().index_of(name);
            assert(old(self).spec_live()[j] == name);
            assert(false);
        }
    }
}

/// After removing position `i` (which holds `v`) from a sequence of
/// distinct values by swapping in the last element, membership loses
/// exactly `v`, distinctness is kept, and every bound that held of all
/// elements still holds.
proof fn lemma_distinct_swap_remove(s: Seq<u32>, i: int, v: u32, t: Seq<u32>)
    requires
        0 <= i < s.len(),
        s[i] == v,
        forall|p: int, q: int| 0 <= p < q < s.len() ==> s[p] != s[q],
        t == s.update(i, s[s.len() - 1]).drop_last(),
    ensures
        t.len() == s.len() - 1,
        forall|h: u32| #[trigger] t.contains(h) <==> s.contains(h) && h != v,
        forall|p: int, q: int| 0 <= p < q < t.len() ==> t[p] != t[q],
        forall|k: int| 0 <= k < t.len() ==> exists|m: int| 0 <= m < s.len() && s[m] == #[trigger] t[k],
{
    let u = s.update(i, s[s.len() - 1]);
    assert forall|k: int| 0 <= k < t.len() implies exists|m: int|
        0 <= m < s.len() && s[m] == #[trigger] t[k] by {
        if k == i {
            assert(s[s.len() - 1] == t[k]);
        } else {
            assert(s[k] == t[k]);
        }
    }
    assert forall|h: u32| #[trigger] t.contains(h) implies s.contains(h) && h != v by {
        let k = t.index_of(h);
        if k == i {
            assert(s[s.len() - 1] == h);
            if i < s.len() - 1 {
                assert(s[i] != s[s.len() - 1]);
            }
        } else {
            assert(s[k] == h);
            assert(s[i] == v);
            if h == v {
                assert(k < s.len() - 1);
                assert(s[k] != s[i]);
            }
        }
    }
    assert forall|h: u32| s.contains(h) && h != v implies #[trigger] t.contains(h) by {
        let m = s.index_of(h);
        assert(m != i);
        if m == s.len() - 1 {
            if i < s.len() - 1 {
                assert(t[i] == h);
                assert(t.contains(h));
            }
        } else {
            assert(t[m] == h);
            assert(t.contains(h));
        }
    }
    assert forall|p: int, q: int| 0 <= p < q < t.len() implies t[p] != t[q] by {
        if p == i {
            assert(t[p] == s[s.len() - 1]);
            assert(t[q] == s[q]);
        } else if q == i {
            assert(t[q] == s[s.len() - 1]);
            assert(t[p] == s[p]);
        } else {
            assert(t[p] == s[p]);
            assert(t[q] == s[q]);
        }
    }
}

} // verus!
