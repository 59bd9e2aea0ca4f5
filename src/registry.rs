use vstd::prelude::*;

verus! {

/// The handle value that the subsystem hands out when an operation could not start.
pub const INVALID_RESULT: i64 = -1;

/// What one `release` of `handle` does: `before` is the pending set it found,
/// `after` the set it leaves, `destroy` whether the subsystem's destroy call is issued.
pub open spec fn releases(before: Set<i64>, handle: i64, destroy: bool, after: Set<i64>) -> bool {
    &&& destroy == before.contains(handle)
    &&& after == before.remove(handle)
}

/// What a teardown that found `pending` does: `destroyed` lists each pending
/// handle exactly once, and nothing else.
pub open spec fn tears_down(pending: Set<i64>, destroyed: Seq<i64>) -> bool {
    &&& destroyed.no_duplicates()
    &&& destroyed.to_set() == pending
}

/// The set of result handles obtained from the subsystem and not yet released.
pub struct HandleRegistry {
    handles: Vec<i64>,
}

impl View for HandleRegistry {
    type V = Set<i64>;

    closed spec fn view(&self) -> Set<i64> {
        self.handles@.to_set()
    }
}

impl HandleRegistry {
    /// Each handle is held once, and the invalid handle never.
    pub closed spec fn wf(&self) -> bool {
        &&& self.handles@.no_duplicates()
        &&& !self.handles@.contains(INVALID_RESULT)
    }

    pub fn new() -> (r: HandleRegistry)
        ensures
            r.wf(),
            r@ == Set::<i64>::empty(),
    {
        let r = HandleRegistry { handles: Vec::new() };
        assert(r@ =~= Set::<i64>::empty());
        r
    }

    fn position(&self, handle: i64) -> (r: Option<usize>)
        ensures
            match r {
                Some(i) => i < self.handles@.len() && self.handles@[i as int] == handle,
                None => !self.handles@.contains(handle),
            },
    {
        let mut i: usize = 0;
        while i < self.handles.len()
            invariant
                i <= self.handles@.len(),
                forall|j: int| 0 <= j < i ==> self.handles@[j] != handle,
            decreases self.handles@.len() - i,
        {
            if self.handles[i] == handle {
                return Some(i);
            }
            i = i + 1;
        }
        None
    }

    /// Whether `handle` is pending.
    pub fn is_tracked(&self, handle: i64) -> (r: bool)
        ensures
            r == self@.contains(handle),
    {
        self.position(handle).is_some()
    }

    /// Records a just-obtained valid handle as pending.
    pub fn track(&mut self, handle: i64)
        requires
            old(self).wf(),
            handle != INVALID_RESULT,
        ensures
            final(self).wf(),
            final(self)@ == old(self)@.insert(handle),
    {
        if self.position(handle).is_none() {
            self.handles.push(handle);
            assert(self.handles@ =~= old(self).handles@.push(handle));
            assert(self.handles@.to_set() =~= old(self).handles@.to_set().insert(handle)) by {
                old(self).handles@.lemma_push_to_set_commute(handle);
            }
        } else {
            assert(self@ =~= old(self)@.insert(handle));
        }
    }

    /// Releases `handle`: it leaves the pending set, and the result says
    /// whether the subsystem's destroy call is to be issued, which is the
    /// case exactly when the handle was pending.
    pub fn release(&mut self, handle: i64) -> (destroy: bool)
        requires
            old(self).wf(),
        ensures
            final(self).wf(),
            releases(old(self)@, handle, destroy, final(self)@),
    {
        match self.position(handle) {
            Some(i) => {
                let ghost before = self.handles@;
                self.handles.swap_remove(i);
                assert(self@ =~= old(self)@.remove(handle)) by {
                    assert forall|x: i64| self@.contains(x) <==> old(self)@.contains(x) && x != handle by {
                        if old(self)@.contains(x) && x != handle {
                            let k = choose|k: int| 0 <= k < before.len() && before[k] == x;
                            if k == before.len() - 1 {
                                assert(self.handles@[i as int] == x);
                            } else {
                                assert(self.handles@[k] == x);
                            }
                        }
                        if self@.contains(x) {
                            let k = choose|k: int| 0 <= k < self.handles@.len() && self.handles@[k] == x;
                            if k == i {
                                assert(before[before.len() - 1] == x);
                            } else {
                                assert(before[k] == x);
                            }
                        }
                    }
                }
                assert(self.handles@.no_duplicates()) by {
                    assert forall|a: int, b: int|
                        0 <= a < b < self.handles@.len() implies self.handles@[a] != self.handles@[b] by {
                        let pa = if a == i { before.len() - 1 } else { a };
                        let pb = if b == i { before.len() - 1 } else { b };
                        assert(before[pa] == self.handles@[a]);
                        assert(before[pb] == self.handles@[b]);
                    }
                }
                assert(!self.handles@.contains(INVALID_RESULT)) by {
                    if self.handles@.contains(INVALID_RESULT) {
                        let k = choose|k: int| 0 <= k < self.handles@.len() && self.handles@[k] == INVALID_RESULT;
                        let pk = if k == i { before.len() - 1 } else { k };
                        assert(before[pk] == INVALID_RESULT);
                    }
                }
                true
            },
            None => {
                assert(self@ =~= old(self)@.remove(handle));
                false
            },
        }
    }

    /// Empties the pending set and hands back each handle that was pending,
    /// once, for the caller to destroy. A second teardown finds nothing.
    pub fn release_all(&mut self) -> (destroyed: Vec<i64>)
        requires
            old(self).wf(),
        ensures
            final(self).wf(),
            final(self)@ == Set::<i64>::empty(),
            tears_down(old(self)@, destroyed@),
    {
        let destroyed = self.handles.split_off(0);
        assert(destroyed@ =~= old(self).handles@);
        assert(self@ =~= Set::<i64>::empty());
        destroyed
    }
}

/// A pending handle that is never released explicitly is destroyed exactly
/// once by teardown, and a second teardown destroys nothing more.
pub proof fn lemma_teardown_releases_once(
    pending: Set<i64>,
    handle: i64,
    first: Seq<i64>,
    second: Seq<i64>,
)
    requires
        pending.contains(handle),
        tears_down(pending, first),
        tears_down(Set::<i64>::empty(), second),
    ensures
        first.to_multiset().count(handle) == 1,
        second.len() == 0,
        (first + second).to_multiset().count(handle) == 1,
{
    assert(first.contains(handle)) by {
        assert(first.to_set().contains(handle));
    }
    let k = choose|k: int| 0 <= k < first.len() && first[k] == handle;
    lemma_count_distinct(first, k);
    if second.len() > 0 {
        assert(second.to_set().contains(second[0]));
    }
    assert(first + second =~= first);
}

proof fn lemma_count_distinct(s: Seq<i64>, k: int)
    requires
        s.no_duplicates(),
        0 <= k < s.len(),
    ensures
        s.to_multiset().count(s[k]) == 1,
    decreases s.len(),
{
    let x = s[k];
    let last = s.len() - 1;
    let init = s.drop_last();
    s.to_multiset_ensures();
    init.to_multiset_ensures();
    assert(s =~= init.push(s[last]));
    assert(s.to_multiset() =~= init.to_multiset().insert(s[last])) by {
        init.to_multiset_ensures();
    }
    if k == last {
        assert(!init.contains(x)) by {
            if init.contains(x) {
                let j = choose|j: int| 0 <= j < init.len() && init[j] == x;
                assert(s[j] == s[last]);
            }
        }
        assert(init.to_multiset().count(x) == 0);
    } else {
        lemma_count_distinct(init, k);
        assert(init[k] == x);
    }
}

/// Releasing a handle that is not pending changes nothing and issues no
/// destroy call; releasing the same handle twice issues at most one.
pub proof fn lemma_release_idempotent(
    before: Set<i64>,
    handle: i64,
    first_destroy: bool,
    middle: Set<i64>,
    second_destroy: bool,
    after: Set<i64>,
)
    requires
        releases(before, handle, first_destroy, middle),
        releases(middle, handle, second_destroy, after),
    ensures
        !second_destroy,
        after == middle,
        !before.contains(handle) ==> !first_destroy && middle == before,
{
    assert(after =~= middle);
    if !before.contains(handle) {
        assert(middle =~= before);
    }
}

} // verus!
