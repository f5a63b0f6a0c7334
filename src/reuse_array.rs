use crossbeam::queue::SegQueue;
use vstd::prelude::*;

verus! {

#[verifier::external_type_specification]
#[verifier::external_body]
#[verifier::reject_recursive_types(T)]
pub struct ExSegQueue<T>(SegQueue<T>);

/// The indices held by a queue of free indices, from head to tail.
pub uninterp spec fn queue_items(q: SegQueue<usize>) -> Seq<usize>;

/// Relies on `SegQueue::new`: a new queue is empty.
#[verifier::external_body]
fn new_index_queue() -> (q: SegQueue<usize>)
    ensures
        queue_items(q) == Seq::<usize>::empty(),
{
    SegQueue::new()
}

/// Relies on `SegQueue::push_mut`: the value is appended at the tail.
#[verifier::external_body]
fn push_index(q: &mut SegQueue<usize>, i: usize)
    ensures
        queue_items(*final(q)) == queue_items(*old(q)).push(i),
{
    q.push_mut(i)
}

/// Relies on `SegQueue::pop_mut`: the head is removed and returned, and an
/// empty queue gives `None` and stays empty.
#[verifier::external_body]
fn pop_index(q: &mut SegQueue<usize>) -> (r: Option<usize>)
    ensures
        queue_items(*old(q)).len() == 0 ==> r is None && queue_items(*final(q)) == queue_items(
            *old(q),
        ),
        queue_items(*old(q)).len() > 0 ==> r == Some(queue_items(*old(q))[0]) && queue_items(
            *final(q),
        ) == queue_items(*old(q)).drop_first(),
{
    q.pop_mut()
}

/// Relies on `Vec::capacity`: a vector can hold at least as many elements
/// as it has without reallocating.
#[verifier::external_body]
fn capacity_of<T>(v: &Vec<Option<T>>) -> (r: usize)
    ensures
        r >= v@.len(),
{
    v.capacity()
}

/// A growable array of optional payloads addressed by slot index, with a
/// pool of free indices that are handed out again before the array grows.
///
/// An index is live from the moment `reserve` or `insert` hands it out until
/// `remove` releases it; a live index may be vacant (reserved, no payload
/// yet). The pool holds, at its head, indices just past the end of the
/// array that growth made room for, and behind them released indices.
pub struct ReuseArr<T> {
    arr: Vec<Option<T>>,
    live: Vec<bool>,
    free_queue: SegQueue<usize>,
    fresh: Ghost<nat>,
}

impl<T> ReuseArr<T> {
    /// Number of cells in the array.
    pub closed spec fn len(&self) -> nat {
        self.arr@.len()
    }

    /// The free pool, from the index handed out next onward.
    pub closed spec fn pool(&self) -> Seq<usize> {
        queue_items(self.free_queue)
    }

    /// Whether index `i` is currently held by someone.
    pub closed spec fn is_live(&self, i: int) -> bool {
        0 <= i < self.arr@.len() && self.live@[i]
    }

    /// The set of live indices.
    pub open spec fn live_set(&self) -> Set<int> {
        Set::new(|i: int| self.is_live(i))
    }

    /// The payload stored at index `i`, if any.
    pub closed spec fn occupant(&self, i: int) -> Option<T> {
        if 0 <= i < self.arr@.len() {
            self.arr@[i]
        } else {
            None
        }
    }

    /// The index that the next `reserve` or `insert` hands out.
    pub open spec fn next_index(&self) -> int {
        if self.pool().len() > 0 {
            self.pool()[0] as int
        } else {
            self.len() as int
        }
    }

    /// The registry's invariant.
    pub closed spec fn wf(&self) -> bool {
        let pool = self.pool();
        let n = self.arr@.len();
        &&& self.live@.len() == n
        &&& self.fresh@ <= pool.len()
        &&& forall|p: int| 0 <= p < self.fresh@ ==> pool[p] == n + p
        &&& forall|p: int|
            #![trigger pool[p]]
            self.fresh@ <= p < pool.len() ==> pool[p] < n && !self.live@[pool[p] as int]
        &&& forall|p: int, q: int|
            self.fresh@ <= p < q < pool.len() ==> pool[p] != pool[q]
        &&& forall|i: int| 0 <= i < n && !self.live@[i] ==> self.arr@[i] is None
        &&& forall|i: int| 0 <= i < n && !self.live@[i] ==> pool.contains(i as usize)
    }

    /// An empty registry whose pool holds the room the empty array has.
    pub fn new() -> (r: Self)
        ensures
            r.wf(),
            r.len() == 0,
            r.live_set() == Set::<int>::empty(),
            forall|p: int| 0 <= p < r.pool().len() ==> r.pool()[p] == p,
    {
        let arr: Vec<Option<T>> = Vec::new();
        let live: Vec<bool> = Vec::new();
        let mut free_queue = new_index_queue();
        let size = capacity_of(&arr);
        let mut i: usize = 0;
        while i < size
            invariant
                i <= size,
                queue_items(free_queue).len() == i,
                forall|p: int| 0 <= p < i ==> queue_items(free_queue)[p] == p,
            decreases size - i,
        {
            push_index(&mut free_queue, i);
            i = i + 1;
        }
        let r = ReuseArr { arr, live, free_queue, fresh: Ghost(size as nat) };
        assert(r.live_set() =~= Set::<int>::empty());
        r
    }

    /// Number of cells in the array.
    pub fn cells(&self) -> (r: usize)
        ensures
            r == self.len(),
    {
        self.arr.len()
    }

    /// Hands out a free index without storing a payload: the head of the
    /// pool if it is not empty, else a new cell at the end, in which case the
    /// room that growth made beyond it is put in the pool.
    pub fn reserve(&mut self) -> (r: usize)
        requires
            old(self).wf(),
            old(self).len() < usize::MAX,
        ensures
            final(self).wf(),
            r == old(self).next_index(),
            !old(self).live_set().contains(r as int),
            final(self).live_set() == old(self).live_set().insert(r as int),
            final(self).occupant(r as int) is None,
            forall|j: int| j != r ==> final(self).occupant(j) == old(self).occupant(j),
            r <= old(self).len(),
            r == old(self).len() ==> final(self).len() == old(self).len() + 1,
            r < old(self).len() ==> final(self).len() == old(self).len(),
            old(self).pool().len() > 0 ==> final(self).pool() == old(self).pool().drop_first(),
            old(self).pool().len() == 0 ==> forall|p: int|
                0 <= p < final(self).pool().len() ==> final(self).pool()[p] == r + 1 + p,
    {
        let ghost pool0 = self.pool();
        let ghost n0 = self.arr@.len();
        match pop_index(&mut self.free_queue) {
            Some(idx) => {
                if idx < self.arr.len() {
                    assert(pool0[self.fresh@ as int] == pool0[0]) by {
                        if self.fresh@ > 0 {
                            assert(pool0[0] == n0);
                        }
                    }
                    self.arr.set(idx, None);
                    self.live.set(idx, true);
                    assert forall|p: int, q: int|
                        self.fresh@ <= p < q < self.pool().len() implies self.pool()[p]
                        != self.pool()[q] by {
                        assert(self.pool()[p] == pool0[p + 1]);
                        assert(self.pool()[q] == pool0[q + 1]);
                    }
                    assert forall|p: int|
                        #![trigger self.pool()[p]]
                        self.fresh@ <= p < self.pool().len() implies self.pool()[p]
                        < self.arr@.len() && !self.live@[self.pool()[p] as int] by {
                        assert(self.pool()[p] == pool0[p + 1]);
                        assert(pool0[0] != pool0[p + 1]);
                    }
                    assert forall|i: int| 0 <= i < self.arr@.len() && !self.live@[i] implies self.pool().contains(
                        i as usize,
                    ) by {
                        let p = choose|p: int| 0 <= p < pool0.len() && pool0[p] == i as usize;
                        assert(self.pool()[p - 1] == pool0[p]);
                    }
                } else {
                    self.arr.push(None);
                    self.live.push(true);
                    self.fresh = Ghost((self.fresh@ - 1) as nat);
                    assert forall|p: int| 0 <= p < self.fresh@ implies self.pool()[p]
                        == self.arr@.len() + p by {
                        assert(self.pool()[p] == pool0[p + 1]);
                    }
                    assert forall|p: int|
                        #![trigger self.pool()[p]]
                        self.fresh@ <= p < self.pool().len() implies self.pool()[p]
                        < self.arr@.len() && !self.live@[self.pool()[p] as int] by {
                        assert(self.pool()[p] == pool0[p + 1]);
                    }
                    assert forall|p: int, q: int|
                        self.fresh@ <= p < q < self.pool().len() implies self.pool()[p]
                        != self.pool()[q] by {
                        assert(self.pool()[p] == pool0[p + 1]);
                        assert(self.pool()[q] == pool0[q + 1]);
                    }
                    assert forall|i: int| 0 <= i < self.arr@.len() && !self.live@[i] implies self.pool().contains(
                        i as usize,
                    ) by {
                        let p = choose|p: int| 0 <= p < pool0.len() && pool0[p] == i as usize;
                        assert(self.pool()[p - 1] == pool0[p]);
                    }
                }
                assert(self.live_set() =~= old(self).live_set().insert(idx as int));
                idx
            },
            None => {
                let idx = self.arr.len();
                assert forall|i: int| 0 <= i < n0 implies self.live@[i] by {
                    if !self.live@[i] {
                        assert(pool0.contains(i as usize));
                    }
                }
                self.arr.push(None);
                self.live.push(true);
                let size = capacity_of(&self.arr);
                let mut i: usize = idx + 1;
                let ghost arr1 = self.arr@;
                let ghost live1 = self.live@;
                while i < size
                    invariant
                        idx + 1 <= i <= size,
                        self.arr@ == arr1,
                        self.live@ == live1,
                        self.arr@.len() == idx + 1,
                        queue_items(self.free_queue).len() == i - idx - 1,
                        forall|p: int|
                            0 <= p < queue_items(self.free_queue).len() ==> queue_items(
                                self.free_queue,
                            )[p] == idx + 1 + p,
                    decreases size - i,
                {
                    push_index(&mut self.free_queue, i);
                    i = i + 1;
                }
                self.fresh = Ghost(self.pool().len());
                assert(self.live_set() =~= old(self).live_set().insert(idx as int));
                idx
            },
        }
    }

    /// Hands out a free index, as `reserve` does, and stores `data` there.
    pub fn insert(&mut self, data: T) -> (r: usize)
        requires
            old(self).wf(),
            old(self).len() < usize::MAX,
        ensures
            final(self).wf(),
            r == old(self).next_index(),
            !old(self).live_set().contains(r as int),
            final(self).live_set() == old(self).live_set().insert(r as int),
            final(self).occupant(r as int) == Some(data),
            forall|j: int| j != r ==> final(self).occupant(j) == old(self).occupant(j),
            r <= old(self).len(),
            r == old(self).len() ==> final(self).len() == old(self).len() + 1,
            r < old(self).len() ==> final(self).len() == old(self).len(),
            old(self).pool().len() > 0 ==> final(self).pool() == old(self).pool().drop_first(),
            old(self).pool().len() == 0 ==> forall|p: int|
                0 <= p < final(self).pool().len() ==> final(self).pool()[p] == r + 1 + p,
    {
        let idx = self.reserve();
        assert(self.live_set().contains(idx as int));
        self.arr.set(idx, Some(data));
        assert(self.live_set() =~= old(self).live_set().insert(idx as int));
        idx
    }

    /// Stores `data` at an index that was reserved before, replacing what
    /// was there.
    pub fn insert_at(&mut self, data: T, idx: usize) -> (r: usize)
        requires
            old(self).wf(),
            old(self).live_set().contains(idx as int),
        ensures
            final(self).wf(),
            r == idx,
            final(self).live_set() == old(self).live_set(),
            final(self).pool() == old(self).pool(),
            final(self).occupant(idx as int) == Some(data),
            forall|j: int| j != idx ==> final(self).occupant(j) == old(self).occupant(j),
    {
        assert(self.live_set().contains(idx as int));
        self.arr.set(idx, Some(data));
        assert(self.live_set() =~= old(self).live_set());
        idx
    }

    /// The payload at `idx`; `None` if the slot is vacant or out of range.
    pub fn get(&self, idx: usize) -> (r: Option<&T>)
        ensures
            r is Some == self.occupant(idx as int) is Some,
            r is Some ==> *r.unwrap() == self.occupant(idx as int).unwrap(),
    {
        if idx < self.arr.len() {
            self.arr[idx].as_ref()
        } else {
            None
        }
    }

    /// Mutable access to the payload at `idx`; `None` if the slot is vacant
    /// or out of range. Nothing else in the registry changes.
    pub fn get_mut(&mut self, idx: usize) -> (r: Option<&mut T>)
        requires
            old(self).wf(),
        ensures
            r is Some == old(self).occupant(idx as int) is Some,
            r is None ==> *final(self) == *old(self),
            r matches Some(m) ==> *m == old(self).occupant(idx as int).unwrap() && final(self).wf()
                && final(self).live_set() == old(self).live_set() && final(self).pool() == old(
                self,
            ).pool() && final(self).occupant(idx as int) == Some(*final(m)) && forall|j: int|
                j != idx ==> final(self).occupant(j) == old(self).occupant(j),
    {
        if idx < self.arr.len() && self.arr[idx].is_some() {
            match &mut self.arr[idx] {
                Some(m) => Some(m),
                None => None,
            }
        } else {
            None
        }
    }

    /// Releases `idx`: a live index goes back to the tail of the pool and
    /// its payload, if any, is handed back. An index that is not live is
    /// left as it is.
    pub fn remove(&mut self, idx: usize) -> (r: Option<T>)
        requires
            old(self).wf(),
        ensures
            final(self).wf(),
            r == old(self).occupant(idx as int),
            final(self).live_set() == old(self).live_set().remove(idx as int),
            final(self).occupant(idx as int) is None,
            forall|j: int| j != idx ==> final(self).occupant(j) == old(self).occupant(j),
            old(self).live_set().contains(idx as int) ==> final(self).pool() == old(
                self,
            ).pool().push(idx),
            !old(self).live_set().contains(idx as int) ==> final(self).pool() == old(self).pool(),
    {
        if idx < self.live.len() && self.live[idx] {
            let ghost pool0 = self.pool();
            assert forall|p: int| self.fresh@ <= p < pool0.len() implies pool0[p] != idx by {
                assert(!self.live@[pool0[p] as int]);
            }
            self.live.set(idx, false);
            push_index(&mut self.free_queue, idx);
            let mut out: Option<T> = None;
            self.arr.set_and_swap(idx, &mut out);
            assert forall|p: int|
                #![trigger self.pool()[p]]
                self.fresh@ <= p < self.pool().len() implies self.pool()[p] < self.arr@.len()
                && !self.live@[self.pool()[p] as int] by {
                if p < pool0.len() {
                    assert(self.pool()[p] == pool0[p]);
                }
            }
            assert forall|p: int, q: int|
                self.fresh@ <= p < q < self.pool().len() implies self.pool()[p]
                != self.pool()[q] by {
                assert(self.pool()[p] == pool0[p]);
            }
            assert forall|p: int| 0 <= p < self.fresh@ implies self.pool()[p]
                == self.arr@.len() + p by {
                assert(self.pool()[p] == pool0[p]);
            }
            assert forall|i: int| 0 <= i < self.arr@.len() && !self.live@[i] implies self.pool().contains(
                i as usize,
            ) by {
                if i == idx {
                    assert(self.pool()[pool0.len() as int] == idx);
                } else {
                    let p = choose|p: int| 0 <= p < pool0.len() && pool0[p] == i as usize;
                    assert(self.pool()[p] == pool0[p]);
                }
            }
            assert(self.live_set() =~= old(self).live_set().remove(idx as int));
            out
        } else {
            assert(self.live_set() =~= old(self).live_set().remove(idx as int));
            None
        }
    }
}


/// An index that is not live holds no payload: once `remove` has released an
/// index, nothing can be found there until it is handed out again. A
/// released index within the array waits in the pool, so it is not lost.
pub proof fn lemma_vacant_unless_live<T>(r: &ReuseArr<T>, i: int)
    requires
        r.wf(),
        !r.live_set().contains(i),
    ensures
        r.occupant(i) is None,
        0 <= i < r.len() ==> r.pool().contains(i as usize),
{
}

/// A released index is handed out again: when the pool was empty, the index
/// that `remove` put back is the one that the next `reserve` or `insert`
/// returns, and its cell holds nothing of the former payload.
pub proof fn lemma_released_index_is_next<T>(before: &ReuseArr<T>, after: &ReuseArr<T>, i: usize)
    requires
        before.wf(),
        after.wf(),
        before.pool().len() == 0,
        after.pool() == before.pool().push(i),
        after.live_set() == before.live_set().remove(i as int),
    ensures
        after.next_index() == i,
        after.occupant(i as int) is None,
{
    assert(!after.live_set().contains(i as int));
}

} // verus!
