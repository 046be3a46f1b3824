use vstd::prelude::*;
use crate::error::SendError;

verus! {

/// The abstract state of a [`Buffer`]: its slots, the slot the next read
/// takes from, and the slot the next write goes to. Both positions go round
/// the slots: after the last slot comes the first.
pub struct BufferState<T> {
    pub slots: Seq<Option<T>>,
    pub read: nat,
    pub write: nat,
}

impl<T> BufferState<T> {
    /// Number of slots.
    pub open spec fn capacity(self) -> nat {
        self.slots.len()
    }

    /// The state of a buffer freshly made with `capacity` empty slots.
    pub open spec fn fresh(capacity: nat) -> Self {
        BufferState { slots: Seq::new(capacity, |i: int| None::<T>), read: 0, write: 0 }
    }

    /// The position after `pos`, going round the slots.
    pub open spec fn next(self, pos: nat) -> nat {
        if pos + 1 < self.capacity() {
            pos + 1
        } else {
            0
        }
    }

    /// The slot `k` places after the reader's, going round the slots.
    pub open spec fn slot(self, k: int) -> int {
        if self.read + k < self.capacity() {
            self.read + k
        } else {
            self.read + k - self.capacity()
        }
    }

    /// How many places slot `j` lies after the reader's, going round.
    pub open spec fn offset(self, j: int) -> int {
        if j >= self.read {
            j - self.read
        } else {
            j + self.capacity() - self.read
        }
    }

    /// The number of items held: the places from the reader round to the
    /// writer, where reader and writer on one slot mean all slots taken when
    /// that slot is taken and none otherwise.
    pub open spec fn len(self) -> nat {
        if self.read < self.write {
            (self.write - self.read) as nat
        } else if self.write < self.read {
            (self.write + self.capacity() - self.read) as nat
        } else if self.capacity() > 0 && self.slots[self.read as int] is Some {
            self.capacity()
        } else {
            0
        }
    }

    /// Well-formedness: both positions are slots, and the taken slots are
    /// exactly the run of `len()` slots that starts at the reader and goes
    /// round.
    pub open spec fn inv(self) -> bool {
        &&& self.capacity() == 0 ==> self.read == 0 && self.write == 0
        &&& self.capacity() > 0 ==> self.read < self.capacity() && self.write < self.capacity()
        &&& forall|j: int|
            0 <= j < self.capacity() ==> ((#[trigger] self.slots[j]) is Some <==> self.offset(j)
                < self.len())
    }

    /// Whether every slot holds an item, so that a write is refused.
    pub open spec fn is_full(self) -> bool {
        self.capacity() > 0 && self.len() == self.capacity()
    }

    /// The items held, oldest first: the run of taken slots from the reader
    /// round the slots.
    pub open spec fn contents(self) -> Seq<T> {
        Seq::new(self.len(), |k: int| self.slots[self.slot(k)]->0)
    }

    /// The state after `item` is written into the writer's slot and the
    /// writer moves on to the next slot.
    pub open spec fn pushed(self, item: T) -> Self {
        BufferState {
            slots: self.slots.update(self.write as int, Some(item)),
            read: self.read,
            write: self.next(self.write),
        }
    }

    /// The state after the reader's slot is emptied and the reader moves on
    /// to the next slot.
    pub open spec fn popped(self) -> Self {
        BufferState {
            slots: self.slots.update(self.read as int, None),
            read: self.next(self.read),
            write: self.write,
        }
    }

    /// The state reached from `self` by writing `items` one after another.
    pub open spec fn pushed_all(self, items: Seq<T>) -> Self
        decreases items.len(),
    {
        if items.len() == 0 {
            self
        } else {
            self.pushed_all(items.drop_last()).pushed(items.last())
        }
    }
}

/// Going `k` places round from the reader and then measuring back lands on
/// `k`, and the other way round.
proof fn lemma_slot_offset<T>(s: BufferState<T>)
    requires
        s.capacity() > 0,
        s.read < s.capacity(),
    ensures
        forall|k: int|
            0 <= k < s.capacity() ==> 0 <= #[trigger] s.slot(k) < s.capacity() && s.offset(s.slot(k))
                == k,
        forall|j: int|
            0 <= j < s.capacity() ==> 0 <= #[trigger] s.offset(j) < s.capacity() && s.slot(
                s.offset(j),
            ) == j,
{
}

/// The writer stands `len()` places after the reader, or on the reader's
/// slot when all slots are taken.
proof fn lemma_write_position<T>(s: BufferState<T>)
    requires
        s.inv(),
        s.capacity() > 0,
    ensures
        s.len() <= s.capacity(),
        s.len() < s.capacity() ==> s.offset(s.write as int) == s.len() && s.write == s.slot(
            s.len() as int,
        ),
        s.len() == s.capacity() ==> s.write == s.read,
{
}

/// A fresh buffer is well formed, holds nothing, and is not full.
pub proof fn lemma_fresh<T>(capacity: nat)
    ensures
        BufferState::<T>::fresh(capacity).inv(),
        BufferState::<T>::fresh(capacity).contents() == Seq::<T>::empty(),
        !BufferState::<T>::fresh(capacity).is_full(),
{
    let s = BufferState::<T>::fresh(capacity);
    assert(s.contents() =~= Seq::<T>::empty());
}

/// A buffer never holds more items than it has slots, and the writer's slot
/// is taken exactly when the buffer is full.
pub proof fn lemma_bounds<T>(s: BufferState<T>)
    requires
        s.inv(),
    ensures
        s.contents().len() == s.len() <= s.capacity(),
        s.is_full() <==> (s.capacity() > 0 && s.slots[s.write as int] is Some),
        s.is_full() <==> s.contents().len() == s.capacity() > 0,
{
    if s.capacity() > 0 {
        lemma_write_position(s);
        lemma_slot_offset(s);
        assert(s.slots[s.write as int] is Some <==> s.offset(s.write as int) < s.len());
    }
}

/// A write that is accepted keeps the buffer well formed and adds the item
/// at the back of what the buffer holds.
pub proof fn lemma_push_appends<T>(s: BufferState<T>, item: T)
    requires
        s.inv(),
        s.capacity() > 0,
        !s.is_full(),
    ensures
        s.pushed(item).inv(),
        s.pushed(item).len() == s.len() + 1,
        s.pushed(item).contents() == s.contents().push(item),
{
    let t = s.pushed(item);
    lemma_write_position(s);
    lemma_slot_offset(s);
    lemma_slot_offset(t);
    if s.len() + 1 == s.capacity() {
        assert(t.write == t.read);
        assert(t.slots[t.read as int] is Some) by {
            if s.len() > 0 {
                assert(s.offset(s.read as int) == 0);
                assert(s.slots[s.read as int] is Some);
            }
        }
    }
    assert(t.len() == s.len() + 1);
    assert forall|j: int| 0 <= j < t.capacity() implies ((#[trigger] t.slots[j]) is Some
        <==> t.offset(j) < t.len()) by {
        if j != s.write {
            assert(s.slots[j] is Some <==> s.offset(j) < s.len());
        }
    }
    assert forall|k: int| 0 <= k < s.len() implies #[trigger] t.slots[t.slot(k)] == s.slots[s.slot(
        k,
    )] by {
        assert(s.offset(s.slot(k)) == k);
    }
    assert(t.contents() =~= s.contents().push(item));
}

/// The reader's slot is taken exactly when the buffer holds something; it
/// then holds the oldest item, and emptying it keeps the buffer well formed
/// and removes that item from the front.
pub proof fn lemma_pop_takes_front<T>(s: BufferState<T>)
    requires
        s.inv(),
        s.capacity() > 0,
    ensures
        s.slots[s.read as int] is Some <==> s.contents().len() > 0,
        s.slots[s.read as int] is Some ==> {
            &&& s.slots[s.read as int]->0 == s.contents()[0]
            &&& s.popped().inv()
            &&& s.popped().len() == s.len() - 1
            &&& s.popped().contents() == s.contents().drop_first()
        },
{
    lemma_write_position(s);
    lemma_slot_offset(s);
    assert(s.offset(s.read as int) == 0);
    assert(s.slots[s.read as int] is Some <==> 0 < s.len());
    if s.slots[s.read as int] is Some {
        let t = s.popped();
        lemma_slot_offset(t);
        assert(s.slot(0) == s.read);
        if s.len() == 1 {
            assert(t.read == s.write);
            assert(t.slots[t.read as int] is None) by {
                if s.capacity() > 1 {
                    assert(s.offset(s.write as int) == 1);
                }
            }
        }
        assert(t.len() == s.len() - 1);
        assert forall|j: int| 0 <= j < t.capacity() implies ((#[trigger] t.slots[j]) is Some
            <==> t.offset(j) < t.len()) by {
            if j != s.read {
                assert(s.slots[j] is Some <==> s.offset(j) < s.len());
            }
        }
        assert forall|k: int| 0 <= k < t.len() implies #[trigger] t.slots[t.slot(k)] == s.slots[s.slot(
            k + 1,
        )] by {
            assert(s.offset(s.slot(k + 1)) == k + 1);
        }
        assert(t.contents() =~= s.contents().drop_first());
    }
}

/// A buffer that is not full always accepts a write; in particular, a read
/// frees a slot that the next write may take, going round the slots.
pub proof fn lemma_read_frees_slot<T>(s: BufferState<T>)
    requires
        s.inv(),
        s.capacity() > 0,
        s.slots[s.read as int] is Some,
    ensures
        !s.popped().is_full(),
{
    lemma_pop_takes_front(s);
    lemma_bounds(s);
}

/// An empty buffer with slots always accepts a write.
pub proof fn lemma_empty_accepts<T>(s: BufferState<T>)
    requires
        s.inv(),
        s.contents().len() == 0,
    ensures
        !s.is_full(),
{
}

/// Writing up to `capacity` items one after another into a fresh buffer
/// succeeds every time, the buffer then holds exactly those items in the
/// order written, and it is full exactly when all slots were used.
pub proof fn lemma_fill_fresh<T>(capacity: nat, items: Seq<T>)
    requires
        items.len() <= capacity,
    ensures
        BufferState::<T>::fresh(capacity).pushed_all(items).inv(),
        BufferState::<T>::fresh(capacity).pushed_all(items).contents() == items,
        BufferState::<T>::fresh(capacity).pushed_all(items).is_full() <==> (capacity > 0
            && items.len() == capacity),
        BufferState::<T>::fresh(capacity).pushed_all(items).capacity() == capacity,
    decreases items.len(),
{
    let f = BufferState::<T>::fresh(capacity);
    if items.len() == 0 {
        lemma_fresh::<T>(capacity);
    } else {
        let prefix = items.drop_last();
        lemma_fill_fresh::<T>(capacity, prefix);
        let s = f.pushed_all(prefix);
        lemma_bounds(s);
        lemma_push_appends(s, items.last());
        assert(prefix.push(items.last()) =~= items);
        lemma_bounds(s.pushed(items.last()));
    }
}

/// The shared store of a channel: a ring of slots with a write index and a
/// read index that both go round.
#[derive(Debug)]
pub struct Buffer<T> {
    data: Vec<Option<T>>,
    write_index: usize,
    read_index: usize,
    capacity: usize,
}

impl<T> View for Buffer<T> {
    type V = BufferState<T>;

    closed spec fn view(&self) -> BufferState<T> {
        BufferState {
            slots: self.data@,
            read: self.read_index as nat,
            write: self.write_index as nat,
        }
    }
}

impl<T> Buffer<T> {
    /// A well-formed buffer's state satisfies the state invariant.
    pub proof fn lemma_wf_inv(&self)
        requires
            self.wf(),
        ensures
            self@.inv(),
    {
    }

    /// The buffer's fields agree with each other and its state is well formed.
    pub closed spec fn wf(&self) -> bool {
        &&& self.capacity == self.data@.len()
        &&& self@.inv()
    }

    /// Makes a buffer with `capacity` empty slots.
    pub fn new(capacity: usize) -> (buffer: Self)
        ensures
            buffer@ == BufferState::<T>::fresh(capacity as nat),
            buffer.wf(),
    {
        let mut data: Vec<Option<T>> = Vec::new();
        let mut i: usize = 0;
        while i < capacity
            invariant
                i <= capacity,
                data@ == Seq::new(i as nat, |j: int| None::<T>),
            decreases capacity - i,
        {
            data.push(None);
            i = i + 1;
        }
        proof {
            lemma_fresh::<T>(capacity as nat);
        }
        Buffer { data, write_index: 0, read_index: 0, capacity }
    }

    /// The number of slots.
    pub fn capacity(&self) -> (n: usize)
        requires
            self.wf(),
        ensures
            n == self@.capacity(),
    {
        self.capacity
    }

    /// Writes `item` into the slot under the writer and moves the writer on,
    /// going round. When every slot is taken the buffer is left as it is and
    /// `item` comes back in the error.
    pub fn push(&mut self, item: T) -> (result: Result<(), SendError<T>>)
        requires
            old(self).wf(),
            old(self)@.capacity() > 0,
        ensures
            final(self).wf(),
            old(self)@.is_full() ==> result == Err::<(), SendError<T>>(SendError(item))
                && final(self)@ == old(self)@,
            !old(self)@.is_full() ==> result is Ok && final(self)@ == old(self)@.pushed(item),
    {
        proof {
            lemma_bounds(self@);
        }
        if self.data[self.write_index].is_some() {
            Err(SendError(item))
        } else {
            proof {
                lemma_push_appends(self@, item);
            }
            self.data.set(self.write_index, Some(item));
            self.write_index += 1;
            if self.write_index >= self.capacity {
                self.write_index = 0;
            }
            Ok(())
        }
    }

    /// Takes the item from the slot under the reader, if there is one, and
    /// moves the reader on, going round.
    pub fn pop(&mut self) -> (result: Option<T>)
        requires
            old(self).wf(),
            old(self)@.capacity() > 0,
        ensures
            final(self).wf(),
            result == old(self)@.slots[old(self)@.read as int],
            result is Some ==> final(self)@ == old(self)@.popped(),
            result is None ==> final(self)@ == old(self)@,
    {
        proof {
            lemma_pop_takes_front(self@);
        }
        if let Some(item) = self.data[self.read_index].take() {
            self.read_index += 1;
            if self.read_index >= self.capacity {
                self.read_index = 0;
            }
            Some(item)
        } else {
            assert(self.data@ =~= old(self).data@);
            None
        }
    }
}

} // verus!
