use vstd::prelude::*;

verus! {

/// Returned by `StackVec::push` when every slot of the storage is in use.
#[derive(Debug, Clone, Copy, PartialEq, Eq, Structural)]
pub struct Overflow;

/// The contents after one push of `item` onto `contents` with `capacity`
/// slots: the item is appended when a slot is free, and nothing changes
/// otherwise.
pub open spec fn after_push<T>(contents: Seq<T>, capacity: nat, item: T) -> Seq<T> {
    if contents.len() < capacity {
        contents.push(item)
    } else {
        contents
    }
}

/// The contents after pushing `items` in order onto `contents`.
pub open spec fn after_pushes<T>(contents: Seq<T>, capacity: nat, items: Seq<T>) -> Seq<T>
    decreases items.len(),
{
    if items.len() == 0 {
        contents
    } else {
        after_push(after_pushes(contents, capacity, items.drop_last()), capacity, items.last())
    }
}

/// Pushing any items onto an empty sequence with `capacity` slots keeps the
/// first `capacity` of them, in order: each of those pushes succeeds, and
/// every later one fails and changes nothing.
pub proof fn lemma_pushes_keep_prefix<T>(capacity: nat, items: Seq<T>)
    ensures
        after_pushes(Seq::<T>::empty(), capacity, items) == items.take(
            if items.len() <= capacity { items.len() as int } else { capacity as int },
        ),
        forall|i: int|
            0 <= i < items.len() ==> (after_pushes(Seq::<T>::empty(), capacity, items.take(i)).len()
                < capacity <==> i < capacity),
    decreases items.len(),
{
    if items.len() > 0 {
        let prefix = items.drop_last();
        lemma_pushes_keep_prefix(capacity, prefix);
        assert(items.take(items.len() - 1) =~= prefix);
        if items.len() <= capacity {
            assert(prefix.take(prefix.len() as int).push(items.last()) =~= items.take(
                items.len() as int,
            ));
        } else {
            assert(prefix.take(capacity as int) =~= items.take(capacity as int));
        }
        assert forall|i: int|
            0 <= i < items.len() implies (after_pushes(Seq::<T>::empty(), capacity, items.take(
                i,
            )).len() < capacity <==> i < capacity) by {
            if i < items.len() - 1 {
                assert(items.take(i) =~= prefix.take(i));
            } else {
                assert(items.take(i) =~= prefix);
            }
        }
    } else {
        assert(items.take(0) =~= Seq::<T>::empty());
    }
}

/// A fixed-capacity sequence over storage supplied by its creator. The
/// sequence never grows its storage: its capacity is the storage's length,
/// and its contents are the first `len` slots.
pub struct StackVec<T> {
    storage: Vec<T>,
    len: usize,
}

impl<T> View for StackVec<T> {
    type V = Seq<T>;

    /// The logical contents: the first `len` slots of the storage.
    closed spec fn view(&self) -> Seq<T> {
        self.storage@.subrange(0, self.len as int)
    }
}

impl<T> StackVec<T> {
    /// The fixed number of slots.
    pub closed spec fn spec_capacity(&self) -> nat {
        self.storage@.len()
    }

    /// The logical length never exceeds the storage.
    pub closed spec fn wf(&self) -> bool {
        self.len <= self.storage@.len()
    }

    /// A well-formed sequence holds at most as many elements as it has slots.
    pub proof fn lemma_len_bounded(&self)
        requires
            self.wf(),
        ensures
            self@.len() <= self.spec_capacity(),
    {
    }

    /// Binds a new, empty sequence to `storage`; its capacity is
    /// `storage.len()`.
    pub fn new(storage: Vec<T>) -> (r: Self)
        ensures
            r.wf(),
            r@ == Seq::<T>::empty(),
            r.spec_capacity() == storage@.len(),
    {
        let r = StackVec { storage, len: 0 };
        assert(r@ =~= Seq::<T>::empty());
        r
    }

    /// The number of slots.
    pub fn capacity(&self) -> (r: usize)
        requires
            self.wf(),
        ensures
            r == self.spec_capacity(),
    {
        self.storage.len()
    }

    /// The number of elements held.
    pub fn len(&self) -> (r: usize)
        requires
            self.wf(),
        ensures
            r == self@.len(),
    {
        self.len
    }

    /// Whether the sequence holds no element.
    pub fn is_empty(&self) -> (r: bool)
        requires
            self.wf(),
        ensures
            r == (self@.len() == 0),
    {
        self.len == 0
    }

    /// Whether every slot is in use.
    pub fn is_full(&self) -> (r: bool)
        requires
            self.wf(),
        ensures
            r == (self@.len() == self.spec_capacity()),
    {
        self.len == self.storage.len()
    }

    /// Appends `item`, or fails with `Overflow`, leaving the sequence as it
    /// was, when every slot is in use.
    pub fn push(&mut self, item: T) -> (r: Result<(), Overflow>)
        requires
            old(self).wf(),
        ensures
            final(self).wf(),
            final(self).spec_capacity() == old(self).spec_capacity(),
            final(self)@ == after_push(old(self)@, old(self).spec_capacity(), item),
            r is Ok <==> old(self)@.len() < old(self).spec_capacity(),
            old(self)@.len() < old(self).spec_capacity() ==> {
                &&& r is Ok
                &&& final(self)@ == old(self)@.push(item)
            },
            old(self)@.len() == old(self).spec_capacity() ==> {
                &&& r == Err::<(), Overflow>(Overflow)
                &&& final(self)@ == old(self)@
            },
    {
        if self.len == self.storage.len() {
            return Err(Overflow);
        }
        let ghost before = self@;
        self.storage.set(self.len, item);
        self.len = self.len + 1;
        assert(self@ =~= before.push(item));
        Ok(())
    }

}

impl<T: Copy> StackVec<T> {
    /// The element at `index`.
    pub fn get(&self, index: usize) -> (r: T)
        requires
            self.wf(),
            index < self@.len(),
        ensures
            r == self@[index as int],
    {
        self.storage[index]
    }

    /// Removes the last element and returns it, or returns `None` when the
    /// sequence is empty. The slot keeps its value but is no longer part of
    /// the contents.
    pub fn pop(&mut self) -> (r: Option<T>)
        requires
            old(self).wf(),
        ensures
            final(self).wf(),
            final(self).spec_capacity() == old(self).spec_capacity(),
            old(self)@.len() == 0 ==> r is None && final(self)@ == old(self)@,
            old(self)@.len() > 0 ==> {
                &&& r == Some(old(self)@.last())
                &&& final(self)@ == old(self)@.drop_last()
            },
    {
        if self.len == 0 {
            return None;
        }
        self.len = self.len - 1;
        let item = self.storage[self.len];
        assert(self@ =~= old(self)@.drop_last());
        Some(item)
    }
}

} // verus!
