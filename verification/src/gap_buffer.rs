use crate::content::{Content, GROWTH_INCREMENT};
use vstd::prelude::*;

verus! {

/// Whether the slots `gap_start..=gap_end` can be the gap of a store of
/// `capacity` slots. A store without slots has its two marks at 0.
spec fn gap_fits(capacity: nat, gap_start: int, gap_end: int) -> bool {
    &&& 0 <= gap_start <= gap_end
    &&& capacity == 0 ==> gap_end == 0
    &&& capacity > 0 ==> gap_end < capacity
}

/// Number of live slots: those before the gap and those after it.
spec fn live_slots(capacity: nat, gap_start: int, gap_end: int) -> nat {
    if capacity == 0 {
        0
    } else {
        (gap_start + (capacity - 1 - gap_end)) as nat
    }
}

/// The slot that holds the element at logical index `i`.
spec fn physical(gap_start: int, gap_end: int, i: int) -> int {
    if i < gap_start {
        i
    } else {
        i + (gap_end - gap_start + 1)
    }
}

/// Number of live slots before the slot `p`, which is not inside the gap
/// unless it is the gap's first slot: the logical index of what `p` holds.
spec fn live_before(gap_start: int, gap_end: int, p: int) -> int {
    if p <= gap_start {
        p
    } else {
        p - (gap_end - gap_start + 1)
    }
}

/// The live elements of `store` in logical order.
spec fn logical<T>(store: Seq<T>, gap_start: int, gap_end: int) -> Seq<T> {
    Seq::new(
        live_slots(store.len(), gap_start, gap_end),
        |i: int| store[physical(gap_start, gap_end, i)],
    )
}

/// Exchanges the slots `a` and `b` of `store`.
fn swap_slots<T>(store: &mut Vec<T>, a: usize, b: usize)
    requires
        a < b < old(store).len(),
    ensures
        final(store)@ == old(store)@.update(a as int, old(store)@[b as int]).update(
            b as int,
            old(store)@[a as int],
        ),
{
    let slice = store.as_mut_slice();
    let (left, right) = slice.split_at_mut(b);
    core::mem::swap(&mut left[a], &mut right[0]);
}

/// A sequence of elements with an edit cursor, stored in one backing vector
/// that keeps its free slots together in a gap right at the cursor.
#[derive(Debug)]
pub struct GapBuffer<T> {
    buffer: Vec<T>,
    gap_start: usize,
    gap_end: usize,
}

/// A gap buffer of characters.
pub type LineGapBuffer = GapBuffer<char>;

impl<T> View for GapBuffer<T> {
    type V = Content<T>;

    /// The elements in logical order, the cursor and the size of the store:
    /// the gap's slots are not part of the view.
    closed spec fn view(&self) -> Content<T> {
        Content {
            items: logical(self.buffer@, self.gap_start as int, self.gap_end as int),
            cursor: self.gap_start as nat,
            capacity: self.buffer@.len(),
        }
    }
}

impl<T> GapBuffer<T> {
    #[verifier::type_invariant]
    spec fn well_formed(self) -> bool {
        gap_fits(self.buffer.len() as nat, self.gap_start as int, self.gap_end as int)
    }

    /// Takes the store and the two gap marks out of `self`, which is left
    /// empty until the caller puts a value back.
    fn take_parts(&mut self) -> (parts: (Vec<T>, usize, usize))
        ensures
            parts.0 == old(self).buffer,
            parts.1 == old(self).gap_start,
            parts.2 == old(self).gap_end,
            gap_fits(parts.0.len() as nat, parts.1 as int, parts.2 as int),
    {
        proof {
            use_type_invariant(&*self);
        }
        let mut taken = GapBuffer { buffer: Vec::new(), gap_start: 0, gap_end: 0 };
        core::mem::swap(self, &mut taken);
        let GapBuffer { buffer, gap_start, gap_end } = taken;
        (buffer, gap_start, gap_end)
    }

    /// Returns the number of elements.
    pub fn count(&self) -> (n: usize)
        ensures
            n == self@.items.len(),
            self@.valid(),
    {
        proof {
            use_type_invariant(self);
        }
        if self.buffer.len() == 0 {
            0
        } else {
            self.gap_start + (self.buffer.len() - 1 - self.gap_end)
        }
    }

    /// Returns the cursor: the logical index at which the next element goes
    /// in.
    pub fn get_current_index(&self) -> (index: usize)
        ensures
            index == self@.cursor,
            self@.valid(),
    {
        proof {
            use_type_invariant(self);
        }
        self.gap_start
    }

    /// Returns the element at logical index `item`, if there is one.
    pub fn get(&self, item: usize) -> (found: Option<&T>)
        ensures
            found == if item < self@.items.len() {
                Some(&self@.items[item as int])
            } else {
                None
            },
    {
        proof {
            use_type_invariant(self);
        }
        if item >= self.count() {
            None
        } else if item < self.gap_start {
            Some(&self.buffer[item])
        } else {
            Some(&self.buffer[item + (self.gap_end - self.gap_start + 1)])
        }
    }

    /// Returns the element at logical index `item` for the caller to change in
    /// place, if there is one. Whatever the caller leaves there takes the
    /// element's place; nothing else changes.
    pub fn get_mut(&mut self, item: usize) -> (found: Option<&mut T>)
        ensures
            item >= old(self)@.items.len() ==> found is None && *final(self) == *old(self),
            item < old(self)@.items.len() ==> match found {
                Some(element) => {
                    &&& *element == old(self)@.items[item as int]
                    &&& final(self)@ == old(self)@.replace(item as int, *final(element))
                },
                None => false,
            },
    {
        proof {
            use_type_invariant(&*self);
        }
        if item >= self.count() {
            None
        } else if item < self.gap_start {
            Some(&mut self.buffer[item])
        } else {
            Some(&mut self.buffer[item + (self.gap_end - self.gap_start + 1)])
        }
    }

    /// Moves the cursor to `target`, or to the last element when `target` lies
    /// past it; the elements and their order stay as they are. The gap moves
    /// one slot for each element that it passes.
    pub fn seek(&mut self, target: usize)
        ensures
            final(self)@ == old(self)@.seek(target as nat),
            old(self)@.valid(),
            final(self)@.valid(),
    {
        let len = self.count();
        let target: usize = if len == 0 {
            0
        } else if target >= len {
            len - 1
        } else {
            target
        };
        let (mut store, mut gap_start, mut gap_end) = self.take_parts();
        if target <= gap_start {
            while gap_start > target
                invariant
                    gap_fits(store.len() as nat, gap_start as int, gap_end as int),
                    store.len() == old(self).buffer.len(),
                    gap_end - gap_start == old(self).gap_end - old(self).gap_start,
                    target <= gap_start,
                    logical(store@, gap_start as int, gap_end as int) == old(self)@.items,
                decreases gap_start,
            {
                let ghost before = logical(store@, gap_start as int, gap_end as int);
                swap_slots(&mut store, gap_start - 1, gap_end);
                gap_start -= 1;
                gap_end -= 1;
                assert(logical(store@, gap_start as int, gap_end as int) =~= before);
            }
        } else {
            while gap_start < target
                invariant
                    gap_fits(store.len() as nat, gap_start as int, gap_end as int),
                    store.len() == old(self).buffer.len(),
                    gap_end - gap_start == old(self).gap_end - old(self).gap_start,
                    gap_start <= target < old(self)@.items.len(),
                    logical(store@, gap_start as int, gap_end as int) == old(self)@.items,
                decreases target - gap_start,
            {
                let ghost before = logical(store@, gap_start as int, gap_end as int);
                swap_slots(&mut store, gap_start, gap_end + 1);
                gap_start += 1;
                gap_end += 1;
                assert(logical(store@, gap_start as int, gap_end as int) =~= before);
            }
        }
        *self = GapBuffer { buffer: store, gap_start, gap_end };
    }

    /// Removes the element just before the cursor and steps the cursor back;
    /// with the cursor at 0 nothing changes.
    pub fn delete(&mut self)
        ensures
            final(self)@ == old(self)@.delete(),
            old(self)@.cursor == 0 ==> *final(self) == *old(self),
            old(self)@.valid(),
            final(self)@.valid(),
    {
        proof {
            use_type_invariant(&*self);
        }
        if self.gap_start > 0 {
            self.gap_start -= 1;
            assert(self@.items =~= old(self)@.items.remove(old(self)@.cursor - 1));
        }
    }

    /// Calls `f` on every element, in logical order; the free slots are
    /// passed over in one step.
    pub fn for_each<F: FnMut(&T)>(&self, mut f: F)
        requires
            forall|i: int|
                0 <= i < self@.items.len() ==> call_requires(f, (&#[trigger] self@.items[i],)),
        ensures
            forall|i: int|
                0 <= i < self@.items.len() ==> call_ensures(f, (&#[trigger] self@.items[i],), ()),
    {
        proof {
            use_type_invariant(self);
        }
        let ghost visitor = f;
        let slots = self.buffer.len();
        let mut index: usize = 0;
        while index < slots
            invariant
                self.well_formed(),
                slots == self.buffer.len(),
                index <= slots,
                index <= self.gap_start || index > self.gap_end,
                f == visitor,
                forall|i: int|
                    0 <= i < self@.items.len() ==> call_requires(f, (&#[trigger] self@.items[i],)),
                forall|i: int|
                    0 <= i < live_before(self.gap_start as int, self.gap_end as int, index as int)
                        ==> call_ensures(f, (&#[trigger] self@.items[i],), ()),
            decreases slots - index,
        {
            if index == self.gap_start {
                index = self.gap_end + 1;
            } else {
                assert(self@.items[live_before(
                    self.gap_start as int,
                    self.gap_end as int,
                    index as int,
                )] == self.buffer@[index as int]);
                f(&self.buffer[index]);
                index += 1;
            }
        }
    }
}

impl<T: Default> GapBuffer<T> {
    /// Returns a vector of `size` default values.
    fn fill(size: usize) -> (slots: Vec<T>)
        ensures
            slots.len() == size,
    {
        let mut slots: Vec<T> = Vec::with_capacity(size);
        let mut index: usize = 0;
        while index < size
            invariant
                index <= size,
                slots.len() == index,
            decreases size - index,
        {
            slots.push(T::default());
            index += 1;
        }
        slots
    }

    /// Returns an empty buffer over a store of `capacity` free slots, each
    /// holding a default value.
    pub fn with_capacity(capacity: usize) -> (buffer: Self)
        ensures
            buffer@ == Content::<T>::empty(capacity as nat),
            buffer@.valid(),
    {
        let buffer = GapBuffer {
            buffer: Self::fill(capacity),
            gap_start: 0,
            gap_end: if capacity > 0 {
                capacity - 1
            } else {
                capacity
            },
        };
        assert(buffer@.items =~= Seq::<T>::empty());
        buffer
    }

    /// Returns an empty buffer over a store of `GROWTH_INCREMENT` free slots.
    pub fn new() -> (buffer: Self)
        ensures
            buffer@ == Content::<T>::empty(GROWTH_INCREMENT as nat),
    {
        Self::with_capacity(GROWTH_INCREMENT)
    }

    /// Moves the elements of a buffer that is down to its last free slot, or
    /// has no slot at all, to a store with `GROWTH_INCREMENT` free slots, all
    /// of them at the cursor.
    fn grow(&mut self)
        requires
            old(self).gap_start == old(self).gap_end,
            old(self)@.items.len() + GROWTH_INCREMENT <= usize::MAX,
        ensures
            final(self)@.items == old(self)@.items,
            final(self).gap_start == old(self).gap_start,
            final(self).gap_end == old(self).gap_start + GROWTH_INCREMENT - 1,
            final(self).buffer.len() == old(self)@.items.len() + GROWTH_INCREMENT,
    {
        let len = self.count();
        let (mut store, gap_start, gap_end) = self.take_parts();
        let slots = store.len();
        assert(len == live_slots(slots as nat, gap_start as int, gap_end as int));
        let mut grown: Vec<T> = Self::fill(len + GROWTH_INCREMENT);
        let mut index: usize = 0;
        while index < gap_start
            invariant
                gap_fits(slots as nat, gap_start as int, gap_end as int),
                slots == store.len(),
                slots == old(self).buffer.len(),
                len == live_slots(slots as nat, gap_start as int, gap_end as int),
                grown.len() == len + GROWTH_INCREMENT,
                index <= gap_start,
                forall|i: int| 0 <= i < index ==> grown@[i] == old(self).buffer@[i],
                forall|i: int| index <= i < slots ==> store@[i] == old(self).buffer@[i],
            decreases gap_start - index,
        {
            core::mem::swap(&mut store[index], &mut grown[index]);
            index += 1;
        }
        if slots > 0 {
            let shift = GROWTH_INCREMENT - 1;
            index = gap_end + 1;
            while index < slots
                invariant
                    gap_fits(slots as nat, gap_start as int, gap_end as int),
                    slots == store.len(),
                    slots == old(self).buffer.len(),
                    slots > 0,
                    len == live_slots(slots as nat, gap_start as int, gap_end as int),
                    grown.len() == len + GROWTH_INCREMENT,
                    gap_end < index <= slots,
                    gap_start == gap_end,
                    shift == GROWTH_INCREMENT - 1,
                    forall|i: int| 0 <= i < gap_start ==> grown@[i] == old(self).buffer@[i],
                    forall|i: int|
                        gap_end < i < index ==> grown@[i + shift] == old(self).buffer@[i],
                    forall|i: int| index <= i < slots ==> store@[i] == old(self).buffer@[i],
                decreases slots - index,
            {
                core::mem::swap(&mut store[index], &mut grown[index + shift]);
                index += 1;
            }
        }
        *self = GapBuffer {
            buffer: grown,
            gap_start,
            gap_end: gap_start + GROWTH_INCREMENT - 1,
        };
        assert(self@.items =~= old(self)@.items);
    }

    /// Puts `item` at the cursor and steps the cursor past it. When one free
    /// slot or none is left, the store first grows to hold the elements and
    /// `GROWTH_INCREMENT` free slots, which all lie at the cursor.
    pub fn insert(&mut self, item: T)
        requires
            old(self)@.has_room(),
        ensures
            final(self)@ == old(self)@.insert(item),
            old(self)@.valid(),
            final(self)@.valid(),
    {
        proof {
            use_type_invariant(&*self);
        }
        if self.gap_start == self.gap_end {
            self.grow();
        }
        proof {
            use_type_invariant(&*self);
        }
        let ghost before = *self;
        self.buffer[self.gap_start] = item;
        self.gap_start += 1;
        assert(self@.items =~= before@.items.insert(before@.cursor as int, item));
    }

    /// Returns a buffer with the same cursor and the same number of slots
    /// that holds, in place of each element, what `f` makes of it.
    pub fn map<U: Default, F: Fn(&T) -> U>(&self, f: F) -> (mapped: GapBuffer<U>)
        requires
            forall|i: int|
                0 <= i < self@.items.len() ==> call_requires(f, (&#[trigger] self@.items[i],)),
        ensures
            mapped@.items.len() == self@.items.len(),
            forall|i: int|
                0 <= i < self@.items.len() ==> call_ensures(
                    f,
                    (&self@.items[i],),
                    #[trigger] mapped@.items[i],
                ),
            mapped@.cursor == self@.cursor,
            mapped@.capacity == self@.capacity,
    {
        proof {
            use_type_invariant(self);
        }
        let slots = self.buffer.len();
        let mut store: Vec<U> = GapBuffer::<U>::fill(slots);
        let mut index: usize = 0;
        while index < slots
            invariant
                self.well_formed(),
                slots == self.buffer.len(),
                slots == store.len(),
                index <= slots,
                index <= self.gap_start || index > self.gap_end,
                forall|i: int|
                    0 <= i < self@.items.len() ==> call_requires(f, (&#[trigger] self@.items[i],)),
                forall|p: int|
                    0 <= p < index && (p < self.gap_start || p > self.gap_end) ==> call_ensures(
                        f,
                        (&self.buffer@[p],),
                        #[trigger] store@[p],
                    ),
            decreases slots - index,
        {
            if index == self.gap_start {
                index = self.gap_end + 1;
            } else {
                assert(self@.items[live_before(
                    self.gap_start as int,
                    self.gap_end as int,
                    index as int,
                )] == self.buffer@[index as int]);
                let made = f(&self.buffer[index]);
                store[index] = made;
                index += 1;
            }
        }
        GapBuffer { buffer: store, gap_start: self.gap_start, gap_end: self.gap_end }
    }
}

} // verus!
