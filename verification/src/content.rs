use vstd::prelude::*;

verus! {

/// Default capacity of a new buffer, and the number of free slots that each
/// growth opens at the cursor.
pub const GROWTH_INCREMENT: usize = 512;

/// Where a seek to `target` leaves the cursor of a buffer of `len` elements:
/// at `target` itself when an element stands there, at the last element when
/// the target lies past it, and at 0 in an empty buffer.
pub open spec fn seek_position(len: nat, target: nat) -> nat {
    if len == 0 {
        0
    } else if target >= len {
        (len - 1) as nat
    } else {
        target
    }
}

/// What a gap buffer is to its users: the elements in logical order, the
/// cursor at which the next element goes in, and the number of slots of the
/// backing store. Where the free slots lie follows from these three.
#[verifier::ext_equal]
pub struct Content<T> {
    pub items: Seq<T>,
    pub cursor: nat,
    pub capacity: nat,
}

impl<T> Content<T> {
    /// The cursor lies within the elements, and a store that has slots keeps
    /// at least one of them free.
    pub open spec fn valid(self) -> bool {
        &&& self.cursor <= self.items.len()
        &&& self.items.len() <= self.capacity
        &&& self.capacity > 0 ==> self.items.len() < self.capacity
    }

    /// No elements, the cursor at 0, `capacity` free slots.
    pub open spec fn empty(capacity: nat) -> Self {
        Content { items: Seq::empty(), cursor: 0, capacity }
    }

    /// Number of free slots.
    pub open spec fn gap(self) -> int {
        self.capacity - self.items.len()
    }

    /// Whether the next insertion grows the store: it does when one free slot
    /// or none is left.
    pub open spec fn must_grow(self) -> bool {
        self.gap() <= 1
    }

    /// Whether the store that the next insertion needs can be addressed.
    pub open spec fn has_room(self) -> bool {
        self.must_grow() ==> self.items.len() + GROWTH_INCREMENT <= usize::MAX
    }

    /// Index of the element just before the cursor, if the cursor is not at 0.
    pub open spec fn current(self) -> Option<nat> {
        if self.cursor > 0 {
            Some((self.cursor - 1) as nat)
        } else {
            None
        }
    }

    /// `item` goes in at the cursor, and the cursor steps past it. A store
    /// that had to grow has room for the old elements and `GROWTH_INCREMENT`
    /// slots more.
    pub open spec fn insert(self, item: T) -> Self {
        Content {
            items: self.items.insert(self.cursor as int, item),
            cursor: self.cursor + 1,
            capacity: if self.must_grow() {
                self.items.len() + GROWTH_INCREMENT as nat
            } else {
                self.capacity
            },
        }
    }

    /// The element just before the cursor leaves, and the cursor steps back.
    /// With the cursor at 0 nothing changes.
    pub open spec fn delete(self) -> Self {
        if self.cursor > 0 {
            Content {
                items: self.items.remove(self.cursor - 1),
                cursor: (self.cursor - 1) as nat,
                capacity: self.capacity,
            }
        } else {
            self
        }
    }

    /// The cursor moves to `seek_position`; nothing else changes.
    pub open spec fn seek(self, target: nat) -> Self {
        Content {
            items: self.items,
            cursor: seek_position(self.items.len(), target),
            capacity: self.capacity,
        }
    }

    /// The element at `index` is replaced by `item`.
    pub open spec fn replace(self, index: int, item: T) -> Self {
        Content { items: self.items.update(index, item), cursor: self.cursor, capacity: self.capacity }
    }

    /// What `edit` makes of the content.
    pub open spec fn edit(self, edit: Edit<T>) -> Self {
        match edit {
            Edit::Insert(item) => self.insert(item),
            Edit::Delete => self.delete(),
            Edit::Seek(target) => self.seek(target),
        }
    }

    /// What `edits` make of the content, applied from the first to the last.
    pub open spec fn edited(self, edits: Seq<Edit<T>>) -> Self
        decreases edits.len(),
    {
        if edits.len() == 0 {
            self
        } else {
            self.edited(edits.drop_last()).edit(edits.last())
        }
    }

    /// Number of insertions among `edits`.
    pub open spec fn insertions(edits: Seq<Edit<T>>) -> nat
        decreases edits.len(),
    {
        if edits.len() == 0 {
            0
        } else {
            Self::insertions(edits.drop_last()) + if edits.last() is Insert {
                1nat
            } else {
                0nat
            }
        }
    }

    /// Number of deletions among `edits` that find an element before the
    /// cursor when they are applied to the content in turn.
    pub open spec fn removals(self, edits: Seq<Edit<T>>) -> nat
        decreases edits.len(),
    {
        if edits.len() == 0 {
            0
        } else {
            self.removals(edits.drop_last()) + if edits.last() is Delete && self.edited(
                edits.drop_last(),
            ).cursor > 0 {
                1nat
            } else {
                0nat
            }
        }
    }

    /// The content after `items` went in at the cursor, one after the other.
    pub open spec fn filled(self, items: Seq<T>) -> Self
        decreases items.len(),
    {
        if items.len() == 0 {
            self
        } else {
            self.filled(items.drop_last()).insert(items.last())
        }
    }

    /// An insertion keeps a valid content valid.
    pub proof fn insert_keeps_valid(self, item: T)
        requires
            self.valid(),
        ensures
            self.insert(item).valid(),
    {
    }

    /// A deletion keeps a valid content valid.
    pub proof fn delete_keeps_valid(self)
        requires
            self.valid(),
        ensures
            self.delete().valid(),
    {
    }

    /// A seek keeps a valid content valid.
    pub proof fn seek_keeps_valid(self, target: nat)
        requires
            self.valid(),
        ensures
            self.seek(target).valid(),
    {
    }

    /// After any edits of a valid content, the content is valid, and the
    /// number of its elements is the number it had, plus the insertions,
    /// minus the deletions that found an element to remove.
    pub proof fn count_after_edits(self, edits: Seq<Edit<T>>)
        requires
            self.valid(),
        ensures
            self.edited(edits).valid(),
            self.edited(edits).items.len() == self.items.len() + Self::insertions(edits)
                - self.removals(edits),
        decreases edits.len(),
    {
        if edits.len() > 0 {
            self.count_after_edits(edits.drop_last());
        }
    }

    /// An insertion puts the item at the cursor's index and leaves every
    /// other element next to the neighbours it had: those before the cursor
    /// keep their index, those behind it move up by one.
    pub proof fn insert_keeps_order(self, item: T)
        requires
            self.valid(),
        ensures
            self.insert(item).items.len() == self.items.len() + 1,
            self.insert(item).items[self.cursor as int] == item,
            forall|i: int| 0 <= i < self.cursor ==> self.insert(item).items[i] == self.items[i],
            forall|i: int|
                self.cursor <= i < self.items.len() ==> self.insert(item).items[i + 1]
                    == self.items[i],
    {
    }

    /// A deletion that finds an element takes out the one before the cursor
    /// and leaves every other element next to the neighbours it had.
    pub proof fn delete_keeps_order(self)
        requires
            self.valid(),
            self.cursor > 0,
        ensures
            self.delete().items.len() == self.items.len() - 1,
            forall|i: int| 0 <= i < self.cursor - 1 ==> self.delete().items[i] == self.items[i],
            forall|i: int|
                self.cursor <= i < self.items.len() ==> self.delete().items[i - 1]
                    == self.items[i],
    {
    }

    /// A second seek to the same target changes nothing, and a seek changes
    /// neither the elements nor their number.
    pub proof fn seek_is_idempotent(self, target: nat)
        ensures
            self.seek(target).seek(target) == self.seek(target),
            self.seek(target).items == self.items,
            self.seek(target).cursor == seek_position(self.items.len(), target),
    {
    }

    /// A deletion right after an insertion gives back the elements and the
    /// cursor, and the whole content where the insertion did not have to
    /// grow the store.
    pub proof fn delete_undoes_insert(self, item: T)
        requires
            self.valid(),
        ensures
            self.insert(item).delete().items == self.items,
            self.insert(item).delete().cursor == self.cursor,
            !self.must_grow() ==> self.insert(item).delete() == self,
    {
        assert(self.insert(item).delete().items =~= self.items);
    }

    /// Insertions keep their order however often the store has to grow:
    /// `items` end up, first to last, between what stood before the cursor
    /// and what stood behind it, and the cursor stands behind them.
    pub proof fn fill_keeps_order(self, items: Seq<T>)
        requires
            self.valid(),
        ensures
            self.filled(items).valid(),
            self.filled(items).items == self.items.take(self.cursor as int) + items
                + self.items.skip(self.cursor as int),
            self.filled(items).cursor == self.cursor + items.len(),
        decreases items.len(),
    {
        if items.len() == 0 {
            assert(self.items =~= self.items.take(self.cursor as int) + items + self.items.skip(
                self.cursor as int,
            ));
        } else {
            self.fill_keeps_order(items.drop_last());
            let before = self.filled(items.drop_last());
            assert(before.insert(items.last()).items =~= self.items.take(self.cursor as int)
                + items + self.items.skip(self.cursor as int));
        }
    }

    /// An empty buffer that takes `items` one by one holds exactly `items`,
    /// whatever capacity it started with.
    pub proof fn fill_from_empty(capacity: nat, items: Seq<T>)
        ensures
            Self::empty(capacity).filled(items).items == items,
            Self::empty(capacity).filled(items).cursor == items.len(),
    {
        let start = Self::empty(capacity);
        start.fill_keeps_order(items);
        assert(start.items.take(0) + items + start.items.skip(0) =~= items);
    }
}

/// One edit of a gap buffer.
pub enum Edit<T> {
    /// An element goes in at the cursor.
    Insert(T),
    /// The element before the cursor leaves.
    Delete,
    /// The cursor moves to a target.
    Seek(nat),
}

} // verus!
