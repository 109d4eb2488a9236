//! The command buffer queue: passes push finished buffers, the frame driver
//! drains them in the order of the pushes.
//!
//! The queue is a plain value that is changed through `&mut`. Where several
//! threads record, they share it behind a lock, and the lock puts their
//! pushes in one order. The laws at the end hold for every such order.

use vstd::prelude::*;
use crate::command::{CommandBuffer, CommandView};

verus! {

/// A finished buffer and the label of the pass that recorded it.
#[derive(Clone, Debug, PartialEq, Eq)]
pub struct CommandQueueItem {
    pub buffer: CommandBuffer,
    pub name: String,
}

/// The mathematical value of a [`CommandQueueItem`].
pub ghost struct ItemView {
    pub buffer: Seq<CommandView>,
    pub name: Seq<char>,
}

impl View for CommandQueueItem {
    type V = ItemView;

    open spec fn view(&self) -> ItemView {
        ItemView { buffer: self.buffer@, name: self.name@ }
    }
}

/// The values of a list of items, in order.
pub open spec fn item_views(items: Seq<CommandQueueItem>) -> Seq<ItemView> {
    items.map_values(|item: CommandQueueItem| item@)
}

/// Why a push was turned down. The item was not queued.
#[derive(Clone, Copy, Debug, PartialEq, Eq, Structural)]
pub enum QueueError {
    /// The queue holds as many items as it has room for.
    Full,
    /// The queue was shut down and takes no more items.
    ShutDown,
}

/// The mathematical value of a [`CommandBufferQueue`]: the waiting items,
/// oldest first, the number of items it has room for, and whether it still
/// takes items.
pub ghost struct QueueView {
    pub items: Seq<ItemView>,
    pub capacity: nat,
    pub open: bool,
}

impl QueueView {
    /// No more items wait than there is room for.
    pub open spec fn wf(self) -> bool {
        self.items.len() <= self.capacity
    }

    /// What a push returns.
    pub open spec fn push_result(self) -> Result<(), QueueError> {
        if !self.open {
            Err(QueueError::ShutDown)
        } else if self.items.len() >= self.capacity {
            Err(QueueError::Full)
        } else {
            Ok(())
        }
    }

    /// The queue after a push of `item`: the item stands last where the push
    /// is taken, and nothing changes where it is turned down.
    pub open spec fn push(self, item: ItemView) -> QueueView {
        if self.push_result().is_ok() {
            QueueView { items: self.items.push(item), ..self }
        } else {
            self
        }
    }

    /// The queue after the pushes of `items`, one after the other.
    pub open spec fn push_all(self, items: Seq<ItemView>) -> QueueView
        decreases items.len(),
    {
        if items.len() == 0 {
            self
        } else {
            self.push_all(items.drop_last()).push(items.last())
        }
    }

    /// The queue after a drain.
    pub open spec fn drained(self) -> QueueView {
        QueueView { items: Seq::empty(), ..self }
    }

    /// The number of items that can still be pushed before the queue turns
    /// one down.
    pub open spec fn room(self) -> nat {
        if self.open && self.items.len() <= self.capacity {
            (self.capacity - self.items.len()) as nat
        } else {
            0
        }
    }
}

/// An ordered, bounded queue of finished command buffers.
pub struct CommandBufferQueue {
    items: Vec<CommandQueueItem>,
    capacity: usize,
    open: bool,
}

impl View for CommandBufferQueue {
    type V = QueueView;

    closed spec fn view(&self) -> QueueView {
        QueueView {
            items: item_views(self.items@),
            capacity: self.capacity as nat,
            open: self.open,
        }
    }
}

impl CommandBufferQueue {
    /// An empty queue with room for `capacity` items.
    pub fn new(capacity: usize) -> (queue: CommandBufferQueue)
        ensures
            queue@ == (QueueView { items: Seq::empty(), capacity: capacity as nat, open: true }),
            queue@.wf(),
    {
        let queue = CommandBufferQueue { items: Vec::new(), capacity, open: true };
        assert(queue@.items =~= Seq::empty());
        queue
    }

    /// Appends `item` behind all waiting items. A queue that was shut down
    /// turns it down with `ShutDown`, a full one with `Full`; the queue is
    /// then as it was.
    pub fn push(&mut self, item: CommandQueueItem) -> (result: Result<(), QueueError>)
        ensures
            result == old(self)@.push_result(),
            final(self)@ == old(self)@.push(item@),
    {
        if !self.open {
            Err(QueueError::ShutDown)
        } else if self.items.len() >= self.capacity {
            Err(QueueError::Full)
        } else {
            self.items.push(item);
            assert(final(self)@.items =~= old(self)@.items.push(item@));
            Ok(())
        }
    }

    /// Removes all waiting items and returns them, oldest first.
    pub fn drain_in_order(&mut self) -> (items: Vec<CommandQueueItem>)
        ensures
            item_views(items@) == old(self)@.items,
            final(self)@ == old(self)@.drained(),
    {
        let mut items: Vec<CommandQueueItem> = Vec::new();
        core::mem::swap(&mut self.items, &mut items);
        assert(final(self)@.items =~= Seq::empty());
        items
    }

    /// Stops the queue from taking items. What waits can still be drained.
    pub fn shut_down(&mut self)
        ensures
            final(self)@ == (QueueView { open: false, ..old(self)@ }),
    {
        self.open = false;
    }

    /// The number of waiting items.
    pub fn len(&self) -> (n: usize)
        ensures
            n == self@.items.len(),
    {
        self.items.len()
    }

    /// Whether nothing waits.
    pub fn is_empty(&self) -> (empty: bool)
        ensures
            empty == (self@.items.len() == 0),
    {
        self.items.len() == 0
    }

    /// The number of items the queue has room for.
    pub fn capacity(&self) -> (n: usize)
        ensures
            n == self@.capacity,
    {
        self.capacity
    }

    /// Whether the queue still takes items.
    pub fn is_open(&self) -> (open: bool)
        ensures
            open == self@.open,
    {
        self.open
    }
}

/// One push as it reached the queue: who made it, and the item.
pub ghost struct Push {
    pub producer: int,
    pub item: ItemView,
}

/// The items of the pushes, in the order in which they reached the queue.
pub open spec fn pushed_items(pushes: Seq<Push>) -> Seq<ItemView> {
    pushes.map_values(|p: Push| p.item)
}

/// The items that `producer` pushed, in the order in which it pushed them.
pub open spec fn items_of(pushes: Seq<Push>, producer: int) -> Seq<ItemView> {
    pushed_items(pushes.filter(|p: Push| p.producer == producer))
}

/// Each drained item together with the producer of the push that stands at
/// its place in `pushes`.
pub open spec fn attributed(pushes: Seq<Push>, drained: Seq<ItemView>) -> Seq<Push>
    recommends
        drained.len() == pushes.len(),
{
    Seq::new(drained.len(), |i: int| Push { producer: pushes[i].producer, item: drained[i] })
}

/// A well-formed queue stays well formed under pushes and drains.
pub proof fn lemma_operations_keep_wf(queue: QueueView, item: ItemView, items: Seq<ItemView>)
    requires
        queue.wf(),
    ensures
        queue.push(item).wf(),
        queue.push_all(items).wf(),
        queue.drained().wf(),
    decreases items.len(),
{
    if items.len() > 0 {
        lemma_operations_keep_wf(queue, item, items.drop_last());
    }
}

/// Pushes queue up behind what waits, in the order in which they arrive,
/// until the room is used up; every later one is turned down. The capacity
/// and whether the queue is open do not change.
pub proof fn lemma_push_all(queue: QueueView, items: Seq<ItemView>)
    ensures
        queue.push_all(items).items == queue.items + items.take(
            if items.len() <= queue.room() {
                items.len() as int
            } else {
                queue.room() as int
            },
        ),
        queue.push_all(items).capacity == queue.capacity,
        queue.push_all(items).open == queue.open,
    decreases items.len(),
{
    let taken = if items.len() <= queue.room() {
        items.len() as int
    } else {
        queue.room() as int
    };
    if items.len() == 0 {
        assert(queue.items + items.take(taken) =~= queue.items);
    } else {
        let front = items.drop_last();
        lemma_push_all(queue, front);
        if items.len() <= queue.room() {
            assert(front.take(front.len() as int) =~= front);
            assert(items.take(taken) =~= front.push(items.last()));
            assert(queue.items + items.take(taken) =~= (queue.items + front).push(items.last()));
        } else {
            assert(items.take(taken) =~= front.take(taken));
        }
    }
}

/// Whatever the order in which the pushes of several producers reach an
/// empty, open queue with room for all of them, a drain returns the pushed
/// items in that order. So it returns a permutation of them, and the items
/// of each producer come out in the order in which that producer pushed.
pub proof fn lemma_drain_keeps_each_producers_order(
    queue: QueueView,
    pushes: Seq<Push>,
    producer: int,
)
    requires
        queue.open,
        queue.items.len() == 0,
        pushes.len() <= queue.capacity,
    ensures
        ({
            let drained = queue.push_all(pushed_items(pushes)).items;
            &&& drained == pushed_items(pushes)
            &&& drained.to_multiset() == pushed_items(pushes).to_multiset()
            &&& items_of(attributed(pushes, drained), producer) == items_of(pushes, producer)
        }),
{
    let items = pushed_items(pushes);
    let drained = queue.push_all(items).items;
    lemma_push_all(queue, items);
    assert(items.take(items.len() as int) =~= items);
    assert(queue.items + items =~= items);
    assert(attributed(pushes, drained) =~= pushes);
}

/// After a drain nothing waits, and a second drain finds nothing.
pub proof fn lemma_drain_empties(queue: QueueView)
    ensures
        queue.drained().items == Seq::<ItemView>::empty(),
        queue.drained().drained() == queue.drained(),
{
}

} // verus!
