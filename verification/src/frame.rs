//! The end of a frame: what goes to the device.

use vstd::prelude::*;
use crate::error::PassError;
use crate::queue::{item_views, CommandBufferQueue, CommandQueueItem, ItemView};

verus! {

/// Whether one of the errors gives the whole frame up.
pub open spec fn any_fatal(errors: Seq<PassError>) -> bool {
    exists|i: int| 0 <= i < errors.len() && (#[trigger] errors[i]).spec_is_fatal()
}

/// Ends a frame. The queue is drained in any case. What it held is
/// returned for submission, oldest first, unless one of the errors that the
/// passes reported is fatal: then nothing is submitted, rather than a part
/// of a frame.
pub fn collect_submission(queue: &mut CommandBufferQueue, errors: &Vec<PassError>) -> (submission:
    Vec<CommandQueueItem>)
    ensures
        final(queue)@ == old(queue)@.drained(),
        item_views(submission@) == if any_fatal(errors@) {
            Seq::<ItemView>::empty()
        } else {
            old(queue)@.items
        },
{
    let items = queue.drain_in_order();
    let mut i: usize = 0;
    while i < errors.len()
        invariant
            i <= errors@.len(),
            queue@ == old(queue)@.drained(),
            item_views(items@) == old(queue)@.items,
            forall|j: int| 0 <= j < i ==> !(#[trigger] errors@[j]).spec_is_fatal(),
        decreases errors@.len() - i,
    {
        if errors[i].is_fatal() {
            let nothing: Vec<CommandQueueItem> = Vec::new();
            assert(item_views(nothing@) =~= Seq::<ItemView>::empty());
            return nothing;
        }
        i += 1;
    }
    items
}

} // verus!
