//! The polling daemon's paging state machine: one tick walks the
//! conversation list page by page, dispatching for every conversation that
//! carries a recipient contact, until an empty page ends the tick. The
//! timer and the network calls around it are the caller's affair.

use vstd::prelude::*;

use crate::models::Conversation;

verus! {

/// Paging state of one tick: the next offset to fetch and the fixed batch
/// size.
#[derive(Debug, PartialEq, Eq, Structural)]
pub struct CycleState {
    pub offset: u32,
    pub batch_size: u32,
}

/// Starts a tick at offset zero.
pub fn cycle_start(batch_size: u32) -> (s: CycleState)
    ensures
        s.offset == 0,
        s.batch_size == batch_size,
{
    CycleState { offset: 0, batch_size }
}

/// True exactly when a conversation is to be dispatched in the daemon
/// walk: it carries a recipient-side contact.
pub open spec fn spec_should_dispatch(c: Conversation) -> bool {
    c.to_contact is Some
}

/// What one fetched page means for the tick.
#[derive(Debug)]
pub enum CycleStep {
    /// The page was empty: the tick is over.
    Finished,
    /// Dispatch for the conversations at these positions (in page order),
    /// then fetch the next page.
    ProcessPage { targets: Vec<usize> },
}

/// Digests one fetched page: an empty page finishes the tick and leaves
/// the state alone; otherwise the offset advances by the batch size and
/// the step lists exactly the positions of the conversations that carry a
/// recipient contact, in page order.
pub fn on_page(s: &mut CycleState, page: &Vec<Conversation>) -> (step: CycleStep)
    requires
        old(s).offset + old(s).batch_size <= u32::MAX,
    ensures
        page@.len() == 0 ==> step == CycleStep::Finished && *final(s) == *old(s),
        page@.len() > 0 ==> final(s).offset == old(s).offset + old(s).batch_size,
        page@.len() > 0 ==> final(s).batch_size == old(s).batch_size,
        page@.len() > 0 ==> (step matches CycleStep::ProcessPage { targets } && {
            &&& forall|k: int|
                0 <= k < targets@.len() ==> 0 <= targets@[k] < page@.len() && spec_should_dispatch(
                    page@[targets@[k] as int],
                )
            &&& forall|k1: int, k2: int|
                0 <= k1 < k2 < targets@.len() ==> targets@[k1] < targets@[k2]
            &&& forall|j: int|
                0 <= j < page@.len() && spec_should_dispatch(page@[j]) ==> exists|k: int|
                    0 <= k < targets@.len() && targets@[k] == j
        }),
{
    if page.len() == 0 {
        return CycleStep::Finished;
    }
    let mut targets: Vec<usize> = Vec::new();
    let mut i: usize = 0;
    while i < page.len()
        invariant
            i <= page@.len(),
            forall|k: int|
                0 <= k < targets@.len() ==> 0 <= targets@[k] < i && spec_should_dispatch(
                    page@[targets@[k] as int],
                ),
            forall|k1: int, k2: int|
                0 <= k1 < k2 < targets@.len() ==> targets@[k1] < targets@[k2],
            forall|j: int|
                0 <= j < i && spec_should_dispatch(page@[j]) ==> exists|k: int|
                    0 <= k < targets@.len() && targets@[k] == j,
        decreases page@.len() - i,
    {
        let dispatch = match &page[i].to_contact {
            Some(_) => true,
            None => false,
        };
        let ghost t0 = targets@;
        if dispatch {
            targets.push(i);
        }
        i = i + 1;
        proof {
            assert forall|j: int|
                0 <= j < i && spec_should_dispatch(page@[j]) implies exists|k: int|
                0 <= k < targets@.len() && targets@[k] == j by {
                if j == i - 1 {
                    assert(targets@[targets@.len() - 1] == j);
                } else {
                    let k = choose|k: int| 0 <= k < t0.len() && t0[k] == j;
                    assert(targets@[k] == j);
                }
            }
        }
    }
    s.offset = s.offset + s.batch_size;
    CycleStep::ProcessPage { targets }
}

} // verus!
