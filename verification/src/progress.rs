//! The progress bridge: an outbound queue between the pipeline and its
//! observer.
//!
//! The fetcher and the packager push notifications; the observer drains them
//! on its own schedule. Accepting a notification never fails and never waits
//! on the observer, so a slow or unreachable observer cannot slow or abort
//! the pipeline; what the observer then does with a drained event — including
//! failing to deliver it — is its own business and is swallowed there. The
//! queue loses nothing and keeps arrival order.

use vstd::prelude::*;

verus! {

/// One progress notification: a file being fetched, how many bytes of it
/// have arrived, and how many there are in all.
pub struct ProgressEvent {
    pub filename: String,
    pub downloaded: u64,
    pub total: u64,
}

/// The queue of notifications not yet drained by the observer.
pub struct ProgressBridge {
    queue: Vec<ProgressEvent>,
}

impl ProgressBridge {
    /// The notifications accepted and not yet drained, in arrival order.
    pub closed spec fn pending(&self) -> Seq<ProgressEvent> {
        self.queue@
    }

    /// A fresh bridge holds nothing.
    pub fn new() -> (b: ProgressBridge)
        ensures
            b.pending() == Seq::<ProgressEvent>::empty(),
    {
        ProgressBridge { queue: Vec::new() }
    }

    /// Accepts one notification: appended behind all earlier ones, nothing
    /// lost, nothing reordered, and no way to fail back into the pipeline.
    pub fn notify(&mut self, event: ProgressEvent)
        ensures
            final(self).pending() == old(self).pending().push(event),
    {
        self.queue.push(event);
    }

    /// Hands every pending notification to the observer, in the exact order
    /// of arrival, and keeps none of them.
    pub fn drain(&mut self) -> (events: Vec<ProgressEvent>)
        ensures
            events@ == old(self).pending(),
            final(self).pending() == Seq::<ProgressEvent>::empty(),
    {
        let mut drained: Vec<ProgressEvent> = Vec::new();
        std::mem::swap(&mut drained, &mut self.queue);
        drained
    }
}

} // verus!
