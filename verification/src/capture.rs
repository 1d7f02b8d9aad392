//! The slot that keeps the running capture alive.
use vstd::prelude::*;

verus! {

/// Holds the capture stream while it runs; dropping it ends the capture.
pub struct CaptureStream<S>(pub Option<S>);

impl<S> CaptureStream<S> {
    /// An empty slot: nothing is being captured.
    pub fn new() -> (r: CaptureStream<S>)
        ensures
            r.0 is None,
    {
        CaptureStream(None)
    }

    /// Keeps `stream` as the running capture, and hands back the one it
    /// replaces, which the caller drops.
    pub fn install(&mut self, stream: S) -> (previous: Option<S>)
        ensures
            final(self).0 == Some(stream),
            previous == old(self).0,
    {
        let previous = self.0.take();
        self.0 = Some(stream);
        previous
    }

    /// Ends the capture: the slot is left empty, and the stream that ran, if
    /// any, is handed back for the caller to drop.
    pub fn stop_capture(&mut self) -> (stopped: Option<S>)
        ensures
            final(self).0 is None,
            stopped == old(self).0,
    {
        self.0.take()
    }

    /// Whether a capture is running.
    pub fn is_capturing(&self) -> (r: bool)
        ensures
            r == self.0 is Some,
    {
        self.0.is_some()
    }
}

} // verus!
