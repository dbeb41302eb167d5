//! The spectrum of the current player: which session's capture runs, the
//! refresh rates offered, and the window of the latest samples that the
//! analysis reads.
use vstd::prelude::*;

use std::collections::VecDeque;

verus! {

/// How many samples one analysis reads.
pub const FFT_SIZE: usize = 1024;

/// Checks the requested refresh rate: 20 or 30 frames a second.
pub fn validate_frame_rate(frame_rate: u8) -> (r: Result<(), String>)
    ensures
        (frame_rate == 20 || frame_rate == 30) ==> r is Ok,
        !(frame_rate == 20 || frame_rate == 30) ==> (r matches Err(e) && e@
            == "频谱刷新率只支持 20 或 30 FPS"@),
{
    if frame_rate != 20 && frame_rate != 30 {
        return Err("频谱刷新率只支持 20 或 30 FPS".to_owned());
    }
    Ok(())
}

/// The session whose spectrum is captured, if any: at most one capture
/// runs at a time.
#[derive(Debug, Clone, Copy, PartialEq, Eq, Structural)]
pub struct SpectrumSlot {
    pub active_session: Option<u64>,
}

impl SpectrumSlot {
    /// No capture.
    pub fn new() -> (r: SpectrumSlot)
        ensures
            r.active_session is None,
    {
        SpectrumSlot { active_session: None }
    }

    /// Starts capturing `session_key`; returns the capture to stop first.
    pub fn start(&mut self, session_key: u64) -> (r: Option<u64>)
        ensures
            r == old(self).active_session,
            final(self).active_session == Some(session_key),
    {
        let previous = self.active_session;
        self.active_session = Some(session_key);
        previous
    }

    /// Stops the capture; returns the one to stop.
    pub fn stop(&mut self) -> (r: Option<u64>)
        ensures
            r == old(self).active_session,
            final(self).active_session is None,
    {
        let previous = self.active_session;
        self.active_session = None;
        previous
    }

    /// Stops the capture only where it belongs to `expected_session_key`, so
    /// that a late stop request never stops a newer player's capture.
    pub fn stop_session(&mut self, expected_session_key: u64) -> (r: Option<u64>)
        ensures
            old(self).active_session == Some(expected_session_key) ==> r == Some(
                expected_session_key,
            ) && final(self).active_session is None,
            old(self).active_session != Some(expected_session_key) ==> r is None
                && final(self).active_session == old(self).active_session,
    {
        if self.active_session == Some(expected_session_key) {
            self.active_session = None;
            Some(expected_session_key)
        } else {
            None
        }
    }
}

/// The window kept after pushing `x`: the latest `capacity` samples.
pub open spec fn window_after<T>(w: Seq<T>, x: T, capacity: nat) -> Seq<T> {
    if w.len() < capacity {
        w.push(x)
    } else {
        w.push(x).skip(w.len() + 1 - capacity)
    }
}

/// The latest samples, up to a fixed capacity, in arrival order.
#[derive(Debug)]
pub struct SampleWindow<T> {
    samples: VecDeque<T>,
    capacity: usize,
}

impl<T: Copy> SampleWindow<T> {
    /// The samples in arrival order.
    pub closed spec fn view_seq(&self) -> Seq<T> {
        self.samples@
    }

    pub closed spec fn spec_capacity(&self) -> nat {
        self.capacity as nat
    }

    /// The window is well formed.
    pub closed spec fn wf(&self) -> bool {
        &&& self.capacity > 0
        &&& self.samples@.len() <= self.capacity
    }

    /// An empty window.
    pub fn new(capacity: usize) -> (r: SampleWindow<T>)
        requires
            capacity > 0,
        ensures
            r.wf(),
            r.view_seq().len() == 0,
            r.spec_capacity() == capacity,
    {
        SampleWindow { samples: VecDeque::new(), capacity }
    }

    /// How many samples are held.
    pub fn len(&self) -> (r: usize)
        requires
            self.wf(),
        ensures
            r == self.view_seq().len(),
    {
        self.samples.len()
    }

    /// Adds a sample; the oldest one leaves where the window is full.
    pub fn push(&mut self, x: T)
        requires
            old(self).wf(),
        ensures
            final(self).wf(),
            final(self).spec_capacity() == old(self).spec_capacity(),
            final(self).view_seq() == window_after(old(self).view_seq(), x, old(self).spec_capacity()),
    {
        let ghost w = self.samples@;
        if self.samples.len() == self.capacity {
            self.samples.pop_front();
            self.samples.push_back(x);
            proof {
                assert(self.samples@ =~= w.push(x).skip(1));
            }
        } else {
            self.samples.push_back(x);
        }
    }

    /// The samples in arrival order.
    pub fn to_vec(&self) -> (r: Vec<T>)
        requires
            self.wf(),
        ensures
            r@ == self.view_seq(),
    {
        let mut r: Vec<T> = Vec::new();
        let mut i: usize = 0;
        while i < self.samples.len()
            invariant
                i <= self.samples@.len(),
                r@ == self.samples@.take(i as int),
            decreases self.samples.len() - i,
        {
            r.push(self.samples[i]);
            i += 1;
            proof {
                assert(r@ =~= self.samples@.take(i as int));
            }
        }
        proof {
            assert(self.samples@.take(i as int) =~= self.samples@);
        }
        r
    }
}

/// Pushing into a window keeps the latest samples: the window never holds
/// more than its capacity, and the pushed sample is its newest.
pub proof fn lemma_window_keeps_latest<T>(w: Seq<T>, x: T, capacity: nat)
    requires
        capacity > 0,
        w.len() <= capacity,
    ensures
        window_after(w, x, capacity).len() <= capacity,
        window_after(w, x, capacity).last() == x,
        w.len() < capacity ==> window_after(w, x, capacity).len() == w.len() + 1,
{
}

} // verus!
