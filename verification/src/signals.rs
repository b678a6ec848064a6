use vstd::prelude::*;

verus! {

/// The sending half of a channel of signals.
pub type SignalSender = crossbeam_channel::Sender<Signal>;

/// The receiving half of a channel of signals.
pub type SignalReceiver = crossbeam_channel::Receiver<Signal>;

/// An occurrence that other parts of the system react to.
#[derive(PartialEq, Eq, Debug)]
pub enum Signal {
    /// The camera should deliver frames again.
    StartCamera,
    /// The camera should stop delivering frames.
    StopCamera,
    MotionCaptureStarted,
    /// A clip was written; the string is what the writer returned for it.
    MotionCaptured(String),
}

impl Clone for Signal {
    fn clone(&self) -> (copy: Self)
        ensures
            copy == *self,
    {
        match self {
            Signal::StartCamera => Signal::StartCamera,
            Signal::StopCamera => Signal::StopCamera,
            Signal::MotionCaptureStarted => Signal::MotionCaptureStarted,
            Signal::MotionCaptured(artifact) => Signal::MotionCaptured(artifact.clone()),
        }
    }
}

impl Signal {
    /// Whether the camera runs after this signal, given whether it ran before.
    pub open spec fn spec_camera_running(self, running: bool) -> bool {
        match self {
            Signal::StartCamera => true,
            Signal::StopCamera => false,
            _ => running,
        }
    }

    /// Applies a control signal to the capture gate: `StartCamera` opens it,
    /// `StopCamera` closes it, every other signal leaves it as it was.
    pub fn camera_running(&self, running: bool) -> (after: bool)
        ensures
            after == self.spec_camera_running(running),
    {
        match self {
            Signal::StartCamera => true,
            Signal::StopCamera => false,
            _ => running,
        }
    }
}

/// A copy of a signal is the signal.
pub proof fn lemma_signal_copy_is_signal(signal: Signal, copy: Signal)
    requires
        cloned(signal, copy),
    ensures
        copy == signal,
{
}

} // verus!
