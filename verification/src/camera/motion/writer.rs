use vstd::prelude::*;
use crate::signals::{Signal, SignalSender};

verus! {

/// Announces written clips: it turns what the clip writer returned into the
/// signal for the event bus and sends it there.
pub struct Writer {
    sender: SignalSender,
    sent: Ghost<Seq<Signal>>,
}

impl Writer {
    /// The signals that the event bus has taken from this writer, oldest
    /// first.
    pub closed spec fn announced(self) -> Seq<Signal> {
        self.sent@
    }

    /// The channel on which this writer announces.
    pub closed spec fn spec_sender(self) -> SignalSender {
        self.sender
    }

    /// A writer that announces on `sender` and has announced nothing.
    pub fn new(sender: SignalSender) -> (writer: Self)
        ensures
            writer.spec_sender() == sender,
            writer.announced() == Seq::<Signal>::empty(),
    {
        Self { sender, sent: Ghost(Seq::empty()) }
    }

    /// What is to be announced after an attempt to write a clip: the clip's
    /// identifier, word for word, where the clip was written; the writer's
    /// error where it was not.
    pub open spec fn spec_announcement<E>(saved: Result<String, E>) -> Result<Signal, E> {
        match saved {
            Ok(artifact) => Ok(Signal::MotionCaptured(artifact)),
            Err(error) => Err(error),
        }
    }

    /// Executable form of [`Writer::spec_announcement`].
    pub fn announcement<E>(saved: Result<String, E>) -> (announced: Result<Signal, E>)
        ensures
            announced == Self::spec_announcement(saved),
    {
        match saved {
            Ok(artifact) => Ok(Signal::MotionCaptured(artifact)),
            Err(error) => Err(error),
        }
    }

    /// The writer's record after a save that ended in `outcome`: one signal
    /// more, with the clip's identifier, where the bus took it; the record as
    /// it was where the bus is gone or the clip was not written.
    pub open spec fn spec_announced_after<E>(
        before: Seq<Signal>,
        saved: Result<String, E>,
        outcome: Result<bool, E>,
    ) -> Seq<Signal> {
        match (saved, outcome) {
            (Ok(artifact), Ok(true)) => before.push(Signal::MotionCaptured(artifact)),
            _ => before,
        }
    }

    /// Finishes a save with what the clip writer returned. A written clip is
    /// announced once on the event bus; `Ok` then tells whether the bus took
    /// the signal, and a bus that is gone is no error. A failed write is
    /// announced to nobody and its error is handed on.
    pub fn save<E>(&mut self, saved: Result<String, E>) -> (outcome: Result<bool, E>)
        ensures
            final(self).spec_sender() == old(self).spec_sender(),
            match saved {
                Ok(_) => outcome is Ok,
                Err(error) => outcome == Err::<bool, E>(error),
            },
            final(self).announced() == Self::spec_announced_after(
                old(self).announced(),
                saved,
                outcome,
            ),
    {
        match Self::announcement(saved) {
            Ok(signal) => {
                let ghost announced = signal;
                match self.sender.send(signal) {
                    Ok(_) => {
                        self.sent = Ghost(self.sent@.push(announced));
                        Ok(true)
                    },
                    Err(_) => Ok(false),
                }
            },
            Err(error) => Err(error),
        }
    }
}

/// A clip that was written, and whose announcement the bus took, is
/// announced exactly once: the writer's record grows by one signal, which is
/// `MotionCaptured` with the identifier that the clip writer returned, word
/// for word.
pub proof fn lemma_written_clip_announced_once<E>(before: Seq<Signal>, artifact: String)
    ensures
        Writer::spec_announcement(Ok::<String, E>(artifact)) == Ok::<Signal, E>(
            Signal::MotionCaptured(artifact),
        ),
        Writer::spec_announced_after(before, Ok::<String, E>(artifact), Ok::<bool, E>(true))
            == before.push(Signal::MotionCaptured(artifact)),
        Writer::spec_announced_after(
            before,
            Ok::<String, E>(artifact),
            Ok::<bool, E>(true),
        ).len() == before.len() + 1,
{
}

/// A clip that was not written, or whose announcement found the bus gone,
/// is announced to nobody.
pub proof fn lemma_nothing_else_announced<E>(
    before: Seq<Signal>,
    saved: Result<String, E>,
    outcome: Result<bool, E>,
)
    requires
        saved is Err || outcome != Ok::<bool, E>(true),
    ensures
        Writer::spec_announced_after(before, saved, outcome) == before,
{
}

} // verus!
