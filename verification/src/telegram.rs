//! What the chat bot decides: which commands it obeys and which signals it
//! reports.

use vstd::prelude::*;
use crate::signals::Signal;

verus! {

/// A command that the bot understands.
#[derive(Clone, Copy, PartialEq, Eq, Structural, Debug)]
pub enum Command {
    StopCamera,
    StartCamera,
}

impl Command {
    /// The signal that carries the command to the camera.
    pub open spec fn spec_signal(self) -> Signal {
        match self {
            Command::StopCamera => Signal::StopCamera,
            Command::StartCamera => Signal::StartCamera,
        }
    }

    /// Executable form of [`Command::spec_signal`].
    pub fn signal(&self) -> (signal: Signal)
        ensures
            signal == self.spec_signal(),
    {
        match self {
            Command::StopCamera => Signal::StopCamera,
            Command::StartCamera => Signal::StartCamera,
        }
    }
}

/// The signal that a message calls for. Only the chat that the bot serves is
/// obeyed, and only where the message's text is a command.
pub open spec fn spec_requested_signal(own_chat: i64, chat: i64, command: Option<Command>)
    -> Option<Signal> {
    match command {
        Some(command) if chat == own_chat => Some(command.spec_signal()),
        _ => None,
    }
}

/// Executable form of [`spec_requested_signal`].
pub fn requested_signal(own_chat: i64, chat: i64, command: Option<Command>) -> (signal: Option<
    Signal,
>)
    ensures
        signal == spec_requested_signal(own_chat, chat, command),
{
    if chat != own_chat {
        return None;
    }
    match command {
        Some(command) => Some(command.signal()),
        None => None,
    }
}

/// The clip that a signal gives the bot to report: the identifier of a
/// captured motion, and nothing for every other signal.
pub fn reported_clip(signal: &Signal) -> (artifact: Option<&String>)
    ensures
        match artifact {
            Some(path) => *signal == Signal::MotionCaptured(*path),
            None => !(signal is MotionCaptured),
        },
{
    match signal {
        Signal::MotionCaptured(path) => Some(path),
        _ => None,
    }
}

} // verus!
