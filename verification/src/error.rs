//! What can go wrong with a throbber.

use vstd::prelude::*;

verus! {

/// The failures of a throbber.
#[derive(Clone, Copy, Debug, PartialEq, Eq, Structural)]
pub enum ThrobberError {
    /// An empty frame table was supplied. It is never installed.
    InvalidConfig,
    /// A command was enqueued after the worker had already gone.
    ChannelClosed,
    /// The worker ended abnormally in the middle of its work.
    WorkerPanic,
}

impl ThrobberError {
    /// Whether the failure is passed over in silence. Only a closed channel is:
    /// the animation it was meant for is already gone.
    pub open spec fn silent(self) -> bool {
        self == ThrobberError::ChannelClosed
    }

    /// Whether the failure is passed over in silence.
    pub fn is_silent(&self) -> (silent: bool)
        ensures
            silent == self.silent(),
    {
        match self {
            ThrobberError::ChannelClosed => true,
            _ => false,
        }
    }

    /// What the caller of an operation is told when carrying it out met this
    /// failure: nothing of a silent one, and every other failure as it is.
    pub fn surface(self) -> (outcome: Result<(), ThrobberError>)
        ensures
            outcome == (if self.silent() {
                Ok::<(), ThrobberError>(())
            } else {
                Err::<(), ThrobberError>(self)
            }),
    {
        if self.is_silent() {
            Ok(())
        } else {
            Err(self)
        }
    }
}


} // verus!
