//! The failures that the library reports.

use vstd::prelude::*;

verus! {

/// A field of the configuration that is not greater than zero.
#[derive(Clone, Copy, Debug, PartialEq, Eq, Structural)]
pub enum ConfigError {
    ZeroWidth,
    ZeroHeight,
    EmptyCommand,
    ZeroScrollbackSize,
    ZeroScrollbackStep,
}

/// A failure of the shadow terminal.
#[derive(Clone, Copy, Debug, PartialEq, Eq, Structural)]
pub enum ShadowTerminalError {
    /// The shutdown signal reached nobody: no receiver is left, or the bus is closed.
    ShutdownNotDelivered,
}

/// The failure of one effect, in its own words.
#[derive(Debug)]
pub struct TattoyError {
    pub message: String,
}

/// A failure of the loader. Each of them ends the loader: no effect goes on alone.
#[derive(Debug)]
pub enum LoaderError {
    /// No effect was asked for.
    NoTattoys,
    /// The name at this place of the list is not the name of an effect.
    UnknownTattoy { index: usize },
    /// The effect at this place failed to make its surface.
    Tattoy { index: usize, error: TattoyError },
    /// The surface of the effect at this place could not be handed on at once: the
    /// channel is full or closed.
    OutputRefused { index: usize },
}

/// Whether a shutdown succeeded, given whether the bus delivered the `End` message.
///
/// A shutdown signal that is not delivered can leave the child process behind, so it
/// is an error and not only a line in a log.
pub fn shutdown_outcome(delivered: bool) -> (outcome: Result<(), ShadowTerminalError>)
    ensures
        outcome == if delivered {
            Ok::<(), ShadowTerminalError>(())
        } else {
            Err::<(), ShadowTerminalError>(ShadowTerminalError::ShutdownNotDelivered)
        },
{
    if delivered {
        Ok(())
    } else {
        Err(ShadowTerminalError::ShutdownNotDelivered)
    }
}

} // verus!
