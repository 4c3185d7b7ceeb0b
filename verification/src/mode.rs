//! Resolution of a requested redirection mode into the concrete treatment
//! of one child stream: inherit the wrapper's own stream, or pipe it.

use vstd::prelude::*;

verus! {

/// How the wrapper is asked to treat one of the child's output streams.
#[derive(Clone, Copy, Debug, PartialEq, Eq, Structural)]
pub enum RedirectionMode {
    /// Connect the child's stream directly to the wrapper's own stream.
    Proxy,
    /// Own a pipe to the child's stream and re-emit each line through the
    /// logging sink.
    Capture,
    /// Behave as `Proxy` when the wrapper's corresponding output is an
    /// interactive terminal, and as `Capture` otherwise.
    CaptureForMachines,
}

/// The concrete, resolved treatment of one child stream.
#[derive(Clone, Copy, Debug, PartialEq, Eq, Structural)]
pub enum StreamDisposition {
    /// The child's stream is connected directly to the wrapper's stream;
    /// no pipe is allocated and no drainer runs.
    Inherit,
    /// A pipe is allocated; a drainer consumes its read end to end-of-file.
    Pipe,
}

/// The full disposition table: `Proxy` always inherits, `Capture` always
/// pipes, and `CaptureForMachines` inherits exactly when the destination
/// stream is an interactive terminal.
pub open spec fn resolve_spec(mode: RedirectionMode, stream_is_terminal: bool) -> StreamDisposition {
    match mode {
        RedirectionMode::Proxy => StreamDisposition::Inherit,
        RedirectionMode::Capture => StreamDisposition::Pipe,
        RedirectionMode::CaptureForMachines => if stream_is_terminal {
            StreamDisposition::Inherit
        } else {
            StreamDisposition::Pipe
        },
    }
}

/// Decides the disposition of one stream from the requested mode and the
/// terminal-ness of the wrapper's corresponding destination. Called once
/// per stream; stdout and stderr are resolved independently.
pub fn resolve(mode: RedirectionMode, stream_is_terminal: bool) -> (d: StreamDisposition)
    ensures
        d == resolve_spec(mode, stream_is_terminal),
{
    match mode {
        RedirectionMode::Proxy => StreamDisposition::Inherit,
        RedirectionMode::Capture => StreamDisposition::Pipe,
        RedirectionMode::CaptureForMachines => {
            if stream_is_terminal {
                StreamDisposition::Inherit
            } else {
                StreamDisposition::Pipe
            }
        },
    }
}

/// When the destination is not a terminal, `CaptureForMachines` resolves to
/// the same disposition as an explicit `Capture` request does for any
/// terminal state, so the same child output is captured identically.
pub proof fn lemma_capture_for_machines_matches_capture(stream_is_terminal: bool)
    ensures
        resolve_spec(RedirectionMode::CaptureForMachines, false) == resolve_spec(
            RedirectionMode::Capture,
            stream_is_terminal,
        ),
{
}

} // verus!
