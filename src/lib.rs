//! Interactive incremental search over a stream of text lines.
//!
//! The library holds the logic of the tool: the bounded store of recent
//! lines, the query matcher and highlighter, the ingestion decisions, the
//! keymaps of both modes, the mode controller and the anchored renderer's
//! drawing plans. Terminal and process I/O live outside it.

use vstd::prelude::*;

pub mod archived;
pub mod ingest;
pub mod keys;
pub mod matcher;
pub mod sig;
pub mod store;
pub mod terminal;
pub mod text;

verus! {

/// The outcome of one input event in streaming mode.
#[derive(Clone, Copy, Debug, PartialEq, Eq, Structural)]
pub enum Signal {
    /// Keep the current session running.
    Continue,
    /// Freeze the store and search it in archived mode.
    GotoArchived,
    /// Restart streaming from the same command.
    GotoStreaming,
}

/// The two modes of the tool.
#[derive(Clone, Copy, Debug, PartialEq, Eq, Structural)]
pub enum Mode {
    Streaming,
    Archived,
}

/// The mode that follows a streaming session given the signal of its last
/// event: `None` while the session goes on.
pub open spec fn next_mode_spec(signal: Signal) -> Option<Mode> {
    match signal {
        Signal::Continue => None,
        Signal::GotoArchived => Some(Mode::Archived),
        Signal::GotoStreaming => Some(Mode::Streaming),
    }
}

/// Decides what follows a streaming session's event: the session goes on
/// for `Continue`; it ends and archived mode starts for `GotoArchived`; it
/// ends and a fresh streaming session starts for `GotoStreaming`.
pub fn next_mode(signal: Signal) -> (r: Option<Mode>)
    ensures
        r == next_mode_spec(signal),
{
    match signal {
        Signal::Continue => None,
        Signal::GotoArchived => Some(Mode::Archived),
        Signal::GotoStreaming => Some(Mode::Streaming),
    }
}

/// The settings of a run.
pub struct Args {
    /// Bound on one read from the line source, in milliseconds.
    pub retrieval_timeout_millis: u64,
    /// Interval between render cycles, in milliseconds.
    pub render_interval_millis: u64,
    /// Capacity of the line store.
    pub queue_capacity: usize,
    /// Start in archived mode.
    pub archived: bool,
    /// Case-insensitive matching (archived mode).
    pub case_insensitive: bool,
    /// Command to run as the line source, and to rerun on retry.
    pub cmd: Option<String>,
}

impl Default for Args {
    fn default() -> (r: Args)
        ensures
            r.retrieval_timeout_millis == 10,
            r.render_interval_millis == 10,
            r.queue_capacity == 1000,
            !r.archived,
            !r.case_insensitive,
            r.cmd is None,
    {
        Args {
            retrieval_timeout_millis: 10,
            render_interval_millis: 10,
            queue_capacity: 1000,
            archived: false,
            case_insensitive: false,
            cmd: None,
        }
    }
}

} // verus!
