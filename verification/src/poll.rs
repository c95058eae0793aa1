//! The poll loop's decisions: what one iteration does with the outcome of a
//! player query, and what state it carries to the next iteration.
//!
//! The loop itself — the fixed-delay sleep, the query over the desktop IPC
//! bus, the sends to the broker — runs in the shim around the library. Each
//! iteration it queries the player, resolves the host name, and hands both
//! outcomes to [`PollLoop::on_query`]; the step it gets back says whether to
//! abort, do nothing, or publish a list of facts in order.

use vstd::prelude::*;

use crate::detect::{is_unchanged, spec_is_unchanged};
use crate::publish::{publish_plan, spec_publish_plan, Fact};
use crate::snapshot::{Snapshot, SnapshotView};

verus! {

/// The fixed delay between iterations, in seconds: the next poll starts this
/// long after the previous one completed, with no compensation for how long
/// querying or publishing took.
pub const POLL_INTERVAL_SECS: u64 = 5;

/// The keep-alive interval of the broker connection, in seconds, so the
/// broker can detect a dead connection.
pub const KEEP_ALIVE_SECS: u64 = 5;

/// Why a player query failed.
#[derive(Clone, Copy, Debug, PartialEq, Eq, Structural)]
pub enum QueryError {
    /// The desktop IPC bus itself cannot be reached.
    PlatformUnavailable,
    /// The bus works, but no active media player was found on it.
    NoPlayerFound,
    /// A player was found but refused its current-track query.
    MetadataUnavailable,
}

/// The description each query failure is logged with, so an operator can
/// tell the kinds apart.
pub open spec fn spec_describe(e: QueryError) -> Seq<char> {
    match e {
        QueryError::PlatformUnavailable => "Could not connect to D-Bus"@,
        QueryError::NoPlayerFound => "Could not find any player"@,
        QueryError::MetadataUnavailable => "Could not get metadata for player"@,
    }
}

impl QueryError {
    /// The operator-facing description of this failure, as the process
    /// reports it when it exits.
    pub fn describe(self) -> (r: String)
        ensures
            r@ == spec_describe(self),
    {
        match self {
            QueryError::PlatformUnavailable => "Could not connect to D-Bus".to_owned(),
            QueryError::NoPlayerFound => "Could not find any player".to_owned(),
            QueryError::MetadataUnavailable => "Could not get metadata for player".to_owned(),
        }
    }
}

/// What one iteration of the poll loop does next.
pub enum IterationStep {
    /// The query failed; the error propagates and ends the process.
    Fatal(QueryError),
    /// The observation repeats the previous one; sleep and poll again.
    NoChange,
    /// The observation is new; send these facts to the broker, in order.
    Publish(Vec<Fact>),
}

/// The state the poll loop owns across iterations: the last observation that
/// was published, if any. It is replaced, never mutated, and nothing else of
/// an iteration survives into the next.
pub struct PollLoop {
    pub previous: Option<Snapshot>,
}

impl PollLoop {
    /// The previous observation as a mathematical value.
    pub open spec fn spec_previous(self) -> Option<SnapshotView> {
        self.previous.deep_view()
    }

    /// A fresh loop, with no observation published yet, so that the first
    /// successful query always publishes.
    pub fn new() -> (r: PollLoop)
        ensures
            r.spec_previous() is None,
    {
        PollLoop { previous: None }
    }

    /// Decides one iteration from the outcome of the player query and of the
    /// host-name resolution (`None` when resolution failed: the source fact
    /// is then omitted and nothing else is affected).
    ///
    /// A failed query is fatal and leaves the state untouched. An unchanged
    /// observation publishes nothing and leaves the state untouched. A
    /// changed one yields the full publish plan and replaces the stored
    /// observation at once — so if the broker then rejects a send and ends
    /// the process, the snapshot counts as consumed; a restarted process
    /// starts empty and republishes anyway.
    pub fn on_query(
        &mut self,
        result: Result<Snapshot, QueryError>,
        host: Option<String>,
    ) -> (step: IterationStep)
        ensures
            match result {
                Result::Err(e) => step == IterationStep::Fatal(e) && *final(self) == *old(self),
                Result::Ok(s) => {
                    if spec_is_unchanged(s@, old(self).spec_previous()) {
                        step == IterationStep::NoChange && *final(self) == *old(self)
                    } else {
                        (step matches IterationStep::Publish(facts)
                            && facts.deep_view() == spec_publish_plan(s@, host.deep_view()))
                            && final(self).spec_previous() == Some(s@)
                    }
                },
            },
    {
        match result {
            Result::Err(e) => IterationStep::Fatal(e),
            Result::Ok(s) => {
                if is_unchanged(&s, self.previous.as_ref()) {
                    IterationStep::NoChange
                } else {
                    let facts = publish_plan(&s, host.as_ref());
                    self.previous = Some(s);
                    IterationStep::Publish(facts)
                }
            },
        }
    }
}

} // verus!
