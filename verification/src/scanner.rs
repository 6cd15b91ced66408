//! The adaptive backfill scanner: a window over the blocks between contract
//! creation and indexer start-up that doubles after every answered query and
//! shrinks to the minimum after every failed one.
//!
//! Both ends of a window belong to its query. After an answer the next
//! window starts one block behind the end of the answered one, so that
//! windows never overlap and no block is answered twice.
//!
//! The scanner itself performs no query. It says which range to ask for
//! next and is told how the query went.

use vstd::prelude::*;
use crate::log::{LogFilter, RawLog};
use crate::publisher::{normalize_all, normalized_all, views_of, OutboundMessage, OutboundMessageView};

verus! {

/// The block range of one query, both ends included, and the step that
/// produced it.
#[derive(Clone, Copy, Debug, PartialEq, Eq)]
pub struct ScanWindow {
    pub start_block: u64,
    pub end_block: u64,
    pub step: u64,
}

/// Why a range query gave no logs.
#[derive(Clone, Copy, Debug, PartialEq, Eq)]
pub enum ScanError {
    /// The source refused the query, for instance because the range was too large.
    QueryRejected,
    /// The request did not complete.
    Transport,
}

/// Progress of the backfill. `window` is the range to query next; it is
/// `None` once every block up to `startup_block` has been answered.
#[derive(Clone, Copy, Debug, PartialEq, Eq)]
pub struct Backfill {
    pub creation_block: u64,
    pub startup_block: u64,
    pub window: Option<ScanWindow>,
}

/// What the log source answered to one range query.
#[derive(Clone, Debug, PartialEq, Eq)]
pub enum QueryResponse {
    /// The logs of the range, in ascending block order.
    Logs(Vec<RawLog>),
    /// No answer; the query has to be asked again.
    Failed(ScanError),
}

/// The backfill scanner: the progress over the block range together with the
/// filter that every query carries.
#[derive(Clone, Copy, Debug, PartialEq, Eq)]
pub struct Scanner {
    /// Contract and event signature; its block range is left open.
    pub filter: LogFilter,
    pub progress: Backfill,
}

impl ScanWindow {
    /// The window that starts at `start` and reaches `step` blocks further,
    /// cut off at `startup`.
    pub open spec fn spanning(start: u64, step: u64, startup: u64) -> ScanWindow {
        ScanWindow {
            start_block: start,
            end_block: if start + step <= startup {
                (start + step) as u64
            } else {
                startup
            },
            step,
        }
    }

    fn span(start: u64, step: u64, startup: u64) -> (w: ScanWindow)
        requires
            start <= startup,
        ensures
            w == ScanWindow::spanning(start, step, startup),
    {
        let end_block = if step <= startup - start {
            start + step
        } else {
            startup
        };
        ScanWindow { start_block: start, end_block, step }
    }
}

impl Backfill {
    /// The state before the first query: step one, starting at the creation
    /// block. With nothing to scan the backfill is complete at once.
    pub open spec fn initial(creation_block: u64, startup_block: u64) -> Backfill {
        Backfill {
            creation_block,
            startup_block,
            window: if creation_block <= startup_block {
                Some(ScanWindow::spanning(creation_block, 1, startup_block))
            } else {
                None
            },
        }
    }

    /// What holds of every state the scanner can reach: the window lies
    /// between creation and start-up, it is the span of its start and step,
    /// and the step is at least one and no larger than doubling from one
    /// could have made it on the way from the creation block.
    pub open spec fn wf(self) -> bool {
        match self.window {
            None => true,
            Some(w) => {
                &&& self.creation_block <= w.start_block <= self.startup_block
                &&& 1 <= w.step <= w.start_block - self.creation_block + 1
                &&& w == ScanWindow::spanning(w.start_block, w.step, self.startup_block)
            },
        }
    }

    /// The state after the query for the current window was answered: the
    /// next window starts behind the answered one with twice the step, or
    /// the backfill is complete when the answered window reached start-up.
    pub open spec fn after_success(self) -> Backfill {
        match self.window {
            None => self,
            Some(w) => if w.end_block >= self.startup_block {
                Backfill { window: None, ..self }
            } else {
                Backfill {
                    window: Some(
                        ScanWindow::spanning(
                            (w.end_block + 1) as u64,
                            (2 * w.step) as u64,
                            self.startup_block,
                        ),
                    ),
                    ..self
                }
            },
        }
    }

    /// The state after the query for the current window failed: same start,
    /// step one.
    pub open spec fn after_failure(self) -> Backfill {
        match self.window {
            None => self,
            Some(w) => Backfill {
                window: Some(ScanWindow::spanning(w.start_block, 1, self.startup_block)),
                ..self
            },
        }
    }

    /// The range to ask the log source for, both ends included.
    pub open spec fn spec_next_query(&self) -> Option<(u64, u64)> {
        match self.window {
            None => None,
            Some(w) => Some((w.start_block, w.end_block)),
        }
    }

    /// Whether every block up to start-up has been answered.
    pub open spec fn spec_is_complete(&self) -> bool {
        self.window is None
    }

    /// Starts a backfill from `creation_block` to `startup_block`, both included.
    pub fn new(creation_block: u64, startup_block: u64) -> (scan: Backfill)
        ensures
            scan == Backfill::initial(creation_block, startup_block),
            scan.wf(),
    {
        let window = if creation_block <= startup_block {
            Some(ScanWindow::span(creation_block, 1, startup_block))
        } else {
            None
        };
        Backfill { creation_block, startup_block, window }
    }

    /// Whether the state is one the scanner can reach. Everything that
    /// `new`, `on_success` and `on_failure` produce is.
    pub fn is_well_formed(&self) -> (ok: bool)
        ensures
            ok == self.wf(),
    {
        match self.window {
            None => true,
            Some(w) => {
                if w.start_block < self.creation_block || w.start_block > self.startup_block {
                    return false;
                }
                if w.step < 1 || w.step - 1 > w.start_block - self.creation_block {
                    return false;
                }
                w.end_block == ScanWindow::span(w.start_block, w.step, self.startup_block).end_block
            },
        }
    }

    /// Whether every block up to start-up has been answered.
    #[verifier::when_used_as_spec(spec_is_complete)]
    pub fn is_complete(&self) -> (done: bool)
        ensures
            done == self.spec_is_complete(),
    {
        self.window.is_none()
    }

    /// The range to ask the log source for, both ends included; `None` when
    /// the backfill is complete.
    #[verifier::when_used_as_spec(spec_next_query)]
    pub fn next_query(&self) -> (range: Option<(u64, u64)>)
        ensures
            range == self.spec_next_query(),
    {
        match self.window {
            None => None,
            Some(w) => Some((w.start_block, w.end_block)),
        }
    }

    /// Records that the query for the current window was answered.
    pub fn on_success(&mut self)
        requires
            old(self).wf(),
        ensures
            *final(self) == old(self).after_success(),
            final(self).wf(),
    {
        match self.window {
            None => {},
            Some(w) => {
                if w.end_block >= self.startup_block {
                    self.window = None;
                } else {
                    self.window = Some(
                        ScanWindow::span(w.end_block + 1, 2 * w.step, self.startup_block),
                    );
                }
            },
        }
    }

    /// Records that the query for the current window failed.
    pub fn on_failure(&mut self)
        requires
            old(self).wf(),
        ensures
            *final(self) == old(self).after_failure(),
            final(self).wf(),
    {
        match self.window {
            None => {},
            Some(w) => {
                self.window = Some(ScanWindow::span(w.start_block, 1, self.startup_block));
            },
        }
    }
}

impl Scanner {
    /// The query to put to the log source next; `None` when the backfill is complete.
    pub open spec fn spec_next_query(&self) -> Option<LogFilter> {
        match self.progress.window {
            None => None,
            Some(w) => Some(self.filter.spec_within(w.start_block, w.end_block)),
        }
    }

    /// The messages that an answer carrying `logs` gives to publish: those of
    /// the logs that decode, in the order of the answer, and none when no
    /// query was open.
    pub open spec fn to_publish(self, logs: Seq<RawLog>) -> Seq<OutboundMessageView> {
        if self.progress.window is Some {
            normalized_all(logs, self.filter.topic0@)
        } else {
            Seq::empty()
        }
    }

    /// A scanner for the blocks from `creation_block` to `startup_block`,
    /// both included, before its first query.
    pub fn new(filter: LogFilter, creation_block: u64, startup_block: u64) -> (scanner: Scanner)
        ensures
            scanner.filter == filter,
            scanner.progress == Backfill::initial(creation_block, startup_block),
            scanner.progress.wf(),
    {
        Scanner { filter, progress: Backfill::new(creation_block, startup_block) }
    }

    /// Whether every block up to start-up has been answered.
    pub fn is_complete(&self) -> (done: bool)
        ensures
            done == self.progress.is_complete(),
    {
        self.progress.is_complete()
    }

    /// The query to put to the log source next; `None` when the backfill is complete.
    #[verifier::when_used_as_spec(spec_next_query)]
    pub fn next_query(&self) -> (query: Option<LogFilter>)
        ensures
            query == self.spec_next_query(),
    {
        match self.progress.next_query() {
            None => None,
            Some((from_block, to_block)) => Some(self.filter.within(from_block, to_block)),
        }
    }

    /// Takes the answer to the query last handed out and returns the
    /// messages to publish for it, in order.
    ///
    /// An answer with logs moves the window on and doubles the step; a
    /// failure keeps the start and puts the step back to one, and gives
    /// nothing to publish. A log that does not decode is passed over.
    pub fn on_response(&mut self, response: &QueryResponse) -> (messages: Vec<OutboundMessage>)
        requires
            old(self).progress.wf(),
        ensures
            final(self).filter == old(self).filter,
            final(self).progress.wf(),
            match *response {
                QueryResponse::Logs(logs) => {
                    &&& final(self).progress == old(self).progress.after_success()
                    &&& views_of(messages@) == old(self).to_publish(logs@)
                },
                QueryResponse::Failed(_) => {
                    &&& final(self).progress == old(self).progress.after_failure()
                    &&& messages@.len() == 0
                },
            },
    {
        match response {
            QueryResponse::Logs(logs) => {
                let messages = if self.progress.is_complete() {
                    Vec::new()
                } else {
                    normalize_all(logs, &self.filter.topic0)
                };
                self.progress.on_success();
                proof {
                    assert(views_of(messages@) =~= old(self).to_publish(logs@));
                }
                messages
            },
            QueryResponse::Failed(_) => {
                self.progress.on_failure();
                Vec::new()
            },
        }
    }
}

} // verus!
