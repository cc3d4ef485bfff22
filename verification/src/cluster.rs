//! The narrow interface through which the operator writes to the cluster API.
//!
//! `ClusterPort` abstracts the cluster client: merge-patches of
//! `metadata.finalizers`, merge-patches of the status subresource, full-object
//! replace, and the backoff sleep between conflicting status writes. Each call
//! appends one event to a ghost journal, so callers can state exactly which
//! network writes a piece of logic performs. `MockCluster` is a programmable
//! stand-in used by tests.

use crate::types::{Cat, CatStatus, CatStatusView, CatView};
use vstd::prelude::*;

verus! {

/// A JSON merge-patch the operator sends to the cluster API.
#[derive(Debug, Clone, PartialEq)]
pub enum MergePatch {
    /// `{ "metadata": { "finalizers": [...] } }`
    Finalizers(Vec<String>),
    /// `{ "status": ... }` (against the status subresource)
    Status(Option<CatStatus>),
}

pub ghost enum MergePatchView {
    Finalizers(Seq<Seq<char>>),
    Status(Option<CatStatusView>),
}

impl View for MergePatch {
    type V = MergePatchView;

    open spec fn view(&self) -> MergePatchView {
        match self {
            MergePatch::Finalizers(f) => MergePatchView::Finalizers(f.deep_view()),
            MergePatch::Status(s) => MergePatchView::Status(s.deep_view()),
        }
    }
}

/// How the cluster API answered a write.
#[derive(Debug, Clone, PartialEq)]
pub enum ClusterError {
    /// Optimistic-concurrency conflict (HTTP 409 / resourceVersion mismatch).
    Conflict,
    /// Any other transport or API failure, with its description.
    Other(String),
}

pub ghost enum ClusterErrorView {
    Conflict,
    Other(Seq<char>),
}

impl View for ClusterError {
    type V = ClusterErrorView;

    open spec fn view(&self) -> ClusterErrorView {
        match self {
            ClusterError::Conflict => ClusterErrorView::Conflict,
            ClusterError::Other(m) => ClusterErrorView::Other(m@),
        }
    }
}

/// Classification of one write attempt, as recorded in the journal.
pub ghost enum WriteOutcome {
    Accepted,
    Conflict,
    Rejected,
}

/// The journal classification of a write result.
pub open spec fn write_outcome(r: Result<(), ClusterError>) -> WriteOutcome {
    match r {
        Ok(_) => WriteOutcome::Accepted,
        Err(ClusterError::Conflict) => WriteOutcome::Conflict,
        Err(ClusterError::Other(_)) => WriteOutcome::Rejected,
    }
}

/// One observable interaction with the cluster API.
pub ghost enum ClusterEvent {
    /// A merge-patch of the main resource, keyed by resource name.
    Patch { name: Seq<char>, patch: MergePatchView, ok: bool },
    /// A merge-patch of the status subresource.
    PatchStatus { name: Seq<char>, status: Option<CatStatusView>, outcome: WriteOutcome },
    /// A full-object replace; `result` records the server's answer.
    Replace { name: Seq<char>, resource: CatView, result: Option<CatView> },
    /// A backoff pause between conflicting status writes.
    Sleep { seconds: u64 },
}

/// A client of the cluster API.
///
/// Every implementation journals each call as one `ClusterEvent`, so the
/// contracts of the gateway above it can count and describe network writes.
/// Nothing is promised about how the cluster answers: contracts hold for
/// every outcome.
pub trait ClusterPort: Sized {
    /// All interactions this port has performed, oldest first. The default
    /// journals nothing; it is for implementations outside the verified
    /// library, about which nothing is proved.
    open spec fn events(&self) -> Seq<ClusterEvent> {
        Seq::empty()
    }

    /// Merge-patch the resource `name` with `patch`.
    fn patch(&mut self, name: &String, patch: &MergePatch) -> (r: Result<(), ClusterError>)
        ensures
            final(self).events() == old(self).events().push(ClusterEvent::Patch {
                name: name@,
                patch: patch@,
                ok: r is Ok,
            }),
    ;

    /// Merge-patch the status subresource of the resource `name`.
    fn patch_status(&mut self, name: &String, status: &Option<CatStatus>) -> (r: Result<
        (),
        ClusterError,
    >)
        ensures
            final(self).events() == old(self).events().push(ClusterEvent::PatchStatus {
                name: name@,
                status: status.deep_view(),
                outcome: write_outcome(r),
            }),
    ;

    /// Replace the whole resource `name`, returning the server's snapshot.
    fn replace(&mut self, name: &String, resource: &Cat) -> (r: Result<Cat, ClusterError>)
        ensures
            final(self).events() == old(self).events().push(ClusterEvent::Replace {
                name: name@,
                resource: resource@,
                result: match r {
                    Ok(c) => Some(c@),
                    Err(_) => None,
                },
            }),
    ;

    /// Pause before retrying a conflicting write.
    fn sleep_seconds(&mut self, seconds: u64)
        ensures
            final(self).events() == old(self).events().push(ClusterEvent::Sleep { seconds }),
    ;

    /// The process clock, as seconds past the Unix epoch; used only to stamp
    /// conditions. Reading it is not a cluster interaction.
    fn now_epoch_seconds(&mut self) -> (t: i64)
        ensures
            final(self).events() == old(self).events(),
            t >= 0,
    ;
}

/// A programmable cluster stand-in: answers each write from a script and
/// records what was asked of it.
pub struct MockCluster {
    /// Results to hand out for `patch`, in order; `Ok` once exhausted.
    pub patch_results: Vec<Result<(), ClusterError>>,
    /// Results to hand out for `patch_status`, in order; `Ok` once exhausted.
    pub patch_status_results: Vec<Result<(), ClusterError>>,
    /// Results to hand out for `replace`, in order.
    pub replace_results: Vec<Result<Cat, ClusterError>>,
    /// Every `patch` payload received.
    pub patches: Vec<MergePatch>,
    /// Every `patch_status` payload received.
    pub status_patches: Vec<Option<CatStatus>>,
    /// How many times `replace` was called.
    pub replace_calls: usize,
    /// How many seconds of backoff were requested.
    pub slept_seconds: u64,
    /// What the mock clock reads (epoch seconds); negative reads as zero.
    pub now: i64,
    /// The journal of all interactions.
    pub journal: Ghost<Seq<ClusterEvent>>,
}

impl MockCluster {
    /// A mock that accepts every write.
    pub fn new() -> (m: MockCluster)
        ensures
            m.events() == Seq::<ClusterEvent>::empty(),
    {
        MockCluster {
            patch_results: Vec::new(),
            patch_status_results: Vec::new(),
            replace_results: Vec::new(),
            patches: Vec::new(),
            status_patches: Vec::new(),
            replace_calls: 0,
            slept_seconds: 0,
            now: 0,
            journal: Ghost(Seq::empty()),
        }
    }

    /// Queue the answer for the next unanswered `patch` call.
    pub fn script_patch(&mut self, r: Result<(), ClusterError>)
        ensures
            final(self).events() == old(self).events(),
    {
        self.patch_results.push(r);
    }

    /// Queue the answer for the next unanswered `patch_status` call.
    pub fn script_patch_status(&mut self, r: Result<(), ClusterError>)
        ensures
            final(self).events() == old(self).events(),
    {
        self.patch_status_results.push(r);
    }

    /// Queue the answer for the next unanswered `replace` call.
    pub fn script_replace(&mut self, r: Result<Cat, ClusterError>)
        ensures
            final(self).events() == old(self).events(),
    {
        self.replace_results.push(r);
    }
}

impl ClusterPort for MockCluster {
    open spec fn events(&self) -> Seq<ClusterEvent> {
        self.journal@
    }

    fn patch(&mut self, name: &String, patch: &MergePatch) -> (r: Result<(), ClusterError>) {
        self.patches.push(patch.clone());
        let r: Result<(), ClusterError> = if self.patch_results.len() > 0 {
            self.patch_results.remove(0)
        } else {
            Ok(())
        };
        proof {
            self.journal@ = self.journal@.push(ClusterEvent::Patch {
                name: name@,
                patch: patch@,
                ok: r is Ok,
            });
        }
        r
    }

    fn patch_status(&mut self, name: &String, status: &Option<CatStatus>) -> (r: Result<
        (),
        ClusterError,
    >) {
        self.status_patches.push(status.clone());
        let r: Result<(), ClusterError> = if self.patch_status_results.len() > 0 {
            self.patch_status_results.remove(0)
        } else {
            Ok(())
        };
        proof {
            self.journal@ = self.journal@.push(ClusterEvent::PatchStatus {
                name: name@,
                status: status.deep_view(),
                outcome: write_outcome(r),
            });
        }
        r
    }

    fn replace(&mut self, name: &String, resource: &Cat) -> (r: Result<Cat, ClusterError>) {
        self.replace_calls = self.replace_calls.wrapping_add(1);
        let r: Result<Cat, ClusterError> = if self.replace_results.len() > 0 {
            self.replace_results.remove(0)
        } else {
            Err(ClusterError::Other(String::from_str("unscripted replace")))
        };
        proof {
            self.journal@ = self.journal@.push(ClusterEvent::Replace {
                name: name@,
                resource: resource@,
                result: match &r {
                    Ok(c) => Some(c@),
                    Err(_) => None,
                },
            });
        }
        r
    }

    fn sleep_seconds(&mut self, seconds: u64) {
        self.slept_seconds = self.slept_seconds.wrapping_add(seconds);
        proof {
            self.journal@ = self.journal@.push(ClusterEvent::Sleep { seconds });
        }
    }

    fn now_epoch_seconds(&mut self) -> (t: i64) {
        if self.now >= 0 {
            self.now
        } else {
            0
        }
    }
}

} // verus!
