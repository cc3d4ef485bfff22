//! The managed resource and its status model.
//!
//! `Cat` is the cluster-side object the operator reconciles: metadata the
//! cluster maintains, the user-supplied desired spec, and the operator-owned
//! status. Every type carries a mathematical view so that contracts can speak
//! about its contents.

use vstd::prelude::*;

verus! {

/// The metadata fields of a managed resource that the reconciler reads.
#[derive(Debug, Clone, PartialEq)]
pub struct Metadata {
    /// The resource name; required for any API call against the cluster.
    pub name: Option<String>,
    /// Monotonic counter the cluster bumps on every spec change.
    pub generation: Option<i64>,
    /// Finalizer tokens; the operator's own token blocks garbage collection.
    pub finalizers: Option<Vec<String>>,
    /// Set once the resource is pending deletion (epoch seconds).
    pub deletion_timestamp: Option<i64>,
}

pub ghost struct MetadataView {
    pub name: Option<Seq<char>>,
    pub generation: Option<i64>,
    pub finalizers: Option<Seq<Seq<char>>>,
    pub deletion_timestamp: Option<i64>,
}

impl View for Metadata {
    type V = MetadataView;

    open spec fn view(&self) -> MetadataView {
        MetadataView {
            name: self.name.deep_view(),
            generation: self.generation,
            finalizers: match self.finalizers {
                Some(f) => Some(f.deep_view()),
                None => None,
            },
            deletion_timestamp: self.deletion_timestamp,
        }
    }
}

/// The desired state supplied by the user.
#[derive(Debug, Clone, PartialEq)]
pub struct CatSpec {
    pub name: String,
    pub breed: String,
    pub age: i32,
}

pub ghost struct CatSpecView {
    pub name: Seq<char>,
    pub breed: Seq<char>,
    pub age: i32,
}

impl View for CatSpec {
    type V = CatSpecView;

    open spec fn view(&self) -> CatSpecView {
        CatSpecView { name: self.name@, breed: self.breed@, age: self.age }
    }
}

/// One timestamped observation of a reconciliation outcome.
#[derive(Debug, Clone, PartialEq)]
pub struct Condition {
    /// Category of the observation, e.g. "AvailableCreated".
    pub type_: String,
    /// Tri-state outcome: "True", "False" or "Unknown".
    pub status: String,
    /// Short machine token naming the cause.
    pub reason: String,
    /// Human-readable description.
    pub message: String,
    /// Timestamp set when the condition was created (epoch seconds).
    pub last_transition_time: i64,
    /// The generation the condition corresponds to, when known.
    pub observed_generation: Option<i64>,
}

pub ghost struct ConditionView {
    pub type_: Seq<char>,
    pub status: Seq<char>,
    pub reason: Seq<char>,
    pub message: Seq<char>,
    pub last_transition_time: i64,
    pub observed_generation: Option<i64>,
}

impl View for Condition {
    type V = ConditionView;

    open spec fn view(&self) -> ConditionView {
        ConditionView {
            type_: self.type_@,
            status: self.status@,
            reason: self.reason@,
            message: self.message@,
            last_transition_time: self.last_transition_time,
            observed_generation: self.observed_generation,
        }
    }
}

/// The operator-owned status of a managed resource.
#[derive(Debug, Clone, PartialEq)]
pub struct CatStatus {
    /// Reference to the remote entity; absent until first successful creation.
    pub uuid: Option<String>,
    /// The generation as of the last successful reconciliation.
    pub observed_generation: Option<i64>,
    /// Append-only record of reconciliation outcomes.
    pub conditions: Vec<Condition>,
}

pub ghost struct CatStatusView {
    pub uuid: Option<Seq<char>>,
    pub observed_generation: Option<i64>,
    pub conditions: Seq<ConditionView>,
}

impl View for CatStatus {
    type V = CatStatusView;

    open spec fn view(&self) -> CatStatusView {
        CatStatusView {
            uuid: self.uuid.deep_view(),
            observed_generation: self.observed_generation,
            conditions: self.conditions.deep_view(),
        }
    }
}

impl DeepView for CatStatus {
    type V = CatStatusView;

    open spec fn deep_view(&self) -> CatStatusView {
        self.view()
    }
}

impl DeepView for Condition {
    type V = ConditionView;

    open spec fn deep_view(&self) -> ConditionView {
        self.view()
    }
}

/// The managed resource: a cluster object describing one desired remote cat.
#[derive(Debug, Clone, PartialEq)]
pub struct Cat {
    pub metadata: Metadata,
    pub spec: CatSpec,
    pub status: Option<CatStatus>,
}

pub ghost struct CatView {
    pub metadata: MetadataView,
    pub spec: CatSpecView,
    pub status: Option<CatStatusView>,
}

impl View for Cat {
    type V = CatView;

    open spec fn view(&self) -> CatView {
        CatView {
            metadata: self.metadata@,
            spec: self.spec@,
            status: match self.status {
                Some(s) => Some(s@),
                None => None,
            },
        }
    }
}

} // verus!
