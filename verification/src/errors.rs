//! The operator's error taxonomy.
//!
//! Cluster-side write failures wrap the underlying `ClusterError`; remote
//! service failures are summarised entity-free in `ApiErrorInfo` so that the
//! reconciler can report the original cause without dragging the per-operation
//! entity type along.

use crate::cluster::{ClusterError, ClusterErrorView};
use vstd::prelude::*;

verus! {

/// An entity-free summary of a remote service error: which layer failed and
/// the message or HTTP status it reported.
#[derive(Debug, Clone, PartialEq)]
pub enum ApiErrorInfo {
    /// Transport failure (network or connection).
    Reqwest(String),
    /// The response body could not be deserialized.
    Serde(String),
    /// Local I/O failure while handling the exchange.
    Io(String),
    /// The service answered with an error status and body.
    Response(u16, String),
}

pub ghost enum ApiErrorInfoView {
    Reqwest(Seq<char>),
    Serde(Seq<char>),
    Io(Seq<char>),
    Response(u16, Seq<char>),
}

impl View for ApiErrorInfo {
    type V = ApiErrorInfoView;

    open spec fn view(&self) -> ApiErrorInfoView {
        match self {
            ApiErrorInfo::Reqwest(m) => ApiErrorInfoView::Reqwest(m@),
            ApiErrorInfo::Serde(m) => ApiErrorInfoView::Serde(m@),
            ApiErrorInfo::Io(m) => ApiErrorInfoView::Io(m@),
            ApiErrorInfo::Response(s, m) => ApiErrorInfoView::Response(*s, m@),
        }
    }
}

/// Everything that can go wrong during one reconciliation.
#[derive(Debug, Clone, PartialEq)]
pub enum OperatorError {
    /// A required identity field (the resource name) is missing; never retried.
    InvalidResourceState(String),
    /// A merge-patch of the main resource failed.
    FailedToPatchResource(ClusterError),
    /// The status subresource could not be written; `ClusterError::Conflict`
    /// here means the bounded conflict retry was exhausted.
    FailedToUpdateStatus(ClusterError),
    /// A full-object replace failed.
    FailedToUpdateResource(ClusterError),
    /// The remote service call failed.
    RemoteApiError(ApiErrorInfo),
}

pub ghost enum OperatorErrorView {
    InvalidResourceState(Seq<char>),
    FailedToPatchResource(ClusterErrorView),
    FailedToUpdateStatus(ClusterErrorView),
    FailedToUpdateResource(ClusterErrorView),
    RemoteApiError(ApiErrorInfoView),
}

impl View for OperatorError {
    type V = OperatorErrorView;

    open spec fn view(&self) -> OperatorErrorView {
        match self {
            OperatorError::InvalidResourceState(m) => OperatorErrorView::InvalidResourceState(m@),
            OperatorError::FailedToPatchResource(e) => OperatorErrorView::FailedToPatchResource(
                e@,
            ),
            OperatorError::FailedToUpdateStatus(e) => OperatorErrorView::FailedToUpdateStatus(e@),
            OperatorError::FailedToUpdateResource(e) => OperatorErrorView::FailedToUpdateResource(
                e@,
            ),
            OperatorError::RemoteApiError(i) => OperatorErrorView::RemoteApiError(i@),
        }
    }
}

} // verus!
