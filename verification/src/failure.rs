//! The ways a command can fail and how each is reported to the caller.
use vstd::prelude::*;
use vstd::string::StringExecFns;
use crate::models::{ApiResponse, ApiResponseView};
use crate::text::{join, opt_text};

verus! {

/// The classes of failure that a command can meet.
#[derive(Debug, Clone, Copy, PartialEq, Eq, Structural)]
pub enum FailureKind {
    /// A referenced entity key does not resolve.
    NotFound,
    /// The record store could not be reached when the sequence began.
    StoreUnavailable,
    /// The record store rejected a read or a write.
    Persistence,
    /// The protocol engine call could not be completed.
    Gateway,
    /// The protocol engine answered, and refused.
    Business,
    /// The command does not fit the state of the entity or of the sequence.
    InvariantViolation,
}

/// One failure: its class, a readable message, and the underlying detail
/// where there is one.
#[derive(Debug, Clone, PartialEq, Eq)]
pub struct Failure {
    pub kind: FailureKind,
    pub message: String,
    pub detail: Option<String>,
}

/// What a [`Failure`] says, with its texts as character sequences.
pub struct FailureView {
    pub kind: FailureKind,
    pub message: Seq<char>,
    pub detail: Option<Seq<char>>,
}

impl View for Failure {
    type V = FailureView;

    open spec fn view(&self) -> FailureView {
        FailureView { kind: self.kind, message: self.message@, detail: opt_text(self.detail) }
    }
}

/// An absent entity: reported with a message and no error text.
pub open spec fn absent(message: Seq<char>) -> FailureView {
    FailureView { kind: FailureKind::NotFound, message, detail: None }
}

/// The store was unreachable, with the reason that the host gave.
pub open spec fn store_unavailable(detail: Seq<char>) -> FailureView {
    FailureView {
        kind: FailureKind::StoreUnavailable,
        message: "Record store unavailable"@,
        detail: Some(detail),
    }
}

/// The store rejected an access; `detail` is the store's own message.
pub open spec fn store_rejected(message: Seq<char>, detail: Seq<char>) -> FailureView {
    FailureView { kind: FailureKind::Persistence, message, detail: Some(detail) }
}

/// The engine call could not be completed; `detail` is carried verbatim.
pub open spec fn engine_unreachable(detail: Seq<char>) -> FailureView {
    FailureView { kind: FailureKind::Gateway, message: "An error occurred"@, detail: Some(detail) }
}

/// The engine refused; its own message is the message shown.
pub open spec fn engine_refused(message: Seq<char>) -> FailureView {
    FailureView {
        kind: FailureKind::Business,
        message,
        detail: Some("Failed: "@ + message),
    }
}

/// A command that does not fit the state it meets.
pub open spec fn violation(message: Seq<char>) -> FailureView {
    FailureView {
        kind: FailureKind::InvariantViolation,
        message,
        detail: Some("invariant violation"@),
    }
}

/// The response that reports a failure: never successful, never with data,
/// the failure's message, and its detail as the error text.
pub open spec fn rejection<T>(failure: FailureView) -> ApiResponseView<T> {
    ApiResponseView { success: false, message: failure.message, data: None, error: failure.detail }
}

impl FailureView {
    /// Only an absent entity is reported without detail.
    pub open spec fn well_formed(self) -> bool {
        self.detail is None <==> self.kind == FailureKind::NotFound
    }
}

impl Failure {
    /// See [`absent`].
    pub fn not_found(message: String) -> (failure: Failure)
        ensures
            failure@ == absent(message@),
    {
        Failure { kind: FailureKind::NotFound, message, detail: None }
    }

    /// See [`store_unavailable`].
    pub fn unavailable(detail: String) -> (failure: Failure)
        ensures
            failure@ == store_unavailable(detail@),
    {
        Failure {
            kind: FailureKind::StoreUnavailable,
            message: String::from_str("Record store unavailable"),
            detail: Some(detail),
        }
    }

    /// See [`store_rejected`].
    pub fn persistence(message: String, detail: String) -> (failure: Failure)
        ensures
            failure@ == store_rejected(message@, detail@),
    {
        Failure { kind: FailureKind::Persistence, message, detail: Some(detail) }
    }

    /// See [`engine_unreachable`].
    pub fn gateway(detail: String) -> (failure: Failure)
        ensures
            failure@ == engine_unreachable(detail@),
    {
        Failure {
            kind: FailureKind::Gateway,
            message: String::from_str("An error occurred"),
            detail: Some(detail),
        }
    }

    /// See [`engine_refused`].
    pub fn business(message: String) -> (failure: Failure)
        ensures
            failure@ == engine_refused(message@),
    {
        let detail = join("Failed: ", message.as_str());
        Failure { kind: FailureKind::Business, message, detail: Some(detail) }
    }

    /// See [`violation`].
    pub fn invariant_violation(message: &str) -> (failure: Failure)
        ensures
            failure@ == violation(message@),
    {
        Failure {
            kind: FailureKind::InvariantViolation,
            message: String::from_str(message),
            detail: Some(String::from_str("invariant violation")),
        }
    }

    /// The response that reports this failure.
    pub fn respond<T>(self) -> (response: ApiResponse<T>)
        ensures
            response@ == rejection::<T>(self@),
    {
        ApiResponse { success: false, message: self.message, data: None, error: self.detail }
    }
}

/// Every failure that this library builds is well formed: it is without
/// detail exactly when it reports an absent entity.
pub proof fn lemma_failures_well_formed(message: Seq<char>, detail: Seq<char>)
    ensures
        absent(message).well_formed(),
        store_unavailable(detail).well_formed(),
        store_rejected(message, detail).well_formed(),
        engine_unreachable(detail).well_formed(),
        engine_refused(message).well_formed(),
        violation(message).well_formed(),
{
}

/// A rejection is a consistent response, and it reports absence exactly when
/// the failure has no detail.
pub proof fn lemma_rejection_consistent<T>(failure: FailureView)
    ensures
        rejection::<T>(failure).consistent(),
        !rejection::<T>(failure).success,
        rejection::<T>(failure).reports_absence() <==> failure.detail is None,
{
}

} // verus!
