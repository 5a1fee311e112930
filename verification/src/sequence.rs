//! What a command's sequence exchanges with its host. The host holds the
//! record store exclusively for the whole sequence: it performs each
//! [`Action`], hands back the [`Event`] that answers it, and releases the
//! store when it is told to respond.
use vstd::prelude::*;
use crate::failure::{absent, rejection, store_rejected, Failure, FailureView};
use crate::gateway::GatewayRequest;
use crate::models::{
    ApiResponse, ApiResponseView, MimEntry, MppsEntry, MppsResponse, PatientEntry, RecordKey,
    WorklistEntry,
};
use crate::records::Table;

verus! {

/// What the host is asked to do next.
#[derive(Debug)]
#[allow(inconsistent_fields)]
pub enum Action<T> {
    /// Read the entity under `key` in `table`.
    Get { table: Table, key: String },
    /// Read every entity of `table`.
    GetAll { table: Table },
    /// Create a performed-procedure record.
    CreateMpps { entry: MppsEntry },
    /// Replace the performed-procedure record under `key`.
    UpdateMpps { key: String, entry: MppsEntry },
    /// Replace the patient study under `key`.
    UpdatePatient { key: String, entry: PatientEntry },
    /// Delete the performed-procedure record under `key`.
    DeleteMpps { key: RecordKey },
    /// Call the protocol engine.
    Call { request: GatewayRequest },
    /// End the sequence with `response`.
    Respond { response: ApiResponse<T> },
}

/// What the host reports back. A store answer's `Err` carries the store's
/// own message, an engine answer's `Err` the reason why the call did not
/// complete.
#[derive(Debug)]
pub enum Event {
    /// The command arrived and the store is held.
    Begin,
    /// The store could not be reached.
    Unavailable(String),
    /// The answer to reading a worklist entry.
    Worklist(Result<Option<WorklistEntry>, String>),
    /// The answer to reading a destination profile.
    Mim(Result<Option<MimEntry>, String>),
    /// The answer to reading, updating or deleting a performed-procedure
    /// record.
    Mpps(Result<Option<MppsEntry>, String>),
    /// The answer to reading or updating a patient study.
    Patient(Result<Option<PatientEntry>, String>),
    /// The answer to creating a performed-procedure record or to reading
    /// all of them.
    MppsRows(Result<Vec<MppsEntry>, String>),
    /// The engine's answer to a stateful operation.
    Acknowledged(Result<MppsResponse, String>),
    /// The engine's answer to a worklist query.
    Rows(Result<String, String>),
}

impl<T> Action<T> {
    /// The action ends the sequence with a response that says `view`.
    pub open spec fn responds(self, view: ApiResponseView<T>) -> bool {
        self matches Action::Respond { response } && response@ == view
    }

    /// The action ends the sequence by reporting `failure`.
    pub open spec fn rejects(self, failure: FailureView) -> bool {
        self.responds(rejection(failure))
    }

    /// The action writes to the record store.
    pub open spec fn writes(self) -> bool {
        self is CreateMpps || self is UpdateMpps || self is UpdatePatient || self is DeleteMpps
    }
}

/// The engine confirmed: it answered, and its acknowledgment reports
/// success.
pub open spec fn confirmed(event: Event) -> bool {
    event matches Event::Acknowledged(Ok(response)) && response.success
}

/// The event answers a read with the entity that was asked for.
pub open spec fn found(event: Event) -> bool {
    match event {
        Event::Worklist(Ok(Some(_))) => true,
        Event::Mim(Ok(Some(_))) => true,
        Event::Mpps(Ok(Some(_))) => true,
        Event::Patient(Ok(Some(_))) => true,
        _ => false,
    }
}

/// A response as every command owes it: it carries data exactly when it
/// reports success, and then names no error.
pub open spec fn settled<T>(action: Action<T>) -> bool {
    action matches Action::Respond { response } ==> response@.consistent()
}

/// The action ends the sequence with a failure.
pub open spec fn fails<T>(action: Action<T>) -> bool {
    action matches Action::Respond { response } && !response.success
}

/// How the read of an entity that a command depends on is taken: the entity
/// where it exists; absence and a refusing store are failures.
pub open spec fn resolution<T>(
    table: Table,
    key: Seq<char>,
    answer: Result<Option<T>, String>,
) -> Result<T, FailureView> {
    match answer {
        Ok(Some(entity)) => Ok(entity),
        Ok(None) => Err(absent("No "@ + table.noun() + " found with id: "@ + key)),
        Err(reason) => Err(store_rejected("Failed to read "@ + table.noun(), reason@)),
    }
}

/// Takes the read of an entity that a command depends on.
pub fn resolved<T>(table: Table, key: &str, answer: Result<Option<T>, String>) -> (outcome: Result<
    T,
    Failure,
>)
    ensures
        match resolution(table, key@, answer) {
            Ok(entity) => outcome == Ok::<T, Failure>(entity),
            Err(failure) => outcome is Err && outcome->Err_0@ == failure,
        },
{
    match answer {
        Ok(Some(entity)) => Ok(entity),
        Ok(None) => {
            let message = table.phrase("No ", false, key_tail(key).as_str());
            assert(message@ =~= "No "@ + table.noun() + " found with id: "@ + key@);
            Err(Failure::not_found(message))
        },
        Err(reason) => {
            let message = table.named("Failed to read ", false);
            Err(Failure::persistence(message, reason))
        },
    }
}

fn key_tail(key: &str) -> (tail: String)
    ensures
        tail@ == " found with id: "@ + key@,
{
    crate::text::join(" found with id: ", key)
}

/// The response that ends a sequence which was handed an event that does
/// not answer what it asked for.
pub open spec fn out_of_turn() -> FailureView {
    crate::failure::violation("unexpected event for this step of the sequence"@)
}

/// Ends a sequence that was handed an event out of turn.
pub fn reject_out_of_turn<T>() -> (action: Action<T>)
    ensures
        action.rejects(out_of_turn()),
{
    Action::Respond {
        response: Failure::invariant_violation(
            "unexpected event for this step of the sequence",
        ).respond(),
    }
}

/// Ends a sequence by reporting `failure`.
pub fn reject<T>(failure: Failure) -> (action: Action<T>)
    ensures
        action.rejects(failure@),
{
    Action::Respond { response: failure.respond() }
}

} // verus!
