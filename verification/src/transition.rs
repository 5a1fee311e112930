//! Completing or discontinuing a performed-procedure step.
use vstd::prelude::*;
use crate::failure::{store_unavailable, violation, Failure};
use crate::gateway::{acknowledged, acknowledgment, GatewayRequest};
use crate::models::{MppsEntry, WorklistEntry};
use crate::records::{revised, revision, Table};
use crate::sequence::{
    confirmed, fails, out_of_turn, reject, reject_out_of_turn, resolution, resolved, settled,
    Action, Event,
};
use crate::status::{status_of, StepStatus};
use crate::text::{copy_text, opt_text};

verus! {

/// Where the sequence of an update stands.
#[derive(Debug)]
pub enum UpdateMpps {
    /// The command as it arrived: the file that the step produced, the key
    /// of the worklist entry, the key of the record, the status to move to
    /// and a free-text description.
    Requested {
        dcm_file: String,
        selected_id: String,
        id: String,
        status: String,
        description: Option<String>,
    },
    /// The worklist entry is being read.
    AwaitWorklist {
        dcm_file: String,
        selected_id: String,
        id: String,
        status: String,
        description: Option<String>,
    },
    /// The record is being read.
    AwaitEntry {
        dcm_file: String,
        id: String,
        status: String,
        description: Option<String>,
        worklist: WorklistEntry,
    },
    /// The engine is reporting the step; `entry` is the record as it was
    /// announced to the engine.
    AwaitEngine { dcm_file: String, id: String, entry: MppsEntry, target: StepStatus },
    /// The record is being written.
    AwaitStore,
    /// The sequence has ended.
    Done,
}

/// The status that a command asks a step to move to: completed or
/// discontinued, named by its label.
pub open spec fn requested_target(status: Seq<char>) -> Option<StepStatus> {
    match status_of(Some(status)) {
        Some(target) => if target.terminal() {
            Some(target)
        } else {
            None
        },
        None => None,
    }
}

/// The status of a record as stored.
pub open spec fn stored_status(entry: MppsEntry) -> Option<StepStatus> {
    status_of(opt_text(entry.status))
}

/// Why a record cannot be moved to the status that a command names, or
/// `None` where it can: the status must be completed or discontinued, and
/// the record must be in progress.
pub open spec fn transition_refusal(entry: MppsEntry, status: Seq<char>) -> Option<Seq<char>> {
    if requested_target(status) is None {
        Some("a procedure step can only be completed or discontinued"@)
    } else if stored_status(entry) != Some(StepStatus::InProgress) {
        Some("the procedure step is not in progress"@)
    } else {
        None
    }
}

/// The record as it is announced to the engine: with the new status and
/// description, and nothing else changed.
pub open spec fn announced_entry(
    entry: MppsEntry,
    status: String,
    description: Option<String>,
) -> MppsEntry {
    MppsEntry { status: Some(status), description: description, ..entry }
}

/// The record as it is written once the engine has confirmed: a completed
/// step takes the identifiers that the engine assigned and the file it was
/// completed with; a discontinued step takes nothing more.
pub open spec fn confirmed_entry(
    entry: MppsEntry,
    target: StepStatus,
    result: String,
    dcm_file: String,
) -> MppsEntry {
    if target == StepStatus::Completed {
        MppsEntry { sop_instance_uids: Some(result), dcm_file: Some(dcm_file), ..entry }
    } else {
        entry
    }
}

/// The request that reports a step's end to the engine.
pub open spec fn transition_request(
    worklist: WorklistEntry,
    entry: MppsEntry,
    dcm_file: String,
    target: StepStatus,
) -> GatewayRequest {
    if target == StepStatus::Completed {
        GatewayRequest::MppsComplete { worklist, mpps: entry, dcm_file }
    } else {
        GatewayRequest::MppsDiscontinue { worklist, mpps: entry, dcm_file }
    }
}

/// One step of an update: what follows from `state` and `event`.
///
/// The worklist entry is read, then the record. A record that is not in
/// progress, or a status that is neither completed nor discontinued, ends
/// the sequence before the engine is called. The record is written only
/// after the engine has acknowledged with success.
pub open spec fn update_mpps_entry_step(
    state: UpdateMpps,
    event: Event,
    next: UpdateMpps,
    action: Action<MppsEntry>,
) -> bool {
    match (state, event) {
        (UpdateMpps::Done, _) => next is Done && action.rejects(out_of_turn()),
        (_, Event::Unavailable(reason)) => next is Done && action.rejects(
            store_unavailable(reason@),
        ),
        (
            UpdateMpps::Requested { dcm_file, selected_id, id, status, description },
            Event::Begin,
        ) => {
            &&& next == (UpdateMpps::AwaitWorklist {
                dcm_file,
                selected_id,
                id,
                status,
                description,
            })
            &&& action == (Action::<MppsEntry>::Get { table: Table::Worklist, key: selected_id })
        },
        (
            UpdateMpps::AwaitWorklist { dcm_file, selected_id, id, status, description },
            Event::Worklist(answer),
        ) => match resolution(Table::Worklist, selected_id@, answer) {
            Ok(worklist) => {
                &&& next == (UpdateMpps::AwaitEntry { dcm_file, id, status, description, worklist })
                &&& action == (Action::<MppsEntry>::Get { table: Table::Mpps, key: id })
            },
            Err(failure) => next is Done && action.rejects(failure),
        },
        (
            UpdateMpps::AwaitEntry { dcm_file, id, status, description, worklist },
            Event::Mpps(answer),
        ) => match resolution(Table::Mpps, id@, answer) {
            Ok(entry) => match transition_refusal(entry, status@) {
                Some(reason) => next is Done && action.rejects(violation(reason)),
                None => {
                    let target = requested_target(status@).unwrap();
                    let announced = announced_entry(entry, status, description);
                    &&& next == (UpdateMpps::AwaitEngine { dcm_file, id, entry: announced, target })
                    &&& action == (Action::<MppsEntry>::Call {
                        request: transition_request(worklist, announced, dcm_file, target),
                    })
                },
            },
            Err(failure) => next is Done && action.rejects(failure),
        },
        (
            UpdateMpps::AwaitEngine { dcm_file, id, entry, target },
            Event::Acknowledged(reply),
        ) => match acknowledgment(reply) {
            Ok(response) => {
                &&& next is AwaitStore
                &&& action == (Action::<MppsEntry>::UpdateMpps {
                    key: id,
                    entry: confirmed_entry(entry, target, response.result, dcm_file),
                })
            },
            Err(failure) => next is Done && action.rejects(failure),
        },
        (UpdateMpps::AwaitStore, Event::Mpps(answer)) => next is Done && action.responds(
            revision(Table::Mpps, answer),
        ),
        _ => next is Done && action.rejects(out_of_turn()),
    }
}

/// Reads the status that a command asks for.
pub fn target_of(status: &String) -> (target: Option<StepStatus>)
    ensures
        target == requested_target(status@),
{
    let label = Some(copy_text(status));
    match StepStatus::parse(&label) {
        Some(target) => if target.is_terminal() {
            Some(target)
        } else {
            None
        },
        None => None,
    }
}

/// Whether a record is in progress.
pub fn is_in_progress(entry: &MppsEntry) -> (in_progress: bool)
    ensures
        in_progress == (stored_status(*entry) == Some(StepStatus::InProgress)),
{
    match StepStatus::parse(&entry.status) {
        Some(StepStatus::InProgress) => true,
        _ => false,
    }
}

/// Advances the sequence of an update by one step.
pub fn update_mpps_entry(state: UpdateMpps, event: Event) -> (step: (UpdateMpps, Action<MppsEntry>))
    ensures
        update_mpps_entry_step(state, event, step.0, step.1),
        settled(step.1),
        step.0 is Done <==> step.1 is Respond,
        step.1.writes() ==> state is AwaitEngine && confirmed(event),
        state is AwaitEngine && !confirmed(event) ==> fails(step.1),
        step.1 is Call ==> state is AwaitEntry && (event matches Event::Mpps(Ok(Some(read)))
            && stored_status(read) == Some(StepStatus::InProgress)),
{
    match (state, event) {
        (UpdateMpps::Done, _) => (UpdateMpps::Done, reject_out_of_turn()),
        (_, Event::Unavailable(reason)) => (UpdateMpps::Done, reject(Failure::unavailable(reason))),
        (
            UpdateMpps::Requested { dcm_file, selected_id, id, status, description },
            Event::Begin,
        ) => {
            let key = copy_text(&selected_id);
            (
                UpdateMpps::AwaitWorklist { dcm_file, selected_id, id, status, description },
                Action::Get { table: Table::Worklist, key },
            )
        },
        (
            UpdateMpps::AwaitWorklist { dcm_file, selected_id, id, status, description },
            Event::Worklist(answer),
        ) => match resolved(Table::Worklist, selected_id.as_str(), answer) {
            Ok(worklist) => {
                let key = copy_text(&id);
                (
                    UpdateMpps::AwaitEntry { dcm_file, id, status, description, worklist },
                    Action::Get { table: Table::Mpps, key },
                )
            },
            Err(failure) => (UpdateMpps::Done, reject(failure)),
        },
        (
            UpdateMpps::AwaitEntry { dcm_file, id, status, description, worklist },
            Event::Mpps(answer),
        ) => match resolved(Table::Mpps, id.as_str(), answer) {
            Ok(entry) => match target_of(&status) {
                None => (
                    UpdateMpps::Done,
                    reject(
                        Failure::invariant_violation(
                            "a procedure step can only be completed or discontinued",
                        ),
                    ),
                ),
                Some(target) => {
                    if !is_in_progress(&entry) {
                        (
                            UpdateMpps::Done,
                            reject(
                                Failure::invariant_violation(
                                    "the procedure step is not in progress",
                                ),
                            ),
                        )
                    } else {
                        let mut announced = entry;
                        announced.status = Some(status);
                        announced.description = description;
                        let mpps = announced.duplicate();
                        let file = copy_text(&dcm_file);
                        let request = match target {
                            StepStatus::Completed => GatewayRequest::MppsComplete {
                                worklist,
                                mpps,
                                dcm_file: file,
                            },
                            _ => GatewayRequest::MppsDiscontinue { worklist, mpps, dcm_file: file },
                        };
                        (
                            UpdateMpps::AwaitEngine { dcm_file, id, entry: announced, target },
                            Action::Call { request },
                        )
                    }
                },
            },
            Err(failure) => (UpdateMpps::Done, reject(failure)),
        },
        (
            UpdateMpps::AwaitEngine { dcm_file, id, entry, target },
            Event::Acknowledged(reply),
        ) => match acknowledged(reply) {
            Ok(response) => {
                let mut confirmed = entry;
                match target {
                    StepStatus::Completed => {
                        confirmed.sop_instance_uids = Some(response.result);
                        confirmed.dcm_file = Some(dcm_file);
                    },
                    _ => {},
                }
                (UpdateMpps::AwaitStore, Action::UpdateMpps { key: id, entry: confirmed })
            },
            Err(failure) => (UpdateMpps::Done, reject(failure)),
        },
        (UpdateMpps::AwaitStore, Event::Mpps(answer)) => (
            UpdateMpps::Done,
            Action::Respond { response: revised(Table::Mpps, answer) },
        ),
        _ => (UpdateMpps::Done, reject_out_of_turn()),
    }
}

} // verus!
