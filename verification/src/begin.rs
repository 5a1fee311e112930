//! Beginning a performed-procedure step.
use vstd::prelude::*;
use vstd::string::StringExecFns;
use crate::failure::{store_unavailable, violation, Failure};
use crate::gateway::{acknowledged, acknowledgment, GatewayRequest};
use crate::models::MppsEntry;
use crate::records::{created, creation, Table};
use crate::sequence::{
    confirmed, fails, out_of_turn, reject, reject_out_of_turn, resolution, resolved, settled,
    Action, Event,
};
use crate::text::{copy_text, opt_text};

verus! {

/// Where the sequence of a creation stands.
#[derive(Debug)]
pub enum CreateMpps {
    /// The command as it arrived: the key of the worklist entry and the
    /// record to create.
    Requested { selected_id: String, entry: MppsEntry },
    /// The worklist entry is being read.
    AwaitWorklist { selected_id: String, entry: MppsEntry },
    /// The engine is announcing the step.
    AwaitEngine { entry: MppsEntry },
    /// The record is being written.
    AwaitStore,
    /// The sequence has ended.
    Done,
}

/// A record that no step is bound to yet: it has no status and no instance
/// identifier.
pub open spec fn unbound(entry: MppsEntry) -> bool {
    entry.status is None && entry.mpps_instance_uid is None
}

/// `after` is `before` once its step has begun: in progress, under the
/// instance identifier `uid`, and nothing else changed.
pub open spec fn begun(before: MppsEntry, uid: String, after: MppsEntry) -> bool {
    &&& after == (MppsEntry { status: after.status, mpps_instance_uid: Some(uid), ..before })
    &&& opt_text(after.status) == Some("IN_PROGRESS"@)
}

/// One step of a creation: what follows from `state` and `event`.
///
/// A record that a step is already bound to ends the sequence at once. The
/// worklist entry is read, the engine announces the step, and only after it
/// has acknowledged with success is the record created, in progress and
/// under the identifier that the engine assigned.
pub open spec fn create_mpps_entry_step(
    state: CreateMpps,
    event: Event,
    next: CreateMpps,
    action: Action<MppsEntry>,
) -> bool {
    match (state, event) {
        (CreateMpps::Done, _) => next is Done && action.rejects(out_of_turn()),
        (_, Event::Unavailable(reason)) => next is Done && action.rejects(
            store_unavailable(reason@),
        ),
        (CreateMpps::Requested { selected_id, entry }, Event::Begin) => if unbound(entry) {
            &&& next == (CreateMpps::AwaitWorklist { selected_id, entry })
            &&& action == (Action::<MppsEntry>::Get { table: Table::Worklist, key: selected_id })
        } else {
            next is Done && action.rejects(violation("the procedure step has already begun"@))
        },
        (CreateMpps::AwaitWorklist { selected_id, entry }, Event::Worklist(answer)) => match resolution(
            Table::Worklist,
            selected_id@,
            answer,
        ) {
            Ok(worklist) => {
                &&& next == (CreateMpps::AwaitEngine { entry })
                &&& action == (Action::<MppsEntry>::Call {
                    request: GatewayRequest::MppsCreate { worklist, mpps: entry },
                })
            },
            Err(failure) => next is Done && action.rejects(failure),
        },
        (CreateMpps::AwaitEngine { entry }, Event::Acknowledged(reply)) => match acknowledgment(
            reply,
        ) {
            Ok(response) => {
                &&& next is AwaitStore
                &&& action matches Action::CreateMpps { entry: written }
                &&& begun(entry, response.result, written)
            },
            Err(failure) => next is Done && action.rejects(failure),
        },
        (CreateMpps::AwaitStore, Event::MppsRows(answer)) => next is Done && action.responds(
            creation(Table::Mpps, answer),
        ),
        _ => next is Done && action.rejects(out_of_turn()),
    }
}

/// Whether no step is bound to a record yet.
pub fn is_unbound(entry: &MppsEntry) -> (free: bool)
    ensures
        free == unbound(*entry),
{
    entry.status.is_none() && entry.mpps_instance_uid.is_none()
}

/// Advances the sequence of a creation by one step.
pub fn create_mpps_entry(state: CreateMpps, event: Event) -> (step: (CreateMpps, Action<MppsEntry>))
    ensures
        create_mpps_entry_step(state, event, step.0, step.1),
        settled(step.1),
        step.0 is Done <==> step.1 is Respond,
        step.1.writes() ==> state is AwaitEngine && confirmed(event),
        state is AwaitEngine && !confirmed(event) ==> fails(step.1),
{
    match (state, event) {
        (CreateMpps::Done, _) => (CreateMpps::Done, reject_out_of_turn()),
        (_, Event::Unavailable(reason)) => (CreateMpps::Done, reject(Failure::unavailable(reason))),
        (CreateMpps::Requested { selected_id, entry }, Event::Begin) => {
            if is_unbound(&entry) {
                let key = copy_text(&selected_id);
                (
                    CreateMpps::AwaitWorklist { selected_id, entry },
                    Action::Get { table: Table::Worklist, key },
                )
            } else {
                (
                    CreateMpps::Done,
                    reject(Failure::invariant_violation("the procedure step has already begun")),
                )
            }
        },
        (CreateMpps::AwaitWorklist { selected_id, entry }, Event::Worklist(answer)) => match resolved(
            Table::Worklist,
            selected_id.as_str(),
            answer,
        ) {
            Ok(worklist) => {
                let mpps = entry.duplicate();
                (
                    CreateMpps::AwaitEngine { entry },
                    Action::Call { request: GatewayRequest::MppsCreate { worklist, mpps } },
                )
            },
            Err(failure) => (CreateMpps::Done, reject(failure)),
        },
        (CreateMpps::AwaitEngine { entry }, Event::Acknowledged(reply)) => match acknowledged(reply) {
            Ok(response) => {
                let mut written = entry;
                written.mpps_instance_uid = Some(response.result);
                written.status = Some(String::from_str("IN_PROGRESS"));
                (CreateMpps::AwaitStore, Action::CreateMpps { entry: written })
            },
            Err(failure) => (CreateMpps::Done, reject(failure)),
        },
        (CreateMpps::AwaitStore, Event::MppsRows(answer)) => (
            CreateMpps::Done,
            Action::Respond { response: created(Table::Mpps, answer) },
        ),
        _ => (CreateMpps::Done, reject_out_of_turn()),
    }
}

} // verus!
