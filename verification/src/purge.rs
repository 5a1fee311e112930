//! Deleting performed-procedure records: one by key, or every completed
//! one.
use vstd::prelude::*;
use vstd::string::StringExecFns;
use crate::failure::{absent, rejection, store_rejected, store_unavailable, Failure};
use crate::models::{ApiResponse, ApiResponseView, MppsEntry, RecordKey};
use crate::records::{accepted, listing, Table};
use crate::sequence::{out_of_turn, reject, reject_out_of_turn, settled, Action, Event};
use crate::status::StepStatus;
use crate::text::{join, join3, same_text};
use crate::transition::stored_status;

verus! {

/// What a delete command is aimed at.
#[derive(Debug, Clone, PartialEq, Eq)]
pub enum DeleteTarget {
    /// The record under one key.
    ByKey(String),
    /// Every record whose step is completed.
    Completed,
}

/// The key text that stands for every completed record.
pub open spec fn purge_sentinel() -> Seq<char> {
    "all"@
}

/// Reads the key of a delete command: the reserved text `all` is no key, it
/// names every completed record.
pub fn delete_target(id: String) -> (target: DeleteTarget)
    ensures
        target == (if id@ == purge_sentinel() {
            DeleteTarget::Completed
        } else {
            DeleteTarget::ByKey(id)
        }),
{
    if same_text(id.as_str(), "all") {
        DeleteTarget::Completed
    } else {
        DeleteTarget::ByKey(id)
    }
}

/// Where the sequence of a delete stands.
#[derive(Debug)]
pub enum DeleteMpps {
    /// The command as it arrived.
    Requested { id: String },
    /// The record under the command's key is being deleted.
    AwaitRemoval,
    /// All records are being read.
    AwaitRows,
    /// The record under `key` is being deleted; `pending` are the completed
    /// records still to delete, `deleted` those that the store has removed.
    Purging { key: RecordKey, pending: Vec<MppsEntry>, deleted: Vec<MppsEntry> },
    /// The sequence has ended.
    Done,
}

/// Whether a record's step is completed.
pub open spec fn completed(entry: MppsEntry) -> bool {
    stored_status(entry) == Some(StepStatus::Completed)
}

/// The completed records among `rows`, in their order.
pub open spec fn completed_rows(rows: Seq<MppsEntry>) -> Seq<MppsEntry> {
    rows.filter(|entry: MppsEntry| completed(entry))
}

/// A key as it is written out: collection, colon, identifier.
pub open spec fn key_text(key: RecordKey) -> Seq<char> {
    key.tb@ + ":"@ + key.id@
}

/// The action ends the sequence with a response that lists what `view`
/// says.
pub open spec fn lists(
    action: Action<Vec<MppsEntry>>,
    view: ApiResponseView<Seq<MppsEntry>>,
) -> bool {
    action matches Action::Respond { response } && listing(response) == view
}

/// What is reported for the delete of one record: the record that was
/// removed, as a list of one; a key that did not exist is reported as
/// absence.
pub open spec fn single_removal(answer: Result<Option<MppsEntry>, String>) -> ApiResponseView<
    Seq<MppsEntry>,
> {
    match answer {
        Ok(Some(entry)) => accepted(Table::Mpps.title() + " deleted successfully"@, seq![entry]),
        Ok(None) => rejection(absent("No "@ + Table::Mpps.noun() + " found to delete"@)),
        Err(reason) => rejection(
            store_rejected("Failed to delete "@ + Table::Mpps.noun(), reason@),
        ),
    }
}

/// A purge that cannot go on ends here. What was removed stays removed:
/// where anything was, the response is a success that lists exactly the
/// removed records and names the failure in its message; where nothing was,
/// the failure is reported as such.
pub open spec fn purge_stops(
    deleted: Seq<MppsEntry>,
    message: Seq<char>,
    detail: Seq<char>,
    action: Action<Vec<MppsEntry>>,
) -> bool {
    if deleted.len() == 0 {
        action.rejects(store_rejected(message, detail))
    } else {
        lists(action, accepted(message + ": "@ + detail, deleted))
    }
}

/// A purge goes on with the first pending record: its delete is asked for,
/// or, where nothing is pending, the purge ends and lists what was removed.
/// A pending record without a key stops the purge.
pub open spec fn purge_continues(
    pending: Seq<MppsEntry>,
    deleted: Seq<MppsEntry>,
    next: DeleteMpps,
    action: Action<Vec<MppsEntry>>,
) -> bool {
    if pending.len() == 0 {
        next is Done && lists(
            action,
            accepted("All complete mpps entries deleted successfully"@, deleted),
        )
    } else {
        match pending[0].id {
            Some(first) => {
                &&& next matches DeleteMpps::Purging { key, pending: rest, deleted: removed }
                &&& key == first
                &&& rest@ == pending.skip(1)
                &&& removed@ == deleted
                &&& action == (Action::<Vec<MppsEntry>>::DeleteMpps { key: first })
            },
            None => next is Done && purge_stops(
                deleted,
                "Missing ID for an entry, cannot delete"@,
                "entry without key"@,
                action,
            ),
        }
    }
}

/// One step of a delete: what follows from `state` and `event`.
///
/// A command whose key is the reserved text reads all records and deletes
/// the completed ones one by one, in their order. It lists the records that
/// the store removed, and only those. Any other key deletes the one record
/// under it.
pub open spec fn delete_mpps_entry_step(
    state: DeleteMpps,
    event: Event,
    next: DeleteMpps,
    action: Action<Vec<MppsEntry>>,
) -> bool {
    match (state, event) {
        (DeleteMpps::Done, _) => next is Done && action.rejects(out_of_turn()),
        (_, Event::Unavailable(reason)) => next is Done && action.rejects(
            store_unavailable(reason@),
        ),
        (DeleteMpps::Requested { id }, Event::Begin) => if id@ == purge_sentinel() {
            &&& next is AwaitRows
            &&& action == (Action::<Vec<MppsEntry>>::GetAll { table: Table::Mpps })
        } else {
            &&& next is AwaitRemoval
            &&& action matches Action::DeleteMpps { key }
            &&& key.tb@ == Table::Mpps.name_text()
            &&& key.id == id
        },
        (DeleteMpps::AwaitRemoval, Event::Mpps(answer)) => next is Done && lists(
            action,
            single_removal(answer),
        ),
        (DeleteMpps::AwaitRows, Event::MppsRows(answer)) => match answer {
            Ok(rows) => purge_continues(completed_rows(rows@), Seq::empty(), next, action),
            Err(reason) => next is Done && action.rejects(
                store_rejected("Failed to retrieve complete mpps entries"@, reason@),
            ),
        },
        (DeleteMpps::Purging { key, pending, deleted }, Event::Mpps(answer)) => match answer {
            Ok(Some(entry)) => purge_continues(pending@, deleted@.push(entry), next, action),
            Ok(None) => purge_continues(pending@, deleted@, next, action),
            Err(reason) => next is Done && purge_stops(
                deleted@,
                "Failed to delete mpps entry with id "@ + key_text(key),
                reason@,
                action,
            ),
        },
        _ => next is Done && action.rejects(out_of_turn()),
    }
}

/// Whether a record's step is completed.
pub fn is_completed(entry: &MppsEntry) -> (done: bool)
    ensures
        done == completed(*entry),
{
    match StepStatus::parse(&entry.status) {
        Some(StepStatus::Completed) => true,
        _ => false,
    }
}

/// The completed records among `rows`, in their order.
pub fn select_completed(rows: &Vec<MppsEntry>) -> (chosen: Vec<MppsEntry>)
    ensures
        chosen@ == completed_rows(rows@),
{
    let mut chosen: Vec<MppsEntry> = Vec::new();
    let mut index: usize = 0;
    proof {
        reveal(Seq::filter);
        assert(rows@.take(0) =~= Seq::<MppsEntry>::empty());
    }
    while index < rows.len()
        invariant
            index <= rows.len(),
            chosen@ == completed_rows(rows@.take(index as int)),
        decreases rows.len() - index,
    {
        let keep = is_completed(&rows[index]);
        proof {
            reveal(Seq::filter);
            let grown = rows@.take(index as int + 1);
            assert(grown.drop_last() =~= rows@.take(index as int));
            assert(grown.last() == rows@[index as int]);
        }
        if keep {
            chosen.push(rows[index].duplicate());
        }
        index = index + 1;
    }
    proof {
        assert(rows@.take(index as int) =~= rows@);
    }
    chosen
}

fn stop(deleted: Vec<MppsEntry>, message: String, detail: String) -> (action: Action<
    Vec<MppsEntry>,
>)
    ensures
        purge_stops(deleted@, message@, detail@, action),
{
    if deleted.len() == 0 {
        reject(Failure::persistence(message, detail))
    } else {
        let told = join3(message.as_str(), ": ", detail.as_str());
        Action::Respond { response: ApiResponse::success(told.as_str(), Some(deleted)) }
    }
}

fn proceed(pending: Vec<MppsEntry>, deleted: Vec<MppsEntry>) -> (step: (
    DeleteMpps,
    Action<Vec<MppsEntry>>,
))
    ensures
        purge_continues(pending@, deleted@, step.0, step.1),
{
    let mut pending = pending;
    if pending.len() == 0 {
        (
            DeleteMpps::Done,
            Action::Respond {
                response: ApiResponse::success(
                    "All complete mpps entries deleted successfully",
                    Some(deleted),
                ),
            },
        )
    } else {
        let ghost before = pending@;
        let first = pending.remove(0);
        assert(pending@ =~= before.skip(1));
        match first.id {
            Some(key) => {
                let asked = key.duplicate();
                (DeleteMpps::Purging { key, pending, deleted }, Action::DeleteMpps { key: asked })
            },
            None => (
                DeleteMpps::Done,
                stop(
                    deleted,
                    String::from_str("Missing ID for an entry, cannot delete"),
                    String::from_str("entry without key"),
                ),
            ),
        }
    }
}

/// Advances the sequence of a delete by one step.
pub fn delete_mpps_entry(state: DeleteMpps, event: Event) -> (step: (
    DeleteMpps,
    Action<Vec<MppsEntry>>,
))
    ensures
        delete_mpps_entry_step(state, event, step.0, step.1),
        settled(step.1),
        step.0 is Done <==> step.1 is Respond,
        step.1.writes() ==> step.1 is DeleteMpps,
{
    match (state, event) {
        (DeleteMpps::Done, _) => (DeleteMpps::Done, reject_out_of_turn()),
        (_, Event::Unavailable(reason)) => (DeleteMpps::Done, reject(Failure::unavailable(reason))),
        (DeleteMpps::Requested { id }, Event::Begin) => match delete_target(id) {
            DeleteTarget::Completed => (
                DeleteMpps::AwaitRows,
                Action::GetAll { table: Table::Mpps },
            ),
            DeleteTarget::ByKey(id) => (
                DeleteMpps::AwaitRemoval,
                Action::DeleteMpps {
                    key: RecordKey { tb: String::from_str(Table::Mpps.name()), id },
                },
            ),
        },
        (DeleteMpps::AwaitRemoval, Event::Mpps(answer)) => {
            let response = match answer {
                Ok(Some(entry)) => {
                    let message = Table::Mpps.titled(false, " deleted successfully");
                    let mut rows: Vec<MppsEntry> = Vec::new();
                    rows.push(entry);
                    assert(rows@ =~= seq![entry]);
                    ApiResponse::success(message.as_str(), Some(rows))
                },
                Ok(None) => Failure::not_found(
                    Table::Mpps.phrase("No ", false, " found to delete"),
                ).respond(),
                Err(reason) => {
                    let message = Table::Mpps.named("Failed to delete ", false);
                    Failure::persistence(message, reason).respond()
                },
            };
            (DeleteMpps::Done, Action::Respond { response })
        },
        (DeleteMpps::AwaitRows, Event::MppsRows(answer)) => match answer {
            Ok(rows) => {
                let pending = select_completed(&rows);
                proceed(pending, Vec::new())
            },
            Err(reason) => (
                DeleteMpps::Done,
                reject(
                    Failure::persistence(
                        String::from_str("Failed to retrieve complete mpps entries"),
                        reason,
                    ),
                ),
            ),
        },
        (DeleteMpps::Purging { key, pending, deleted }, Event::Mpps(answer)) => match answer {
            Ok(Some(entry)) => {
                let mut deleted = deleted;
                deleted.push(entry);
                proceed(pending, deleted)
            },
            Ok(None) => proceed(pending, deleted),
            Err(reason) => {
                let written = join3(key.tb.as_str(), ":", key.id.as_str());
                let message = join("Failed to delete mpps entry with id ", written.as_str());
                (DeleteMpps::Done, stop(deleted, message, reason))
            },
        },
        _ => (DeleteMpps::Done, reject_out_of_turn()),
    }
}

} // verus!
