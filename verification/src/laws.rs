//! What holds of every sequence, whatever the store and the engine answer.
use vstd::prelude::*;
use crate::begin::{create_mpps_entry_step, CreateMpps};
use crate::models::{ApiResponse, ApiResponseView, MppsEntry, PatientEntry};
use crate::purge::{completed, completed_rows, delete_mpps_entry_step, DeleteMpps};
use crate::query::{search_worklist_data_step, SearchWorklist};
use crate::records::{creation, listing, removal, revision, selection, Lookup, Table};
use crate::sequence::{confirmed, fails, found, settled, Action, Event};
use crate::status::{lemma_labels_distinct, StepStatus};
use crate::transition::{
    announced_entry, confirmed_entry, requested_target, stored_status, transition_refusal,
    update_mpps_entry_step, UpdateMpps,
};
use crate::transmit::{
    send_cstore_headless_step, send_rt_s_step, send_to_pacs_step, SendReport, SendStudy,
    SendToPacs,
};

verus! {

/// What is reported for a plain create, read, update or delete is a
/// consistent response: it carries data exactly when it reports success,
/// and a success names no error.
pub proof fn lemma_plain_reports_consistent<T>(
    table: Table,
    rows: Result<Vec<T>, String>,
    lookup: Lookup<T>,
    answer: Result<Option<T>, String>,
)
    ensures
        creation(table, rows).consistent(),
        selection(table, lookup).consistent(),
        revision(table, answer).consistent(),
        removal(table, answer).consistent(),
{
}

/// Apart from a report of absence, a consistent response is successful
/// exactly when it names no error.
pub proof fn lemma_success_iff_no_error<T>(response: ApiResponseView<T>)
    requires
        response.consistent(),
        !response.reports_absence(),
    ensures
        response.success <==> response.error is None,
{
}

/// A response that lists entities is consistent exactly when its listing
/// is.
pub proof fn lemma_listing_consistent<T>(response: ApiResponse<Vec<T>>)
    ensures
        listing(response).consistent() <==> response@.consistent(),
        listing(response).reports_absence() <==> response@.reports_absence(),
{
}

/// Every response of an update is consistent, the sequence ends exactly
/// when it responds, and the engine is called only on a read that found
/// its entity.
pub proof fn lemma_update_responses(
    state: UpdateMpps,
    event: Event,
    next: UpdateMpps,
    action: Action<MppsEntry>,
)
    requires
        update_mpps_entry_step(state, event, next, action),
    ensures
        settled(action),
        next is Done <==> action is Respond,
        action is Call ==> found(event),
{
}

/// Every response of a creation is consistent, the sequence ends exactly
/// when it responds, and the engine is called only on a read that found
/// its entity.
pub proof fn lemma_create_responses(
    state: CreateMpps,
    event: Event,
    next: CreateMpps,
    action: Action<MppsEntry>,
)
    requires
        create_mpps_entry_step(state, event, next, action),
    ensures
        settled(action),
        next is Done <==> action is Respond,
        action is Call ==> found(event),
{
}

/// Every response of a worklist query is consistent, the sequence ends
/// exactly when it responds, the engine is called only on a read that
/// found its entity, and nothing is written.
pub proof fn lemma_query_responses(
    state: SearchWorklist,
    event: Event,
    next: SearchWorklist,
    action: Action<String>,
)
    requires
        search_worklist_data_step(state, event, next, action),
    ensures
        settled(action),
        next is Done <==> action is Respond,
        action is Call ==> found(event),
        !action.writes(),
{
}

/// Every response of an image transmission is consistent, the sequence
/// ends exactly when it responds, the engine is called only on a read that
/// found its entity, and nothing is written.
pub proof fn lemma_send_to_pacs_responses(
    state: SendToPacs,
    event: Event,
    next: SendToPacs,
    action: Action<String>,
)
    requires
        send_to_pacs_step(state, event, next, action),
    ensures
        settled(action),
        next is Done <==> action is Respond,
        action is Call ==> found(event),
        !action.writes(),
{
}

/// Every response of a report transmission is consistent, the sequence
/// ends exactly when it responds, the engine is called only on a read that
/// found its entity, and nothing is written.
pub proof fn lemma_send_report_responses(
    state: SendReport,
    event: Event,
    next: SendReport,
    action: Action<MppsEntry>,
)
    requires
        send_rt_s_step(state, event, next, action),
    ensures
        settled(action),
        next is Done <==> action is Respond,
        action is Call ==> found(event),
        !action.writes(),
{
}

/// Every response of a study transmission is consistent, the sequence
/// ends exactly when it responds, and the engine is called only on a read
/// that found its entity.
pub proof fn lemma_send_study_responses(
    state: SendStudy,
    event: Event,
    next: SendStudy,
    action: Action<PatientEntry>,
)
    requires
        send_cstore_headless_step(state, event, next, action),
    ensures
        settled(action),
        next is Done <==> action is Respond,
        action is Call ==> found(event),
{
}

/// Every response of a delete is consistent, the sequence ends exactly
/// when it responds, and the only write it asks for is a delete.
pub proof fn lemma_delete_responses(
    state: DeleteMpps,
    event: Event,
    next: DeleteMpps,
    action: Action<Vec<MppsEntry>>,
)
    requires
        delete_mpps_entry_step(state, event, next, action),
    ensures
        settled(action),
        next is Done <==> action is Respond,
        action.writes() ==> action is DeleteMpps,
{
}

/// An update writes only after the engine has confirmed; whenever the
/// engine's answer is awaited and is anything else, the sequence ends with
/// a failure and nothing is written.
pub proof fn lemma_update_writes_only_confirmed(
    state: UpdateMpps,
    event: Event,
    next: UpdateMpps,
    action: Action<MppsEntry>,
)
    requires
        update_mpps_entry_step(state, event, next, action),
    ensures
        action.writes() ==> state is AwaitEngine && confirmed(event),
        state is AwaitEngine && !confirmed(event) ==> next is Done && fails(action),
{
}

/// A creation writes only after the engine has confirmed; whenever the
/// engine's answer is awaited and is anything else, the sequence ends with
/// a failure and nothing is written.
pub proof fn lemma_create_writes_only_confirmed(
    state: CreateMpps,
    event: Event,
    next: CreateMpps,
    action: Action<MppsEntry>,
)
    requires
        create_mpps_entry_step(state, event, next, action),
    ensures
        action.writes() ==> state is AwaitEngine && confirmed(event),
        state is AwaitEngine && !confirmed(event) ==> next is Done && fails(action),
{
}

/// A study transmission writes only after the engine has confirmed;
/// whenever the engine's answer is awaited and is anything else, the
/// sequence ends with a failure and nothing is written.
pub proof fn lemma_send_study_writes_only_confirmed(
    state: SendStudy,
    event: Event,
    next: SendStudy,
    action: Action<PatientEntry>,
)
    requires
        send_cstore_headless_step(state, event, next, action),
    ensures
        action.writes() ==> state is AwaitEngine && confirmed(event),
        state is AwaitEngine && !confirmed(event) ==> next is Done && fails(action),
{
}

/// The engine is called for an update only where the record that was read
/// is in progress and the status asked for is completed or discontinued. A
/// record that is completed or discontinued already ends the sequence with
/// a failure, before any call.
pub proof fn lemma_update_calls_only_in_progress(
    state: UpdateMpps,
    event: Event,
    next: UpdateMpps,
    action: Action<MppsEntry>,
)
    requires
        update_mpps_entry_step(state, event, next, action),
    ensures
        action is Call ==> {
            &&& state matches UpdateMpps::AwaitEntry { status, .. }
            &&& event matches Event::Mpps(Ok(Some(read)))
            &&& stored_status(read) == Some(StepStatus::InProgress)
            &&& requested_target(status@) is Some
        },
        state is AwaitEntry ==> (event matches Event::Mpps(Ok(Some(read))) && stored_status(read)
            matches Some(status) && status.terminal()) ==> next is Done && fails(action),
{
}

/// The engine is called for a creation only for a record that no step is
/// bound to: one that has an instance identifier already is refused before
/// anything is read.
pub proof fn lemma_create_only_unbound(
    state: CreateMpps,
    event: Event,
    next: CreateMpps,
    action: Action<MppsEntry>,
)
    requires
        create_mpps_entry_step(state, event, next, action),
    ensures
        state matches CreateMpps::Requested { entry, .. } && (entry.mpps_instance_uid is Some
            || entry.status is Some) ==> next is Done && fails(action),
{
}

/// The record that an update writes differs from the record that was read
/// in its status, its description and, for a completed step, the
/// identifiers and the file of the completion. Its instance identifier, in
/// particular, is the one that was read.
pub proof fn lemma_update_keeps_identity(
    read: MppsEntry,
    status: String,
    description: Option<String>,
    target: StepStatus,
    result: String,
    dcm_file: String,
)
    ensures
        ({
            let written = confirmed_entry(
                announced_entry(read, status, description),
                target,
                result,
                dcm_file,
            );
            &&& written.mpps_instance_uid == read.mpps_instance_uid
            &&& written.id == read.id
            &&& written.study_instance_uid == read.study_instance_uid
            &&& written.accession_number == read.accession_number
            &&& written.patient_id == read.patient_id
            &&& written.status == Some(status)
            &&& target != StepStatus::Completed ==> written.sop_instance_uids
                == read.sop_instance_uids && written.dcm_file == read.dcm_file
        }),
{
}

/// The two steps of an update that lead from the record read to the record
/// written keep its instance identifier.
pub proof fn lemma_update_keeps_uid(
    reading: UpdateMpps,
    read: MppsEntry,
    calling: UpdateMpps,
    call: Action<MppsEntry>,
    reply: Event,
    writing: UpdateMpps,
    write: Action<MppsEntry>,
)
    requires
        reading is AwaitEntry,
        update_mpps_entry_step(reading, Event::Mpps(Ok(Some(read))), calling, call),
        call is Call,
        update_mpps_entry_step(calling, reply, writing, write),
    ensures
        write matches Action::UpdateMpps { entry, .. } ==> entry.mpps_instance_uid
            == read.mpps_instance_uid,
        !(write is CreateMpps),
{
}

/// A transition is applied once. When an update has written a record, a
/// later update that reads the record as written ends with a failure
/// before the engine is called, whatever status it asks for.
pub proof fn lemma_transition_applies_once(
    reading: UpdateMpps,
    read: MppsEntry,
    calling: UpdateMpps,
    call: Action<MppsEntry>,
    reply: Event,
    writing: UpdateMpps,
    write: Action<MppsEntry>,
    later: UpdateMpps,
    next: UpdateMpps,
    action: Action<MppsEntry>,
)
    requires
        reading is AwaitEntry,
        update_mpps_entry_step(reading, Event::Mpps(Ok(Some(read))), calling, call),
        call is Call,
        update_mpps_entry_step(calling, reply, writing, write),
        write is UpdateMpps,
        later is AwaitEntry,
        update_mpps_entry_step(later, Event::Mpps(Ok(Some(write->UpdateMpps_entry))), next, action),
    ensures
        next is Done,
        fails(action),
{
    lemma_labels_distinct();
}

/// The same, over the records alone: a record that a transition was
/// applied to admits no further transition.
pub proof fn lemma_written_record_is_final(
    read: MppsEntry,
    status: String,
    description: Option<String>,
    result: String,
    dcm_file: String,
    again: Seq<char>,
)
    requires
        transition_refusal(read, status@) is None,
    ensures
        ({
            let target = requested_target(status@).unwrap();
            let written = confirmed_entry(
                announced_entry(read, status, description),
                target,
                result,
                dcm_file,
            );
            &&& stored_status(written) == Some(target)
            &&& target.terminal()
            &&& transition_refusal(written, again) is Some
        }),
{
    lemma_labels_distinct();
}

/// Every record that waits to be purged is completed.
pub open spec fn purge_sound(state: DeleteMpps) -> bool {
    state matches DeleteMpps::Purging { pending, .. } ==> forall|i: int|
        0 <= i < pending@.len() ==> completed(#[trigger] pending@[i])
}

/// The completed rows are rows, and completed.
pub proof fn lemma_completed_rows(rows: Seq<MppsEntry>)
    ensures
        forall|i: int|
            0 <= i < completed_rows(rows).len() ==> completed(#[trigger] completed_rows(rows)[i])
                && rows.contains(completed_rows(rows)[i]),
        forall|i: int|
            0 <= i < rows.len() && completed(rows[i]) ==> completed_rows(rows).contains(
                #[trigger] rows[i],
            ),
        completed_rows(rows).len() <= rows.len(),
{
    let pred = |entry: MppsEntry| completed(entry);
    let chosen = rows.filter(pred);
    rows.lemma_filter_len(pred);
    assert forall|i: int| 0 <= i < chosen.len() implies completed(#[trigger] chosen[i])
        && rows.contains(chosen[i]) by {
        rows.lemma_filter_pred(pred, i);
        assert(chosen.contains(chosen[i]));
        rows.lemma_filter_contains_rev(pred, chosen[i]);
    }
    assert forall|i: int| 0 <= i < rows.len() && completed(rows[i]) implies chosen.contains(
        #[trigger] rows[i],
    ) by {
        rows.lemma_filter_contains(pred, i);
    }
}

/// A purge deletes completed records only. Every step keeps the records
/// that wait to be purged completed; and while the purge reads the
/// collection, the record whose delete it asks for is a completed row of
/// that collection.
pub proof fn lemma_purge_deletes_only_completed(
    state: DeleteMpps,
    event: Event,
    next: DeleteMpps,
    action: Action<Vec<MppsEntry>>,
)
    requires
        delete_mpps_entry_step(state, event, next, action),
        purge_sound(state),
    ensures
        purge_sound(next),
        state is AwaitRows && action is DeleteMpps ==> (event matches Event::MppsRows(Ok(rows))
            && exists|i: int|
            0 <= i < rows@.len() && completed(#[trigger] rows@[i]) && rows@[i].id == Some(
                action->DeleteMpps_key,
            )),
        state is Purging && action is DeleteMpps ==> (state matches DeleteMpps::Purging {
            pending,
            ..
        } && pending@.len() > 0 && completed(pending@[0]) && pending@[0].id == Some(
            action->DeleteMpps_key,
        )),
{
    match (state, event) {
        (DeleteMpps::AwaitRows, Event::MppsRows(Ok(rows))) => {
            lemma_completed_rows(rows@);
            let chosen = completed_rows(rows@);
            if chosen.len() > 0 && chosen[0].id is Some {
                assert(completed(chosen[0]) && rows@.contains(chosen[0]));
                let i = choose|i: int| 0 <= i < rows@.len() && rows@[i] == chosen[0];
                assert(completed(rows@[i]));
                assert forall|j: int| 0 <= j < chosen.skip(1).len() implies completed(
                    #[trigger] chosen.skip(1)[j],
                ) by {
                    assert(chosen.skip(1)[j] == chosen[j + 1]);
                }
            }
        },
        (DeleteMpps::Purging { key, pending, deleted }, Event::Mpps(answer)) => {
            if pending@.len() > 0 {
                assert(completed(pending@[0]));
                assert forall|j: int| 0 <= j < pending@.skip(1).len() implies completed(
                    #[trigger] pending@.skip(1)[j],
                ) by {
                    assert(pending@.skip(1)[j] == pending@[j + 1]);
                }
            }
        },
        _ => {},
    }
}

/// How many actions an update can still ask for before it responds.
pub open spec fn update_rank(state: UpdateMpps) -> nat {
    match state {
        UpdateMpps::Requested { .. } => 5,
        UpdateMpps::AwaitWorklist { .. } => 4,
        UpdateMpps::AwaitEntry { .. } => 3,
        UpdateMpps::AwaitEngine { .. } => 2,
        UpdateMpps::AwaitStore => 1,
        UpdateMpps::Done => 0,
    }
}

/// How many actions a creation can still ask for before it responds.
pub open spec fn create_rank(state: CreateMpps) -> nat {
    match state {
        CreateMpps::Requested { .. } => 4,
        CreateMpps::AwaitWorklist { .. } => 3,
        CreateMpps::AwaitEngine { .. } => 2,
        CreateMpps::AwaitStore => 1,
        CreateMpps::Done => 0,
    }
}

/// How many actions a study transmission can still ask for before it
/// responds.
pub open spec fn send_study_rank(state: SendStudy) -> nat {
    match state {
        SendStudy::Requested { .. } => 5,
        SendStudy::AwaitDestination { .. } => 4,
        SendStudy::AwaitStudy { .. } => 3,
        SendStudy::AwaitEngine { .. } => 2,
        SendStudy::AwaitStore => 1,
        SendStudy::Done => 0,
    }
}

/// How many actions an image transmission can still ask for before it
/// responds.
pub open spec fn send_to_pacs_rank(state: SendToPacs) -> nat {
    match state {
        SendToPacs::Requested { .. } => 4,
        SendToPacs::AwaitDestination { .. } => 3,
        SendToPacs::AwaitEntry { .. } => 2,
        SendToPacs::AwaitEngine => 1,
        SendToPacs::Done => 0,
    }
}

/// How many actions a report transmission can still ask for before it
/// responds.
pub open spec fn send_report_rank(state: SendReport) -> nat {
    match state {
        SendReport::Requested { .. } => 4,
        SendReport::AwaitDestination { .. } => 3,
        SendReport::AwaitEntry { .. } => 2,
        SendReport::AwaitEngine { .. } => 1,
        SendReport::Done => 0,
    }
}

/// How many actions a worklist query can still ask for before it
/// responds.
pub open spec fn query_rank(state: SearchWorklist) -> nat {
    match state {
        SearchWorklist::Requested { .. } => 3,
        SearchWorklist::AwaitWorklist { .. } => 2,
        SearchWorklist::AwaitEngine => 1,
        SearchWorklist::Done => 0,
    }
}

/// Every step of an update leaves fewer actions to ask for, so the sequence
/// ends and the store that the host holds for it is released.
pub proof fn lemma_update_ends(
    state: UpdateMpps,
    event: Event,
    next: UpdateMpps,
    action: Action<MppsEntry>,
)
    requires
        update_mpps_entry_step(state, event, next, action),
    ensures
        next is Done || update_rank(next) < update_rank(state),
{
}

/// Every step of a creation leaves fewer actions to ask for, so the sequence
/// ends and the store that the host holds for it is released.
pub proof fn lemma_create_ends(
    state: CreateMpps,
    event: Event,
    next: CreateMpps,
    action: Action<MppsEntry>,
)
    requires
        create_mpps_entry_step(state, event, next, action),
    ensures
        next is Done || create_rank(next) < create_rank(state),
{
}

/// Every step of a study transmission leaves fewer actions to ask for, so the sequence
/// ends and the store that the host holds for it is released.
pub proof fn lemma_send_study_ends(
    state: SendStudy,
    event: Event,
    next: SendStudy,
    action: Action<PatientEntry>,
)
    requires
        send_cstore_headless_step(state, event, next, action),
    ensures
        next is Done || send_study_rank(next) < send_study_rank(state),
{
}

/// Every step of an image transmission leaves fewer actions to ask for, so the sequence
/// ends and the store that the host holds for it is released.
pub proof fn lemma_send_to_pacs_ends(
    state: SendToPacs,
    event: Event,
    next: SendToPacs,
    action: Action<String>,
)
    requires
        send_to_pacs_step(state, event, next, action),
    ensures
        next is Done || send_to_pacs_rank(next) < send_to_pacs_rank(state),
{
}

/// Every step of a report transmission leaves fewer actions to ask for, so the sequence
/// ends and the store that the host holds for it is released.
pub proof fn lemma_send_report_ends(
    state: SendReport,
    event: Event,
    next: SendReport,
    action: Action<MppsEntry>,
)
    requires
        send_rt_s_step(state, event, next, action),
    ensures
        next is Done || send_report_rank(next) < send_report_rank(state),
{
}

/// Every step of a worklist query leaves fewer actions to ask for, so the sequence
/// ends and the store that the host holds for it is released.
pub proof fn lemma_query_ends(
    state: SearchWorklist,
    event: Event,
    next: SearchWorklist,
    action: Action<String>,
)
    requires
        search_worklist_data_step(state, event, next, action),
    ensures
        next is Done || query_rank(next) < query_rank(state),
{
}

/// A purge ends: once it has read the collection, every step leaves one
/// record fewer to delete, or ends the sequence.
pub proof fn lemma_purge_ends(
    state: DeleteMpps,
    event: Event,
    next: DeleteMpps,
    action: Action<Vec<MppsEntry>>,
)
    requires
        delete_mpps_entry_step(state, event, next, action),
    ensures
        state is Requested ==> next is AwaitRows || next is AwaitRemoval || next is Done,
        state is AwaitRemoval ==> next is Done,
        state is AwaitRows ==> (next is Done || (event matches Event::MppsRows(Ok(rows))
            && next matches DeleteMpps::Purging { pending, .. } && pending@.len() < rows@.len())),
        state matches DeleteMpps::Purging { pending: before, .. } ==> next is Done || (
        next matches DeleteMpps::Purging { pending: after, .. } && after@.len() < before@.len()),
{
    if state is AwaitRows {
        if let Event::MppsRows(Ok(rows)) = event {
            lemma_completed_rows(rows@);
        }
    }
}

} // verus!
