//! Transmitting images and reports to a storage destination.
use vstd::prelude::*;
use crate::failure::{store_unavailable, Failure};
use crate::gateway::{acknowledged, acknowledgment, GatewayRequest};
use crate::models::{ApiResponse, MimEntry, MppsEntry, PatientEntry};
use crate::records::{accepted, revised, revision, Table};
use crate::sequence::{
    confirmed, fails, out_of_turn, reject, reject_out_of_turn, resolution, resolved, settled,
    Action, Event,
};
use crate::text::copy_text;

verus! {

/// Where the sequence of an image transmission stands.
#[derive(Debug)]
pub enum SendToPacs {
    /// The command as it arrived: the key of the destination and the key of
    /// the record whose images are sent.
    Requested { id: String, current_id: String },
    /// The destination is being read.
    AwaitDestination { id: String, current_id: String },
    /// The record is being read.
    AwaitEntry { current_id: String, destination: MimEntry },
    /// The engine is transmitting.
    AwaitEngine,
    /// The sequence has ended.
    Done,
}

/// One step of an image transmission: what follows from `state` and
/// `event`.
///
/// The destination is read, then the record, then the engine transmits.
/// Nothing is written; on success the response carries the engine's
/// message.
pub open spec fn send_to_pacs_step(
    state: SendToPacs,
    event: Event,
    next: SendToPacs,
    action: Action<String>,
) -> bool {
    match (state, event) {
        (SendToPacs::Done, _) => next is Done && action.rejects(out_of_turn()),
        (_, Event::Unavailable(reason)) => next is Done && action.rejects(
            store_unavailable(reason@),
        ),
        (SendToPacs::Requested { id, current_id }, Event::Begin) => {
            &&& next == (SendToPacs::AwaitDestination { id, current_id })
            &&& action == (Action::<String>::Get { table: Table::Mim, key: id })
        },
        (SendToPacs::AwaitDestination { id, current_id }, Event::Mim(answer)) => match resolution(
            Table::Mim,
            id@,
            answer,
        ) {
            Ok(destination) => {
                &&& next == (SendToPacs::AwaitEntry { current_id, destination })
                &&& action == (Action::<String>::Get { table: Table::Mpps, key: current_id })
            },
            Err(failure) => next is Done && action.rejects(failure),
        },
        (SendToPacs::AwaitEntry { current_id, destination }, Event::Mpps(answer)) => match resolution(
            Table::Mpps,
            current_id@,
            answer,
        ) {
            Ok(mpps) => {
                &&& next is AwaitEngine
                &&& action == (Action::<String>::Call {
                    request: GatewayRequest::StoreImages { mpps, destination },
                })
            },
            Err(failure) => next is Done && action.rejects(failure),
        },
        (SendToPacs::AwaitEngine, Event::Acknowledged(reply)) => match acknowledgment(reply) {
            Ok(response) => next is Done && action.responds(
                accepted(response.message@, response.message),
            ),
            Err(failure) => next is Done && action.rejects(failure),
        },
        _ => next is Done && action.rejects(out_of_turn()),
    }
}

/// Advances the sequence of an image transmission by one step.
pub fn send_to_pacs(state: SendToPacs, event: Event) -> (step: (SendToPacs, Action<String>))
    ensures
        send_to_pacs_step(state, event, step.0, step.1),
        settled(step.1),
        step.0 is Done <==> step.1 is Respond,
        !step.1.writes(),
{
    match (state, event) {
        (SendToPacs::Done, _) => (SendToPacs::Done, reject_out_of_turn()),
        (_, Event::Unavailable(reason)) => (SendToPacs::Done, reject(Failure::unavailable(reason))),
        (SendToPacs::Requested { id, current_id }, Event::Begin) => {
            let key = copy_text(&id);
            (SendToPacs::AwaitDestination { id, current_id }, Action::Get { table: Table::Mim, key })
        },
        (SendToPacs::AwaitDestination { id, current_id }, Event::Mim(answer)) => match resolved(
            Table::Mim,
            id.as_str(),
            answer,
        ) {
            Ok(destination) => {
                let key = copy_text(&current_id);
                (
                    SendToPacs::AwaitEntry { current_id, destination },
                    Action::Get { table: Table::Mpps, key },
                )
            },
            Err(failure) => (SendToPacs::Done, reject(failure)),
        },
        (SendToPacs::AwaitEntry { current_id, destination }, Event::Mpps(answer)) => match resolved(
            Table::Mpps,
            current_id.as_str(),
            answer,
        ) {
            Ok(mpps) => (
                SendToPacs::AwaitEngine,
                Action::Call { request: GatewayRequest::StoreImages { mpps, destination } },
            ),
            Err(failure) => (SendToPacs::Done, reject(failure)),
        },
        (SendToPacs::AwaitEngine, Event::Acknowledged(reply)) => match acknowledged(reply) {
            Ok(response) => {
                let message = copy_text(&response.message);
                (
                    SendToPacs::Done,
                    Action::Respond {
                        response: ApiResponse::success(message.as_str(), Some(response.message)),
                    },
                )
            },
            Err(failure) => (SendToPacs::Done, reject(failure)),
        },
        _ => (SendToPacs::Done, reject_out_of_turn()),
    }
}

/// Where the sequence of a report transmission stands.
#[derive(Debug)]
pub enum SendReport {
    /// The command as it arrived: the report's file, the key of the
    /// destination and the key of the record.
    Requested { dcm_file: String, selected_id: String, id: String },
    /// The destination is being read.
    AwaitDestination { dcm_file: String, selected_id: String, id: String },
    /// The record is being read.
    AwaitEntry { dcm_file: String, id: String, destination: MimEntry },
    /// The engine is transmitting the report of `entry`.
    AwaitEngine { entry: MppsEntry },
    /// The sequence has ended.
    Done,
}

/// One step of a report transmission: what follows from `state` and
/// `event`.
///
/// The destination is read, then the record, then the engine transmits.
/// Nothing is written; on success the response carries the record as it
/// was read.
pub open spec fn send_rt_s_step(
    state: SendReport,
    event: Event,
    next: SendReport,
    action: Action<MppsEntry>,
) -> bool {
    match (state, event) {
        (SendReport::Done, _) => next is Done && action.rejects(out_of_turn()),
        (_, Event::Unavailable(reason)) => next is Done && action.rejects(
            store_unavailable(reason@),
        ),
        (SendReport::Requested { dcm_file, selected_id, id }, Event::Begin) => {
            &&& next == (SendReport::AwaitDestination { dcm_file, selected_id, id })
            &&& action == (Action::<MppsEntry>::Get { table: Table::Mim, key: selected_id })
        },
        (
            SendReport::AwaitDestination { dcm_file, selected_id, id },
            Event::Mim(answer),
        ) => match resolution(Table::Mim, selected_id@, answer) {
            Ok(destination) => {
                &&& next == (SendReport::AwaitEntry { dcm_file, id, destination })
                &&& action == (Action::<MppsEntry>::Get { table: Table::Mpps, key: id })
            },
            Err(failure) => next is Done && action.rejects(failure),
        },
        (SendReport::AwaitEntry { dcm_file, id, destination }, Event::Mpps(answer)) => match resolution(
            Table::Mpps,
            id@,
            answer,
        ) {
            Ok(entry) => {
                &&& next == (SendReport::AwaitEngine { entry })
                &&& action == (Action::<MppsEntry>::Call {
                    request: GatewayRequest::SendReport { destination, mpps: entry, dcm_file },
                })
            },
            Err(failure) => next is Done && action.rejects(failure),
        },
        (SendReport::AwaitEngine { entry }, Event::Acknowledged(reply)) => match acknowledgment(
            reply,
        ) {
            Ok(response) => next is Done && action.responds(
                accepted("Report transmitted successfully"@, entry),
            ),
            Err(failure) => next is Done && action.rejects(failure),
        },
        _ => next is Done && action.rejects(out_of_turn()),
    }
}

/// Advances the sequence of a report transmission by one step.
pub fn send_rt_s(state: SendReport, event: Event) -> (step: (SendReport, Action<MppsEntry>))
    ensures
        send_rt_s_step(state, event, step.0, step.1),
        settled(step.1),
        step.0 is Done <==> step.1 is Respond,
        !step.1.writes(),
{
    match (state, event) {
        (SendReport::Done, _) => (SendReport::Done, reject_out_of_turn()),
        (_, Event::Unavailable(reason)) => (SendReport::Done, reject(Failure::unavailable(reason))),
        (SendReport::Requested { dcm_file, selected_id, id }, Event::Begin) => {
            let key = copy_text(&selected_id);
            (
                SendReport::AwaitDestination { dcm_file, selected_id, id },
                Action::Get { table: Table::Mim, key },
            )
        },
        (SendReport::AwaitDestination { dcm_file, selected_id, id }, Event::Mim(answer)) => match resolved(
            Table::Mim,
            selected_id.as_str(),
            answer,
        ) {
            Ok(destination) => {
                let key = copy_text(&id);
                (
                    SendReport::AwaitEntry { dcm_file, id, destination },
                    Action::Get { table: Table::Mpps, key },
                )
            },
            Err(failure) => (SendReport::Done, reject(failure)),
        },
        (SendReport::AwaitEntry { dcm_file, id, destination }, Event::Mpps(answer)) => match resolved(
            Table::Mpps,
            id.as_str(),
            answer,
        ) {
            Ok(entry) => {
                let mpps = entry.duplicate();
                (
                    SendReport::AwaitEngine { entry },
                    Action::Call {
                        request: GatewayRequest::SendReport { destination, mpps, dcm_file },
                    },
                )
            },
            Err(failure) => (SendReport::Done, reject(failure)),
        },
        (SendReport::AwaitEngine { entry }, Event::Acknowledged(reply)) => match acknowledged(reply) {
            Ok(_response) => (
                SendReport::Done,
                Action::Respond {
                    response: ApiResponse::success("Report transmitted successfully", Some(entry)),
                },
            ),
            Err(failure) => (SendReport::Done, reject(failure)),
        },
        _ => (SendReport::Done, reject_out_of_turn()),
    }
}

/// Where the sequence of a study transmission stands.
#[derive(Debug)]
pub enum SendStudy {
    /// The command as it arrived: the study's file, the key of the
    /// destination, the key of the patient study, and the description and
    /// flag to send it with.
    Requested {
        dcm_file: String,
        selected_id: String,
        id: String,
        description: Option<String>,
        generate: Option<bool>,
    },
    /// The destination is being read.
    AwaitDestination {
        dcm_file: String,
        selected_id: String,
        id: String,
        description: Option<String>,
        generate: Option<bool>,
    },
    /// The patient study is being read.
    AwaitStudy {
        dcm_file: String,
        id: String,
        description: Option<String>,
        generate: Option<bool>,
        destination: MimEntry,
    },
    /// The engine is transmitting; `study` is the patient study as it was
    /// handed to the engine.
    AwaitEngine { id: String, study: PatientEntry },
    /// The patient study is being written.
    AwaitStore,
    /// The sequence has ended.
    Done,
}

/// The patient study as it is handed to the engine: with the description
/// and the flag of the command, and nothing else changed.
pub open spec fn prepared_study(
    study: PatientEntry,
    description: Option<String>,
    generate: Option<bool>,
) -> PatientEntry {
    PatientEntry { description: description, generate: generate, ..study }
}

/// The patient study as it is written once the engine has confirmed: with
/// the identifiers that the engine assigned.
pub open spec fn transmitted_study(study: PatientEntry, result: String) -> PatientEntry {
    PatientEntry { sop_instance_uids: Some(result), ..study }
}

/// One step of a study transmission: what follows from `state` and
/// `event`.
///
/// The destination is read, then the patient study, then the engine
/// transmits. The study is written only after the engine has acknowledged
/// with success.
pub open spec fn send_cstore_headless_step(
    state: SendStudy,
    event: Event,
    next: SendStudy,
    action: Action<PatientEntry>,
) -> bool {
    match (state, event) {
        (SendStudy::Done, _) => next is Done && action.rejects(out_of_turn()),
        (_, Event::Unavailable(reason)) => next is Done && action.rejects(
            store_unavailable(reason@),
        ),
        (
            SendStudy::Requested { dcm_file, selected_id, id, description, generate },
            Event::Begin,
        ) => {
            &&& next == (SendStudy::AwaitDestination {
                dcm_file,
                selected_id,
                id,
                description,
                generate,
            })
            &&& action == (Action::<PatientEntry>::Get { table: Table::Mim, key: selected_id })
        },
        (
            SendStudy::AwaitDestination { dcm_file, selected_id, id, description, generate },
            Event::Mim(answer),
        ) => match resolution(Table::Mim, selected_id@, answer) {
            Ok(destination) => {
                &&& next == (SendStudy::AwaitStudy {
                    dcm_file,
                    id,
                    description,
                    generate,
                    destination,
                })
                &&& action == (Action::<PatientEntry>::Get { table: Table::Patient, key: id })
            },
            Err(failure) => next is Done && action.rejects(failure),
        },
        (
            SendStudy::AwaitStudy { dcm_file, id, description, generate, destination },
            Event::Patient(answer),
        ) => match resolution(Table::Patient, id@, answer) {
            Ok(study) => {
                let prepared = prepared_study(study, description, generate);
                &&& next == (SendStudy::AwaitEngine { id, study: prepared })
                &&& action == (Action::<PatientEntry>::Call {
                    request: GatewayRequest::StoreStudy { destination, patient: prepared, dcm_file },
                })
            },
            Err(failure) => next is Done && action.rejects(failure),
        },
        (SendStudy::AwaitEngine { id, study }, Event::Acknowledged(reply)) => match acknowledgment(
            reply,
        ) {
            Ok(response) => {
                &&& next is AwaitStore
                &&& action == (Action::<PatientEntry>::UpdatePatient {
                    key: id,
                    entry: transmitted_study(study, response.result),
                })
            },
            Err(failure) => next is Done && action.rejects(failure),
        },
        (SendStudy::AwaitStore, Event::Patient(answer)) => next is Done && action.responds(
            revision(Table::Patient, answer),
        ),
        _ => next is Done && action.rejects(out_of_turn()),
    }
}

/// Advances the sequence of a study transmission by one step.
pub fn send_cstore_headless(state: SendStudy, event: Event) -> (step: (
    SendStudy,
    Action<PatientEntry>,
))
    ensures
        send_cstore_headless_step(state, event, step.0, step.1),
        settled(step.1),
        step.0 is Done <==> step.1 is Respond,
        step.1.writes() ==> state is AwaitEngine && confirmed(event),
        state is AwaitEngine && !confirmed(event) ==> fails(step.1),
{
    match (state, event) {
        (SendStudy::Done, _) => (SendStudy::Done, reject_out_of_turn()),
        (_, Event::Unavailable(reason)) => (SendStudy::Done, reject(Failure::unavailable(reason))),
        (
            SendStudy::Requested { dcm_file, selected_id, id, description, generate },
            Event::Begin,
        ) => {
            let key = copy_text(&selected_id);
            (
                SendStudy::AwaitDestination { dcm_file, selected_id, id, description, generate },
                Action::Get { table: Table::Mim, key },
            )
        },
        (
            SendStudy::AwaitDestination { dcm_file, selected_id, id, description, generate },
            Event::Mim(answer),
        ) => match resolved(Table::Mim, selected_id.as_str(), answer) {
            Ok(destination) => {
                let key = copy_text(&id);
                (
                    SendStudy::AwaitStudy { dcm_file, id, description, generate, destination },
                    Action::Get { table: Table::Patient, key },
                )
            },
            Err(failure) => (SendStudy::Done, reject(failure)),
        },
        (
            SendStudy::AwaitStudy { dcm_file, id, description, generate, destination },
            Event::Patient(answer),
        ) => match resolved(Table::Patient, id.as_str(), answer) {
            Ok(study) => {
                let mut prepared = study;
                prepared.description = description;
                prepared.generate = generate;
                let patient = prepared.duplicate();
                (
                    SendStudy::AwaitEngine { id, study: prepared },
                    Action::Call {
                        request: GatewayRequest::StoreStudy { destination, patient, dcm_file },
                    },
                )
            },
            Err(failure) => (SendStudy::Done, reject(failure)),
        },
        (SendStudy::AwaitEngine { id, study }, Event::Acknowledged(reply)) => match acknowledged(
            reply,
        ) {
            Ok(response) => {
                let mut written = study;
                written.sop_instance_uids = Some(response.result);
                (SendStudy::AwaitStore, Action::UpdatePatient { key: id, entry: written })
            },
            Err(failure) => (SendStudy::Done, reject(failure)),
        },
        (SendStudy::AwaitStore, Event::Patient(answer)) => (
            SendStudy::Done,
            Action::Respond { response: revised(Table::Patient, answer) },
        ),
        _ => (SendStudy::Done, reject_out_of_turn()),
    }
}

} // verus!
