use mpps_lifecycle::begin::{create_mpps_entry, CreateMpps};
use mpps_lifecycle::failure::FailureKind;
use mpps_lifecycle::gateway::GatewayRequest;
use mpps_lifecycle::models::{
    ApiResponse, MimEntry, MppsEntry, MppsResponse, PatientEntry, RecordKey, WorklistEntry,
};
use mpps_lifecycle::purge::{delete_mpps_entry, delete_target, DeleteMpps, DeleteTarget};
use mpps_lifecycle::query::{search_worklist_data, SearchWorklist};
use mpps_lifecycle::records::Table;
use mpps_lifecycle::sequence::{Action, Event};
use mpps_lifecycle::transition::{update_mpps_entry, UpdateMpps};
use mpps_lifecycle::transmit::{
    send_cstore_headless, send_rt_s, send_to_pacs, SendReport, SendStudy, SendToPacs,
};

fn key(table: &str, id: &str) -> Option<RecordKey> {
    Some(RecordKey { tb: table.to_string(), id: id.to_string() })
}

fn worklist(id: &str) -> WorklistEntry {
    WorklistEntry {
        id: key("worklist", id),
        name: "CT room".to_string(),
        calling_ae_title: "MODALITY".to_string(),
        worklist_ae_title: "RIS".to_string(),
        worklist_ip: "10.0.0.5".to_string(),
        worklist_port: "11112".to_string(),
        mpps_calling_ae_title: "MODALITY".to_string(),
        mpps_ae_title: "MPPS".to_string(),
        mpps_port: "11113".to_string(),
        tls_enabled: None,
    }
}

fn record(id: Option<&str>, status: Option<&str>, uid: Option<&str>) -> MppsEntry {
    MppsEntry {
        id: match id {
            Some(id) => key("mpps", id),
            None => None,
        },
        accession_number: "ACC-1".to_string(),
        requested_procedure_description: "Chest".to_string(),
        patient_name: "DOE^JANE".to_string(),
        patient_id: "P-1".to_string(),
        patient_birth_date: "19800101".to_string(),
        patient_sex: "F".to_string(),
        modality: "CT".to_string(),
        scheduled_station_ae_title: "CT1".to_string(),
        scheduled_procedure_step_start_date: "20240101".to_string(),
        scheduled_performing_physician_name: "WHO^DR".to_string(),
        study_instance_uid: "1.2.3".to_string(),
        status: status.map(|s| s.to_string()),
        mpps_instance_uid: uid.map(|s| s.to_string()),
        sop_instance_uids: None,
        dcm_file: None,
        description: None,
    }
}

fn destination(id: &str) -> MimEntry {
    MimEntry {
        id: key("mim", id),
        name: "PACS".to_string(),
        calling_ae_title: "MODALITY".to_string(),
        ae_title: "PACS".to_string(),
        ip: "10.0.0.9".to_string(),
        port: "104".to_string(),
    }
}

fn study(id: &str) -> PatientEntry {
    PatientEntry {
        id: key("patient", id),
        patient_name: "DOE^JOHN".to_string(),
        patient_id: "P-2".to_string(),
        patient_birth_date: "19700101".to_string(),
        patient_sex: "M".to_string(),
        description: None,
        sop_instance_uids: None,
        generate: None,
    }
}

fn ack(success: bool, message: &str, result: &str) -> Result<MppsResponse, String> {
    Ok(MppsResponse { success, message: message.to_string(), result: result.to_string() })
}

fn id_of(key: &Option<RecordKey>) -> Option<String> {
    key.as_ref().map(|k| k.id.clone())
}

struct Host {
    worklists: Vec<WorklistEntry>,
    records: Vec<MppsEntry>,
    destinations: Vec<MimEntry>,
    studies: Vec<PatientEntry>,
    replies: Vec<Result<MppsResponse, String>>,
    rows: Vec<Result<String, String>>,
    calls: Vec<GatewayRequest>,
    writes: usize,
    refuse_delete_of: Option<String>,
    created: usize,
}

impl Host {
    fn new() -> Host {
        Host {
            worklists: vec![worklist("w1")],
            records: vec![],
            destinations: vec![destination("d1")],
            studies: vec![study("s1")],
            replies: vec![],
            rows: vec![],
            calls: vec![],
            writes: 0,
            refuse_delete_of: None,
            created: 0,
        }
    }

    fn stored(&self, id: &str) -> Option<MppsEntry> {
        self.records.iter().find(|e| id_of(&e.id).as_deref() == Some(id)).cloned()
    }

    fn perform<T>(&mut self, action: Action<T>) -> Event {
        match action {
            Action::Get { table, key } => match table {
                Table::Worklist => Event::Worklist(Ok(
                    self.worklists.iter().find(|e| id_of(&e.id) == Some(key.clone())).cloned(),
                )),
                Table::Mim => Event::Mim(Ok(
                    self.destinations.iter().find(|e| id_of(&e.id) == Some(key.clone())).cloned(),
                )),
                Table::Mpps => Event::Mpps(Ok(self.stored(&key))),
                Table::Patient => Event::Patient(Ok(
                    self.studies.iter().find(|e| id_of(&e.id) == Some(key.clone())).cloned(),
                )),
                _ => panic!("no sequence reads this collection"),
            },
            Action::GetAll { table } => {
                assert_eq!(table, Table::Mpps);
                Event::MppsRows(Ok(self.records.clone()))
            }
            Action::CreateMpps { entry } => {
                self.writes += 1;
                self.created += 1;
                let mut stored = entry;
                stored.id = key("mpps", &format!("new{}", self.created));
                self.records.push(stored.clone());
                Event::MppsRows(Ok(vec![stored]))
            }
            Action::UpdateMpps { key, entry } => {
                self.writes += 1;
                match self.records.iter().position(|e| id_of(&e.id) == Some(key.clone())) {
                    Some(at) => {
                        self.records[at] = entry.clone();
                        Event::Mpps(Ok(Some(entry)))
                    }
                    None => Event::Mpps(Ok(None)),
                }
            }
            Action::UpdatePatient { key, entry } => {
                self.writes += 1;
                match self.studies.iter().position(|e| id_of(&e.id) == Some(key.clone())) {
                    Some(at) => {
                        self.studies[at] = entry.clone();
                        Event::Patient(Ok(Some(entry)))
                    }
                    None => Event::Patient(Ok(None)),
                }
            }
            Action::DeleteMpps { key } => {
                assert_eq!(key.tb, "mpps");
                if self.refuse_delete_of.as_deref() == Some(key.id.as_str()) {
                    return Event::Mpps(Err("disk full".to_string()));
                }
                self.writes += 1;
                match self.records.iter().position(|e| id_of(&e.id) == Some(key.id.clone())) {
                    Some(at) => Event::Mpps(Ok(Some(self.records.remove(at)))),
                    None => Event::Mpps(Ok(None)),
                }
            }
            Action::Call { request } => {
                let query = matches!(request, GatewayRequest::QueryWorklist { .. });
                self.calls.push(request);
                if query {
                    Event::Rows(self.rows.remove(0))
                } else {
                    Event::Acknowledged(self.replies.remove(0))
                }
            }
            Action::Respond { .. } => unreachable!(),
        }
    }

    fn update(&mut self, dcm_file: &str, selected_id: &str, id: &str, status: &str) -> ApiResponse<MppsEntry> {
        let mut state = UpdateMpps::Requested {
            dcm_file: dcm_file.to_string(),
            selected_id: selected_id.to_string(),
            id: id.to_string(),
            status: status.to_string(),
            description: Some("note".to_string()),
        };
        let mut event = Event::Begin;
        loop {
            let (next, action) = update_mpps_entry(state, event);
            state = next;
            match action {
                Action::Respond { response } => {
                    assert!(matches!(state, UpdateMpps::Done));
                    return response;
                }
                other => event = self.perform(other),
            }
        }
    }

    fn create(&mut self, selected_id: &str, entry: MppsEntry) -> ApiResponse<MppsEntry> {
        let mut state = CreateMpps::Requested { selected_id: selected_id.to_string(), entry };
        let mut event = Event::Begin;
        loop {
            let (next, action) = create_mpps_entry(state, event);
            state = next;
            match action {
                Action::Respond { response } => {
                    assert!(matches!(state, CreateMpps::Done));
                    return response;
                }
                other => event = self.perform(other),
            }
        }
    }

    fn delete(&mut self, id: &str) -> ApiResponse<Vec<MppsEntry>> {
        let mut state = DeleteMpps::Requested { id: id.to_string() };
        let mut event = Event::Begin;
        loop {
            let (next, action) = delete_mpps_entry(state, event);
            state = next;
            match action {
                Action::Respond { response } => {
                    assert!(matches!(state, DeleteMpps::Done));
                    return response;
                }
                other => event = self.perform(other),
            }
        }
    }

    fn search(&mut self, id: &str) -> ApiResponse<String> {
        let mut state = SearchWorklist::Requested { id: id.to_string() };
        let mut event = Event::Begin;
        loop {
            let (next, action) = search_worklist_data(state, event);
            state = next;
            match action {
                Action::Respond { response } => return response,
                other => event = self.perform(other),
            }
        }
    }

    fn to_pacs(&mut self, id: &str, current_id: &str) -> ApiResponse<String> {
        let mut state =
            SendToPacs::Requested { id: id.to_string(), current_id: current_id.to_string() };
        let mut event = Event::Begin;
        loop {
            let (next, action) = send_to_pacs(state, event);
            state = next;
            match action {
                Action::Respond { response } => return response,
                other => event = self.perform(other),
            }
        }
    }

    fn report(&mut self, dcm_file: &str, selected_id: &str, id: &str) -> ApiResponse<MppsEntry> {
        let mut state = SendReport::Requested {
            dcm_file: dcm_file.to_string(),
            selected_id: selected_id.to_string(),
            id: id.to_string(),
        };
        let mut event = Event::Begin;
        loop {
            let (next, action) = send_rt_s(state, event);
            state = next;
            match action {
                Action::Respond { response } => return response,
                other => event = self.perform(other),
            }
        }
    }

    fn headless(&mut self, dcm_file: &str, selected_id: &str, id: &str) -> ApiResponse<PatientEntry> {
        let mut state = SendStudy::Requested {
            dcm_file: dcm_file.to_string(),
            selected_id: selected_id.to_string(),
            id: id.to_string(),
            description: Some("headless".to_string()),
            generate: Some(true),
        };
        let mut event = Event::Begin;
        loop {
            let (next, action) = send_cstore_headless(state, event);
            state = next;
            match action {
                Action::Respond { response } => return response,
                other => event = self.perform(other),
            }
        }
    }
}

fn consistent<T>(response: &ApiResponse<T>) {
    assert_eq!(response.success, response.data.is_some());
    if response.success {
        assert_eq!(response.error, None);
    }
    assert!(!response.message.is_empty());
}

#[test]
fn begin_creates_record_in_progress_with_engine_uid() {
    let mut host = Host::new();
    host.replies.push(ack(true, "created", "1.2.840.1"));
    let response = host.create("w1", record(None, None, None));
    consistent(&response);
    assert!(response.success);
    assert_eq!(response.message, "mpps entry created successfully");
    let created = response.data.unwrap();
    assert_eq!(created.status, Some("IN_PROGRESS".to_string()));
    assert_eq!(created.mpps_instance_uid, Some("1.2.840.1".to_string()));
    assert_eq!(created.accession_number, "ACC-1");
    assert_eq!(host.records.len(), 1);
    assert_eq!(host.records[0], created);
    assert_eq!(host.calls.len(), 1);
    match &host.calls[0] {
        GatewayRequest::MppsCreate { worklist: w, mpps } => {
            assert_eq!(*w, worklist("w1"));
            assert_eq!(*mpps, record(None, None, None));
        }
        other => panic!("unexpected request {:?}", other),
    }
}

#[test]
fn begin_persists_nothing_when_engine_refuses() {
    let mut host = Host::new();
    host.replies.push(ack(false, "association rejected", ""));
    let response = host.create("w1", record(None, None, None));
    consistent(&response);
    assert!(!response.success);
    assert_eq!(response.message, "association rejected");
    assert_eq!(response.error, Some("Failed: association rejected".to_string()));
    assert!(host.records.is_empty());
    assert_eq!(host.writes, 0);
}

#[test]
fn begin_persists_nothing_when_engine_is_unreachable() {
    let mut host = Host::new();
    host.replies.push(Err("Failed to call Python function: timeout".to_string()));
    let response = host.create("w1", record(None, None, None));
    assert!(!response.success);
    assert_eq!(response.message, "An error occurred");
    assert_eq!(response.error, Some("Failed to call Python function: timeout".to_string()));
    assert!(host.records.is_empty());
}

#[test]
fn begin_without_worklist_entry_never_calls_engine() {
    let mut host = Host::new();
    let response = host.create("missing", record(None, None, None));
    consistent(&response);
    assert!(!response.success);
    assert_eq!(response.message, "No worklist entry found with id: missing");
    assert_eq!(response.error, None);
    assert!(host.calls.is_empty());
    assert_eq!(host.writes, 0);
}

#[test]
fn begin_refuses_record_that_is_already_bound() {
    let mut host = Host::new();
    let response = host.create("w1", record(None, None, Some("1.2.840.1")));
    assert!(!response.success);
    assert_eq!(response.message, "the procedure step has already begun");
    assert_eq!(response.error, Some("invariant violation".to_string()));
    let response = host.create("w1", record(None, Some("IN_PROGRESS"), None));
    assert!(!response.success);
    assert!(host.calls.is_empty());
    assert!(host.records.is_empty());
}

#[test]
fn begin_reports_store_that_returns_nothing() {
    let (state, action) = create_mpps_entry(CreateMpps::AwaitStore, Event::MppsRows(Ok(vec![])));
    assert!(matches!(state, CreateMpps::Done));
    match action {
        Action::Respond { response } => {
            assert!(!response.success);
            assert_eq!(response.message, "Failed to create mpps entry, no entries returned");
            assert_eq!(response.error, Some("no entity returned".to_string()));
            assert_eq!(response.data, None);
        }
        other => panic!("unexpected action {:?}", other),
    }
}

#[test]
fn complete_writes_status_identifiers_and_file() {
    let mut host = Host::new();
    host.records.push(record(Some("m1"), Some("IN_PROGRESS"), Some("1.2.840.1")));
    host.replies.push(ack(true, "ok", "1.1,1.2"));
    let response = host.update("scan.dcm", "w1", "m1", "COMPLETED");
    consistent(&response);
    assert!(response.success);
    assert_eq!(response.message, "mpps entry updated successfully");
    let written = response.data.unwrap();
    assert_eq!(written.status, Some("COMPLETED".to_string()));
    assert_eq!(written.sop_instance_uids, Some("1.1,1.2".to_string()));
    assert_eq!(written.dcm_file, Some("scan.dcm".to_string()));
    assert_eq!(written.description, Some("note".to_string()));
    assert_eq!(written.mpps_instance_uid, Some("1.2.840.1".to_string()));
    assert_eq!(host.stored("m1"), Some(written));
    match &host.calls[0] {
        GatewayRequest::MppsComplete { mpps, dcm_file, .. } => {
            assert_eq!(mpps.status, Some("COMPLETED".to_string()));
            assert_eq!(mpps.sop_instance_uids, None);
            assert_eq!(dcm_file, "scan.dcm");
        }
        other => panic!("unexpected request {:?}", other),
    }
}

#[test]
fn discontinue_writes_status_only() {
    let mut host = Host::new();
    host.records.push(record(Some("m1"), Some("IN_PROGRESS"), Some("1.2.840.1")));
    host.replies.push(ack(true, "ok", "ignored"));
    let response = host.update("scan.dcm", "w1", "m1", "DISCONTINUED");
    assert!(response.success);
    let written = response.data.unwrap();
    assert_eq!(written.status, Some("DISCONTINUED".to_string()));
    assert_eq!(written.sop_instance_uids, None);
    assert_eq!(written.dcm_file, None);
    assert_eq!(written.mpps_instance_uid, Some("1.2.840.1".to_string()));
    assert!(matches!(host.calls[0], GatewayRequest::MppsDiscontinue { .. }));
}

#[test]
fn second_complete_is_rejected_and_first_stands() {
    let mut host = Host::new();
    host.records.push(record(Some("m1"), Some("IN_PROGRESS"), Some("1.2.840.1")));
    host.replies.push(ack(true, "ok", "1.1"));
    host.replies.push(ack(true, "ok", "9.9"));
    let first = host.update("a.dcm", "w1", "m1", "COMPLETED");
    let second = host.update("b.dcm", "w1", "m1", "COMPLETED");
    assert!(first.success);
    assert!(!second.success);
    assert_eq!(second.message, "the procedure step is not in progress");
    assert_eq!(second.error, Some("invariant violation".to_string()));
    assert_eq!(host.calls.len(), 1);
    assert_eq!(host.writes, 1);
    let stored = host.stored("m1").unwrap();
    assert_eq!(stored.sop_instance_uids, Some("1.1".to_string()));
    assert_eq!(stored.dcm_file, Some("a.dcm".to_string()));
}

#[test]
fn failed_complete_leaves_record_untouched() {
    let mut host = Host::new();
    let before = record(Some("m1"), Some("IN_PROGRESS"), Some("1.2.840.1"));
    host.records.push(before.clone());
    host.replies.push(ack(false, "storage commitment failed", "junk"));
    let refused = host.update("scan.dcm", "w1", "m1", "COMPLETED");
    consistent(&refused);
    assert!(!refused.success);
    assert_eq!(refused.message, "storage commitment failed");
    assert_eq!(refused.error, Some("Failed: storage commitment failed".to_string()));
    assert_eq!(host.stored("m1"), Some(before.clone()));
    host.replies.push(Err("Failed to parse response: EOF".to_string()));
    let broken = host.update("scan.dcm", "w1", "m1", "COMPLETED");
    consistent(&broken);
    assert!(!broken.success);
    assert_eq!(broken.error, Some("Failed to parse response: EOF".to_string()));
    assert_eq!(host.stored("m1"), Some(before));
    assert_eq!(host.writes, 0);
}

#[test]
fn instance_uid_survives_every_update() {
    let mut host = Host::new();
    host.records.push(record(Some("m1"), Some("IN_PROGRESS"), Some("1.2.840.1")));
    host.replies.push(ack(false, "no", ""));
    host.update("a.dcm", "w1", "m1", "DISCONTINUED");
    assert_eq!(host.stored("m1").unwrap().mpps_instance_uid, Some("1.2.840.1".to_string()));
    host.replies.push(ack(true, "ok", "5.5"));
    host.update("a.dcm", "w1", "m1", "COMPLETED");
    assert_eq!(host.stored("m1").unwrap().mpps_instance_uid, Some("1.2.840.1".to_string()));
    host.update("a.dcm", "w1", "m1", "DISCONTINUED");
    assert_eq!(host.stored("m1").unwrap().mpps_instance_uid, Some("1.2.840.1".to_string()));
}

#[test]
fn terminal_record_is_rejected_without_engine_call() {
    for stored in ["COMPLETED", "DISCONTINUED"] {
        for asked in ["COMPLETED", "DISCONTINUED"] {
            let mut host = Host::new();
            let before = record(Some("m1"), Some(stored), Some("1.2.840.1"));
            host.records.push(before.clone());
            let response = host.update("scan.dcm", "w1", "m1", asked);
            consistent(&response);
            assert!(!response.success);
            assert_eq!(response.message, "the procedure step is not in progress");
            assert!(host.calls.is_empty());
            assert_eq!(host.writes, 0);
            assert_eq!(host.stored("m1"), Some(before));
        }
    }
}

#[test]
fn scheduled_record_cannot_be_completed() {
    let mut host = Host::new();
    host.records.push(record(Some("m1"), None, None));
    let response = host.update("scan.dcm", "w1", "m1", "COMPLETED");
    assert!(!response.success);
    assert_eq!(response.message, "the procedure step is not in progress");
    assert!(host.calls.is_empty());
}

#[test]
fn update_to_other_status_is_rejected() {
    for asked in ["IN_PROGRESS", "completed", "", "DONE"] {
        let mut host = Host::new();
        host.records.push(record(Some("m1"), Some("IN_PROGRESS"), Some("1.2.840.1")));
        let response = host.update("scan.dcm", "w1", "m1", asked);
        assert!(!response.success);
        assert_eq!(response.message, "a procedure step can only be completed or discontinued");
        assert!(host.calls.is_empty());
        assert_eq!(host.writes, 0);
    }
}

#[test]
fn update_of_unresolved_reference_fails_fast() {
    let mut host = Host::new();
    host.records.push(record(Some("m1"), Some("IN_PROGRESS"), Some("1.2.840.1")));
    let response = host.update("scan.dcm", "nowhere", "m1", "COMPLETED");
    assert_eq!(response.message, "No worklist entry found with id: nowhere");
    assert_eq!(response.error, None);
    let response = host.update("scan.dcm", "w1", "m9", "COMPLETED");
    assert_eq!(response.message, "No mpps entry found with id: m9");
    assert!(!response.success);
    assert!(host.calls.is_empty());
}

#[test]
fn update_reports_record_that_vanished_before_the_write() {
    let (state, action) = update_mpps_entry(UpdateMpps::AwaitStore, Event::Mpps(Ok(None)));
    assert!(matches!(state, UpdateMpps::Done));
    match action {
        Action::Respond { response } => {
            assert!(!response.success);
            assert_eq!(response.message, "No mpps entry found to update");
            assert_eq!(response.error, None);
        }
        other => panic!("unexpected action {:?}", other),
    }
    let (_, action) =
        update_mpps_entry(UpdateMpps::AwaitStore, Event::Mpps(Err("locked".to_string())));
    match action {
        Action::Respond { response } => {
            assert_eq!(response.message, "Failed to update mpps entry");
            assert_eq!(response.error, Some("locked".to_string()));
        }
        other => panic!("unexpected action {:?}", other),
    }
}

#[test]
fn store_failure_on_read_is_a_persistence_failure() {
    let state = UpdateMpps::AwaitWorklist {
        dcm_file: "a".to_string(),
        selected_id: "w1".to_string(),
        id: "m1".to_string(),
        status: "COMPLETED".to_string(),
        description: None,
    };
    let (state, action) = update_mpps_entry(state, Event::Worklist(Err("io".to_string())));
    assert!(matches!(state, UpdateMpps::Done));
    match action {
        Action::Respond { response } => {
            assert_eq!(response.message, "Failed to read worklist entry");
            assert_eq!(response.error, Some("io".to_string()));
            assert_eq!(response.data, None);
        }
        other => panic!("unexpected action {:?}", other),
    }
}

#[test]
fn unavailable_store_ends_any_sequence() {
    let state = UpdateMpps::Requested {
        dcm_file: "a".to_string(),
        selected_id: "w1".to_string(),
        id: "m1".to_string(),
        status: "COMPLETED".to_string(),
        description: None,
    };
    let (state, action) = update_mpps_entry(state, Event::Unavailable("not opened".to_string()));
    assert!(matches!(state, UpdateMpps::Done));
    match action {
        Action::Respond { response } => {
            assert!(!response.success);
            assert_eq!(response.message, "Record store unavailable");
            assert_eq!(response.error, Some("not opened".to_string()));
        }
        other => panic!("unexpected action {:?}", other),
    }
}

#[test]
fn event_out_of_turn_ends_the_sequence() {
    let state = SendToPacs::Requested { id: "d1".to_string(), current_id: "m1".to_string() };
    let (state, action) = send_to_pacs(state, Event::Rows(Ok("x".to_string())));
    assert!(matches!(state, SendToPacs::Done));
    match action {
        Action::Respond { response } => {
            assert!(!response.success);
            assert_eq!(response.message, "unexpected event for this step of the sequence");
            assert_eq!(response.error, Some("invariant violation".to_string()));
        }
        other => panic!("unexpected action {:?}", other),
    }
    let (state, action) = create_mpps_entry(CreateMpps::Done, Event::Begin);
    assert!(matches!(state, CreateMpps::Done));
    assert!(matches!(action, Action::Respond { .. }));
}

#[test]
fn purge_deletes_exactly_the_completed_records() {
    let mut host = Host::new();
    host.records.push(record(Some("a"), Some("IN_PROGRESS"), Some("1")));
    host.records.push(record(Some("b"), Some("COMPLETED"), Some("2")));
    host.records.push(record(Some("c"), Some("COMPLETED"), Some("3")));
    host.records.push(record(Some("d"), Some("DISCONTINUED"), Some("4")));
    let response = host.delete("all");
    consistent(&response);
    assert!(response.success);
    assert_eq!(response.message, "All complete mpps entries deleted successfully");
    assert_eq!(
        response.data,
        Some(vec![
            record(Some("b"), Some("COMPLETED"), Some("2")),
            record(Some("c"), Some("COMPLETED"), Some("3")),
        ])
    );
    assert_eq!(host.stored("a"), Some(record(Some("a"), Some("IN_PROGRESS"), Some("1"))));
    assert_eq!(host.stored("d"), Some(record(Some("d"), Some("DISCONTINUED"), Some("4"))));
    assert_eq!(host.stored("b"), None);
    assert_eq!(host.stored("c"), None);
    assert_eq!(host.records.len(), 2);
}

#[test]
fn purge_with_nothing_completed_deletes_nothing() {
    let mut host = Host::new();
    host.records.push(record(Some("a"), Some("IN_PROGRESS"), Some("1")));
    let response = host.delete("all");
    assert!(response.success);
    assert_eq!(response.data, Some(vec![]));
    assert_eq!(host.writes, 0);
    assert_eq!(host.records.len(), 1);
}

#[test]
fn purge_that_fails_midway_lists_what_was_removed() {
    let mut host = Host::new();
    host.records.push(record(Some("b"), Some("COMPLETED"), Some("2")));
    host.records.push(record(Some("c"), Some("COMPLETED"), Some("3")));
    host.records.push(record(Some("e"), Some("COMPLETED"), Some("5")));
    host.refuse_delete_of = Some("c".to_string());
    let response = host.delete("all");
    consistent(&response);
    assert!(response.success);
    assert_eq!(response.message, "Failed to delete mpps entry with id mpps:c: disk full");
    assert_eq!(response.data, Some(vec![record(Some("b"), Some("COMPLETED"), Some("2"))]));
    assert_eq!(host.stored("b"), None);
    assert!(host.stored("c").is_some());
    assert!(host.stored("e").is_some());
}

#[test]
fn purge_that_fails_at_once_is_a_failure() {
    let mut host = Host::new();
    host.records.push(record(Some("c"), Some("COMPLETED"), Some("3")));
    host.refuse_delete_of = Some("c".to_string());
    let response = host.delete("all");
    consistent(&response);
    assert!(!response.success);
    assert_eq!(response.message, "Failed to delete mpps entry with id mpps:c");
    assert_eq!(response.error, Some("disk full".to_string()));
    assert!(host.stored("c").is_some());
}

#[test]
fn purge_stops_at_record_without_key() {
    let mut host = Host::new();
    host.records.push(record(Some("b"), Some("COMPLETED"), Some("2")));
    host.records.push(record(None, Some("COMPLETED"), Some("3")));
    let response = host.delete("all");
    assert!(response.success);
    assert_eq!(response.message, "Missing ID for an entry, cannot delete: entry without key");
    assert_eq!(response.data, Some(vec![record(Some("b"), Some("COMPLETED"), Some("2"))]));
    let mut host = Host::new();
    host.records.push(record(None, Some("COMPLETED"), Some("3")));
    let response = host.delete("all");
    assert!(!response.success);
    assert_eq!(response.message, "Missing ID for an entry, cannot delete");
    assert_eq!(response.error, Some("entry without key".to_string()));
}

#[test]
fn purge_skips_record_that_was_already_gone() {
    let state = DeleteMpps::Purging {
        key: RecordKey { tb: "mpps".to_string(), id: "b".to_string() },
        pending: vec![],
        deleted: vec![record(Some("a"), Some("COMPLETED"), Some("1"))],
    };
    let (state, action) = delete_mpps_entry(state, Event::Mpps(Ok(None)));
    assert!(matches!(state, DeleteMpps::Done));
    match action {
        Action::Respond { response } => {
            assert_eq!(response.data, Some(vec![record(Some("a"), Some("COMPLETED"), Some("1"))]));
        }
        other => panic!("unexpected action {:?}", other),
    }
}

#[test]
fn purge_reports_store_that_cannot_list() {
    let (state, action) =
        delete_mpps_entry(DeleteMpps::AwaitRows, Event::MppsRows(Err("io".to_string())));
    assert!(matches!(state, DeleteMpps::Done));
    match action {
        Action::Respond { response } => {
            assert!(!response.success);
            assert_eq!(response.message, "Failed to retrieve complete mpps entries");
            assert_eq!(response.error, Some("io".to_string()));
        }
        other => panic!("unexpected action {:?}", other),
    }
}

#[test]
fn delete_by_key_removes_one_record() {
    let mut host = Host::new();
    host.records.push(record(Some("a"), Some("IN_PROGRESS"), Some("1")));
    host.records.push(record(Some("b"), Some("COMPLETED"), Some("2")));
    let response = host.delete("a");
    consistent(&response);
    assert!(response.success);
    assert_eq!(response.message, "mpps entry deleted successfully");
    assert_eq!(response.data, Some(vec![record(Some("a"), Some("IN_PROGRESS"), Some("1"))]));
    assert_eq!(host.records.len(), 1);
    let response = host.delete("a");
    consistent(&response);
    assert!(!response.success);
    assert_eq!(response.message, "No mpps entry found to delete");
    assert_eq!(response.error, None);
}

#[test]
fn delete_target_reads_the_reserved_key() {
    assert_eq!(delete_target("all".to_string()), DeleteTarget::Completed);
    assert_eq!(delete_target("ALL".to_string()), DeleteTarget::ByKey("ALL".to_string()));
    assert_eq!(delete_target("m1".to_string()), DeleteTarget::ByKey("m1".to_string()));
    assert_eq!(delete_target("".to_string()), DeleteTarget::ByKey("".to_string()));
}

#[test]
fn worklist_query_returns_rows_as_serialised() {
    let mut host = Host::new();
    host.rows.push(Ok("[{\"PatientName\":\"DOE\"}]".to_string()));
    let response = host.search("w1");
    consistent(&response);
    assert!(response.success);
    assert_eq!(response.message, "Worklist queried");
    assert_eq!(response.data, Some("[{\"PatientName\":\"DOE\"}]".to_string()));
    assert_eq!(host.calls, vec![GatewayRequest::QueryWorklist { worklist: worklist("w1") }]);
    assert_eq!(host.writes, 0);
}

#[test]
fn worklist_query_fails_on_missing_entry_or_engine_fault() {
    let mut host = Host::new();
    let response = host.search("w9");
    assert!(!response.success);
    assert_eq!(response.message, "No worklist entry found with id: w9");
    assert!(host.calls.is_empty());
    host.rows.push(Err("Failed to load Python module: syntax".to_string()));
    let response = host.search("w1");
    consistent(&response);
    assert!(!response.success);
    assert_eq!(response.message, "An error occurred");
    assert_eq!(response.error, Some("Failed to load Python module: syntax".to_string()));
}

#[test]
fn images_are_sent_without_any_write() {
    let mut host = Host::new();
    host.records.push(record(Some("m1"), Some("COMPLETED"), Some("1")));
    host.replies.push(ack(true, "2 images stored", "1.1,1.2"));
    let response = host.to_pacs("d1", "m1");
    consistent(&response);
    assert!(response.success);
    assert_eq!(response.message, "2 images stored");
    assert_eq!(response.data, Some("2 images stored".to_string()));
    assert_eq!(host.writes, 0);
    assert_eq!(
        host.calls,
        vec![GatewayRequest::StoreImages {
            mpps: record(Some("m1"), Some("COMPLETED"), Some("1")),
            destination: destination("d1"),
        }]
    );
}

#[test]
fn images_are_not_sent_to_unresolved_destination() {
    let mut host = Host::new();
    host.records.push(record(Some("m1"), Some("COMPLETED"), Some("1")));
    let response = host.to_pacs("d9", "m1");
    assert!(!response.success);
    assert_eq!(response.message, "No mim entry found with id: d9");
    let response = host.to_pacs("d1", "m9");
    assert_eq!(response.message, "No mpps entry found with id: m9");
    assert!(host.calls.is_empty());
    host.replies.push(ack(false, "refused", ""));
    let response = host.to_pacs("d1", "m1");
    consistent(&response);
    assert_eq!(response.message, "refused");
    assert_eq!(response.error, Some("Failed: refused".to_string()));
}

#[test]
fn report_is_sent_and_record_comes_back_unchanged() {
    let mut host = Host::new();
    let stored = record(Some("m1"), Some("COMPLETED"), Some("1"));
    host.records.push(stored.clone());
    host.replies.push(ack(true, "sent", "7.7"));
    let response = host.report("report.dcm", "d1", "m1");
    consistent(&response);
    assert!(response.success);
    assert_eq!(response.message, "Report transmitted successfully");
    assert_eq!(response.data, Some(stored.clone()));
    assert_eq!(host.stored("m1"), Some(stored.clone()));
    assert_eq!(host.writes, 0);
    assert_eq!(
        host.calls,
        vec![GatewayRequest::SendReport {
            destination: destination("d1"),
            mpps: stored,
            dcm_file: "report.dcm".to_string(),
        }]
    );
    host.replies.push(Err("socket closed".to_string()));
    let response = host.report("report.dcm", "d1", "m1");
    consistent(&response);
    assert!(!response.success);
    assert_eq!(response.error, Some("socket closed".to_string()));
}

#[test]
fn study_takes_identifiers_after_transmission() {
    let mut host = Host::new();
    host.replies.push(ack(true, "stored", "3.3,3.4"));
    let response = host.headless("study.dcm", "d1", "s1");
    consistent(&response);
    assert!(response.success);
    assert_eq!(response.message, "Patient entry updated successfully");
    let written = response.data.unwrap();
    assert_eq!(written.sop_instance_uids, Some("3.3,3.4".to_string()));
    assert_eq!(written.description, Some("headless".to_string()));
    assert_eq!(written.generate, Some(true));
    assert_eq!(written.patient_id, "P-2");
    assert_eq!(host.studies[0], written);
    match &host.calls[0] {
        GatewayRequest::StoreStudy { patient, dcm_file, destination: d } => {
            assert_eq!(patient.sop_instance_uids, None);
            assert_eq!(patient.generate, Some(true));
            assert_eq!(dcm_file, "study.dcm");
            assert_eq!(*d, destination("d1"));
        }
        other => panic!("unexpected request {:?}", other),
    }
}

#[test]
fn study_is_untouched_when_transmission_fails() {
    let mut host = Host::new();
    host.replies.push(ack(false, "no association", ""));
    let response = host.headless("study.dcm", "d1", "s1");
    consistent(&response);
    assert!(!response.success);
    assert_eq!(response.message, "no association");
    assert_eq!(host.studies[0], study("s1"));
    assert_eq!(host.writes, 0);
    let response = host.headless("study.dcm", "d1", "s9");
    assert_eq!(response.message, "No patient entry found with id: s9");
    assert_eq!(response.error, None);
}

#[test]
fn failure_kinds_are_distinct() {
    assert_ne!(FailureKind::NotFound, FailureKind::Persistence);
    assert_ne!(FailureKind::Gateway, FailureKind::Business);
}
