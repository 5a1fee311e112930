use mpps_lifecycle::begin::is_unbound;
use mpps_lifecycle::failure::FailureKind;
use mpps_lifecycle::models::{MimEntry, MppsEntry, PatientEntry, RecordKey, WorklistEntry};
use mpps_lifecycle::models::copy_opt_key;
use mpps_lifecycle::purge::{is_completed, select_completed};
use mpps_lifecycle::records::Table;
use mpps_lifecycle::sequence::{reject, reject_out_of_turn, resolved, Action};
use mpps_lifecycle::status::StepStatus;
use mpps_lifecycle::transition::{is_in_progress, target_of};

fn entry(name: &str, status: Option<&str>) -> MppsEntry {
    MppsEntry {
        id: Some(RecordKey { tb: "mpps".to_string(), id: name.to_string() }),
        accession_number: name.to_string(),
        requested_procedure_description: "d".to_string(),
        patient_name: "n".to_string(),
        patient_id: "i".to_string(),
        patient_birth_date: "b".to_string(),
        patient_sex: "s".to_string(),
        modality: "m".to_string(),
        scheduled_station_ae_title: "t".to_string(),
        scheduled_procedure_step_start_date: "20240102".to_string(),
        scheduled_performing_physician_name: "p".to_string(),
        study_instance_uid: "u".to_string(),
        status: status.map(|s| s.to_string()),
        mpps_instance_uid: Some("1.2".to_string()),
        sop_instance_uids: Some("3.4".to_string()),
        dcm_file: Some("f.dcm".to_string()),
        description: Some("text".to_string()),
    }
}

#[test]
fn completed_rows_are_selected_in_order() {
    let rows = vec![
        entry("a", Some("COMPLETED")),
        entry("b", None),
        entry("c", Some("IN_PROGRESS")),
        entry("d", Some("COMPLETED")),
        entry("e", Some("Completed")),
        entry("f", Some("DISCONTINUED")),
        entry("g", Some("COMPLETED")),
    ];
    let chosen = select_completed(&rows);
    assert_eq!(
        chosen,
        vec![
            entry("a", Some("COMPLETED")),
            entry("d", Some("COMPLETED")),
            entry("g", Some("COMPLETED")),
        ]
    );
    assert_eq!(select_completed(&vec![]), vec![]);
    assert!(is_completed(&entry("a", Some("COMPLETED"))));
    assert!(!is_completed(&entry("a", Some("DISCONTINUED"))));
    assert!(!is_completed(&entry("a", None)));
}

#[test]
fn requested_status_must_be_terminal() {
    assert_eq!(target_of(&"COMPLETED".to_string()), Some(StepStatus::Completed));
    assert_eq!(target_of(&"DISCONTINUED".to_string()), Some(StepStatus::Discontinued));
    assert_eq!(target_of(&"IN_PROGRESS".to_string()), None);
    assert_eq!(target_of(&"".to_string()), None);
    assert_eq!(target_of(&"COMPLETED ".to_string()), None);
}

#[test]
fn record_state_is_read_from_its_fields() {
    assert!(is_in_progress(&entry("a", Some("IN_PROGRESS"))));
    assert!(!is_in_progress(&entry("a", Some("COMPLETED"))));
    assert!(!is_in_progress(&entry("a", None)));
    assert!(!is_in_progress(&entry("a", Some("in_progress"))));
    let mut fresh = entry("a", None);
    assert!(!is_unbound(&fresh));
    fresh.mpps_instance_uid = None;
    assert!(is_unbound(&fresh));
    fresh.status = Some("IN_PROGRESS".to_string());
    assert!(!is_unbound(&fresh));
}

#[test]
fn duplicates_are_equal_to_their_source() {
    let record = entry("a", Some("IN_PROGRESS"));
    assert_eq!(record.duplicate(), record);
    let key = RecordKey { tb: "mim".to_string(), id: "x".to_string() };
    assert_eq!(key.duplicate(), key);
    assert_eq!(copy_opt_key(&Some(key.clone())), Some(key.clone()));
    assert_eq!(copy_opt_key(&None), None);
    let destination = MimEntry {
        id: Some(key),
        name: "n".to_string(),
        calling_ae_title: "c".to_string(),
        ae_title: "a".to_string(),
        ip: "i".to_string(),
        port: "p".to_string(),
    };
    assert_eq!(destination.duplicate(), destination);
    let worklist = WorklistEntry {
        id: None,
        name: "n".to_string(),
        calling_ae_title: "c".to_string(),
        worklist_ae_title: "w".to_string(),
        worklist_ip: "i".to_string(),
        worklist_port: "1".to_string(),
        mpps_calling_ae_title: "m".to_string(),
        mpps_ae_title: "a".to_string(),
        mpps_port: "2".to_string(),
        tls_enabled: Some(false),
    };
    assert_eq!(worklist.duplicate(), worklist);
    let study = PatientEntry {
        id: None,
        patient_name: "n".to_string(),
        patient_id: "i".to_string(),
        patient_birth_date: "b".to_string(),
        patient_sex: "s".to_string(),
        description: Some("d".to_string()),
        sop_instance_uids: None,
        generate: Some(true),
    };
    assert_eq!(study.duplicate(), study);
}

#[test]
fn dependent_reads_resolve_or_fail() {
    assert_eq!(resolved(Table::Mim, "k", Ok(Some(5u8))), Ok(5u8));
    let absent = resolved::<u8>(Table::Mim, "k", Ok(None)).unwrap_err();
    assert_eq!(absent.kind, FailureKind::NotFound);
    assert_eq!(absent.message, "No mim entry found with id: k");
    assert_eq!(absent.detail, None);
    let refused = resolved::<u8>(Table::Hl7Setting, "k", Err("io".to_string())).unwrap_err();
    assert_eq!(refused.kind, FailureKind::Persistence);
    assert_eq!(refused.message, "Failed to read HL7 setting entry");
    assert_eq!(refused.detail, Some("io".to_string()));
}

#[test]
fn rejections_end_with_a_failed_response() {
    let action: Action<u8> = reject_out_of_turn();
    match action {
        Action::Respond { response } => {
            assert!(!response.success);
            assert_eq!(response.data, None);
        }
        other => panic!("unexpected action {:?}", other),
    }
    let failure = mpps_lifecycle::failure::Failure::not_found("gone".to_string());
    let action: Action<u8> = reject(failure);
    match action {
        Action::Respond { response } => {
            assert_eq!(response.message, "gone");
            assert_eq!(response.error, None);
        }
        other => panic!("unexpected action {:?}", other),
    }
}
