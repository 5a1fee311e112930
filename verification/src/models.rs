//! The persisted entities and the acknowledgment that the protocol engine
//! returns.
use vstd::prelude::*;
use vstd::string::StringExecFns;
use crate::text::{copy_opt_text, copy_text, opt_text};

verus! {

/// The key that the record store assigned to an entity: the collection it
/// lives in and its identifier inside that collection.
#[derive(Debug, Clone, PartialEq, Eq)]
pub struct RecordKey {
    pub tb: String,
    pub id: String,
}

impl RecordKey {
    /// An owned copy of this key.
    pub fn duplicate(&self) -> (copy: RecordKey)
        ensures
            copy == *self,
    {
        RecordKey { tb: copy_text(&self.tb), id: copy_text(&self.id) }
    }
}

/// An owned copy of an optional key.
pub fn copy_opt_key(value: &Option<RecordKey>) -> (copy: Option<RecordKey>)
    ensures
        copy == *value,
{
    match value {
        Some(k) => Some(k.duplicate()),
        None => None,
    }
}

/// The structured acknowledgment of a stateful protocol operation.
/// `result` carries the identifier that the engine assigned when `success`
/// holds.
#[derive(Debug, Clone, PartialEq, Eq)]
pub struct MppsResponse {
    pub success: bool,
    pub message: String,
    pub result: String,
}

/// The performed-procedure record.
#[derive(Debug, Clone, PartialEq, Eq)]
pub struct MppsEntry {
    pub id: Option<RecordKey>,
    pub accession_number: String,
    pub requested_procedure_description: String,
    pub patient_name: String,
    pub patient_id: String,
    pub patient_birth_date: String,
    pub patient_sex: String,
    pub modality: String,
    pub scheduled_station_ae_title: String,
    pub scheduled_procedure_step_start_date: String,
    pub scheduled_performing_physician_name: String,
    pub study_instance_uid: String,
    pub status: Option<String>,
    pub mpps_instance_uid: Option<String>,
    pub sop_instance_uids: Option<String>,
    pub dcm_file: Option<String>,
    pub description: Option<String>,
}

impl MppsEntry {
    /// An owned copy of this entry.
    pub fn duplicate(&self) -> (copy: MppsEntry)
        ensures
            copy == *self,
    {
        MppsEntry {
            id: copy_opt_key(&self.id),
            accession_number: copy_text(&self.accession_number),
            requested_procedure_description: copy_text(&self.requested_procedure_description),
            patient_name: copy_text(&self.patient_name),
            patient_id: copy_text(&self.patient_id),
            patient_birth_date: copy_text(&self.patient_birth_date),
            patient_sex: copy_text(&self.patient_sex),
            modality: copy_text(&self.modality),
            scheduled_station_ae_title: copy_text(&self.scheduled_station_ae_title),
            scheduled_procedure_step_start_date: copy_text(
                &self.scheduled_procedure_step_start_date,
            ),
            scheduled_performing_physician_name: copy_text(
                &self.scheduled_performing_physician_name,
            ),
            study_instance_uid: copy_text(&self.study_instance_uid),
            status: copy_opt_text(&self.status),
            mpps_instance_uid: copy_opt_text(&self.mpps_instance_uid),
            sop_instance_uids: copy_opt_text(&self.sop_instance_uids),
            dcm_file: copy_opt_text(&self.dcm_file),
            description: copy_opt_text(&self.description),
        }
    }
}

/// A storage-destination profile.
#[derive(Debug, Clone, PartialEq, Eq)]
pub struct MimEntry {
    pub id: Option<RecordKey>,
    pub name: String,
    pub calling_ae_title: String,
    pub ae_title: String,
    pub ip: String,
    pub port: String,
}

impl MimEntry {
    /// An owned copy of this profile.
    pub fn duplicate(&self) -> (copy: MimEntry)
        ensures
            copy == *self,
    {
        MimEntry {
            id: copy_opt_key(&self.id),
            name: copy_text(&self.name),
            calling_ae_title: copy_text(&self.calling_ae_title),
            ae_title: copy_text(&self.ae_title),
            ip: copy_text(&self.ip),
            port: copy_text(&self.port),
        }
    }
}

/// An HL7 connection profile.
#[derive(Debug, Clone, PartialEq, Eq)]
pub struct Hl7SettingEntry {
    pub id: Option<RecordKey>,
    pub name: String,
    pub ip: String,
    pub port: String,
}

/// An HL7 message-template profile.
#[derive(Debug, Clone, PartialEq, Eq)]
pub struct HL7MessageSetting {
    pub id: Option<RecordKey>,
    pub name: String,
    pub message: String,
}

/// A scheduled procedure binding: where the worklist is queried and where
/// performed-procedure steps are reported.
#[derive(Debug, Clone, PartialEq, Eq)]
pub struct WorklistEntry {
    pub id: Option<RecordKey>,
    pub name: String,
    pub calling_ae_title: String,
    pub worklist_ae_title: String,
    pub worklist_ip: String,
    pub worklist_port: String,
    pub mpps_calling_ae_title: String,
    pub mpps_ae_title: String,
    pub mpps_port: String,
    pub tls_enabled: Option<bool>,
}

impl WorklistEntry {
    /// An owned copy of this entry.
    pub fn duplicate(&self) -> (copy: WorklistEntry)
        ensures
            copy == *self,
    {
        WorklistEntry {
            id: copy_opt_key(&self.id),
            name: copy_text(&self.name),
            calling_ae_title: copy_text(&self.calling_ae_title),
            worklist_ae_title: copy_text(&self.worklist_ae_title),
            worklist_ip: copy_text(&self.worklist_ip),
            worklist_port: copy_text(&self.worklist_port),
            mpps_calling_ae_title: copy_text(&self.mpps_calling_ae_title),
            mpps_ae_title: copy_text(&self.mpps_ae_title),
            mpps_port: copy_text(&self.mpps_port),
            tls_enabled: self.tls_enabled,
        }
    }
}

/// The arguments of a worklist query against one worklist source.
#[derive(Debug, Clone, PartialEq, Eq)]
pub struct DicomWorklistParams {
    pub calling_ae_title: String,
    pub ae_title: String,
    pub ae_address: String,
    pub ae_port: u16,
    pub c_find_rq_path: String,
    pub mr_modality_path: String,
}

/// A patient study that is transmitted without a performed-procedure step.
#[derive(Debug, Clone, PartialEq, Eq)]
pub struct PatientEntry {
    pub id: Option<RecordKey>,
    pub patient_name: String,
    pub patient_id: String,
    pub patient_birth_date: String,
    pub patient_sex: String,
    pub description: Option<String>,
    pub sop_instance_uids: Option<String>,
    pub generate: Option<bool>,
}

impl PatientEntry {
    /// An owned copy of this entry.
    pub fn duplicate(&self) -> (copy: PatientEntry)
        ensures
            copy == *self,
    {
        PatientEntry {
            id: copy_opt_key(&self.id),
            patient_name: copy_text(&self.patient_name),
            patient_id: copy_text(&self.patient_id),
            patient_birth_date: copy_text(&self.patient_birth_date),
            patient_sex: copy_text(&self.patient_sex),
            description: copy_opt_text(&self.description),
            sop_instance_uids: copy_opt_text(&self.sop_instance_uids),
            generate: self.generate,
        }
    }
}

/// The uniform response of every host-facing command.
#[derive(Debug, Clone, PartialEq, Eq)]
pub struct ApiResponse<T> {
    pub success: bool,
    pub message: String,
    pub data: Option<T>,
    pub error: Option<String>,
}

/// What an [`ApiResponse`] says, with its texts as character sequences.
pub struct ApiResponseView<T> {
    pub success: bool,
    pub message: Seq<char>,
    pub data: Option<T>,
    pub error: Option<Seq<char>>,
}

impl<T> View for ApiResponse<T> {
    type V = ApiResponseView<T>;

    open spec fn view(&self) -> ApiResponseView<T> {
        ApiResponseView {
            success: self.success,
            message: self.message@,
            data: self.data,
            error: opt_text(self.error),
        }
    }
}

impl<T> ApiResponseView<T> {
    /// A response carries data exactly when it reports success, and a
    /// successful response names no error.
    pub open spec fn consistent(self) -> bool {
        &&& self.success <==> self.data is Some
        &&& self.success ==> self.error is None
    }

    /// A rejection that names no error: the way an absent entity is reported.
    pub open spec fn reports_absence(self) -> bool {
        !self.success && self.error is None
    }
}

impl<T> ApiResponse<T> {
    /// A successful response with the given message and data.
    pub fn success(message: &str, data: Option<T>) -> (response: Self)
        ensures
            response@ == (ApiResponseView {
                success: true,
                message: message@,
                data: data,
                error: None,
            }),
    {
        ApiResponse { success: true, message: String::from_str(message), data, error: None }
    }

    /// A failed response with the given message and error text; it never
    /// carries data.
    pub fn error(message: &str, error: Option<String>) -> (response: Self)
        ensures
            response@ == (ApiResponseView::<T> {
                success: false,
                message: message@,
                data: None,
                error: opt_text(error),
            }),
    {
        ApiResponse { success: false, message: String::from_str(message), data: None, error }
    }
}

} // verus!
