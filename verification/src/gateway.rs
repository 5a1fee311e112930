//! The protocol gateway as the commands see it: the requests they hand to
//! the protocol engine and how its answers are read.
use vstd::prelude::*;
use crate::failure::{engine_refused, engine_unreachable, Failure, FailureView};
use crate::models::{
    DicomWorklistParams, MimEntry, MppsEntry, MppsResponse, PatientEntry, WorklistEntry,
};
use crate::paths::AppPath;
use crate::text::copy_text;

verus! {

/// One request to the protocol engine, with the entities it is made for.
#[derive(Debug, Clone, PartialEq, Eq)]
pub enum GatewayRequest {
    /// Query the worklist source of `worklist`.
    QueryWorklist { worklist: WorklistEntry },
    /// Announce that the step `mpps` has begun.
    MppsCreate { worklist: WorklistEntry, mpps: MppsEntry },
    /// Report the step `mpps` as completed, with the file it produced.
    MppsComplete { worklist: WorklistEntry, mpps: MppsEntry, dcm_file: String },
    /// Report the step `mpps` as discontinued.
    MppsDiscontinue { worklist: WorklistEntry, mpps: MppsEntry, dcm_file: String },
    /// Transmit the images of `mpps` to `destination`.
    StoreImages { mpps: MppsEntry, destination: MimEntry },
    /// Transmit the report in `dcm_file` to `destination`.
    SendReport { destination: MimEntry, mpps: MppsEntry, dcm_file: String },
    /// Transmit the study of `patient` in `dcm_file` to `destination`.
    StoreStudy { destination: MimEntry, patient: PatientEntry, dcm_file: String },
}

impl GatewayRequest {
    /// The engine function that serves the request. The engine reports a
    /// discontinued step through the function that reports a completed one.
    pub open spec fn function_text(self) -> Seq<char> {
        match self {
            GatewayRequest::QueryWorklist { .. } => "get_work_list_with_paths"@,
            GatewayRequest::MppsCreate { .. } => "send_mpps_in_progress"@,
            GatewayRequest::MppsComplete { .. } => "send_mpps_completed"@,
            GatewayRequest::MppsDiscontinue { .. } => "send_mpps_completed"@,
            GatewayRequest::StoreImages { .. } => "send_c_store_requests"@,
            GatewayRequest::SendReport { .. } => "send_rt_s"@,
            GatewayRequest::StoreStudy { .. } => "send_cstore_headless"@,
        }
    }

    /// The message template that the engine fills for the request, where it
    /// fills one.
    pub open spec fn template_of(self) -> Option<AppPath> {
        match self {
            GatewayRequest::MppsCreate { .. } => Some(AppPath::InProgress),
            GatewayRequest::MppsComplete { .. } => Some(AppPath::Completed),
            GatewayRequest::MppsDiscontinue { .. } => Some(AppPath::Completed),
            _ => None,
        }
    }

    /// Whether the engine is given the certificate directory.
    pub open spec fn certified(self) -> bool {
        match self {
            GatewayRequest::SendReport { .. } => false,
            GatewayRequest::StoreStudy { .. } => false,
            _ => true,
        }
    }

    /// The engine function that serves the request.
    pub fn engine_function(&self) -> (name: &'static str)
        ensures
            name@ == self.function_text(),
    {
        match self {
            GatewayRequest::QueryWorklist { .. } => "get_work_list_with_paths",
            GatewayRequest::MppsCreate { .. } => "send_mpps_in_progress",
            GatewayRequest::MppsComplete { .. } => "send_mpps_completed",
            GatewayRequest::MppsDiscontinue { .. } => "send_mpps_completed",
            GatewayRequest::StoreImages { .. } => "send_c_store_requests",
            GatewayRequest::SendReport { .. } => "send_rt_s",
            GatewayRequest::StoreStudy { .. } => "send_cstore_headless",
        }
    }

    /// The message template that the engine fills for the request.
    pub fn template(&self) -> (template: Option<AppPath>)
        ensures
            template == self.template_of(),
    {
        match self {
            GatewayRequest::MppsCreate { .. } => Some(AppPath::InProgress),
            GatewayRequest::MppsComplete { .. } => Some(AppPath::Completed),
            GatewayRequest::MppsDiscontinue { .. } => Some(AppPath::Completed),
            _ => None,
        }
    }

    /// Whether the engine is given the certificate directory.
    pub fn needs_certificates(&self) -> (needed: bool)
        ensures
            needed == self.certified(),
    {
        match self {
            GatewayRequest::SendReport { .. } => false,
            GatewayRequest::StoreStudy { .. } => false,
            _ => true,
        }
    }
}

/// How an answer to a stateful operation is read: an acknowledgment that
/// reports success stands; one that does not is a refusal with the engine's
/// own message; a call that did not complete carries its reason verbatim.
pub open spec fn acknowledgment(reply: Result<MppsResponse, String>) -> Result<
    MppsResponse,
    FailureView,
> {
    match reply {
        Ok(response) => if response.success {
            Ok(response)
        } else {
            Err(engine_refused(response.message@))
        },
        Err(reason) => Err(engine_unreachable(reason@)),
    }
}

/// Reads the answer to a stateful operation.
pub fn acknowledged(reply: Result<MppsResponse, String>) -> (outcome: Result<MppsResponse, Failure>)
    ensures
        match acknowledgment(reply) {
            Ok(response) => outcome == Ok::<MppsResponse, Failure>(response),
            Err(failure) => outcome is Err && outcome->Err_0@ == failure,
        },
{
    match reply {
        Ok(response) => {
            if response.success {
                Ok(response)
            } else {
                Err(Failure::business(response.message))
            }
        },
        Err(reason) => Err(Failure::gateway(reason)),
    }
}

/// How the rows of a worklist query are read: they stand as they are; a
/// call that did not complete carries its reason verbatim.
pub open spec fn rows_read(reply: Result<String, String>) -> Result<String, FailureView> {
    match reply {
        Ok(rows) => Ok(rows),
        Err(reason) => Err(engine_unreachable(reason@)),
    }
}

/// Reads the answer to a worklist query.
pub fn rows_received(reply: Result<String, String>) -> (outcome: Result<String, Failure>)
    ensures
        match rows_read(reply) {
            Ok(rows) => outcome == Ok::<String, Failure>(rows),
            Err(failure) => outcome is Err && outcome->Err_0@ == failure,
        },
{
    match reply {
        Ok(rows) => Ok(rows),
        Err(reason) => Err(Failure::gateway(reason)),
    }
}

/// The number that a port text denotes, as `str::parse::<u16>` reads it;
/// `None` where the text denotes none.
pub uninterp spec fn parsed_port(text: Seq<char>) -> Option<u16>;

/// Calls `str::parse::<u16>`, std's reading of a decimal number that fits 16
/// bits. Its result depends on the characters of the text alone; a text it
/// cannot read gives `None`.
#[verifier::external_body]
pub(crate) fn parse_port(text: &str) -> (port: Option<u16>)
    ensures
        port == parsed_port(text@),
{
    match text.parse::<u16>() {
        Ok(number) => Some(number),
        Err(_) => None,
    }
}

/// The port that a worklist source is queried on where its port text
/// denotes none.
pub const DEFAULT_WORKLIST_PORT: u16 = 106;

/// The arguments of a worklist query against the source of `worklist`,
/// given what its port text denotes and the two templates' paths.
pub open spec fn query_params(
    worklist: WorklistEntry,
    port: Option<u16>,
    c_find_rq_path: String,
    mr_modality_path: String,
) -> DicomWorklistParams {
    DicomWorklistParams {
        calling_ae_title: worklist.calling_ae_title,
        ae_title: worklist.worklist_ae_title,
        ae_address: worklist.worklist_ip,
        ae_port: match port {
            Some(number) => number,
            None => DEFAULT_WORKLIST_PORT,
        },
        c_find_rq_path,
        mr_modality_path,
    }
}

/// Builds the arguments of a worklist query from a port that was already
/// read.
pub fn worklist_params_with(
    worklist: &WorklistEntry,
    port: Option<u16>,
    c_find_rq_path: String,
    mr_modality_path: String,
) -> (params: DicomWorklistParams)
    ensures
        params == query_params(*worklist, port, c_find_rq_path, mr_modality_path),
{
    DicomWorklistParams {
        calling_ae_title: copy_text(&worklist.calling_ae_title),
        ae_title: copy_text(&worklist.worklist_ae_title),
        ae_address: copy_text(&worklist.worklist_ip),
        ae_port: match port {
            Some(number) => number,
            None => DEFAULT_WORKLIST_PORT,
        },
        c_find_rq_path,
        mr_modality_path,
    }
}

/// Builds the arguments of a worklist query against the source of
/// `worklist`.
pub fn worklist_params(
    worklist: &WorklistEntry,
    c_find_rq_path: String,
    mr_modality_path: String,
) -> (params: DicomWorklistParams)
    ensures
        params == query_params(
            *worklist,
            parsed_port(worklist.worklist_port@),
            c_find_rq_path,
            mr_modality_path,
        ),
{
    let port = parse_port(worklist.worklist_port.as_str());
    worklist_params_with(worklist, port, c_find_rq_path, mr_modality_path)
}

/// Whether the worklist source is queried over TLS: only where the entry
/// says so.
pub fn tls_enabled(worklist: &WorklistEntry) -> (enabled: bool)
    ensures
        enabled == (worklist.tls_enabled == Some(true)),
{
    match worklist.tls_enabled {
        Some(value) => value,
        None => false,
    }
}

} // verus!
