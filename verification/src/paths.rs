//! The resources that the application ships with, and the small rules on
//! the paths they resolve to.
use vstd::prelude::*;
use vstd::string::{StrSliceExecFns, StringExecFns};
use crate::text::join;

verus! {

/// The resources that commands refer to.
#[derive(Debug, Clone, Copy, PartialEq, Eq, Structural)]
pub enum AppPath {
    Database,
    Dcm,
    CFindRq,
    MrModality,
    PythonScript,
    Certs,
    InProgress,
    DisContinued,
    Completed,
    Log,
}

impl AppPath {
    /// Where the resource lies below the application's resource directory.
    pub open spec fn relative_text(self) -> Seq<char> {
        match self {
            AppPath::Log => "log"@,
            AppPath::Database => "resources/database"@,
            AppPath::Dcm => "resources/dicom"@,
            AppPath::CFindRq => "resources/dcm/message/C-FIND-RQ.dcm"@,
            AppPath::MrModality => "resources/dcm/message/MR_Modality.dcm"@,
            AppPath::InProgress => "resources/dcm/message/mpps-inprogress.dcm"@,
            AppPath::DisContinued => "resources/dcm/message/mpps-discontinued.dcm"@,
            AppPath::Completed => "resources/dcm/message/mpps-completed.dcm"@,
            AppPath::PythonScript => "resources/python-script/dicom_utils.py"@,
            AppPath::Certs => "resources/certs"@,
        }
    }

    /// Where the resource lies below the application's resource directory.
    pub fn relative(&self) -> (path: &'static str)
        ensures
            path@ == self.relative_text(),
    {
        match self {
            AppPath::Log => "log",
            AppPath::Database => "resources/database",
            AppPath::Dcm => "resources/dicom",
            AppPath::CFindRq => "resources/dcm/message/C-FIND-RQ.dcm",
            AppPath::MrModality => "resources/dcm/message/MR_Modality.dcm",
            AppPath::InProgress => "resources/dcm/message/mpps-inprogress.dcm",
            AppPath::DisContinued => "resources/dcm/message/mpps-discontinued.dcm",
            AppPath::Completed => "resources/dcm/message/mpps-completed.dcm",
            AppPath::PythonScript => "resources/python-script/dicom_utils.py",
            AppPath::Certs => "resources/certs",
        }
    }

    /// What is reported when the resource cannot be resolved, given the
    /// resolver's own reason.
    pub fn resolve_failure(reason: &str) -> (message: String)
        ensures
            message@ == "Failed to resolve path: "@ + reason@,
    {
        join("Failed to resolve path: ", reason)
    }
}

/// Whether a path begins with the four characters `\\?\` that mark a
/// verbatim path.
pub open spec fn has_verbatim_prefix(path: Seq<char>) -> bool {
    &&& path.len() >= 4
    &&& path[0] == '\\'
    &&& path[1] == '\\'
    &&& path[2] == '?'
    &&& path[3] == '\\'
}

/// The path without its verbatim marker, or the path itself where it has
/// none.
pub open spec fn without_verbatim_prefix(path: Seq<char>) -> Seq<char> {
    if has_verbatim_prefix(path) {
        path.subrange(4, path.len() as int)
    } else {
        path
    }
}

/// Removes the verbatim marker from the start of a path.
pub fn strip_verbatim_prefix(path: &str) -> (stripped: &str)
    ensures
        stripped@ == without_verbatim_prefix(path@),
{
    let len: usize = path.unicode_len();
    if len >= 4 && path.get_char(0) == '\\' && path.get_char(1) == '\\' && path.get_char(2) == '?'
        && path.get_char(3) == '\\' {
        path.substring_char(4, len)
    } else {
        path
    }
}

/// The path of the application's log file below its log directory.
pub fn log_file_path(log_dir: &str) -> (path: String)
    ensures
        path@ == without_verbatim_prefix(log_dir@ + "\\app.log"@),
{
    let full = join(log_dir, "\\app.log");
    String::from_str(strip_verbatim_prefix(full.as_str()))
}

/// Reports what reading the log file gave: its content, or that the file
/// below `log_dir` could not be read.
pub fn read_log_file(log_dir: &str, content: Option<String>) -> (report: Result<String, String>)
    ensures
        match content {
            Some(text) => report == Ok::<String, String>(text),
            None => report is Err && report->Err_0@ == "Failed to read log file: "@ + log_dir@,
        },
{
    match content {
        Some(text) => Ok(text),
        None => Err(join("Failed to read log file: ", log_dir)),
    }
}

} // verus!
