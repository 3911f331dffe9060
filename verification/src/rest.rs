//! Decisions of the REST front end: which submitted requests are refused
//! before they are queued, the error records it answers with, and what a
//! request for a job's result is answered.

use vstd::prelude::*;
use vstd::string::StringExecFns;

use crate::convert::{
    spec_group_preset_from_wire, spec_message, spec_path_preset_from_wire, spec_snapshot_from_wire,
    ConvertError, StatisticAnalyzerCurrencyGroupPreset, StatisticAnalyzerPathPreset,
};
use crate::jobs::{is_terminal, spec_is_terminal, JobState};
use crate::text::{append_decimal, decimal_string, str_eq};
use crate::worker::SubmitJobRequest;

verus! {

/// Why a submitted request is refused before it is queued.
#[derive(Clone, Copy, Debug, PartialEq, Eq, Structural)]
pub enum RequestError {
    MissingStart(),
    MissingTarget(),
    InvalidStart(ConvertError),
    InvalidTarget(ConvertError),
    /// A path analyzer preset that is unspecified (wire value 0).
    UnknownPathAnalyzer(),
    /// A group analyzer preset that is unspecified (wire value 0).
    UnknownGroupAnalyzer(),
    /// The requested RAM budget, and the server's limit it exceeds.
    RamLimitExceeded(u64, u64),
}

/// The checks in order: start and target present, start and target
/// convertible, every analyzer preset known, the RAM budget within the
/// server's limit.
pub open spec fn spec_validate(req: SubmitJobRequest, max_ram_limit_bytes: u64) -> Result<(), RequestError> {
    match req.start {
        None => Err(RequestError::MissingStart()),
        Some(s) => match req.target {
            None => Err(RequestError::MissingTarget()),
            Some(t) => match spec_snapshot_from_wire(s) {
                Err(e) => Err(RequestError::InvalidStart(e)),
                Ok(_) => match spec_snapshot_from_wire(t) {
                    Err(e) => Err(RequestError::InvalidTarget(e)),
                    Ok(_) => if exists|i: int| 0 <= i < req.path_analyzers@.len()
                        && (#[trigger] spec_path_preset_from_wire(req.path_analyzers@[i])) is Err {
                        Err(RequestError::UnknownPathAnalyzer())
                    } else if exists|i: int| 0 <= i < req.group_analyzers@.len()
                        && (#[trigger] spec_group_preset_from_wire(req.group_analyzers@[i])) is Err {
                        Err(RequestError::UnknownGroupAnalyzer())
                    } else {
                        match req.limits {
                            Some(l) => if l.max_ram_in_bytes > max_ram_limit_bytes {
                                Err(RequestError::RamLimitExceeded(l.max_ram_in_bytes, max_ram_limit_bytes))
                            } else {
                                Ok(())
                            },
                            None => Ok(()),
                        }
                    },
                },
            },
        },
    }
}

/// Check a submitted request against the server's RAM limit.
pub fn validate_request(request: &SubmitJobRequest, max_ram_limit_bytes: u64) -> (r: Result<(), RequestError>)
    ensures
        r == spec_validate(*request, max_ram_limit_bytes),
{
    let start = match &request.start {
        None => return Err(RequestError::MissingStart()),
        Some(s) => s,
    };
    let target = match &request.target {
        None => return Err(RequestError::MissingTarget()),
        Some(t) => t,
    };
    match start.to_domain() {
        Err(e) => return Err(RequestError::InvalidStart(e)),
        Ok(_) => {},
    }
    match target.to_domain() {
        Err(e) => return Err(RequestError::InvalidTarget(e)),
        Ok(_) => {},
    }
    let mut i: usize = 0;
    while i < request.path_analyzers.len()
        invariant
            i <= request.path_analyzers@.len(),
            request.start matches Some(s) && spec_snapshot_from_wire(s) is Ok,
            request.target matches Some(t) && spec_snapshot_from_wire(t) is Ok,
            forall|j: int| 0 <= j < i ==> (#[trigger] spec_path_preset_from_wire(request.path_analyzers@[j])) is Ok,
        decreases request.path_analyzers.len() - i,
    {
        if StatisticAnalyzerPathPreset::try_from_wire(request.path_analyzers[i]).is_err() {
            return Err(RequestError::UnknownPathAnalyzer());
        }
        i += 1;
    }
    let mut i: usize = 0;
    while i < request.group_analyzers.len()
        invariant
            i <= request.group_analyzers@.len(),
            request.start matches Some(s) && spec_snapshot_from_wire(s) is Ok,
            request.target matches Some(t) && spec_snapshot_from_wire(t) is Ok,
            forall|j: int| 0 <= j < request.path_analyzers@.len() ==> (#[trigger] spec_path_preset_from_wire(request.path_analyzers@[j])) is Ok,
            forall|j: int| 0 <= j < i ==> (#[trigger] spec_group_preset_from_wire(request.group_analyzers@[j])) is Ok,
        decreases request.group_analyzers.len() - i,
    {
        if StatisticAnalyzerCurrencyGroupPreset::try_from_wire(request.group_analyzers[i]).is_err() {
            return Err(RequestError::UnknownGroupAnalyzer());
        }
        i += 1;
    }
    match request.limits {
        Some(l) => if l.max_ram_in_bytes > max_ram_limit_bytes {
            Err(RequestError::RamLimitExceeded(l.max_ram_in_bytes, max_ram_limit_bytes))
        } else {
            Ok(())
        },
        None => Ok(()),
    }
}

/// The message of a refusal.
pub open spec fn spec_request_message(e: RequestError) -> Seq<char> {
    match e {
        RequestError::MissingStart() => "missing 'start' item"@,
        RequestError::MissingTarget() => "missing 'target' item"@,
        RequestError::InvalidStart(c) => "invalid 'start' item: "@ + spec_message(c),
        RequestError::InvalidTarget(c) => "invalid 'target' item: "@ + spec_message(c),
        RequestError::UnknownPathAnalyzer() => "unknown path analyzer preset value 0"@,
        RequestError::UnknownGroupAnalyzer() => "unknown group analyzer preset value 0"@,
        RequestError::RamLimitExceeded(asked, limit) => "max_ram_in_bytes "@ + decimal_string(asked as nat)
            + " exceeds the server limit of "@ + decimal_string(limit as nat),
    }
}

impl RequestError {
    /// The human-readable message of the refusal.
    pub fn message(&self) -> (r: String)
        ensures
            r@ == spec_request_message(*self),
    {
        match self {
            RequestError::MissingStart() => String::from_str("missing 'start' item"),
            RequestError::MissingTarget() => String::from_str("missing 'target' item"),
            RequestError::InvalidStart(c) => {
                let mut s = String::from_str("invalid 'start' item: ");
                let m = c.message();
                s.append(m.as_str());
                s
            },
            RequestError::InvalidTarget(c) => {
                let mut s = String::from_str("invalid 'target' item: ");
                let m = c.message();
                s.append(m.as_str());
                s
            },
            RequestError::UnknownPathAnalyzer() => String::from_str("unknown path analyzer preset value 0"),
            RequestError::UnknownGroupAnalyzer() => String::from_str("unknown group analyzer preset value 0"),
            RequestError::RamLimitExceeded(asked, limit) => {
                let mut s = String::from_str("max_ram_in_bytes ");
                append_decimal(&mut s, *asked);
                s.append(" exceeds the server limit of ");
                append_decimal(&mut s, *limit);
                s
            },
        }
    }
}

/// An error answer: HTTP status, error code and message.
#[derive(Clone, Debug, PartialEq, Eq)]
pub struct ApiError {
    pub status: u16,
    pub code: &'static str,
    pub message: String,
}

impl ApiError {
    pub fn new(status: u16, code: &'static str, message: &str) -> (r: ApiError)
        ensures
            r.status == status,
            r.code@ == code@,
            r.message@ == message@,
    {
        ApiError { status, code, message: String::from_str(message) }
    }

    /// An internal failure (500, `INTERNAL`).
    pub fn internal(message: &str) -> (r: ApiError)
        ensures
            r.status == 500,
            r.code@ == "INTERNAL"@,
            r.message@ == message@,
    {
        ApiError::new(500, "INTERNAL", message)
    }

    /// No such job (404, `JOB_NOT_FOUND`).
    pub fn not_found(job_id: &str) -> (r: ApiError)
        ensures
            r.status == 404,
            r.code@ == "JOB_NOT_FOUND"@,
            r.message@ == "no job with id '"@ + job_id@ + "' (it may have expired)"@,
    {
        let mut m = String::from_str("no job with id '");
        m.append(job_id);
        m.append("' (it may have expired)");
        ApiError { status: 404, code: "JOB_NOT_FOUND", message: m }
    }

    /// A refused request (400, `INVALID_REQUEST`).
    pub fn invalid_request(e: &RequestError) -> (r: ApiError)
        ensures
            r.status == 400,
            r.code@ == "INVALID_REQUEST"@,
            r.message@ == spec_request_message(*e),
    {
        ApiError { status: 400, code: "INVALID_REQUEST", message: e.message() }
    }
}

/// The name a state is shown under in answers.
pub open spec fn spec_state_label(s: JobState) -> Seq<char> {
    match s {
        JobState::Unspecified => "Unspecified"@,
        JobState::Queued => "Queued"@,
        JobState::Running => "Running"@,
        JobState::Succeeded => "Succeeded"@,
        JobState::Failed => "Failed"@,
        JobState::Cancelled => "Cancelled"@,
        JobState::Expired => "Expired"@,
    }
}

fn state_label(s: JobState) -> (r: &'static str)
    ensures
        r@ == spec_state_label(s),
{
    match s {
        JobState::Unspecified => "Unspecified",
        JobState::Queued => "Queued",
        JobState::Running => "Running",
        JobState::Succeeded => "Succeeded",
        JobState::Failed => "Failed",
        JobState::Cancelled => "Cancelled",
        JobState::Expired => "Expired",
    }
}

/// What a request for a job's result is answered: a succeeded job's stored
/// result (`None`); a conflict for a job that finished otherwise, or that
/// has not finished.
pub fn result_refusal(state: JobState) -> (r: Option<ApiError>)
    ensures
        state == JobState::Succeeded <==> r is None,
        r matches Some(e) ==> e.status == 409,
        r matches Some(e) ==> spec_is_terminal(state) ==> e.code@ == "JOB_NOT_SUCCESSFUL"@
            && e.message@ == "job is "@ + spec_state_label(state) + ", no result available"@,
        r matches Some(e) ==> !spec_is_terminal(state) ==> e.code@ == "JOB_NOT_FINISHED"@
            && e.message@ == "job has not finished yet; poll status or subscribe to the WebSocket"@,
{
    if state == JobState::Succeeded {
        None
    } else if is_terminal(state) {
        let mut m = String::from_str("job is ");
        m.append(state_label(state));
        m.append(", no result available");
        Some(ApiError { status: 409, code: "JOB_NOT_SUCCESSFUL", message: m })
    } else {
        Some(ApiError::new(409, "JOB_NOT_FINISHED", "job has not finished yet; poll status or subscribe to the WebSocket"))
    }
}

/// Query parameters of the websocket endpoint.
#[derive(Clone, Debug)]
pub struct WsParams {
    pub encoding: Option<String>,
}

impl WsParams {
    /// Events are sent as protobuf exactly when `encoding=proto`.
    pub fn wants_proto(&self) -> (r: bool)
        ensures
            r == (self.encoding matches Some(e) && e@ == "proto"@),
    {
        match &self.encoding {
            Some(e) => str_eq(e.as_str(), "proto"),
            None => false,
        }
    }
}

} // verus!
