//! Bookkeeping rules of the job queue: the key layout, the job states and
//! their stored names, the cancellation decision and the status record
//! read back from a job's stored fields.
//!
//! Key layout (prefix `cp:`):
//! - `cp:jobs:stream`      stream + consumer group `workers` (dispatch)
//! - `cp:queue:waiting`    ordered set, score = enqueue time (queue position)
//! - `cp:job:{id}`         hash: state/stage/progress/timestamps/heartbeat
//! - `cp:job:{id}:req`     the submitted request
//! - `cp:job:{id}:result`  the result
//! - `cp:job:{id}:cancel`  cooperative cancellation flag
//! - channel `cp:events:{id}`  the status on every change

use vstd::prelude::*;
use vstd::string::StringExecFns;

use crate::text::{parse_unsigned, parse_unsigned_spec, str_eq};

verus! {

/// The dispatch stream.
pub const STREAM_KEY: &'static str = "cp:jobs:stream";
/// The consumer group of the workers.
pub const GROUP: &'static str = "workers";
/// The ordered set of waiting jobs.
pub const WAITING_ZSET: &'static str = "cp:queue:waiting";

/// The hash of job `id`.
pub fn job_key(id: &str) -> (r: String)
    ensures
        r@ == "cp:job:"@ + id@,
{
    let mut s = String::from_str("cp:job:");
    s.append(id);
    s
}

/// The stored request of job `id`.
pub fn req_key(id: &str) -> (r: String)
    ensures
        r@ == "cp:job:"@ + id@ + ":req"@,
{
    let mut s = job_key(id);
    s.append(":req");
    s
}

/// The stored result of job `id`.
pub fn result_key(id: &str) -> (r: String)
    ensures
        r@ == "cp:job:"@ + id@ + ":result"@,
{
    let mut s = job_key(id);
    s.append(":result");
    s
}

/// The cancellation flag of job `id`.
pub fn cancel_key(id: &str) -> (r: String)
    ensures
        r@ == "cp:job:"@ + id@ + ":cancel"@,
{
    let mut s = job_key(id);
    s.append(":cancel");
    s
}

/// The event channel of job `id`.
pub fn events_channel(id: &str) -> (r: String)
    ensures
        r@ == "cp:events:"@ + id@,
{
    let mut s = String::from_str("cp:events:");
    s.append(id);
    s
}

/// Life-cycle state of a job.
#[derive(Clone, Copy, Debug, PartialEq, Eq, Structural)]
pub enum JobState {
    Unspecified,
    Queued,
    Running,
    Succeeded,
    Failed,
    Cancelled,
    Expired,
}

/// The name a state is stored under.
pub open spec fn spec_state_str(s: JobState) -> Seq<char> {
    match s {
        JobState::Queued => "QUEUED"@,
        JobState::Running => "RUNNING"@,
        JobState::Succeeded => "SUCCEEDED"@,
        JobState::Failed => "FAILED"@,
        JobState::Cancelled => "CANCELLED"@,
        JobState::Expired => "EXPIRED"@,
        JobState::Unspecified => "UNSPECIFIED"@,
    }
}

/// The state a stored name denotes; anything unknown is `Unspecified`.
pub open spec fn spec_state_from_str(s: Seq<char>) -> JobState {
    if s == "QUEUED"@ {
        JobState::Queued
    } else if s == "RUNNING"@ {
        JobState::Running
    } else if s == "SUCCEEDED"@ {
        JobState::Succeeded
    } else if s == "FAILED"@ {
        JobState::Failed
    } else if s == "CANCELLED"@ {
        JobState::Cancelled
    } else if s == "EXPIRED"@ {
        JobState::Expired
    } else {
        JobState::Unspecified
    }
}

pub fn state_to_str(state: JobState) -> (r: &'static str)
    ensures
        r@ == spec_state_str(state),
{
    match state {
        JobState::Queued => "QUEUED",
        JobState::Running => "RUNNING",
        JobState::Succeeded => "SUCCEEDED",
        JobState::Failed => "FAILED",
        JobState::Cancelled => "CANCELLED",
        JobState::Expired => "EXPIRED",
        JobState::Unspecified => "UNSPECIFIED",
    }
}

pub fn state_from_str(s: &str) -> (r: JobState)
    ensures
        r == spec_state_from_str(s@),
{
    if str_eq(s, "QUEUED") {
        JobState::Queued
    } else if str_eq(s, "RUNNING") {
        JobState::Running
    } else if str_eq(s, "SUCCEEDED") {
        JobState::Succeeded
    } else if str_eq(s, "FAILED") {
        JobState::Failed
    } else if str_eq(s, "CANCELLED") {
        JobState::Cancelled
    } else if str_eq(s, "EXPIRED") {
        JobState::Expired
    } else {
        JobState::Unspecified
    }
}

/// Reading back a stored state name gives the state that was stored.
pub proof fn lemma_state_roundtrip(state: JobState)
    ensures
        spec_state_from_str(spec_state_str(state)) == state,
{
    reveal_strlit("QUEUED");
    reveal_strlit("RUNNING");
    reveal_strlit("SUCCEEDED");
    reveal_strlit("FAILED");
    reveal_strlit("CANCELLED");
    reveal_strlit("EXPIRED");
    reveal_strlit("UNSPECIFIED");
    assert("QUEUED"@[0] != "FAILED"@[0]);
    assert("RUNNING"@[0] != "EXPIRED"@[0]);
    assert("SUCCEEDED"@[0] != "CANCELLED"@[0]);
}

pub open spec fn spec_is_terminal(state: JobState) -> bool {
    state == JobState::Succeeded || state == JobState::Failed || state == JobState::Cancelled || state == JobState::Expired
}

/// Whether the job is finished (succeeded, failed, cancelled or expired).
pub fn is_terminal(state: JobState) -> (r: bool)
    ensures
        r == spec_is_terminal(state),
{
    match state {
        JobState::Succeeded | JobState::Failed | JobState::Cancelled | JobState::Expired => true,
        _ => false,
    }
}

/// The state a failure with this error code leaves the job in: the code
/// `CANCELLED` marks it cancelled, every other code failed.
pub fn failure_state(code: &str) -> (r: JobState)
    ensures
        r == if code@ == "CANCELLED"@ { JobState::Cancelled } else { JobState::Failed },
{
    if str_eq(code, "CANCELLED") {
        JobState::Cancelled
    } else {
        JobState::Failed
    }
}

/// What a cancellation request does to a job in a given state.
#[derive(Clone, Copy, Debug, PartialEq, Eq, Structural)]
pub enum CancelAction {
    /// The job is finished: nothing changes.
    Unchanged,
    /// Set the cancellation flag; the running job observes it.
    Flag,
    /// Set the flag and cancel the queued job at once.
    FlagAndCancel,
}

/// Finished jobs stay as they are; queued jobs are cancelled immediately;
/// other jobs get the cooperative flag.
pub fn cancel_action(state: JobState) -> (r: CancelAction)
    ensures
        r == if spec_is_terminal(state) {
            CancelAction::Unchanged
        } else if state == JobState::Queued {
            CancelAction::FlagAndCancel
        } else {
            CancelAction::Flag
        },
{
    if is_terminal(state) {
        CancelAction::Unchanged
    } else if state == JobState::Queued {
        CancelAction::FlagAndCancel
    } else {
        CancelAction::Flag
    }
}

/// Progress of a running job.
#[derive(Clone, Debug)]
pub struct JobProgress {
    pub phase: String,
    pub percent: u32,
    pub routes_found: Option<u64>,
    pub ram_used_bytes: Option<u64>,
}

/// Error recorded for a failed job.
#[derive(Clone, Debug)]
pub struct JobError {
    pub code: String,
    pub message: String,
}

/// Status of a job as read back from its stored fields.
#[derive(Clone, Debug)]
pub struct JobStatus {
    pub job_id: String,
    pub state: JobState,
    /// 1-based position in the waiting queue, for queued jobs.
    pub queue_position: Option<u32>,
    pub progress: JobProgress,
    pub error: Option<JobError>,
    pub created_at: String,
    pub started_at: Option<String>,
    pub finished_at: Option<String>,
}

/// Views of the stored (name, value) fields.
pub open spec fn field_views(f: Seq<(String, String)>) -> Seq<(Seq<char>, Seq<char>)> {
    f.map_values(|p: (String, String)| (p.0@, p.1@))
}

/// The value of the first field with this name.
pub open spec fn field_value(f: Seq<(Seq<char>, Seq<char>)>, name: Seq<char>) -> Option<Seq<char>>
    decreases f.len(),
{
    if f.len() == 0 {
        None
    } else if f[0].0 == name {
        Some(f[0].1)
    } else {
        field_value(f.drop_first(), name)
    }
}

/// The value of the first field with this name.
pub fn get_field<'a>(fields: &'a Vec<(String, String)>, name: &str) -> (r: Option<&'a String>)
    ensures
        match r {
            Some(v) => field_value(field_views(fields@), name@) == Some(v@),
            None => field_value(field_views(fields@), name@) is None,
        },
{
    let ghost fv = field_views(fields@);
    let mut i: usize = 0;
    assert(fv.skip(0) =~= fv);
    while i < fields.len()
        invariant
            i <= fields@.len(),
            fv == field_views(fields@),
            field_value(fv, name@) == field_value(fv.skip(i as int), name@),
        decreases fields.len() - i,
    {
        assert(fv.skip(i as int).drop_first() =~= fv.skip(i + 1));
        assert(fv.skip(i as int)[0] == (fields@[i as int].0@, fields@[i as int].1@));
        if str_eq(fields[i].0.as_str(), name) {
            return Some(&fields[i].1);
        }
        i += 1;
    }
    None
}

/// The state recorded in the fields (`Unspecified` when absent or unknown).
pub open spec fn fields_state(f: Seq<(Seq<char>, Seq<char>)>) -> JobState {
    match field_value(f, "state"@) {
        Some(s) => spec_state_from_str(s),
        None => spec_state_from_str(Seq::empty()),
    }
}

/// The state recorded in a job's stored fields.
pub fn state_of_fields(fields: &Vec<(String, String)>) -> (r: JobState)
    ensures
        r == fields_state(field_views(fields@)),
{
    match get_field(fields, "state") {
        Some(s) => {
            let r = state_from_str(s.as_str());
            assert(r == fields_state(field_views(fields@)));
            r
        },
        None => {
            proof {
                reveal_strlit("");
            }
            let r = state_from_str("");
            assert(""@ =~= Seq::<char>::empty());
            assert(r == fields_state(field_views(fields@)));
            r
        },
    }
}

/// Parse an optional stored number.
fn parse_field(v: Option<&String>, max: u64) -> (r: Option<u64>)
    ensures
        match v {
            None => r is None,
            Some(s) => match r {
                Some(x) => parse_unsigned_spec(s@, max as nat) == Some(x as nat),
                None => parse_unsigned_spec(s@, max as nat) is None,
            },
        },
{
    match v {
        None => None,
        Some(s) => parse_unsigned(s.as_str(), max),
    }
}

/// The status a job's stored fields describe; `None` when nothing is
/// stored. `rank` is the job's 0-based rank in the waiting queue, asked for
/// queued jobs only.
pub open spec fn spec_status_parts(f: Seq<(Seq<char>, Seq<char>)>, rank: Option<i64>) -> (JobState, Option<u32>, Seq<char>, u32, Option<u64>, Option<u64>) {
    let state = fields_state(f);
    let queue_position = if state == JobState::Queued {
        match rank {
            Some(r) => Some((r + 1) as u32),
            None => None,
        }
    } else {
        None
    };
    let phase = match field_value(f, "stage"@) {
        Some(s) => s,
        None => Seq::empty(),
    };
    let percent = match field_value(f, "progress_percent"@) {
        Some(s) => match parse_unsigned_spec(s, u32::MAX as nat) {
            Some(v) => v as u32,
            None => 0,
        },
        None => 0,
    };
    let routes = match field_value(f, "routes_found"@) {
        Some(s) => match parse_unsigned_spec(s, u64::MAX as nat) {
            Some(v) => Some(v as u64),
            None => None,
        },
        None => None,
    };
    let ram = match field_value(f, "ram_used_bytes"@) {
        Some(s) => match parse_unsigned_spec(s, u64::MAX as nat) {
            Some(v) => Some(v as u64),
            None => None,
        },
        None => None,
    };
    (state, queue_position, phase, percent, routes, ram)
}

/// Clone an optional stored text.
fn clone_opt(v: Option<&String>) -> (r: Option<String>)
    ensures
        match v {
            Some(s) => r matches Some(t) && t@ == s@,
            None => r is None,
        },
{
    match v {
        Some(s) => Some(s.clone()),
        None => None,
    }
}

/// The status a job's stored fields describe; `None` when no field is
/// stored. `rank` is the job's 0-based rank in the waiting queue (asked for
/// queued jobs only).
pub fn status_from_fields(job_id: &str, fields: &Vec<(String, String)>, rank: Option<i64>) -> (r: Option<JobStatus>)
    requires
        rank matches Some(x) ==> x < i64::MAX,
    ensures
        fields@.len() == 0 <==> r is None,
        r matches Some(st) ==> {
            let f = field_views(fields@);
            let parts = spec_status_parts(f, rank);
            &&& st.job_id@ == job_id@
            &&& st.state == parts.0
            &&& st.queue_position == parts.1
            &&& st.progress.phase@ == parts.2
            &&& st.progress.percent == parts.3
            &&& st.progress.routes_found == parts.4
            &&& st.progress.ram_used_bytes == parts.5
            &&& match field_value(f, "error_code"@) {
                Some(code) => st.error matches Some(e) && e.code@ == code && e.message@ == match field_value(f, "error_message"@) {
                    Some(m) => m,
                    None => Seq::<char>::empty(),
                },
                None => st.error is None,
            }
            &&& st.created_at@ == match field_value(f, "created_at"@) {
                Some(c) => c,
                None => Seq::<char>::empty(),
            }
            &&& match field_value(f, "started_at"@) {
                Some(t) => st.started_at matches Some(s) && s@ == t,
                None => st.started_at is None,
            }
            &&& match field_value(f, "finished_at"@) {
                Some(t) => st.finished_at matches Some(s) && s@ == t,
                None => st.finished_at is None,
            }
        },
{
    if fields.len() == 0 {
        return None;
    }
    let state = state_of_fields(fields);
    let queue_position = if state == JobState::Queued {
        match rank {
            Some(r) => Some((r + 1) as u32),
            None => None,
        }
    } else {
        None
    };
    let phase = match get_field(fields, "stage") {
        Some(s) => s.clone(),
        None => String::new(),
    };
    let percent: u32 = match parse_field(get_field(fields, "progress_percent"), 4294967295) {
        Some(v) => v as u32,
        None => 0,
    };
    let routes_found = parse_field(get_field(fields, "routes_found"), 18446744073709551615);
    let ram_used_bytes = parse_field(get_field(fields, "ram_used_bytes"), 18446744073709551615);
    let error = match get_field(fields, "error_code") {
        Some(code) => {
            let message = match get_field(fields, "error_message") {
                Some(m) => m.clone(),
                None => String::new(),
            };
            Some(JobError { code: code.clone(), message })
        },
        None => None,
    };
    let created_at = match get_field(fields, "created_at") {
        Some(c) => c.clone(),
        None => String::new(),
    };
    Some(JobStatus {
        job_id: String::from_str(job_id),
        state,
        queue_position,
        progress: JobProgress { phase, percent, routes_found, ram_used_bytes },
        error,
        created_at,
        started_at: clone_opt(get_field(fields, "started_at")),
        finished_at: clone_opt(get_field(fields, "finished_at")),
    })
}

} // verus!
