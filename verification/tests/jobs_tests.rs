use craftpath::jobs::{
    cancel_action, cancel_key, events_channel, failure_state, is_terminal, job_key, req_key,
    result_key, state_from_str, state_of_fields, state_to_str, status_from_fields, CancelAction,
    JobState, GROUP, STREAM_KEY, WAITING_ZSET,
};

fn fields(pairs: &[(&str, &str)]) -> Vec<(String, String)> {
    pairs.iter().map(|(k, v)| (k.to_string(), v.to_string())).collect()
}

#[test]
fn test_key_layout() {
    assert_eq!(job_key("abc"), "cp:job:abc");
    assert_eq!(req_key("abc"), "cp:job:abc:req");
    assert_eq!(result_key("abc"), "cp:job:abc:result");
    assert_eq!(cancel_key("abc"), "cp:job:abc:cancel");
    assert_eq!(events_channel("abc"), "cp:events:abc");
    assert_eq!(STREAM_KEY, "cp:jobs:stream");
    assert_eq!(GROUP, "workers");
    assert_eq!(WAITING_ZSET, "cp:queue:waiting");
}

#[test]
fn test_state_names_roundtrip() {
    for s in [
        JobState::Unspecified,
        JobState::Queued,
        JobState::Running,
        JobState::Succeeded,
        JobState::Failed,
        JobState::Cancelled,
        JobState::Expired,
    ] {
        assert_eq!(state_from_str(state_to_str(s)), s);
    }
    assert_eq!(state_from_str("queued"), JobState::Unspecified);
    assert_eq!(state_to_str(JobState::Succeeded), "SUCCEEDED");
}

#[test]
fn test_terminal_states_and_cancellation() {
    assert!(is_terminal(JobState::Succeeded));
    assert!(is_terminal(JobState::Expired));
    assert!(!is_terminal(JobState::Running));
    assert!(!is_terminal(JobState::Queued));
    assert_eq!(cancel_action(JobState::Failed), CancelAction::Unchanged);
    assert_eq!(cancel_action(JobState::Queued), CancelAction::FlagAndCancel);
    assert_eq!(cancel_action(JobState::Running), CancelAction::Flag);
    assert_eq!(failure_state("CANCELLED"), JobState::Cancelled);
    assert_eq!(failure_state("INTERNAL"), JobState::Failed);
}

#[test]
fn test_status_from_stored_fields() {
    assert!(status_from_fields("j", &Vec::new(), None).is_none());

    let queued = fields(&[("state", "QUEUED"), ("stage", "queued"), ("progress_percent", "0"), ("created_at", "t0")]);
    assert_eq!(state_of_fields(&queued), JobState::Queued);
    let st = status_from_fields("j", &queued, Some(4)).unwrap();
    assert_eq!(st.job_id, "j");
    assert_eq!(st.state, JobState::Queued);
    assert_eq!(st.queue_position, Some(5));
    assert_eq!(st.progress.phase, "queued");
    assert_eq!(st.created_at, "t0");
    assert!(st.error.is_none());
    assert!(st.started_at.is_none());

    let failed = fields(&[
        ("state", "FAILED"),
        ("progress_percent", "x"),
        ("routes_found", "12"),
        ("error_code", "TIMEOUT"),
        ("started_at", "t1"),
        ("finished_at", "t2"),
    ]);
    let st = status_from_fields("k", &failed, Some(4)).unwrap();
    assert_eq!(st.state, JobState::Failed);
    assert_eq!(st.queue_position, None);
    assert_eq!(st.progress.percent, 0);
    assert_eq!(st.progress.routes_found, Some(12));
    assert_eq!(st.progress.ram_used_bytes, None);
    let err = st.error.unwrap();
    assert_eq!(err.code, "TIMEOUT");
    assert_eq!(err.message, "");
    assert_eq!(st.created_at, "");
    assert_eq!(st.started_at.as_deref(), Some("t1"));
    assert_eq!(st.finished_at.as_deref(), Some("t2"));
}
