use craftpath::jobs::{status_from_fields, JobState};
use craftpath::records::{
    cancelled_fields, failed_fields, progress_fields, queued_fields, running_fields, succeeded_fields,
};

/// Write fields the way the job store does: replace by name, else append.
fn hset(stored: &mut Vec<(String, String)>, writes: Vec<(String, String)>) {
    for (k, v) in writes {
        match stored.iter_mut().find(|(name, _)| *name == k) {
            Some(slot) => slot.1 = v,
            None => stored.push((k, v)),
        }
    }
}

#[test]
fn test_job_lifecycle_reads_back() {
    let mut f: Vec<(String, String)> = Vec::new();
    hset(&mut f, queued_fields("2025-01-01T00:00:00.000Z"));
    let s = status_from_fields("j1", &f, Some(2)).unwrap();
    assert_eq!(s.state, JobState::Queued);
    assert_eq!(s.queue_position, Some(3));
    assert_eq!(s.progress.phase, "queued");
    assert_eq!(s.progress.percent, 0);
    assert_eq!(s.created_at, "2025-01-01T00:00:00.000Z");
    assert!(s.started_at.is_none() && s.finished_at.is_none() && s.error.is_none());

    hset(&mut f, running_fields("t1"));
    let s = status_from_fields("j1", &f, None).unwrap();
    assert_eq!(s.state, JobState::Running);
    assert_eq!(s.queue_position, None);
    assert_eq!(s.progress.phase, "starting");
    assert_eq!(s.started_at.as_deref(), Some("t1"));

    hset(&mut f, progress_fields("analyzing: 12 routes", 55, 12, "t2"));
    let s = status_from_fields("j1", &f, None).unwrap();
    assert_eq!(s.state, JobState::Running);
    assert_eq!(s.progress.phase, "analyzing: 12 routes");
    assert_eq!(s.progress.percent, 55);
    assert_eq!(s.progress.routes_found, Some(12));

    hset(&mut f, succeeded_fields("t3"));
    let s = status_from_fields("j1", &f, None).unwrap();
    assert_eq!(s.state, JobState::Succeeded);
    assert_eq!(s.progress.phase, "done");
    assert_eq!(s.progress.percent, 100);
    assert_eq!(s.progress.routes_found, Some(12));
    assert_eq!(s.finished_at.as_deref(), Some("t3"));
    assert_eq!(s.created_at, "2025-01-01T00:00:00.000Z");
}

#[test]
fn test_failure_and_cancellation_read_back() {
    let mut f: Vec<(String, String)> = Vec::new();
    hset(&mut f, queued_fields("c"));
    hset(&mut f, failed_fields("TIMEOUT", "too slow", "t9"));
    let s = status_from_fields("j2", &f, Some(0)).unwrap();
    assert_eq!(s.state, JobState::Failed);
    assert_eq!(s.queue_position, None);
    let e = s.error.unwrap();
    assert_eq!((e.code.as_str(), e.message.as_str()), ("TIMEOUT", "too slow"));

    let mut f: Vec<(String, String)> = Vec::new();
    hset(&mut f, queued_fields("c"));
    hset(&mut f, failed_fields("CANCELLED", "", "t9"));
    assert_eq!(status_from_fields("j3", &f, None).unwrap().state, JobState::Cancelled);

    let mut f: Vec<(String, String)> = Vec::new();
    hset(&mut f, queued_fields("c"));
    hset(&mut f, cancelled_fields("t5"));
    let s = status_from_fields("j4", &f, Some(4)).unwrap();
    assert_eq!(s.state, JobState::Cancelled);
    assert_eq!(s.finished_at.as_deref(), Some("t5"));
    assert_eq!(s.progress.phase, "queued");
}

#[test]
fn test_progress_fields_are_decimal() {
    let w = progress_fields("s", 7, 18446744073709551615, "n");
    assert_eq!(w[1], ("progress_percent".to_string(), "7".to_string()));
    assert_eq!(w[2], ("routes_found".to_string(), "18446744073709551615".to_string()));
}
