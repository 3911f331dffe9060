use craftpath::replies::{
    delivery_count, parse_stream_entry, parse_xautoclaim_reply, parse_xreadgroup_reply, Reply,
};

fn bulk(s: &str) -> Reply {
    Reply::Bulk(s.as_bytes().to_vec())
}

fn entry(id: &str, job: &str) -> Reply {
    Reply::Array(vec![bulk(id), Reply::Array(vec![bulk("job_id"), bulk(job)])])
}

#[test]
fn test_parse_stream_entry() {
    assert_eq!(parse_stream_entry(&entry("1-0", "abc")), Some(("1-0".to_string(), "abc".to_string())));
    // simple-string ids are accepted too
    let simple = Reply::Array(vec![
        Reply::Simple("2-0".to_string()),
        Reply::Array(vec![bulk("other"), bulk("x"), bulk("job_id"), bulk("j")]),
    ]);
    assert_eq!(parse_stream_entry(&simple), Some(("2-0".to_string(), "j".to_string())));
    // no job id field
    let none = Reply::Array(vec![bulk("3-0"), Reply::Array(vec![bulk("other"), bulk("x")])]);
    assert_eq!(parse_stream_entry(&none), None);
    assert_eq!(parse_stream_entry(&Reply::Nil), None);
    assert_eq!(parse_stream_entry(&Reply::Array(vec![Reply::Int(1)])), None);
    // invalid UTF-8 is replaced, not refused
    let lossy = Reply::Array(vec![bulk("4-0"), Reply::Array(vec![bulk("job_id"), Reply::Bulk(vec![0x61, 0xff])])]);
    assert_eq!(parse_stream_entry(&lossy), Some(("4-0".to_string(), "a\u{fffd}".to_string())));
}

#[test]
fn test_parse_claim_replies() {
    let reclaim = Reply::Array(vec![bulk("0-0"), Reply::Array(vec![entry("5-0", "job5")]), Reply::Array(vec![])]);
    assert_eq!(parse_xautoclaim_reply(&reclaim), Some(("5-0".to_string(), "job5".to_string())));
    let empty = Reply::Array(vec![bulk("0-0"), Reply::Array(vec![]), Reply::Array(vec![])]);
    assert_eq!(parse_xautoclaim_reply(&empty), None);

    let read = Reply::Array(vec![Reply::Array(vec![bulk("cp:jobs"), Reply::Array(vec![Reply::Nil, entry("6-0", "job6")])])]);
    assert_eq!(parse_xreadgroup_reply(&read), Some(("6-0".to_string(), "job6".to_string())));
    assert_eq!(parse_xreadgroup_reply(&Reply::Nil), None);
}

#[test]
fn test_delivery_count() {
    let pending = Reply::Array(vec![Reply::Array(vec![bulk("5-0"), bulk("worker"), Reply::Int(61000), Reply::Int(3)])]);
    assert_eq!(delivery_count(&pending), 3);
    assert_eq!(delivery_count(&Reply::Array(vec![])), 1);
    assert_eq!(delivery_count(&Reply::Nil), 1);
}
