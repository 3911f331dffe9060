use craftpath::convert::{WireGroupPreset, WireItemRarity, WireItemSnapshot, WireMatrixBuilderPreset, WirePathPreset};
use craftpath::jobs::JobState;
use craftpath::rest::{result_refusal, validate_request, ApiError, RequestError, WsParams};
use craftpath::worker::{Limits, SubmitJobRequest};

fn snapshot(level: u32) -> WireItemSnapshot {
    WireItemSnapshot {
        item_level: level,
        rarity: WireItemRarity::Rare,
        base_id: 20,
        affixes: Vec::new(),
        corrupted: false,
        allowed_sockets: 0,
        sockets: Vec::new(),
    }
}

fn request() -> SubmitJobRequest {
    SubmitJobRequest {
        start: Some(snapshot(60)),
        target: Some(snapshot(81)),
        matrix_builder: WireMatrixBuilderPreset::HappyPath,
        path_analyzers: vec![WirePathPreset::UniquePathChance],
        group_analyzers: vec![],
        limits: Some(Limits { max_routes: 5, max_ram_in_bytes: 1_000_000_000, timeout_seconds: None }),
        result_options: None,
        league: "Standard".to_string(),
    }
}

#[test]
fn test_validate_request_in_order() {
    let limit = 4_000_000_000u64;
    assert_eq!(validate_request(&request(), limit), Ok(()));

    let mut r = request();
    r.start = None;
    r.target = None;
    assert_eq!(validate_request(&r, limit), Err(RequestError::MissingStart()));

    let mut r = request();
    r.target = None;
    r.start = Some(snapshot(300));
    // presence is checked before conversion
    assert_eq!(validate_request(&r, limit), Err(RequestError::MissingTarget()));

    let mut r = request();
    r.start = Some(snapshot(300));
    let e = validate_request(&r, limit).unwrap_err();
    assert!(matches!(e, RequestError::InvalidStart(_)));
    assert!(e.message().starts_with("invalid 'start' item: field 'item_level'"));

    let mut r = request();
    r.target = Some(snapshot(256));
    assert!(matches!(validate_request(&r, limit), Err(RequestError::InvalidTarget(_))));

    let mut r = request();
    r.path_analyzers = vec![WirePathPreset::UniquePathCost, WirePathPreset::Unspecified];
    assert_eq!(validate_request(&r, limit), Err(RequestError::UnknownPathAnalyzer()));

    let mut r = request();
    r.group_analyzers = vec![WireGroupPreset::Unspecified];
    assert_eq!(validate_request(&r, limit), Err(RequestError::UnknownGroupAnalyzer()));

    let mut r = request();
    r.limits = Some(Limits { max_routes: 5, max_ram_in_bytes: limit + 1, timeout_seconds: None });
    assert_eq!(validate_request(&r, limit), Err(RequestError::RamLimitExceeded(limit + 1, limit)));
    assert_eq!(
        RequestError::RamLimitExceeded(limit + 1, limit).message(),
        "max_ram_in_bytes 4000000001 exceeds the server limit of 4000000000"
    );
    let mut r = request();
    r.limits = None;
    assert_eq!(validate_request(&r, 1), Ok(()));
}

#[test]
fn test_request_error_messages() {
    assert_eq!(RequestError::MissingStart().message(), "missing 'start' item");
    assert_eq!(RequestError::MissingTarget().message(), "missing 'target' item");
    assert_eq!(RequestError::UnknownPathAnalyzer().message(), "unknown path analyzer preset value 0");
    assert_eq!(RequestError::UnknownGroupAnalyzer().message(), "unknown group analyzer preset value 0");
    let e = ApiError::invalid_request(&RequestError::MissingStart());
    assert_eq!((e.status, e.code), (400, "INVALID_REQUEST"));
}

#[test]
fn test_api_errors() {
    let e = ApiError::not_found("abc");
    assert_eq!(e.status, 404);
    assert_eq!(e.code, "JOB_NOT_FOUND");
    assert_eq!(e.message, "no job with id 'abc' (it may have expired)");
    let e = ApiError::internal("boom");
    assert_eq!((e.status, e.code, e.message.as_str()), (500, "INTERNAL", "boom"));
}

#[test]
fn test_result_refusal() {
    assert_eq!(result_refusal(JobState::Succeeded), None);
    let e = result_refusal(JobState::Failed).unwrap();
    assert_eq!((e.status, e.code), (409, "JOB_NOT_SUCCESSFUL"));
    assert_eq!(e.message, "job is Failed, no result available");
    let e = result_refusal(JobState::Queued).unwrap();
    assert_eq!((e.status, e.code), (409, "JOB_NOT_FINISHED"));
}

#[test]
fn test_ws_params() {
    assert!(WsParams { encoding: Some("proto".to_string()) }.wants_proto());
    assert!(!WsParams { encoding: Some("json".to_string()) }.wants_proto());
    assert!(!WsParams { encoding: None }.wants_proto());
}
