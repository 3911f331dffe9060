use craftpath::config::{Config, ConfigError, NumericSetting};
use craftpath::convert::{
    ConvertError, MatrixBuilderPreset, StatisticAnalyzerCurrencyGroupPreset, StatisticAnalyzerPathPreset,
    WireField, WireGroupPreset, WireItemSnapshot, WireMatrixBuilderPreset, WirePathPreset,
};
use craftpath::errors::CraftPathError;
use craftpath::item::ItemSnapshot;
use craftpath::types::{AffixId, BaseItemId, ItemLevel, ItemRarityEnum};
use craftpath::worker::{job_start, missing_request_report, redelivery_report, JobStart};
use craftpath::worker::{
    analyzer_percent, error_code, exceeds_redeliveries, failure_report, plan_job, JobFailure, Limits,
    PlanError, ResultOptions, SharedProgress, SubmitJobRequest,
};

fn env(pairs: &[(&str, &str)]) -> Vec<(String, String)> {
    pairs.iter().map(|(k, v)| (k.to_string(), v.to_string())).collect()
}

fn snapshot() -> ItemSnapshot {
    ItemSnapshot {
        item_level: ItemLevel::from(81u8),
        rarity: ItemRarityEnum::Rare,
        base_id: BaseItemId::from(20u16),
        affixes: Vec::new(),
        corrupted: false,
        allowed_sockets: 0,
        sockets: Vec::new(),
    }
}

fn request() -> SubmitJobRequest {
    SubmitJobRequest {
        start: Some(WireItemSnapshot::from_domain(&snapshot())),
        target: Some(WireItemSnapshot::from_domain(&snapshot())),
        matrix_builder: WireMatrixBuilderPreset::Unspecified,
        path_analyzers: Vec::new(),
        group_analyzers: Vec::new(),
        limits: None,
        result_options: None,
        league: String::new(),
    }
}

#[test]
fn test_config_defaults_and_overrides() {
    let c = Config::from_env(&Vec::new()).unwrap();
    assert_eq!(c.redis_url, "redis://127.0.0.1:6379");
    assert_eq!(c.bind_addr, "0.0.0.0:8080");
    assert_eq!(c.worker_health_addr, "0.0.0.0:8081");
    assert_eq!(c.job_ttl_secs, 86400);
    assert_eq!(c.job_timeout_secs, 3600);
    assert_eq!(c.default_league, "Standard");
    assert_eq!(c.cache_dir, "./cache");
    assert_eq!(c.max_ram_limit_bytes, 4_000_000_000);

    let c = Config::from_env(&env(&[("JOB_TIMEOUT_SECS", "60"), ("POE2_LEAGUE_DEFAULT", "Dawn")])).unwrap();
    assert_eq!(c.job_timeout_secs, 60);
    assert_eq!(c.default_league, "Dawn");

    assert_eq!(
        Config::from_env(&env(&[("MAX_RAM_LIMIT_BYTES", "lots")])).unwrap_err(),
        ConfigError::Invalid(NumericSetting::MaxRamLimitBytes)
    );
}

#[test]
fn test_plan_defaults() {
    let config = Config::from_env(&Vec::new()).unwrap();
    let plan = plan_job(&request(), &config).unwrap();
    assert_eq!(plan.matrix_builder, MatrixBuilderPreset::HappyPathMatrixBuilder);
    assert_eq!(plan.path_presets, vec![StatisticAnalyzerPathPreset::UniquePathChance]);
    assert!(plan.group_presets.is_empty());
    assert_eq!(plan.max_routes, 5);
    assert_eq!(plan.max_ram, 1_000_000_000);
    assert!(plan.include_pretty_strings);
    assert!(!plan.include_route_snapshots);
    assert_eq!(plan.top_n_pretty, 5);
    assert_eq!(plan.league, "Standard");
    assert_eq!(plan.timeout_secs, 3600);
    assert_eq!(plan.start, snapshot());
}

#[test]
fn test_plan_limits_and_errors() {
    let config = Config::from_env(&env(&[("MAX_RAM_LIMIT_BYTES", "2000")])).unwrap();
    let mut r = request();
    r.limits = Some(Limits { max_routes: 0, max_ram_in_bytes: 5000, timeout_seconds: Some(9) });
    r.result_options = Some(ResultOptions { include_pretty_strings: false, include_route_snapshots: true, top_n_pretty: Some(2) });
    r.group_analyzers = vec![WireGroupPreset::CurrencyGroupChance];
    r.league = "Dawn".to_string();
    r.matrix_builder = WireMatrixBuilderPreset::HappyPath;
    let plan = plan_job(&r, &config).unwrap();
    assert_eq!(plan.max_routes, 5);
    assert_eq!(plan.max_ram, 2000);
    assert_eq!(plan.timeout_secs, 9);
    assert_eq!(plan.top_n_pretty, 2);
    assert!(plan.path_presets.is_empty());
    assert_eq!(plan.group_presets, vec![StatisticAnalyzerCurrencyGroupPreset::CurrencyGroupChance]);
    assert_eq!(plan.league, "Dawn");

    r.limits = Some(Limits { max_routes: 3, max_ram_in_bytes: 0, timeout_seconds: None });
    let plan = plan_job(&r, &config).unwrap();
    assert_eq!(plan.max_ram, 1);
    assert_eq!(plan.top_n_pretty, 2);

    let mut missing = request();
    missing.start = None;
    assert_eq!(plan_job(&missing, &config).unwrap_err(), PlanError::MissingStart());
    let mut missing = request();
    missing.target = None;
    assert_eq!(plan_job(&missing, &config).unwrap_err(), PlanError::MissingTarget());
    let mut bad = request();
    bad.path_analyzers = vec![WirePathPreset::UniquePathCost, WirePathPreset::Unspecified];
    assert_eq!(
        plan_job(&bad, &config).unwrap_err(),
        PlanError::Convert(ConvertError::UnspecifiedEnum(WireField::PathAnalyzers))
    );
    // a refused request is refused whatever the RAM cap
    let mut no_cap = config.clone();
    no_cap.max_ram_limit_bytes = 0;
    let mut missing = request();
    missing.start = None;
    assert_eq!(plan_job(&missing, &no_cap).unwrap_err(), PlanError::MissingStart());
}

#[test]
fn test_error_codes_and_failure_reports() {
    assert_eq!(error_code(&JobFailure::Convert(ConvertError::UnspecifiedEnum(WireField::Rarity))), "INVALID_REQUEST");
    assert_eq!(error_code(&JobFailure::Core(CraftPathError::ItemMatrixCouldNotReachTarget())), "TARGET_UNREACHABLE");
    assert_eq!(error_code(&JobFailure::Core(CraftPathError::ItemUnreachable(AffixId::from(1u16)))), "AFFIX_UNREACHABLE");
    assert_eq!(error_code(&JobFailure::Core(CraftPathError::RamLimitReached(9))), "RAM_LIMIT_REACHED");
    assert_eq!(error_code(&JobFailure::Core(CraftPathError::Cancelled())), "CANCELLED");
    assert_eq!(error_code(&JobFailure::Core(CraftPathError::AffixWithoutDefinition(AffixId::from(1u16)))), "PROVIDER_DATA_ERROR");
    assert_eq!(error_code(&JobFailure::Other()), "INTERNAL");
    let (code, message) = failure_report(true, 90, &JobFailure::Other(), "boom");
    assert_eq!(code, "TIMEOUT");
    assert_eq!(message, "job exceeded its wall-clock timeout of 90s");
    let (code, message) = failure_report(false, 90, &JobFailure::Other(), "boom");
    assert_eq!(code, "INTERNAL");
    assert_eq!(message, "boom");
    assert!(exceeds_redeliveries(3));
    assert!(!exceeds_redeliveries(2));
}

#[test]
fn test_progress_record_and_percentages() {
    let mut p = SharedProgress::new();
    assert_eq!(p.snapshot(), ("starting".to_string(), 0, 0));
    p.set_phase("building_matrix", 5);
    assert_eq!(p.snapshot(), ("building_matrix".to_string(), 5, 0));
    p.report("12 nodes", 12);
    assert_eq!(p.snapshot(), ("building_matrix: 12 nodes".to_string(), 5, 12));
    assert!(!p.is_cancelled());
    p.request_cancel();
    assert!(p.is_cancelled());
    assert_eq!(analyzer_percent(1, 2), 67);
    assert_eq!(analyzer_percent(2, 2), 95);
    assert_eq!(analyzer_percent(1, 1), 95);
}

#[test]
fn test_plan_failure_reports() {
    let config = Config::from_env(&Vec::new()).unwrap();
    let mut req = request();
    req.start = None;
    req.target = None;
    let err = plan_job(&req, &config).unwrap_err();
    assert_eq!(err, PlanError::MissingStart());
    assert_eq!(err.message(), "missing 'start' item");
    assert_eq!(error_code(&err.failure()), "INTERNAL");
    let (code, message) = failure_report(false, 3600, &err.failure(), &err.message());
    assert_eq!((code.as_str(), message.as_str()), ("INTERNAL", "missing 'start' item"));
    // the progress record is untouched by a failed plan
    let p = SharedProgress::new();
    assert_eq!(p.snapshot(), ("starting".to_string(), 0, 0));

    let mut req = request();
    req.target = None;
    assert_eq!(plan_job(&req, &config).unwrap_err().message(), "missing 'target' item");

    let conv = PlanError::Convert(ConvertError::UnspecifiedEnum(WireField::PathAnalyzers));
    assert_eq!(error_code(&conv.failure()), "INVALID_REQUEST");
}

#[test]
fn test_job_start_decisions() {
    assert_eq!(job_start(true, false), JobStart::SkipCancelled);
    assert_eq!(job_start(true, true), JobStart::SkipCancelled);
    assert_eq!(job_start(false, false), JobStart::FailMissingRequest);
    assert_eq!(job_start(false, true), JobStart::Run);
    assert_eq!(
        missing_request_report(),
        ("JOB_NOT_FOUND".to_string(), "job request payload expired or missing".to_string())
    );
    assert_eq!(redelivery_report().0, "INTERNAL");
}

#[test]
fn test_defaults_written_out_leave_plan() {
    let config = Config::from_env(&Vec::new()).unwrap();
    let implicit = request();
    let mut explicit = request();
    explicit.league = config.default_league.clone();
    explicit.matrix_builder = WireMatrixBuilderPreset::HappyPath;
    explicit.limits = Some(Limits { max_routes: 5, max_ram_in_bytes: 1_000_000_000, timeout_seconds: None });
    explicit.result_options =
        Some(ResultOptions { include_pretty_strings: true, include_route_snapshots: false, top_n_pretty: None });
    let a = format!("{:?}", plan_job(&implicit, &config));
    let b = format!("{:?}", plan_job(&explicit, &config));
    assert_eq!(a, b);
    // 0 routes reads as 5, and the RAM is clamped to the cap
    let mut zero = request();
    zero.limits = Some(Limits { max_routes: 0, max_ram_in_bytes: u64::MAX, timeout_seconds: Some(7) });
    let mut written = request();
    written.limits = Some(Limits { max_routes: 5, max_ram_in_bytes: config.max_ram_limit_bytes, timeout_seconds: Some(7) });
    assert_eq!(format!("{:?}", plan_job(&zero, &config)), format!("{:?}", plan_job(&written, &config)));
}
