//! The decisions of the job worker: planning a job from its request,
//! classifying failures, progress percentages and the shared progress
//! record the sampler reports.

use vstd::prelude::*;
use vstd::string::StringExecFns;

use crate::config::Config;
use crate::convert::{
    spec_group_preset_from_wire, spec_message, spec_path_preset_from_wire, spec_snapshot_from_wire,
    ConvertError, MatrixBuilderPreset, StatisticAnalyzerCurrencyGroupPreset,
    StatisticAnalyzerPathPreset, WireGroupPreset, WireItemSnapshot, WireMatrixBuilderPreset,
    WirePathPreset,
};
use crate::errors::CraftPathError;
use crate::item::{ItemSnapshot, SnapshotView};
use crate::text::{append_decimal, decimal_string};

verus! {

/// Resource limits of a job request.
#[derive(Clone, Copy, Debug, PartialEq, Eq, Structural)]
pub struct Limits {
    pub max_routes: u32,
    pub max_ram_in_bytes: u64,
    pub timeout_seconds: Option<u32>,
}

/// Result rendering options of a job request.
#[derive(Clone, Copy, Debug, PartialEq, Eq, Structural)]
pub struct ResultOptions {
    pub include_pretty_strings: bool,
    pub include_route_snapshots: bool,
    pub top_n_pretty: Option<u32>,
}

/// A submitted job request, in wire form.
#[derive(Clone, Debug)]
pub struct SubmitJobRequest {
    pub start: Option<WireItemSnapshot>,
    pub target: Option<WireItemSnapshot>,
    pub matrix_builder: WireMatrixBuilderPreset,
    pub path_analyzers: Vec<WirePathPreset>,
    pub group_analyzers: Vec<WireGroupPreset>,
    pub limits: Option<Limits>,
    pub result_options: Option<ResultOptions>,
    pub league: String,
}

/// Why a request could not be planned.
#[derive(Clone, Copy, Debug, PartialEq, Eq, Structural)]
pub enum PlanError {
    MissingStart(),
    MissingTarget(),
    Convert(ConvertError),
}

/// Everything a job run needs, decided from the request and the server
/// configuration.
#[derive(Clone, Debug)]
pub struct JobPlan {
    pub start: ItemSnapshot,
    pub target: ItemSnapshot,
    pub matrix_builder: MatrixBuilderPreset,
    pub path_presets: Vec<StatisticAnalyzerPathPreset>,
    pub group_presets: Vec<StatisticAnalyzerCurrencyGroupPreset>,
    pub max_routes: u32,
    pub max_ram: u64,
    pub include_pretty_strings: bool,
    pub include_route_snapshots: bool,
    pub top_n_pretty: u64,
    pub league: String,
    pub timeout_secs: u64,
}

/// Checked conversion of a preset list: the first unspecified entry fails.
pub open spec fn spec_path_presets(w: Seq<WirePathPreset>) -> Result<Seq<StatisticAnalyzerPathPreset>, ConvertError>
    decreases w.len(),
{
    if w.len() == 0 {
        Ok(Seq::empty())
    } else {
        match spec_path_presets(w.drop_last()) {
            Err(e) => Err(e),
            Ok(prev) => match spec_path_preset_from_wire(w.last()) {
                Err(e) => Err(e),
                Ok(p) => Ok(prev.push(p)),
            },
        }
    }
}

pub open spec fn spec_group_presets(w: Seq<WireGroupPreset>) -> Result<Seq<StatisticAnalyzerCurrencyGroupPreset>, ConvertError>
    decreases w.len(),
{
    if w.len() == 0 {
        Ok(Seq::empty())
    } else {
        match spec_group_presets(w.drop_last()) {
            Err(e) => Err(e),
            Ok(prev) => match spec_group_preset_from_wire(w.last()) {
                Err(e) => Err(e),
                Ok(p) => Ok(prev.push(p)),
            },
        }
    }
}

/// The limits in force: the request's, or 5 routes and 1 GB.
pub open spec fn effective_limits(l: Option<Limits>) -> Limits {
    match l {
        Some(l) => l,
        None => Limits { max_routes: 5, max_ram_in_bytes: 1_000_000_000, timeout_seconds: None },
    }
}

/// The options in force: the request's, or pretty strings without route
/// snapshots.
pub open spec fn effective_options(o: Option<ResultOptions>) -> ResultOptions {
    match o {
        Some(o) => o,
        None => ResultOptions { include_pretty_strings: true, include_route_snapshots: false, top_n_pretty: None },
    }
}

/// `x` clamped to `[lo, hi]`.
pub open spec fn clamp(x: u64, lo: u64, hi: u64) -> u64 {
    if x < lo {
        lo
    } else if x > hi {
        hi
    } else {
        x
    }
}

/// Plan of a request that passed its checks (start and target converted).
pub open spec fn plan_fields_ok(
    req: SubmitJobRequest,
    config: Config,
    p: JobPlan,
    paths: Seq<StatisticAnalyzerPathPreset>,
    groups: Seq<StatisticAnalyzerCurrencyGroupPreset>,
) -> bool {
    let limits = effective_limits(req.limits);
    let options = effective_options(req.result_options);
    let max_routes = if limits.max_routes == 0 { 5 } else { limits.max_routes };
    &&& p.matrix_builder == MatrixBuilderPreset::HappyPathMatrixBuilder
    &&& p.path_presets@ == (if paths.len() == 0 && groups.len() == 0 {
        seq![StatisticAnalyzerPathPreset::UniquePathChance]
    } else {
        paths
    })
    &&& p.group_presets@ == groups
    &&& p.max_routes == max_routes
    &&& p.max_ram == clamp(limits.max_ram_in_bytes, 1, config.max_ram_limit_bytes)
    &&& p.include_pretty_strings == options.include_pretty_strings
    &&& p.include_route_snapshots == options.include_route_snapshots
    &&& p.top_n_pretty == match options.top_n_pretty {
        Some(n) => n as u64,
        None => max_routes as u64,
    }
    &&& p.league@ == (if req.league@.len() == 0 { config.default_league@ } else { req.league@ })
    &&& p.timeout_secs == match limits.timeout_seconds {
        Some(t) => t as u64,
        None => config.job_timeout_secs,
    }
}

/// What planning a request yields: its errors in the order start, target,
/// matrix builder, path analyzers, group analyzers.
pub open spec fn plan_matches(req: SubmitJobRequest, config: Config, r: Result<JobPlan, PlanError>) -> bool {
    match req.start {
        None => r == Err::<JobPlan, PlanError>(PlanError::MissingStart()),
        Some(ws) => match spec_snapshot_from_wire(ws) {
            Err(e) => r == Err::<JobPlan, PlanError>(PlanError::Convert(e)),
            Ok(start) => match req.target {
                None => r == Err::<JobPlan, PlanError>(PlanError::MissingTarget()),
                Some(wt) => match spec_snapshot_from_wire(wt) {
                    Err(e) => r == Err::<JobPlan, PlanError>(PlanError::Convert(e)),
                    Ok(target) => match spec_path_presets(req.path_analyzers@) {
                        Err(e) => r == Err::<JobPlan, PlanError>(PlanError::Convert(e)),
                        Ok(paths) => match spec_group_presets(req.group_analyzers@) {
                            Err(e) => r == Err::<JobPlan, PlanError>(PlanError::Convert(e)),
                            Ok(groups) => r matches Ok(p) && p.start@ == start && p.target@ == target
                                && plan_fields_ok(req, config, p, paths, groups),
                        },
                    },
                },
            },
        },
    }
}

/// The request passes the checks made before it is planned: start and
/// target are given and convert, and every analyzer is known.
pub open spec fn request_checks_pass(req: SubmitJobRequest) -> bool {
    &&& req.start matches Some(ws) && spec_snapshot_from_wire(ws) is Ok
    &&& req.target matches Some(wt) && spec_snapshot_from_wire(wt) is Ok
    &&& spec_path_presets(req.path_analyzers@) is Ok
    &&& spec_group_presets(req.group_analyzers@) is Ok
}

fn path_presets(w: &Vec<WirePathPreset>) -> (r: Result<Vec<StatisticAnalyzerPathPreset>, ConvertError>)
    ensures
        match r {
            Ok(v) => spec_path_presets(w@) == Ok::<Seq<StatisticAnalyzerPathPreset>, ConvertError>(v@),
            Err(e) => spec_path_presets(w@) == Err::<Seq<StatisticAnalyzerPathPreset>, ConvertError>(e),
        },
{
    let mut out: Vec<StatisticAnalyzerPathPreset> = Vec::new();
    let mut i: usize = 0;
    assert(w@.take(0) =~= Seq::<WirePathPreset>::empty());
    while i < w.len()
        invariant
            i <= w@.len(),
            spec_path_presets(w@.take(i as int)) == Ok::<Seq<StatisticAnalyzerPathPreset>, ConvertError>(out@),
        decreases w.len() - i,
    {
        assert(w@.take(i + 1).drop_last() =~= w@.take(i as int));
        match StatisticAnalyzerPathPreset::try_from_wire(w[i]) {
            Ok(p) => out.push(p),
            Err(e) => {
                proof {
                    lemma_path_presets_err(w@, i + 1);
                }
                return Err(e);
            },
        }
        i += 1;
    }
    assert(w@.take(w@.len() as int) =~= w@);
    Ok(out)
}

proof fn lemma_path_presets_err(w: Seq<WirePathPreset>, n: int)
    requires
        0 <= n <= w.len(),
        spec_path_presets(w.take(n)) is Err,
    ensures
        spec_path_presets(w) == spec_path_presets(w.take(n)),
    decreases w.len() - n,
{
    if n < w.len() {
        assert(w.take(n + 1).drop_last() =~= w.take(n));
        lemma_path_presets_err(w, n + 1);
    } else {
        assert(w.take(n) =~= w);
    }
}

fn group_presets(w: &Vec<WireGroupPreset>) -> (r: Result<Vec<StatisticAnalyzerCurrencyGroupPreset>, ConvertError>)
    ensures
        match r {
            Ok(v) => spec_group_presets(w@) == Ok::<Seq<StatisticAnalyzerCurrencyGroupPreset>, ConvertError>(v@),
            Err(e) => spec_group_presets(w@) == Err::<Seq<StatisticAnalyzerCurrencyGroupPreset>, ConvertError>(e),
        },
{
    let mut out: Vec<StatisticAnalyzerCurrencyGroupPreset> = Vec::new();
    let mut i: usize = 0;
    assert(w@.take(0) =~= Seq::<WireGroupPreset>::empty());
    while i < w.len()
        invariant
            i <= w@.len(),
            spec_group_presets(w@.take(i as int)) == Ok::<Seq<StatisticAnalyzerCurrencyGroupPreset>, ConvertError>(out@),
        decreases w.len() - i,
    {
        assert(w@.take(i + 1).drop_last() =~= w@.take(i as int));
        match StatisticAnalyzerCurrencyGroupPreset::try_from_wire(w[i]) {
            Ok(p) => out.push(p),
            Err(e) => {
                proof {
                    lemma_group_presets_err(w@, i + 1);
                }
                return Err(e);
            },
        }
        i += 1;
    }
    assert(w@.take(w@.len() as int) =~= w@);
    Ok(out)
}

proof fn lemma_group_presets_err(w: Seq<WireGroupPreset>, n: int)
    requires
        0 <= n <= w.len(),
        spec_group_presets(w.take(n)) is Err,
    ensures
        spec_group_presets(w) == spec_group_presets(w.take(n)),
    decreases w.len() - n,
{
    if n < w.len() {
        assert(w.take(n + 1).drop_last() =~= w.take(n));
        lemma_group_presets_err(w, n + 1);
    } else {
        assert(w.take(n) =~= w);
    }
}

/// The request with every default written out: the default league for an
/// empty one, the happy-path builder, the default limits with 0 routes
/// read as 5 and the RAM clamped to `[1, max_ram_limit_bytes]`, and the
/// default rendering options.
pub open spec fn request_with_defaults(req: SubmitJobRequest, config: Config) -> SubmitJobRequest {
    let limits = effective_limits(req.limits);
    SubmitJobRequest {
        league: if req.league@.len() == 0 { config.default_league } else { req.league },
        matrix_builder: WireMatrixBuilderPreset::HappyPath,
        limits: Some(Limits {
            max_routes: if limits.max_routes == 0 { 5 } else { limits.max_routes },
            max_ram_in_bytes: clamp(limits.max_ram_in_bytes, 1, config.max_ram_limit_bytes),
            timeout_seconds: limits.timeout_seconds,
        }),
        result_options: Some(effective_options(req.result_options)),
        ..req
    }
}

/// Two planning results agree: the same error, or plans with the same
/// content.
pub open spec fn same_plan(r1: Result<JobPlan, PlanError>, r2: Result<JobPlan, PlanError>) -> bool {
    match (r1, r2) {
        (Err(a), Err(b)) => a == b,
        (Ok(p), Ok(q)) => {
            &&& p.start@ == q.start@
            &&& p.target@ == q.target@
            &&& p.matrix_builder == q.matrix_builder
            &&& p.path_presets@ == q.path_presets@
            &&& p.group_presets@ == q.group_presets@
            &&& p.max_routes == q.max_routes
            &&& p.max_ram == q.max_ram
            &&& p.include_pretty_strings == q.include_pretty_strings
            &&& p.include_route_snapshots == q.include_route_snapshots
            &&& p.top_n_pretty == q.top_n_pretty
            &&& p.league@ == q.league@
            &&& p.timeout_secs == q.timeout_secs
        },
        _ => false,
    }
}

/// Writing the defaults out leaves a job's plan unchanged: a request and
/// the same request with its defaults written out are refused alike or
/// planned alike.
pub proof fn law_defaults_leave_plan(req: SubmitJobRequest, config: Config, r1: Result<JobPlan, PlanError>, r2: Result<JobPlan, PlanError>)
    requires
        config.max_ram_limit_bytes >= 1,
        plan_matches(req, config, r1),
        plan_matches(request_with_defaults(req, config), config, r2),
    ensures
        same_plan(r1, r2),
{
    let d = request_with_defaults(req, config);
    assert(d.start == req.start && d.target == req.target);
    assert(d.path_analyzers@ == req.path_analyzers@ && d.group_analyzers@ == req.group_analyzers@);
    if r1 is Ok {
        assert(r2 is Ok);
    }
}

/// Decide everything a job run needs from its request and the server
/// configuration: converted start and target items, the matrix builder
/// (happy path by default), the analyzers (the unique-path chance analyzer
/// when none is asked for), limits (5 routes and 1 GB by default, 0 routes
/// meaning 5, RAM clamped to `[1, max_ram_limit_bytes]`), rendering options,
/// league (the default league when empty) and timeout. The checks come
/// first, so a RAM cap of at least 1 is needed only for a request that
/// passes them.
pub fn plan_job(request: &SubmitJobRequest, config: &Config) -> (r: Result<JobPlan, PlanError>)
    requires
        request_checks_pass(*request) ==> config.max_ram_limit_bytes >= 1,
    ensures
        plan_matches(*request, *config, r),
{
    let ws = match &request.start {
        Some(w) => w,
        None => return Err(PlanError::MissingStart()),
    };
    let start = match ws.to_domain() {
        Ok(s) => s,
        Err(e) => return Err(PlanError::Convert(e)),
    };
    let wt = match &request.target {
        Some(w) => w,
        None => return Err(PlanError::MissingTarget()),
    };
    let target = match wt.to_domain() {
        Ok(s) => s,
        Err(e) => return Err(PlanError::Convert(e)),
    };
    let matrix_builder = MatrixBuilderPreset::HappyPathMatrixBuilder;
    let mut paths = match path_presets(&request.path_analyzers) {
        Ok(p) => p,
        Err(e) => return Err(PlanError::Convert(e)),
    };
    let groups = match group_presets(&request.group_analyzers) {
        Ok(g) => g,
        Err(e) => return Err(PlanError::Convert(e)),
    };
    if paths.len() == 0 && groups.len() == 0 {
        paths.push(StatisticAnalyzerPathPreset::UniquePathChance);
        assert(paths@ =~= seq![StatisticAnalyzerPathPreset::UniquePathChance]);
    }
    let limits = match request.limits {
        Some(l) => l,
        None => Limits { max_routes: 5, max_ram_in_bytes: 1_000_000_000, timeout_seconds: None },
    };
    let max_routes = if limits.max_routes == 0 { 5 } else { limits.max_routes };
    let max_ram = if limits.max_ram_in_bytes < 1 {
        1
    } else if limits.max_ram_in_bytes > config.max_ram_limit_bytes {
        config.max_ram_limit_bytes
    } else {
        limits.max_ram_in_bytes
    };
    let options = match request.result_options {
        Some(o) => o,
        None => ResultOptions { include_pretty_strings: true, include_route_snapshots: false, top_n_pretty: None },
    };
    let top_n_pretty: u64 = match options.top_n_pretty {
        Some(n) => n as u64,
        None => max_routes as u64,
    };
    let league = if request.league.as_str().unicode_len() == 0 {
        config.default_league.clone()
    } else {
        request.league.clone()
    };
    let timeout_secs: u64 = match limits.timeout_seconds {
        Some(t) => t as u64,
        None => config.job_timeout_secs,
    };
    Ok(JobPlan {
        start,
        target,
        matrix_builder,
        path_presets: paths,
        group_presets: groups,
        max_routes,
        max_ram,
        include_pretty_strings: options.include_pretty_strings,
        include_route_snapshots: options.include_route_snapshots,
        top_n_pretty,
        league,
        timeout_secs,
    })
}

/// The progress percent when entering analyzer `index` (1-based) of
/// `total`: the analyzers share the span from 40% to 95%.
pub fn analyzer_percent(index: u32, total: u32) -> (r: u32)
    requires
        1 <= total,
        index <= total,
        55 * index <= u32::MAX,
    ensures
        r == 40 + (55 * index) as int / (total as int),
{
    let scaled = 55 * index;
    assert(scaled / total <= 55) by (nonlinear_arith)
        requires
            scaled == 55 * index,
            index <= total,
            1 <= total,
    {
        assert(scaled <= 55 * total);
    }
    40 + scaled / total
}

/// Jobs delivered more than twice made a worker die repeatedly: they are
/// failed instead of processed again.
pub fn exceeds_redeliveries(delivery_count: u64) -> (r: bool)
    ensures
        r == (delivery_count > 2),
{
    delivery_count > 2
}

/// What a job failed with.
#[derive(Clone, Copy, Debug, PartialEq, Eq, Structural)]
pub enum JobFailure {
    /// The request did not convert.
    Convert(ConvertError),
    /// The calculation failed.
    Core(CraftPathError),
    /// Anything else.
    Other(),
}

pub open spec fn spec_error_code(err: JobFailure) -> Seq<char> {
    match err {
        JobFailure::Convert(_) => "INVALID_REQUEST"@,
        JobFailure::Core(CraftPathError::ItemMatrixCouldNotReachTarget()) => "TARGET_UNREACHABLE"@,
        JobFailure::Core(CraftPathError::ItemUnreachable(_)) => "AFFIX_UNREACHABLE"@,
        JobFailure::Core(CraftPathError::ItemUnreachableMinLevelConstraint(_, _)) => "AFFIX_UNREACHABLE"@,
        JobFailure::Core(CraftPathError::RamLimitReached(_)) => "RAM_LIMIT_REACHED"@,
        JobFailure::Core(CraftPathError::EssenceIntermediaryStepRequired(_)) => "ESSENCE_INTERMEDIARY_REQUIRED"@,
        JobFailure::Core(CraftPathError::Cancelled()) => "CANCELLED"@,
        JobFailure::Core(_) => "PROVIDER_DATA_ERROR"@,
        JobFailure::Other() => "INTERNAL"@,
    }
}

/// The error code a failure is reported under.
pub fn error_code(err: &JobFailure) -> (r: &'static str)
    ensures
        r@ == spec_error_code(*err),
{
    match err {
        JobFailure::Convert(_) => "INVALID_REQUEST",
        JobFailure::Core(CraftPathError::ItemMatrixCouldNotReachTarget()) => "TARGET_UNREACHABLE",
        JobFailure::Core(CraftPathError::ItemUnreachable(_)) => "AFFIX_UNREACHABLE",
        JobFailure::Core(CraftPathError::ItemUnreachableMinLevelConstraint(_, _)) => "AFFIX_UNREACHABLE",
        JobFailure::Core(CraftPathError::RamLimitReached(_)) => "RAM_LIMIT_REACHED",
        JobFailure::Core(CraftPathError::EssenceIntermediaryStepRequired(_)) => "ESSENCE_INTERMEDIARY_REQUIRED",
        JobFailure::Core(CraftPathError::Cancelled()) => "CANCELLED",
        JobFailure::Core(_) => "PROVIDER_DATA_ERROR",
        JobFailure::Other() => "INTERNAL",
    }
}

/// The failure a planning error is reported as: a conversion error as
/// such, a missing item as an internal failure.
pub open spec fn spec_plan_failure(e: PlanError) -> JobFailure {
    match e {
        PlanError::Convert(c) => JobFailure::Convert(c),
        _ => JobFailure::Other(),
    }
}

/// The description of a planning error.
pub open spec fn spec_plan_message(e: PlanError) -> Seq<char> {
    match e {
        PlanError::MissingStart() => "missing 'start' item"@,
        PlanError::MissingTarget() => "missing 'target' item"@,
        PlanError::Convert(c) => spec_message(c),
    }
}

impl PlanError {
    /// The failure the job is marked with.
    pub fn failure(&self) -> (r: JobFailure)
        ensures
            r == spec_plan_failure(*self),
    {
        match self {
            PlanError::Convert(c) => JobFailure::Convert(*c),
            _ => JobFailure::Other(),
        }
    }

    /// The description the job is marked with.
    pub fn message(&self) -> (r: String)
        ensures
            r@ == spec_plan_message(*self),
    {
        match self {
            PlanError::MissingStart() => String::from_str("missing 'start' item"),
            PlanError::MissingTarget() => String::from_str("missing 'target' item"),
            PlanError::Convert(c) => c.message(),
        }
    }
}

/// What the worker does with a job it claimed.
#[derive(Clone, Copy, Debug, PartialEq, Eq, Structural)]
pub enum JobStart {
    /// The job was cancelled while queued: leave it as it is.
    SkipCancelled,
    /// Its request is gone: mark it failed with [`missing_request_report`].
    FailMissingRequest,
    /// Mark it running and run it.
    Run,
}

/// A job cancelled while queued is skipped; one whose request expired is
/// failed; any other is run.
pub fn job_start(cancel_requested: bool, request_found: bool) -> (r: JobStart)
    ensures
        r == if cancel_requested {
            JobStart::SkipCancelled
        } else if !request_found {
            JobStart::FailMissingRequest
        } else {
            JobStart::Run
        },
{
    if cancel_requested {
        JobStart::SkipCancelled
    } else if !request_found {
        JobStart::FailMissingRequest
    } else {
        JobStart::Run
    }
}

/// The (code, message) of a job whose request is gone.
pub fn missing_request_report() -> (r: (String, String))
    ensures
        r.0@ == "JOB_NOT_FOUND"@,
        r.1@ == "job request payload expired or missing"@,
{
    (String::from_str("JOB_NOT_FOUND"), String::from_str("job request payload expired or missing"))
}

/// The (code, message) of a job whose worker died too often on it.
pub fn redelivery_report() -> (r: (String, String))
    ensures
        r.0@ == "INTERNAL"@,
        r.1@ == "worker died repeatedly while processing this job"@,
{
    (String::from_str("INTERNAL"), String::from_str("worker died repeatedly while processing this job"))
}

/// The (code, message) a failed job is marked with: a timeout is reported
/// as such; otherwise the failure's code with its description.
pub fn failure_report(timed_out: bool, timeout_secs: u64, err: &JobFailure, description: &str) -> (r: (String, String))
    ensures
        timed_out ==> r.0@ == "TIMEOUT"@ && r.1@ == "job exceeded its wall-clock timeout of "@ + decimal_string(timeout_secs as nat) + "s"@,
        !timed_out ==> r.0@ == spec_error_code(*err) && r.1@ == description@,
{
    if timed_out {
        let mut m = String::from_str("job exceeded its wall-clock timeout of ");
        append_decimal(&mut m, timeout_secs);
        m.append("s");
        (String::from_str("TIMEOUT"), m)
    } else {
        (String::from_str(error_code(err)), String::from_str(description))
    }
}

/// Progress shared between the calculation and the sampler that reports
/// it: the phase (with the percent attributed when it was entered), the
/// latest status line, the routes found so far and the cancellation flag.
#[derive(Clone, Debug)]
pub struct SharedProgress {
    pub message: String,
    pub phase: String,
    pub percent: u32,
    pub routes_found: u64,
    pub cancelled: bool,
}

impl SharedProgress {
    pub fn new() -> (r: Self)
        ensures
            r.message@ == Seq::<char>::empty(),
            r.phase@ == "starting"@,
            r.percent == 0,
            r.routes_found == 0,
            !r.cancelled,
    {
        SharedProgress {
            message: String::new(),
            phase: String::from_str("starting"),
            percent: 0,
            routes_found: 0,
            cancelled: false,
        }
    }

    pub fn set_phase(&mut self, phase: &str, percent: u32)
        ensures
            final(self).phase@ == phase@,
            final(self).percent == percent,
            final(self).message@ == old(self).message@,
            final(self).routes_found == old(self).routes_found,
            final(self).cancelled == old(self).cancelled,
    {
        self.phase = String::from_str(phase);
        self.percent = percent;
    }

    /// A progress report of the calculation: the status line and counter.
    pub fn report(&mut self, message: &str, current: u64)
        ensures
            final(self).message@ == message@,
            final(self).routes_found == current,
            final(self).phase@ == old(self).phase@,
            final(self).percent == old(self).percent,
            final(self).cancelled == old(self).cancelled,
    {
        self.message = String::from_str(message);
        self.routes_found = current;
    }

    pub fn request_cancel(&mut self)
        ensures
            final(self).cancelled,
            final(self).message@ == old(self).message@,
            final(self).phase@ == old(self).phase@,
            final(self).percent == old(self).percent,
            final(self).routes_found == old(self).routes_found,
    {
        self.cancelled = true;
    }

    pub fn is_cancelled(&self) -> (r: bool)
        ensures
            r == self.cancelled,
    {
        self.cancelled
    }

    /// (stage, percent, routes found): the stage is the phase, followed by
    /// `": "` and the status line when there is one.
    pub fn snapshot(&self) -> (r: (String, u32, u64))
        ensures
            r.0@ == if self.message@.len() == 0 { self.phase@ } else { self.phase@ + ": "@ + self.message@ },
            r.1 == self.percent,
            r.2 == self.routes_found,
    {
        let stage = if self.message.as_str().unicode_len() == 0 {
            self.phase.clone()
        } else {
            let mut s = self.phase.clone();
            s.append(": ");
            s.append(self.message.as_str());
            s
        };
        (stage, self.percent, self.routes_found)
    }
}

} // verus!
