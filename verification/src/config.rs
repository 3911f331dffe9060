//! Environment-driven configuration shared by all server modes: every
//! setting has a default, numeric settings must parse when present.

use vstd::prelude::*;
use vstd::string::StringExecFns;

use crate::jobs::{field_value, field_views, get_field};
use crate::text::{chars_of, parse_unsigned, parse_unsigned_spec, string_from_chars, trim, trim_str};

verus! {

/// Configuration of the server modes.
#[derive(Clone, Debug)]
pub struct Config {
    pub redis_url: String,
    pub bind_addr: String,
    /// Health/readiness listener for worker pods.
    pub worker_health_addr: String,
    /// Time-to-live of a finished job's keys.
    pub job_ttl_secs: u64,
    /// Wall-clock timeout of jobs that do not set their own.
    pub job_timeout_secs: u64,
    pub default_league: String,
    pub cache_dir: String,
    pub coe_cache_ttl_secs: u64,
    pub economy_cache_ttl_secs: u64,
    /// Upper bound for the RAM budget a job may request.
    pub max_ram_limit_bytes: u64,
}

/// A numeric setting.
#[derive(Clone, Copy, Debug, PartialEq, Eq, Structural)]
pub enum NumericSetting {
    JobTtlSecs,
    JobTimeoutSecs,
    CoeCacheTtlSecs,
    EconomyCacheTtlSecs,
    MaxRamLimitBytes,
}

/// Why the configuration was refused.
#[derive(Clone, Copy, Debug, PartialEq, Eq, Structural)]
pub enum ConfigError {
    /// The variable of the setting is present but not a number.
    Invalid(NumericSetting),
}

/// The environment variable a numeric setting is read from.
pub open spec fn setting_variable(s: NumericSetting) -> Seq<char> {
    match s {
        NumericSetting::JobTtlSecs => "JOB_TTL_SECS"@,
        NumericSetting::JobTimeoutSecs => "JOB_TIMEOUT_SECS"@,
        NumericSetting::CoeCacheTtlSecs => "COE_CACHE_TTL_SECS"@,
        NumericSetting::EconomyCacheTtlSecs => "ECONOMY_CACHE_TTL_SECS"@,
        NumericSetting::MaxRamLimitBytes => "MAX_RAM_LIMIT_BYTES"@,
    }
}

impl ConfigError {
    /// The message the server reports: `invalid` and the variable's name.
    pub fn message(&self) -> (r: String)
        ensures
            r@ == "invalid "@ + setting_variable(self->0),
    {
        let name = match self {
            ConfigError::Invalid(NumericSetting::JobTtlSecs) => "JOB_TTL_SECS",
            ConfigError::Invalid(NumericSetting::JobTimeoutSecs) => "JOB_TIMEOUT_SECS",
            ConfigError::Invalid(NumericSetting::CoeCacheTtlSecs) => "COE_CACHE_TTL_SECS",
            ConfigError::Invalid(NumericSetting::EconomyCacheTtlSecs) => "ECONOMY_CACHE_TTL_SECS",
            ConfigError::Invalid(NumericSetting::MaxRamLimitBytes) => "MAX_RAM_LIMIT_BYTES",
        };
        let mut out = String::from_str("invalid ");
        out.append(name);
        out
    }
}

/// The value of a text setting: the variable's value, or the default.
pub open spec fn text_setting(env: Seq<(Seq<char>, Seq<char>)>, key: Seq<char>, default: Seq<char>) -> Seq<char> {
    match field_value(env, key) {
        Some(v) => v,
        None => default,
    }
}

/// The value of a numeric setting: the variable's parsed value, the
/// default when absent, an error when present but not a number.
pub open spec fn numeric_setting(env: Seq<(Seq<char>, Seq<char>)>, key: Seq<char>, default: u64, which: NumericSetting) -> Result<u64, ConfigError> {
    match field_value(env, key) {
        None => Ok(default),
        Some(v) => match parse_unsigned_spec(v, u64::MAX as nat) {
            Some(n) => Ok(n as u64),
            None => Err(ConfigError::Invalid(which)),
        },
    }
}

fn env_or(env: &Vec<(String, String)>, key: &str, default: &str) -> (r: String)
    ensures
        r@ == text_setting(field_views(env@), key@, default@),
{
    match get_field(env, key) {
        Some(v) => v.clone(),
        None => String::from_str(default),
    }
}

fn env_parse(env: &Vec<(String, String)>, key: &str, default: u64, which: NumericSetting) -> (r: Result<u64, ConfigError>)
    ensures
        r == numeric_setting(field_views(env@), key@, default, which),
{
    match get_field(env, key) {
        None => Ok(default),
        Some(v) => match parse_unsigned(v.as_str(), 18446744073709551615) {
            Some(n) => Ok(n),
            None => Err(ConfigError::Invalid(which)),
        },
    }
}

impl Config {
    /// The configuration from the process environment, given as its
    /// (variable, value) pairs. Numeric settings are checked in field order;
    /// the first malformed one is reported.
    pub fn from_env(env: &Vec<(String, String)>) -> (r: Result<Config, ConfigError>)
        ensures
            ({
                let e = field_views(env@);
                let nums = seq![
                    numeric_setting(e, "JOB_TTL_SECS"@, 86400, NumericSetting::JobTtlSecs),
                    numeric_setting(e, "JOB_TIMEOUT_SECS"@, 3600, NumericSetting::JobTimeoutSecs),
                    numeric_setting(e, "COE_CACHE_TTL_SECS"@, 86400, NumericSetting::CoeCacheTtlSecs),
                    numeric_setting(e, "ECONOMY_CACHE_TTL_SECS"@, 3600, NumericSetting::EconomyCacheTtlSecs),
                    numeric_setting(e, "MAX_RAM_LIMIT_BYTES"@, 4_000_000_000, NumericSetting::MaxRamLimitBytes),
                ];
                match r {
                    Ok(c) => {
                        &&& forall|i: int| 0 <= i < 5 ==> #[trigger] nums[i] is Ok
                        &&& c.redis_url@ == text_setting(e, "REDIS_URL"@, "redis://127.0.0.1:6379"@)
                        &&& c.bind_addr@ == text_setting(e, "BIND_ADDR"@, "0.0.0.0:8080"@)
                        &&& c.worker_health_addr@ == text_setting(e, "WORKER_HEALTH_ADDR"@, "0.0.0.0:8081"@)
                        &&& Ok::<u64, ConfigError>(c.job_ttl_secs) == nums[0]
                        &&& Ok::<u64, ConfigError>(c.job_timeout_secs) == nums[1]
                        &&& c.default_league@ == text_setting(e, "POE2_LEAGUE_DEFAULT"@, "Standard"@)
                        &&& c.cache_dir@ == text_setting(e, "CACHE_DIR"@, "./cache"@)
                        &&& Ok::<u64, ConfigError>(c.coe_cache_ttl_secs) == nums[2]
                        &&& Ok::<u64, ConfigError>(c.economy_cache_ttl_secs) == nums[3]
                        &&& Ok::<u64, ConfigError>(c.max_ram_limit_bytes) == nums[4]
                    },
                    Err(err) => exists|i: int|
                        0 <= i < 5 && #[trigger] nums[i] == Err::<u64, ConfigError>(err) && forall|j: int| 0 <= j < i ==> #[trigger] nums[j] is Ok,
                }
            }),
    {
        let ghost e = field_views(env@);
        let redis_url = env_or(env, "REDIS_URL", "redis://127.0.0.1:6379");
        let bind_addr = env_or(env, "BIND_ADDR", "0.0.0.0:8080");
        let worker_health_addr = env_or(env, "WORKER_HEALTH_ADDR", "0.0.0.0:8081");
        let job_ttl_secs = match env_parse(env, "JOB_TTL_SECS", 86400, NumericSetting::JobTtlSecs) {
            Ok(v) => v,
            Err(err) => return Err(err),
        };
        let job_timeout_secs = match env_parse(env, "JOB_TIMEOUT_SECS", 3600, NumericSetting::JobTimeoutSecs) {
            Ok(v) => v,
            Err(err) => return Err(err),
        };
        let default_league = env_or(env, "POE2_LEAGUE_DEFAULT", "Standard");
        let cache_dir = env_or(env, "CACHE_DIR", "./cache");
        let coe_cache_ttl_secs = match env_parse(env, "COE_CACHE_TTL_SECS", 86400, NumericSetting::CoeCacheTtlSecs) {
            Ok(v) => v,
            Err(err) => return Err(err),
        };
        let economy_cache_ttl_secs = match env_parse(env, "ECONOMY_CACHE_TTL_SECS", 3600, NumericSetting::EconomyCacheTtlSecs) {
            Ok(v) => v,
            Err(err) => return Err(err),
        };
        let max_ram_limit_bytes = match env_parse(env, "MAX_RAM_LIMIT_BYTES", 4_000_000_000, NumericSetting::MaxRamLimitBytes) {
            Ok(v) => v,
            Err(err) => return Err(err),
        };
        Ok(Config {
            redis_url,
            bind_addr,
            worker_health_addr,
            job_ttl_secs,
            job_timeout_secs,
            default_league,
            cache_dir,
            coe_cache_ttl_secs,
            economy_cache_ttl_secs,
            max_ram_limit_bytes,
        })
    }
}


/// Path separators and spaces become underscores in cache directory names.
pub open spec fn dir_safe_char(c: char) -> char {
    if c == '/' || c == '\\' || c == ' ' {
        '_'
    } else {
        c
    }
}

/// The cache directory of a league: `{cache_dir}/{league}` with `/`, `\`
/// and spaces in the league name replaced by `_`.
pub fn league_cache_dir(cache_dir: &str, league: &str) -> (r: String)
    ensures
        r@ == cache_dir@ + "/"@ + league@.map_values(|c: char| dir_safe_char(c)),
{
    let v = chars_of(league);
    let ghost g = |c: char| dir_safe_char(c);
    let mut out: Vec<char> = Vec::new();
    let mut i: usize = 0;
    while i < v.len()
        invariant
            i <= v@.len(),
            v@ == league@,
            g == (|c: char| dir_safe_char(c)),
            out@ == v@.take(i as int).map_values(g),
        decreases v.len() - i,
    {
        let c = v[i];
        let m = if c == '/' || c == '\\' || c == ' ' { '_' } else { c };
        out.push(m);
        i += 1;
        assert(out@ =~= v@.take(i as int).map_values(g));
    }
    assert(v@.take(v@.len() as int) =~= v@);
    let mut s = String::from_str(cache_dir);
    s.append("/");
    s.append(string_from_chars(out).as_str());
    s
}

/// The cache file and download address of the game item data, which does
/// not depend on the league.
pub fn item_data_source(cache_dir: &str) -> (r: (String, String))
    ensures
        r.0@ == cache_dir@ + "/coe2.json"@,
        r.1@ == "https://www.craftofexile.com/json/poe2/main/poec_data.json"@,
{
    let mut path = String::from_str(cache_dir);
    path.append("/coe2.json");
    (path, String::from_str("https://www.craftofexile.com/json/poe2/main/poec_data.json"))
}

/// The economy overview kinds fetched per league, as named in the download
/// address and (lower-cased) in the cache file name.
pub open spec fn economy_kinds() -> Seq<(Seq<char>, Seq<char>)> {
    seq![("Abyss"@, "abyss"@), ("Currency"@, "currency"@), ("Essences"@, "essences"@), ("Ritual"@, "ritual"@)]
}

/// The cache files and download addresses of a league's economy data: for
/// each overview kind, `{league_dir}/pn_{kind}.json` and the overview
/// address for the league and kind.
pub fn economy_sources(league_dir: &str, league: &str) -> (r: Vec<(String, String)>)
    ensures
        r@.len() == economy_kinds().len(),
        forall|i: int| 0 <= i < r@.len() ==> {
            &&& (#[trigger] r@[i]).0@ == league_dir@ + "/pn_"@ + economy_kinds()[i].1 + ".json"@
            &&& r@[i].1@ == "https://poe.ninja/poe2/api/economy/exchange/current/overview?league="@ + league@ + "&type="@
                + economy_kinds()[i].0
        },
{
    let kinds: Vec<(&str, &str)> = vec![("Abyss", "abyss"), ("Currency", "currency"), ("Essences", "essences"), ("Ritual", "ritual")];
    let mut out: Vec<(String, String)> = Vec::new();
    let mut i: usize = 0;
    while i < kinds.len()
        invariant
            i <= kinds@.len(),
            kinds@.len() == 4,
            forall|j: int| 0 <= j < 4 ==> (#[trigger] kinds@[j]).0@ == economy_kinds()[j].0 && kinds@[j].1@ == economy_kinds()[j].1,
            out@.len() == i,
            forall|j: int| 0 <= j < i ==> {
                &&& (#[trigger] out@[j]).0@ == league_dir@ + "/pn_"@ + economy_kinds()[j].1 + ".json"@
                &&& out@[j].1@ == "https://poe.ninja/poe2/api/economy/exchange/current/overview?league="@ + league@ + "&type="@
                    + economy_kinds()[j].0
            },
        decreases kinds.len() - i,
    {
        let (kind, lower) = kinds[i];
        let mut path = String::from_str(league_dir);
        path.append("/pn_");
        path.append(lower);
        path.append(".json");
        let mut url = String::from_str("https://poe.ninja/poe2/api/economy/exchange/current/overview?league=");
        url.append(league);
        url.append("&type=");
        url.append(kind);
        out.push((path, url));
        i += 1;
    }
    out
}

/// The league a request is served from: the requested one unless it is
/// absent or blank, else the default.
pub fn effective_league(requested: Option<&str>, default_league: &str) -> (r: String)
    ensures
        r@ == match requested {
            Some(l) => if trim(l@).len() == 0 { default_league@ } else { l@ },
            None => default_league@,
        },
{
    match requested {
        Some(l) => if trim_str(l).unicode_len() == 0 {
            String::from_str(default_league)
        } else {
            String::from_str(l)
        },
        None => String::from_str(default_league),
    }
}

} // verus!
