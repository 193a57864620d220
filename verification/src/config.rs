//! The front-end configuration: general paths, engine settings and
//! interface options, with defaults, key-based reading and editing, and
//! the helpers behind the interactive settings dialog.
//!
//! The seed ratio is held in tenths, the precision the interface shows;
//! values with more than one fractional digit are rejected.

use vstd::prelude::*;

verus! {

use crate::numfmt::{decimal_digits, fixed1_chars, u64_to_string, fixed1_string};
use crate::text::{is_digit_char, digit_value};
use crate::util::{parse_u64_chars, spec_parse_size, parse_size, NumberError, string_chars};
use crate::input::{contains_char, vec_eq_str};
use vstd::string::StringExecFns;

/// General paths and logging.
#[derive(Debug, Clone)]
pub struct GeneralConfig {
    /// Default download directory.
    pub download_dir: String,
    /// Database path for persistence.
    pub database_path: String,
    /// Log file path; standard error only when absent.
    pub log_file: Option<String>,
    /// Log level name.
    pub log_level: String,
}

/// Engine tuning.
#[derive(Debug, Clone)]
pub struct EngineSettings {
    /// Maximum concurrent downloads.
    pub max_concurrent_downloads: usize,
    /// Maximum connections per download.
    pub max_connections_per_download: usize,
    /// Minimum segment size in bytes.
    pub min_segment_size: u64,
    /// Global download speed limit in bytes per second; unlimited when
    /// absent.
    pub global_download_limit: Option<u64>,
    /// Global upload speed limit in bytes per second; unlimited when
    /// absent.
    pub global_upload_limit: Option<u64>,
    /// User agent string.
    pub user_agent: String,
    /// Whether the distributed hash table is enabled.
    pub enable_dht: bool,
    /// Whether peer exchange is enabled.
    pub enable_pex: bool,
    /// Whether local peer discovery is enabled.
    pub enable_lpd: bool,
    /// Maximum peers per torrent.
    pub max_peers: usize,
    /// Seed ratio target, in tenths.
    pub seed_ratio_tenths: u64,
    /// Proxy URL, when set.
    pub proxy_url: Option<String>,
    /// Connect timeout in seconds.
    pub connect_timeout: u64,
    /// Read timeout in seconds.
    pub read_timeout: u64,
    /// Maximum retries for failed downloads.
    pub max_retries: usize,
    /// Whether invalid TLS certificates are accepted.
    pub accept_invalid_certs: bool,
}

/// Interface options.
#[derive(Debug, Clone)]
pub struct TuiConfig {
    /// Refresh rate in milliseconds.
    pub refresh_rate_ms: u64,
    /// Colour theme name.
    pub theme: String,
    /// Whether the speed graph is shown.
    pub show_speed_graph: bool,
    /// Whether the peer list is shown.
    pub show_peers: bool,
}

/// The whole front-end configuration.
#[derive(Debug, Clone)]
pub struct CliConfig {
    pub general: GeneralConfig,
    pub engine: EngineSettings,
    pub tui: TuiConfig,
}

impl GeneralConfig {
    /// The defaults with the given directories filled in.
    pub fn with_dirs(download_dir: String, database_path: String) -> (r: GeneralConfig)
        ensures
            r.download_dir == download_dir,
            r.database_path == database_path,
            r.log_file is None,
            r.log_level@ == "info"@,
    {
        GeneralConfig { download_dir, database_path, log_file: None, log_level: "info".to_owned() }
    }
}

impl Default for GeneralConfig {
    /// The defaults, with the working directory standing in for the real
    /// platform directories the shell supplies.
    fn default() -> (r: GeneralConfig)
        ensures
            r.download_dir@ == "."@,
            r.database_path@ == "gosh.db"@,
            r.log_file is None,
            r.log_level@ == "info"@,
    {
        GeneralConfig::with_dirs(".".to_owned(), "gosh.db".to_owned())
    }
}

impl Default for EngineSettings {
    /// The engine defaults.
    fn default() -> (r: EngineSettings)
        ensures
            r.max_concurrent_downloads == 5,
            r.max_connections_per_download == 8,
            r.min_segment_size == 0x100000,
            r.global_download_limit is None,
            r.global_upload_limit is None,
            r.user_agent@ == "gosh-dl"@,
            r.enable_dht,
            r.enable_pex,
            r.enable_lpd,
            r.max_peers == 55,
            r.seed_ratio_tenths == 10,
            r.proxy_url is None,
            r.connect_timeout == 30,
            r.read_timeout == 60,
            r.max_retries == 3,
            !r.accept_invalid_certs,
    {
        EngineSettings {
            max_concurrent_downloads: 5,
            max_connections_per_download: 8,
            min_segment_size: 0x100000,
            global_download_limit: None,
            global_upload_limit: None,
            user_agent: "gosh-dl".to_owned(),
            enable_dht: true,
            enable_pex: true,
            enable_lpd: true,
            max_peers: 55,
            seed_ratio_tenths: 10,
            proxy_url: None,
            connect_timeout: 30,
            read_timeout: 60,
            max_retries: 3,
            accept_invalid_certs: false,
        }
    }
}

impl Default for TuiConfig {
    /// The interface defaults.
    fn default() -> (r: TuiConfig)
        ensures
            r.refresh_rate_ms == 250,
            r.theme@ == "dark"@,
            r.show_speed_graph,
            r.show_peers,
    {
        TuiConfig {
            refresh_rate_ms: 250,
            theme: "dark".to_owned(),
            show_speed_graph: true,
            show_peers: true,
        }
    }
}

impl Default for CliConfig {
    /// The whole default configuration.
    fn default() -> (r: CliConfig)
        ensures
            r.general.log_level@ == "info"@,
            r.engine.max_concurrent_downloads == 5,
            r.tui.refresh_rate_ms == 250,
    {
        CliConfig {
            general: Default::default(),
            engine: Default::default(),
            tui: Default::default(),
        }
    }
}

/// Why a configuration edit was rejected.
#[derive(Debug, Clone, Copy, PartialEq, Eq)]
pub enum ConfigError {
    /// The key names no known setting.
    UnknownKey,
    /// The value does not parse for that setting.
    InvalidValue,
}

/// The rendering of a boolean setting, as `bool` prints itself.
pub open spec fn spec_bool_str(b: bool) -> Seq<char> {
    if b {
        "true"@
    } else {
        "false"@
    }
}

/// The rendering of a boolean setting.
pub fn bool_str(b: bool) -> (r: &'static str)
    ensures
        r@ == spec_bool_str(b),
{
    if b {
        "true"
    } else {
        "false"
    }
}

/// The rendering of the seed ratio: a whole number where the tenths
/// vanish, else one decimal place.
pub open spec fn spec_ratio_str(tenths: u64) -> Seq<char> {
    if tenths % 10 == 0 {
        decimal_digits((tenths / 10) as nat)
    } else {
        fixed1_chars(tenths as nat)
    }
}

/// Render the seed ratio.
pub fn ratio_str(tenths: u64) -> (r: String)
    ensures
        r@ == spec_ratio_str(tenths),
{
    if tenths % 10 == 0 {
        u64_to_string(tenths / 10)
    } else {
        fixed1_string(tenths)
    }
}

/// What parsing a seed ratio owes: a whole number of tenths from `N` or
/// `N.D` with exactly one fractional digit.
pub open spec fn spec_parse_tenths(s: Seq<char>) -> Option<u64> {
    if s.len() >= 2 && s[s.len() - 2] == '.' && is_digit_char(s.last()) {
        match parse_u64_chars(s.take(s.len() - 2)) {
            Some(v) => if (v as nat) * 10 + digit_value(s.last()) <= u64::MAX {
                Some((v * 10 + digit_value(s.last())) as u64)
            } else {
                None
            },
            None => None,
        }
    } else {
        match parse_u64_chars(s) {
            Some(v) => if (v as nat) * 10 <= u64::MAX {
                Some((v * 10) as u64)
            } else {
                None
            },
            None => None,
        }
    }
}

/// Parse a seed ratio into tenths.
pub fn parse_tenths(s: &str) -> (r: Result<u64, NumberError>)
    ensures
        r is Ok <==> spec_parse_tenths(s@) is Some,
        r matches Ok(v) ==> Some(v) == spec_parse_tenths(s@),
{
    let cs = string_chars(s);
    let n = cs.len();
    if n >= 2 && cs[n - 2] == '.' && crate::text::is_ascii_digit_char(cs[n - 1]) {
        let d = crate::text::decimal_digit_value(cs[n - 1]);
        proof {
            assert(cs@.take(n - 2) =~= s@.take(s@.len() - 2));
        }
        match parse_u64_range(&cs, n - 2) {
            Ok(v) => {
                if v > (0xffff_ffff_ffff_ffffu64 - (d as u64)) / 10 {
                    proof {
                        assert((v as nat) * 10 + (d as nat) > u64::MAX) by (nonlinear_arith)
                            requires
                                v > (0xffff_ffff_ffff_ffffu64 - (d as u64)) / 10,
                                d < 10,
                        ;
                    }
                    Err(NumberError)
                } else {
                    proof {
                        assert((v as nat) * 10 + (d as nat) <= u64::MAX) by (nonlinear_arith)
                            requires
                                v <= (0xffff_ffff_ffff_ffffu64 - (d as u64)) / 10,
                                d < 10,
                        ;
                    }
                    Ok(v * 10 + (d as u64))
                }
            },
            Err(e) => Err(e),
        }
    } else {
        proof {
            assert(cs@.take(n as int) =~= s@);
        }
        match parse_u64_range(&cs, n) {
            Ok(v) => {
                if v > 0xffff_ffff_ffff_ffffu64 / 10 {
                    proof {
                        assert((v as nat) * 10 > u64::MAX) by (nonlinear_arith)
                            requires
                                v > 0xffff_ffff_ffff_ffffu64 / 10,
                        ;
                    }
                    Err(NumberError)
                } else {
                    proof {
                        assert((v as nat) * 10 <= u64::MAX) by (nonlinear_arith)
                            requires
                                v <= 0xffff_ffff_ffff_ffffu64 / 10,
                        ;
                    }
                    Ok(v * 10)
                }
            },
            Err(e) => Err(e),
        }
    }
}

/// Parse the first `end` characters of `t` as a `u64`.
fn parse_u64_range(t: &Vec<char>, end: usize) -> (r: Result<u64, NumberError>)
    requires
        end <= t@.len(),
    ensures
        r is Ok <==> parse_u64_chars(t@.take(end as int)) is Some,
        r matches Ok(v) ==> Some(v) == parse_u64_chars(t@.take(end as int)),
{
    let mut head: Vec<char> = Vec::new();
    let mut i: usize = 0;
    while i < end
        invariant
            i <= end <= t@.len(),
            head@ == t@.take(i as int),
        decreases end - i,
    {
        head.push(t[i]);
        proof {
            assert(t@.take(i + 1) =~= t@.take(i as int).push(t@[i as int]));
        }
        i = i + 1;
    }
    let hl = head.len();
    let r = crate::util::parse_u64_in(&head, 0, hl);
    proof {
        assert(head@.subrange(0, hl as int) =~= head@);
    }
    r
}


/// The ghost view of the general section.
pub struct GeneralV {
    pub download_dir: Seq<char>,
    pub database_path: Seq<char>,
    pub log_file: Option<Seq<char>>,
    pub log_level: Seq<char>,
}

/// The ghost view of the engine section.
pub struct EngineV {
    pub max_concurrent_downloads: usize,
    pub max_connections_per_download: usize,
    pub min_segment_size: u64,
    pub global_download_limit: Option<u64>,
    pub global_upload_limit: Option<u64>,
    pub user_agent: Seq<char>,
    pub enable_dht: bool,
    pub enable_pex: bool,
    pub enable_lpd: bool,
    pub max_peers: usize,
    pub seed_ratio_tenths: u64,
    pub proxy_url: Option<Seq<char>>,
    pub connect_timeout: u64,
    pub read_timeout: u64,
    pub max_retries: usize,
    pub accept_invalid_certs: bool,
}

/// The ghost view of the interface section.
pub struct TuiV {
    pub refresh_rate_ms: u64,
    pub theme: Seq<char>,
    pub show_speed_graph: bool,
    pub show_peers: bool,
}

/// The ghost view of the whole configuration.
pub struct ConfigV {
    pub general: GeneralV,
    pub engine: EngineV,
    pub tui: TuiV,
}

/// The view of an optional string.
pub open spec fn opt_view(o: Option<String>) -> Option<Seq<char>> {
    match o {
        Some(v) => Some(v@),
        None => None,
    }
}

/// The view of a configuration value.
pub open spec fn cfg_view(c: CliConfig) -> ConfigV {
    ConfigV {
        general: GeneralV {
            download_dir: c.general.download_dir@,
            database_path: c.general.database_path@,
            log_file: opt_view(c.general.log_file),
            log_level: c.general.log_level@,
        },
        engine: EngineV {
            max_concurrent_downloads: c.engine.max_concurrent_downloads,
            max_connections_per_download: c.engine.max_connections_per_download,
            min_segment_size: c.engine.min_segment_size,
            global_download_limit: c.engine.global_download_limit,
            global_upload_limit: c.engine.global_upload_limit,
            user_agent: c.engine.user_agent@,
            enable_dht: c.engine.enable_dht,
            enable_pex: c.engine.enable_pex,
            enable_lpd: c.engine.enable_lpd,
            max_peers: c.engine.max_peers,
            seed_ratio_tenths: c.engine.seed_ratio_tenths,
            proxy_url: opt_view(c.engine.proxy_url),
            connect_timeout: c.engine.connect_timeout,
            read_timeout: c.engine.read_timeout,
            max_retries: c.engine.max_retries,
            accept_invalid_certs: c.engine.accept_invalid_certs,
        },
        tui: TuiV {
            refresh_rate_ms: c.tui.refresh_rate_ms,
            theme: c.tui.theme@,
            show_speed_graph: c.tui.show_speed_graph,
            show_peers: c.tui.show_peers,
        },
    }
}

/// The value `get_config_value` owes for each key; `None` for an unknown
/// key.
pub open spec fn spec_get_config(v: ConfigV, key: Seq<char>) -> Option<Seq<char>> {
    if key == "general.download_dir"@ {
        Some(v.general.download_dir)
    } else if key == "general.database_path"@ {
        Some(v.general.database_path)
    } else if key == "general.log_level"@ {
        Some(v.general.log_level)
    } else if key == "engine.max_concurrent_downloads"@ {
        Some(decimal_digits(v.engine.max_concurrent_downloads as nat))
    } else if key == "engine.max_connections_per_download"@ {
        Some(decimal_digits(v.engine.max_connections_per_download as nat))
    } else if key == "engine.global_download_limit"@ {
        Some(
            match v.engine.global_download_limit {
                Some(n) => decimal_digits(n as nat),
                None => "unlimited"@,
            },
        )
    } else if key == "engine.global_upload_limit"@ {
        Some(
            match v.engine.global_upload_limit {
                Some(n) => decimal_digits(n as nat),
                None => "unlimited"@,
            },
        )
    } else if key == "engine.user_agent"@ {
        Some(v.engine.user_agent)
    } else if key == "engine.enable_dht"@ {
        Some(spec_bool_str(v.engine.enable_dht))
    } else if key == "engine.enable_pex"@ {
        Some(spec_bool_str(v.engine.enable_pex))
    } else if key == "engine.enable_lpd"@ {
        Some(spec_bool_str(v.engine.enable_lpd))
    } else if key == "engine.max_peers"@ {
        Some(decimal_digits(v.engine.max_peers as nat))
    } else if key == "engine.seed_ratio"@ {
        Some(spec_ratio_str(v.engine.seed_ratio_tenths))
    } else if key == "tui.refresh_rate_ms"@ {
        Some(decimal_digits(v.tui.refresh_rate_ms as nat))
    } else if key == "tui.theme"@ {
        Some(v.tui.theme)
    } else if key == "tui.show_speed_graph"@ {
        Some(spec_bool_str(v.tui.show_speed_graph))
    } else if key == "tui.show_peers"@ {
        Some(spec_bool_str(v.tui.show_peers))
    } else {
        None
    }
}

/// Read one configuration value by key.
pub fn get_config_value(config: &CliConfig, key: &str) -> (r: Result<String, ConfigError>)
    ensures
        r is Ok <==> spec_get_config(cfg_view(*config), key@) is Some,
        r matches Ok(v) ==> Some(v@) == spec_get_config(cfg_view(*config), key@),
        r is Err ==> r == Err::<String, _>(ConfigError::UnknownKey),
{
    let k = string_chars(key);
    if vec_eq_str(&k, "general.download_dir") {
        Ok(config.general.download_dir.clone())
    } else if vec_eq_str(&k, "general.database_path") {
        Ok(config.general.database_path.clone())
    } else if vec_eq_str(&k, "general.log_level") {
        Ok(config.general.log_level.clone())
    } else if vec_eq_str(&k, "engine.max_concurrent_downloads") {
        Ok(u64_to_string(config.engine.max_concurrent_downloads as u64))
    } else if vec_eq_str(&k, "engine.max_connections_per_download") {
        Ok(u64_to_string(config.engine.max_connections_per_download as u64))
    } else if vec_eq_str(&k, "engine.global_download_limit") {
        match config.engine.global_download_limit {
            Some(n) => Ok(u64_to_string(n)),
            None => {
                proof {
                    reveal_strlit("unlimited");
                }
                Ok("unlimited".to_owned())
            },
        }
    } else if vec_eq_str(&k, "engine.global_upload_limit") {
        match config.engine.global_upload_limit {
            Some(n) => Ok(u64_to_string(n)),
            None => {
                proof {
                    reveal_strlit("unlimited");
                }
                Ok("unlimited".to_owned())
            },
        }
    } else if vec_eq_str(&k, "engine.user_agent") {
        Ok(config.engine.user_agent.clone())
    } else if vec_eq_str(&k, "engine.enable_dht") {
        Ok(bool_str(config.engine.enable_dht).to_owned())
    } else if vec_eq_str(&k, "engine.enable_pex") {
        Ok(bool_str(config.engine.enable_pex).to_owned())
    } else if vec_eq_str(&k, "engine.enable_lpd") {
        Ok(bool_str(config.engine.enable_lpd).to_owned())
    } else if vec_eq_str(&k, "engine.max_peers") {
        Ok(u64_to_string(config.engine.max_peers as u64))
    } else if vec_eq_str(&k, "engine.seed_ratio") {
        Ok(ratio_str(config.engine.seed_ratio_tenths))
    } else if vec_eq_str(&k, "tui.refresh_rate_ms") {
        Ok(u64_to_string(config.tui.refresh_rate_ms))
    } else if vec_eq_str(&k, "tui.theme") {
        Ok(config.tui.theme.clone())
    } else if vec_eq_str(&k, "tui.show_speed_graph") {
        Ok(bool_str(config.tui.show_speed_graph).to_owned())
    } else if vec_eq_str(&k, "tui.show_peers") {
        Ok(bool_str(config.tui.show_peers).to_owned())
    } else {
        Err(ConfigError::UnknownKey)
    }
}

/// What parsing a boolean setting owes: exactly `true` or `false`.
pub open spec fn spec_parse_bool(s: Seq<char>) -> Option<bool> {
    if s == "true"@ {
        Some(true)
    } else if s == "false"@ {
        Some(false)
    } else {
        None
    }
}

/// Parse a boolean setting.
fn parse_bool(s: &Vec<char>) -> (r: Result<bool, NumberError>)
    ensures
        r is Ok <==> spec_parse_bool(s@) is Some,
        r matches Ok(b) ==> Some(b) == spec_parse_bool(s@),
{
    if vec_eq_str(s, "true") {
        Ok(true)
    } else if vec_eq_str(s, "false") {
        Ok(false)
    } else {
        Err(NumberError)
    }
}

/// What parsing a count setting owes: a `u64` that also fits `usize`.
pub open spec fn spec_parse_usize(s: Seq<char>) -> Option<usize> {
    match parse_u64_chars(s) {
        Some(v) => if v <= usize::MAX {
            Some(v as usize)
        } else {
            None
        },
        None => None,
    }
}

/// Parse a count setting.
fn parse_usize_value(s: &Vec<char>) -> (r: Result<usize, NumberError>)
    ensures
        r is Ok <==> spec_parse_usize(s@) is Some,
        r matches Ok(v) ==> Some(v) == spec_parse_usize(s@),
{
    let n = s.len();
    proof {
        assert(s@.subrange(0, n as int) =~= s@);
    }
    match crate::util::parse_u64_in(s, 0, n) {
        Ok(v) => {
            if v <= usize::MAX as u64 {
                Ok(v as usize)
            } else {
                Err(NumberError)
            }
        },
        Err(e) => Err(e),
    }
}

/// What a limit setting parses to: `unlimited` or `0` clear it; anything
/// else must be a size with an optional suffix.
pub open spec fn spec_parse_limit(s: Seq<char>) -> Option<Option<u64>> {
    if s == "unlimited"@ || s == "0"@ {
        Some(None)
    } else {
        match spec_parse_size(s) {
            Some(v) => Some(Some(v)),
            None => None,
        }
    }
}

/// Parse a limit setting.
fn parse_limit(raw: &str, s: &Vec<char>) -> (r: Result<Option<u64>, NumberError>)
    requires
        s@ == raw@,
    ensures
        r is Ok <==> spec_parse_limit(raw@) is Some,
        r matches Ok(v) ==> Some(v) == spec_parse_limit(raw@),
{
    if vec_eq_str(s, "unlimited") || vec_eq_str(s, "0") {
        Ok(None)
    } else {
        match parse_size(raw) {
            Ok(v) => Ok(Some(v)),
            Err(e) => Err(e),
        }
    }
}

/// The configuration `set_config_value` owes for each key and value, or
/// the rejection.
pub open spec fn spec_set_config(v: ConfigV, key: Seq<char>, value: Seq<char>) -> Result<
    ConfigV,
    ConfigError,
> {
    if key == "general.download_dir"@ {
        Ok(ConfigV { general: GeneralV { download_dir: value, ..v.general }, ..v })
    } else if key == "general.database_path"@ {
        Ok(ConfigV { general: GeneralV { database_path: value, ..v.general }, ..v })
    } else if key == "general.log_level"@ {
        Ok(ConfigV { general: GeneralV { log_level: value, ..v.general }, ..v })
    } else if key == "engine.max_concurrent_downloads"@ {
        match spec_parse_usize(value) {
            Some(n) => Ok(
                ConfigV { engine: EngineV { max_concurrent_downloads: n, ..v.engine }, ..v },
            ),
            None => Err(ConfigError::InvalidValue),
        }
    } else if key == "engine.max_connections_per_download"@ {
        match spec_parse_usize(value) {
            Some(n) => Ok(
                ConfigV { engine: EngineV { max_connections_per_download: n, ..v.engine }, ..v },
            ),
            None => Err(ConfigError::InvalidValue),
        }
    } else if key == "engine.global_download_limit"@ {
        match spec_parse_limit(value) {
            Some(l) => Ok(ConfigV { engine: EngineV { global_download_limit: l, ..v.engine }, ..v }),
            None => Err(ConfigError::InvalidValue),
        }
    } else if key == "engine.global_upload_limit"@ {
        match spec_parse_limit(value) {
            Some(l) => Ok(ConfigV { engine: EngineV { global_upload_limit: l, ..v.engine }, ..v }),
            None => Err(ConfigError::InvalidValue),
        }
    } else if key == "engine.user_agent"@ {
        Ok(ConfigV { engine: EngineV { user_agent: value, ..v.engine }, ..v })
    } else if key == "engine.enable_dht"@ {
        match spec_parse_bool(value) {
            Some(b) => Ok(ConfigV { engine: EngineV { enable_dht: b, ..v.engine }, ..v }),
            None => Err(ConfigError::InvalidValue),
        }
    } else if key == "engine.enable_pex"@ {
        match spec_parse_bool(value) {
            Some(b) => Ok(ConfigV { engine: EngineV { enable_pex: b, ..v.engine }, ..v }),
            None => Err(ConfigError::InvalidValue),
        }
    } else if key == "engine.enable_lpd"@ {
        match spec_parse_bool(value) {
            Some(b) => Ok(ConfigV { engine: EngineV { enable_lpd: b, ..v.engine }, ..v }),
            None => Err(ConfigError::InvalidValue),
        }
    } else if key == "engine.max_peers"@ {
        match spec_parse_usize(value) {
            Some(n) => Ok(ConfigV { engine: EngineV { max_peers: n, ..v.engine }, ..v }),
            None => Err(ConfigError::InvalidValue),
        }
    } else if key == "engine.seed_ratio"@ {
        match spec_parse_tenths(value) {
            Some(t) => Ok(ConfigV { engine: EngineV { seed_ratio_tenths: t, ..v.engine }, ..v }),
            None => Err(ConfigError::InvalidValue),
        }
    } else if key == "tui.refresh_rate_ms"@ {
        match parse_u64_chars(value) {
            Some(n) => Ok(ConfigV { tui: TuiV { refresh_rate_ms: n, ..v.tui }, ..v }),
            None => Err(ConfigError::InvalidValue),
        }
    } else if key == "tui.theme"@ {
        Ok(ConfigV { tui: TuiV { theme: value, ..v.tui }, ..v })
    } else if key == "tui.show_speed_graph"@ {
        match spec_parse_bool(value) {
            Some(b) => Ok(ConfigV { tui: TuiV { show_speed_graph: b, ..v.tui }, ..v }),
            None => Err(ConfigError::InvalidValue),
        }
    } else if key == "tui.show_peers"@ {
        match spec_parse_bool(value) {
            Some(b) => Ok(ConfigV { tui: TuiV { show_peers: b, ..v.tui }, ..v }),
            None => Err(ConfigError::InvalidValue),
        }
    } else {
        Err(ConfigError::UnknownKey)
    }
}

/// Set one configuration value by key; an unknown key or a value that
/// does not parse leaves the configuration unchanged.
#[verifier::rlimit(60)]
pub fn set_config_value(config: &mut CliConfig, key: &str, value: &str) -> (r: Result<
    (),
    ConfigError,
>)
    ensures
        r is Ok <==> spec_set_config(cfg_view(*old(config)), key@, value@) is Ok,
        r is Ok ==> cfg_view(*final(config)) == spec_set_config(
            cfg_view(*old(config)),
            key@,
            value@,
        )->Ok_0,
        r matches Err(e) ==> Err::<ConfigV, _>(e) == spec_set_config(
            cfg_view(*old(config)),
            key@,
            value@,
        ) && *final(config) == *old(config),
{
    let k = string_chars(key);
    let v = string_chars(value);
    if vec_eq_str(&k, "general.download_dir") {
        config.general.download_dir = value.to_owned();
        Ok(())
    } else if vec_eq_str(&k, "general.database_path") {
        config.general.database_path = value.to_owned();
        Ok(())
    } else if vec_eq_str(&k, "general.log_level") {
        config.general.log_level = value.to_owned();
        Ok(())
    } else if vec_eq_str(&k, "engine.max_concurrent_downloads") {
        match parse_usize_value(&v) {
            Ok(n) => {
                config.engine.max_concurrent_downloads = n;
                Ok(())
            },
            Err(_) => Err(ConfigError::InvalidValue),
        }
    } else if vec_eq_str(&k, "engine.max_connections_per_download") {
        match parse_usize_value(&v) {
            Ok(n) => {
                config.engine.max_connections_per_download = n;
                Ok(())
            },
            Err(_) => Err(ConfigError::InvalidValue),
        }
    } else if vec_eq_str(&k, "engine.global_download_limit") {
        match parse_limit(value, &v) {
            Ok(l) => {
                config.engine.global_download_limit = l;
                Ok(())
            },
            Err(_) => Err(ConfigError::InvalidValue),
        }
    } else if vec_eq_str(&k, "engine.global_upload_limit") {
        match parse_limit(value, &v) {
            Ok(l) => {
                config.engine.global_upload_limit = l;
                Ok(())
            },
            Err(_) => Err(ConfigError::InvalidValue),
        }
    } else if vec_eq_str(&k, "engine.user_agent") {
        config.engine.user_agent = value.to_owned();
        Ok(())
    } else if vec_eq_str(&k, "engine.enable_dht") {
        match parse_bool(&v) {
            Ok(b) => {
                config.engine.enable_dht = b;
                Ok(())
            },
            Err(_) => Err(ConfigError::InvalidValue),
        }
    } else if vec_eq_str(&k, "engine.enable_pex") {
        match parse_bool(&v) {
            Ok(b) => {
                config.engine.enable_pex = b;
                Ok(())
            },
            Err(_) => Err(ConfigError::InvalidValue),
        }
    } else if vec_eq_str(&k, "engine.enable_lpd") {
        match parse_bool(&v) {
            Ok(b) => {
                config.engine.enable_lpd = b;
                Ok(())
            },
            Err(_) => Err(ConfigError::InvalidValue),
        }
    } else if vec_eq_str(&k, "engine.max_peers") {
        match parse_usize_value(&v) {
            Ok(n) => {
                config.engine.max_peers = n;
                Ok(())
            },
            Err(_) => Err(ConfigError::InvalidValue),
        }
    } else if vec_eq_str(&k, "engine.seed_ratio") {
        match parse_tenths(value) {
            Ok(t) => {
                config.engine.seed_ratio_tenths = t;
                Ok(())
            },
            Err(_) => Err(ConfigError::InvalidValue),
        }
    } else if vec_eq_str(&k, "tui.refresh_rate_ms") {
        let n = v.len();
        proof {
            assert(v@.subrange(0, n as int) =~= v@);
        }
        match crate::util::parse_u64_in(&v, 0, n) {
            Ok(ms) => {
                config.tui.refresh_rate_ms = ms;
                Ok(())
            },
            Err(_) => Err(ConfigError::InvalidValue),
        }
    } else if vec_eq_str(&k, "tui.theme") {
        config.tui.theme = value.to_owned();
        Ok(())
    } else if vec_eq_str(&k, "tui.show_speed_graph") {
        match parse_bool(&v) {
            Ok(b) => {
                config.tui.show_speed_graph = b;
                Ok(())
            },
            Err(_) => Err(ConfigError::InvalidValue),
        }
    } else if vec_eq_str(&k, "tui.show_peers") {
        match parse_bool(&v) {
            Ok(b) => {
                config.tui.show_peers = b;
                Ok(())
            },
            Err(_) => Err(ConfigError::InvalidValue),
        }
    } else {
        Err(ConfigError::UnknownKey)
    }
}


/// Whether the settings row at this tab toggles a boolean.
pub open spec fn spec_is_settings_bool(tab: usize, row: usize) -> bool {
    if tab == 1 {
        row == 10
    } else if tab == 2 {
        row <= 4
    } else if tab == 3 {
        row == 2 || row == 3
    } else {
        false
    }
}

/// Whether a settings row holds a boolean value.
pub fn is_settings_bool(tab: usize, row: usize) -> (r: bool)
    ensures
        r == spec_is_settings_bool(tab, row),
{
    if tab == 1 {
        row == 10
    } else if tab == 2 {
        row <= 4
    } else if tab == 3 {
        row == 2 || row == 3
    } else {
        false
    }
}

/// The configuration after toggling the boolean at a settings row; rows
/// that hold no boolean change nothing.
pub open spec fn spec_toggle_settings(v: ConfigV, tab: usize, row: usize) -> ConfigV {
    if tab == 1 && row == 10 {
        ConfigV {
            engine: EngineV { accept_invalid_certs: !v.engine.accept_invalid_certs, ..v.engine },
            ..v
        }
    } else if tab == 2 && row == 0 {
        ConfigV { engine: EngineV { enable_dht: !v.engine.enable_dht, ..v.engine }, ..v }
    } else if tab == 2 && row == 1 {
        ConfigV { engine: EngineV { enable_pex: !v.engine.enable_pex, ..v.engine }, ..v }
    } else if tab == 2 && row == 2 {
        ConfigV { engine: EngineV { enable_lpd: !v.engine.enable_lpd, ..v.engine }, ..v }
    } else if tab == 3 && row == 2 {
        ConfigV { tui: TuiV { show_speed_graph: !v.tui.show_speed_graph, ..v.tui }, ..v }
    } else if tab == 3 && row == 3 {
        ConfigV { tui: TuiV { show_peers: !v.tui.show_peers, ..v.tui }, ..v }
    } else {
        v
    }
}

/// Toggle the boolean at a settings row.
pub fn toggle_settings_bool(draft: &mut CliConfig, tab: usize, row: usize)
    ensures
        cfg_view(*final(draft)) == spec_toggle_settings(cfg_view(*old(draft)), tab, row),
{
    if tab == 1 {
        if row == 10 {
            draft.engine.accept_invalid_certs = !draft.engine.accept_invalid_certs;
        }
    } else if tab == 2 {
        if row == 0 {
            draft.engine.enable_dht = !draft.engine.enable_dht;
        } else if row == 1 {
            draft.engine.enable_pex = !draft.engine.enable_pex;
        } else if row == 2 {
            draft.engine.enable_lpd = !draft.engine.enable_lpd;
        }
    } else if tab == 3 {
        if row == 2 {
            draft.tui.show_speed_graph = !draft.tui.show_speed_graph;
        } else if row == 3 {
            draft.tui.show_peers = !draft.tui.show_peers;
        }
    }
}

/// The `ON`/`OFF` rendering of a boolean settings row.
pub open spec fn spec_on_off(b: bool) -> Seq<char> {
    if b {
        "ON"@
    } else {
        "OFF"@
    }
}

/// The current text of a settings row.
pub open spec fn spec_settings_value(v: ConfigV, tab: usize, row: usize) -> Seq<char> {
    if tab == 0 {
        if row == 0 {
            v.general.download_dir
        } else if row == 1 {
            v.general.database_path
        } else if row == 2 {
            v.general.log_level
        } else {
            Seq::empty()
        }
    } else if tab == 1 {
        if row == 0 {
            decimal_digits(v.engine.max_concurrent_downloads as nat)
        } else if row == 1 {
            decimal_digits(v.engine.max_connections_per_download as nat)
        } else if row == 2 {
            decimal_digits(v.engine.min_segment_size as nat)
        } else if row == 3 {
            match v.engine.global_download_limit {
                Some(n) => decimal_digits(n as nat),
                None => Seq::empty(),
            }
        } else if row == 4 {
            match v.engine.global_upload_limit {
                Some(n) => decimal_digits(n as nat),
                None => Seq::empty(),
            }
        } else if row == 5 {
            v.engine.user_agent
        } else if row == 6 {
            match v.engine.proxy_url {
                Some(p) => p,
                None => Seq::empty(),
            }
        } else if row == 7 {
            decimal_digits(v.engine.connect_timeout as nat)
        } else if row == 8 {
            decimal_digits(v.engine.read_timeout as nat)
        } else if row == 9 {
            decimal_digits(v.engine.max_retries as nat)
        } else if row == 10 {
            spec_on_off(v.engine.accept_invalid_certs)
        } else {
            Seq::empty()
        }
    } else if tab == 2 {
        if row == 0 {
            spec_on_off(v.engine.enable_dht)
        } else if row == 1 {
            spec_on_off(v.engine.enable_pex)
        } else if row == 2 {
            spec_on_off(v.engine.enable_lpd)
        } else if row == 3 {
            decimal_digits(v.engine.max_peers as nat)
        } else if row == 4 {
            fixed1_chars(v.engine.seed_ratio_tenths as nat)
        } else {
            Seq::empty()
        }
    } else if tab == 3 {
        if row == 0 {
            decimal_digits(v.tui.refresh_rate_ms as nat)
        } else if row == 1 {
            v.tui.theme
        } else if row == 2 {
            spec_on_off(v.tui.show_speed_graph)
        } else if row == 3 {
            spec_on_off(v.tui.show_peers)
        } else {
            Seq::empty()
        }
    } else {
        Seq::empty()
    }
}

/// The `ON`/`OFF` rendering of a boolean settings row.
fn on_off(b: bool) -> (r: String)
    ensures
        r@ == spec_on_off(b),
{
    proof {
        reveal_strlit("ON");
        reveal_strlit("OFF");
    }
    if b {
        "ON".to_owned()
    } else {
        "OFF".to_owned()
    }
}

/// The current text of a settings row, as the dialog edits it.
#[verifier::rlimit(60)]
pub fn get_settings_value(draft: &CliConfig, tab: usize, row: usize) -> (r: String)
    ensures
        r@ == spec_settings_value(cfg_view(*draft), tab, row),
{
    if tab == 0 {
        if row == 0 {
            draft.general.download_dir.clone()
        } else if row == 1 {
            draft.general.database_path.clone()
        } else if row == 2 {
            draft.general.log_level.clone()
        } else {
            String::new()
        }
    } else if tab == 1 {
        if row == 0 {
            u64_to_string(draft.engine.max_concurrent_downloads as u64)
        } else if row == 1 {
            u64_to_string(draft.engine.max_connections_per_download as u64)
        } else if row == 2 {
            u64_to_string(draft.engine.min_segment_size)
        } else if row == 3 {
            match draft.engine.global_download_limit {
                Some(n) => u64_to_string(n),
                None => String::new(),
            }
        } else if row == 4 {
            match draft.engine.global_upload_limit {
                Some(n) => u64_to_string(n),
                None => String::new(),
            }
        } else if row == 5 {
            draft.engine.user_agent.clone()
        } else if row == 6 {
            match &draft.engine.proxy_url {
                Some(p) => p.clone(),
                None => String::new(),
            }
        } else if row == 7 {
            u64_to_string(draft.engine.connect_timeout)
        } else if row == 8 {
            u64_to_string(draft.engine.read_timeout)
        } else if row == 9 {
            u64_to_string(draft.engine.max_retries as u64)
        } else if row == 10 {
            on_off(draft.engine.accept_invalid_certs)
        } else {
            String::new()
        }
    } else if tab == 2 {
        if row == 0 {
            on_off(draft.engine.enable_dht)
        } else if row == 1 {
            on_off(draft.engine.enable_pex)
        } else if row == 2 {
            on_off(draft.engine.enable_lpd)
        } else if row == 3 {
            u64_to_string(draft.engine.max_peers as u64)
        } else if row == 4 {
            fixed1_string(draft.engine.seed_ratio_tenths)
        } else {
            String::new()
        }
    } else if tab == 3 {
        if row == 0 {
            u64_to_string(draft.tui.refresh_rate_ms)
        } else if row == 1 {
            draft.tui.theme.clone()
        } else if row == 2 {
            on_off(draft.tui.show_speed_graph)
        } else if row == 3 {
            on_off(draft.tui.show_peers)
        } else {
            String::new()
        }
    } else {
        String::new()
    }
}

/// The label of a settings row.
pub fn get_settings_label(tab: usize, row: usize) -> (r: &'static str)
    ensures
        tab == 0 && row == 0 ==> r@ == "Download Directory"@,
        tab == 1 && row == 0 ==> r@ == "Max Concurrent Downloads"@,
        tab == 2 && row == 4 ==> r@ == "Seed Ratio"@,
        tab == 4 ==> r@ == "Schedule Rules (read-only)"@,
{
    if tab == 0 {
        if row == 0 {
            "Download Directory"
        } else if row == 1 {
            "Database Path"
        } else if row == 2 {
            "Log Level"
        } else {
            ""
        }
    } else if tab == 1 {
        if row == 0 {
            "Max Concurrent Downloads"
        } else if row == 1 {
            "Max Connections/Download"
        } else if row == 2 {
            "Min Segment Size"
        } else if row == 3 {
            "Global Download Limit"
        } else if row == 4 {
            "Global Upload Limit"
        } else if row == 5 {
            "User Agent"
        } else if row == 6 {
            "Proxy URL"
        } else if row == 7 {
            "Connect Timeout (sec)"
        } else if row == 8 {
            "Read Timeout (sec)"
        } else if row == 9 {
            "Max Retries"
        } else if row == 10 {
            "Accept Invalid Certs"
        } else {
            ""
        }
    } else if tab == 2 {
        if row == 0 {
            "Enable DHT"
        } else if row == 1 {
            "Enable PEX"
        } else if row == 2 {
            "Enable LPD"
        } else if row == 3 {
            "Max Peers"
        } else if row == 4 {
            "Seed Ratio"
        } else {
            ""
        }
    } else if tab == 3 {
        if row == 0 {
            "Refresh Rate (ms)"
        } else if row == 1 {
            "Theme"
        } else if row == 2 {
            "Show Speed Graph"
        } else if row == 3 {
            "Show Peers"
        } else {
            ""
        }
    } else if tab == 4 {
        "Schedule Rules (read-only)"
    } else {
        ""
    }
}

/// How many rows each settings tab holds.
pub open spec fn spec_settings_row_count(tab: usize) -> usize {
    if tab == 0 {
        3
    } else if tab == 1 {
        11
    } else if tab == 2 {
        5
    } else if tab == 3 {
        4
    } else if tab == 4 {
        1
    } else {
        0
    }
}

/// How many rows a settings tab holds.
pub fn settings_row_count(tab: usize) -> (r: usize)
    ensures
        r == spec_settings_row_count(tab),
{
    if tab == 0 {
        3
    } else if tab == 1 {
        11
    } else if tab == 2 {
        5
    } else if tab == 3 {
        4
    } else if tab == 4 {
        1
    } else {
        0
    }
}

/// The settings tab names, in order.
pub fn settings_tab_names() -> (r: Vec<&'static str>)
    ensures
        r@.len() == 5,
        r@[0]@ == "General"@,
        r@[1]@ == "Network"@,
        r@[2]@ == "BitTorrent"@,
        r@[3]@ == "Interface"@,
        r@[4]@ == "Schedule"@,
{
    let mut r: Vec<&'static str> = Vec::new();
    r.push("General");
    r.push("Network");
    r.push("BitTorrent");
    r.push("Interface");
    r.push("Schedule");
    r
}

/// The configuration after applying an edited settings value; a value
/// that does not parse leaves the row unchanged.
pub open spec fn spec_apply_settings_edit(
    v: ConfigV,
    tab: usize,
    row: usize,
    val: Seq<char>,
) -> ConfigV {
    if tab == 0 {
        if row == 0 {
            ConfigV { general: GeneralV { download_dir: val, ..v.general }, ..v }
        } else if row == 1 {
            ConfigV { general: GeneralV { database_path: val, ..v.general }, ..v }
        } else if row == 2 {
            ConfigV { general: GeneralV { log_level: val, ..v.general }, ..v }
        } else {
            v
        }
    } else if tab == 1 {
        if row == 0 {
            match spec_parse_usize(val) {
                Some(n) => ConfigV {
                    engine: EngineV { max_concurrent_downloads: n, ..v.engine },
                    ..v
                },
                None => v,
            }
        } else if row == 1 {
            match spec_parse_usize(val) {
                Some(n) => ConfigV {
                    engine: EngineV { max_connections_per_download: n, ..v.engine },
                    ..v
                },
                None => v,
            }
        } else if row == 2 {
            match parse_u64_chars(val) {
                Some(n) => ConfigV { engine: EngineV { min_segment_size: n, ..v.engine }, ..v },
                None => v,
            }
        } else if row == 3 {
            ConfigV {
                engine: EngineV {
                    global_download_limit: spec_positive_limit(val),
                    ..v.engine
                },
                ..v
            }
        } else if row == 4 {
            ConfigV {
                engine: EngineV { global_upload_limit: spec_positive_limit(val), ..v.engine },
                ..v
            }
        } else if row == 5 {
            ConfigV { engine: EngineV { user_agent: val, ..v.engine }, ..v }
        } else if row == 6 {
            ConfigV {
                engine: EngineV {
                    proxy_url: if val.len() == 0 {
                        None
                    } else {
                        Some(val)
                    },
                    ..v.engine
                },
                ..v
            }
        } else if row == 7 {
            match parse_u64_chars(val) {
                Some(n) => ConfigV { engine: EngineV { connect_timeout: n, ..v.engine }, ..v },
                None => v,
            }
        } else if row == 8 {
            match parse_u64_chars(val) {
                Some(n) => ConfigV { engine: EngineV { read_timeout: n, ..v.engine }, ..v },
                None => v,
            }
        } else if row == 9 {
            match spec_parse_usize(val) {
                Some(n) => ConfigV { engine: EngineV { max_retries: n, ..v.engine }, ..v },
                None => v,
            }
        } else {
            v
        }
    } else if tab == 2 {
        if row == 3 {
            match spec_parse_usize(val) {
                Some(n) => ConfigV { engine: EngineV { max_peers: n, ..v.engine }, ..v },
                None => v,
            }
        } else if row == 4 {
            match spec_parse_tenths(val) {
                Some(t) => ConfigV { engine: EngineV { seed_ratio_tenths: t, ..v.engine }, ..v },
                None => v,
            }
        } else {
            v
        }
    } else if tab == 3 {
        if row == 0 {
            match parse_u64_chars(val) {
                Some(n) => ConfigV { tui: TuiV { refresh_rate_ms: n, ..v.tui }, ..v },
                None => v,
            }
        } else if row == 1 {
            ConfigV { tui: TuiV { theme: val, ..v.tui }, ..v }
        } else {
            v
        }
    } else {
        v
    }
}

/// A limit edited in the settings dialog: cleared by zero or by failing to
/// parse as a plain number.
pub open spec fn spec_positive_limit(val: Seq<char>) -> Option<u64> {
    match parse_u64_chars(val) {
        Some(n) => if n > 0 {
            Some(n)
        } else {
            None
        },
        None => None,
    }
}

/// Apply an edited settings value to the draft configuration.
#[verifier::rlimit(60)]
pub fn apply_settings_edit(draft: &mut CliConfig, tab: usize, row: usize, val: &str)
    ensures
        cfg_view(*final(draft)) == spec_apply_settings_edit(
            cfg_view(*old(draft)),
            tab,
            row,
            val@,
        ),
{
    let v = string_chars(val);
    let n = v.len();
    proof {
        assert(v@.subrange(0, n as int) =~= v@);
    }
    if tab == 0 {
        if row == 0 {
            draft.general.download_dir = val.to_owned();
        } else if row == 1 {
            draft.general.database_path = val.to_owned();
        } else if row == 2 {
            draft.general.log_level = val.to_owned();
        }
    } else if tab == 1 {
        if row == 0 {
            if let Ok(x) = parse_usize_value(&v) {
                draft.engine.max_concurrent_downloads = x;
            }
        } else if row == 1 {
            if let Ok(x) = parse_usize_value(&v) {
                draft.engine.max_connections_per_download = x;
            }
        } else if row == 2 {
            if let Ok(x) = crate::util::parse_u64_in(&v, 0, n) {
                draft.engine.min_segment_size = x;
            }
        } else if row == 3 {
            draft.engine.global_download_limit = match crate::util::parse_u64_in(&v, 0, n) {
                Ok(x) => if x > 0 {
                    Some(x)
                } else {
                    None
                },
                Err(_) => None,
            };
        } else if row == 4 {
            draft.engine.global_upload_limit = match crate::util::parse_u64_in(&v, 0, n) {
                Ok(x) => if x > 0 {
                    Some(x)
                } else {
                    None
                },
                Err(_) => None,
            };
        } else if row == 5 {
            draft.engine.user_agent = val.to_owned();
        } else if row == 6 {
            draft.engine.proxy_url = if v.len() == 0 {
                None
            } else {
                Some(val.to_owned())
            };
        } else if row == 7 {
            if let Ok(x) = crate::util::parse_u64_in(&v, 0, n) {
                draft.engine.connect_timeout = x;
            }
        } else if row == 8 {
            if let Ok(x) = crate::util::parse_u64_in(&v, 0, n) {
                draft.engine.read_timeout = x;
            }
        } else if row == 9 {
            if let Ok(x) = parse_usize_value(&v) {
                draft.engine.max_retries = x;
            }
        }
    } else if tab == 2 {
        if row == 3 {
            if let Ok(x) = parse_usize_value(&v) {
                draft.engine.max_peers = x;
            }
        } else if row == 4 {
            if let Ok(x) = parse_tenths(val) {
                draft.engine.seed_ratio_tenths = x;
            }
        }
    } else if tab == 3 {
        if row == 0 {
            if let Ok(x) = crate::util::parse_u64_in(&v, 0, n) {
                draft.tui.refresh_rate_ms = x;
            }
        } else if row == 1 {
            draft.tui.theme = val.to_owned();
        }
    }
}

} // verus!
