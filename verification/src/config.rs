//! The service configuration: plain settings with their defaults, the
//! pure part of startup validation, and the application of overrides.
//!
//! Reading a configuration file and the process environment is the
//! application shell's business; it hands the parsed file entries to
//! `merge_file` and the raw override strings to `apply_overrides`, which
//! apply them here, under contract.

use vstd::prelude::*;

use crate::errors::ValidationError;

verus! {

pub open spec fn is_ascii_digit_char(c: char) -> bool {
    48 <= c as u32 <= 57
}

pub open spec fn digit_val(c: char) -> nat {
    (c as u32 - 48) as nat
}

pub open spec fn all_digits(s: Seq<char>) -> bool {
    forall|i: int| 0 <= i < s.len() ==> is_ascii_digit_char(s[i])
}

/// The number a string of decimal digits denotes.
pub open spec fn digits_value(s: Seq<char>) -> nat
    decreases s.len(),
{
    if s.len() == 0 {
        0
    } else {
        digits_value(s.drop_last()) * 10 + digit_val(s.last())
    }
}

/// A digit string's value only grows as the string extends to the right.
proof fn lemma_digits_value_prefix_le(s: Seq<char>, i: int)
    requires
        0 <= i <= s.len(),
    ensures
        digits_value(s.subrange(0, i)) <= digits_value(s),
    decreases s.len() - i,
{
    if i < s.len() {
        assert(s.subrange(0, i + 1).drop_last() =~= s.subrange(0, i));
        assert(s.subrange(0, i + 1).last() == s[i]);
        assert(digits_value(s.subrange(0, i + 1)) == digits_value(s.subrange(0, i)) * 10
            + digit_val(s[i]));
        assert(digits_value(s.subrange(0, i)) * 10 >= digits_value(s.subrange(0, i)))
            by (nonlinear_arith);
        lemma_digits_value_prefix_le(s, i + 1);
    } else {
        assert(s.subrange(0, i) =~= s);
    }
}

/// What a decimal override string denotes: the value of an all-digit,
/// non-empty string that fits the width, and nothing otherwise.
pub open spec fn parsed_u64(s: Seq<char>) -> Option<u64> {
    if s.len() > 0 && all_digits(s) && digits_value(s) <= u64::MAX {
        Some(digits_value(s) as u64)
    } else {
        None
    }
}

/// Parses a non-empty string of decimal digits; rejects anything else,
/// including values that overflow.
pub fn parse_u64(s: &str) -> (r: Option<u64>)
    ensures
        r == parsed_u64(s@),
{
    let n = s.unicode_len();
    if n == 0 {
        return None;
    }
    let mut acc: u64 = 0;
    let mut i: usize = 0;
    while i < n
        invariant
            n == s@.len(),
            i <= n,
            all_digits(s@.subrange(0, i as int)),
            acc == digits_value(s@.subrange(0, i as int)),
        decreases n - i,
    {
        let c = s.get_char(i);
        let cu = c as u32;
        if cu < 48 || cu > 57 {
            assert(!is_ascii_digit_char(s@[i as int]));
            return None;
        }
        let d = (cu - 48) as u64;
        proof {
            assert(s@.subrange(0, i + 1).drop_last() =~= s@.subrange(0, i as int));
            assert(s@.subrange(0, i + 1).last() == s@[i as int]);
        }
        if acc > (u64::MAX - d) / 10 {
            proof {
                assert(acc * 10 + d > u64::MAX) by (nonlinear_arith)
                    requires
                        acc > (u64::MAX - d) / 10,
                        d <= 9,
                ;
                lemma_digits_value_prefix_le(s@, i + 1);
            }
            return None;
        }
        acc = acc * 10 + d;
        i = i + 1;
    }
    proof {
        assert(s@.subrange(0, n as int) =~= s@);
    }
    Some(acc)
}

/// Listener settings.
#[derive(Clone, Debug, PartialEq, Eq)]
pub struct ServerSection {
    pub host: String,
    pub port: u16,
    pub max_connections: u32,
    pub backlog: u32,
    pub max_open_files: u32,
    pub timeouts: TimeoutConfig,
    pub limits: LimitConfig,
}

/// Timeouts, in seconds.
#[derive(Clone, Copy, Debug, PartialEq, Eq, Structural)]
pub struct TimeoutConfig {
    pub read_timeout_secs: u64,
    pub write_timeout_secs: u64,
    pub analysis_timeout_secs: u64,
    pub keepalive_secs: u64,
}

/// Transport-level size limits.
#[derive(Clone, Copy, Debug, PartialEq, Eq, Structural)]
pub struct LimitConfig {
    pub max_body_size_mb: u64,
    pub max_uri_length: usize,
    pub max_header_size: usize,
}

/// Ingestion settings: the spill threshold, the spill directory, and the
/// free-space floor.
#[derive(Clone, Debug, PartialEq, Eq)]
pub struct AnalysisConfig {
    pub large_file_threshold_mb: usize,
    pub write_buffer_size_kb: usize,
    pub temp_dir: String,
    pub min_free_space_mb: u64,
    pub temp_file_max_age_secs: u64,
    pub mmap_fallback_enabled: bool,
}

/// The sandbox root.
#[derive(Clone, Debug, PartialEq, Eq)]
pub struct SandboxConfig {
    pub base_dir: String,
}

/// The expected credentials.
#[derive(Clone, Debug, PartialEq, Eq)]
pub struct AuthConfig {
    pub username: String,
    pub password: String,
}

/// The engine's signature database.
#[derive(Clone, Debug, PartialEq, Eq)]
pub struct MagicConfig {
    pub database_path: Option<String>,
}

/// Log level and format.
#[derive(Clone, Debug, PartialEq, Eq)]
pub struct LoggingConfig {
    pub level: String,
    pub format: String,
}

/// The whole configuration.
#[derive(Clone, Debug, PartialEq, Eq)]
pub struct ServerConfig {
    pub server: ServerSection,
    pub analysis: AnalysisConfig,
    pub sandbox: SandboxConfig,
    pub auth: AuthConfig,
    pub magic: MagicConfig,
    pub logging: LoggingConfig,
}

impl Default for TimeoutConfig {
    fn default() -> (r: Self)
        ensures
            r.read_timeout_secs == 60,
            r.write_timeout_secs == 60,
            r.analysis_timeout_secs == 30,
            r.keepalive_secs == 75,
    {
        TimeoutConfig {
            read_timeout_secs: 60,
            write_timeout_secs: 60,
            analysis_timeout_secs: 30,
            keepalive_secs: 75,
        }
    }
}

impl Default for LimitConfig {
    fn default() -> (r: Self)
        ensures
            r.max_body_size_mb == 100,
            r.max_uri_length == 8192,
            r.max_header_size == 16384,
    {
        LimitConfig { max_body_size_mb: 100, max_uri_length: 8192, max_header_size: 16384 }
    }
}

impl Default for ServerSection {
    fn default() -> (r: Self)
        ensures
            r.host@ == "127.0.0.1"@,
            r.port == 8080,
            r.max_connections == 1000,
            r.backlog == 1024,
            r.max_open_files == 4096,
            r.timeouts.analysis_timeout_secs == 30,
            r.timeouts.read_timeout_secs == 60,
            r.timeouts.write_timeout_secs == 60,
            r.timeouts.keepalive_secs == 75,
            r.limits.max_body_size_mb == 100,
            r.limits.max_uri_length == 8192,
            r.limits.max_header_size == 16384,
    {
        ServerSection {
            host: String::from_str("127.0.0.1"),
            port: 8080,
            max_connections: 1000,
            backlog: 1024,
            max_open_files: 4096,
            timeouts: TimeoutConfig::default(),
            limits: LimitConfig::default(),
        }
    }
}

impl Default for AnalysisConfig {
    fn default() -> (r: Self)
        ensures
            r.large_file_threshold_mb == 10,
            r.write_buffer_size_kb == 64,
            r.temp_dir@ == "/tmp/magicer"@,
            r.min_free_space_mb == 1024,
            r.temp_file_max_age_secs == 3600,
            r.mmap_fallback_enabled,
    {
        AnalysisConfig {
            large_file_threshold_mb: 10,
            write_buffer_size_kb: 64,
            temp_dir: String::from_str("/tmp/magicer"),
            min_free_space_mb: 1024,
            temp_file_max_age_secs: 3600,
            mmap_fallback_enabled: true,
        }
    }
}

impl Default for SandboxConfig {
    fn default() -> (r: Self)
        ensures
            r.base_dir@ == "/tmp/magicer/files"@,
    {
        SandboxConfig { base_dir: String::from_str("/tmp/magicer/files") }
    }
}

impl Default for AuthConfig {
    fn default() -> (r: Self)
        ensures
            r.username@ == Seq::<char>::empty(),
            r.password@ == Seq::<char>::empty(),
    {
        AuthConfig { username: String::new(), password: String::new() }
    }
}

impl Default for MagicConfig {
    fn default() -> (r: Self)
        ensures
            r.database_path is None,
    {
        MagicConfig { database_path: None }
    }
}

impl Default for LoggingConfig {
    fn default() -> (r: Self)
        ensures
            r.level@ == "info"@,
            r.format@ == "json"@,
    {
        LoggingConfig { level: String::from_str("info"), format: String::from_str("json") }
    }
}

impl Default for ServerConfig {
    fn default() -> (r: Self)
        ensures
            r.server.host@ == "127.0.0.1"@,
            r.server.port == 8080,
            r.server.timeouts.analysis_timeout_secs == 30,
            r.analysis.large_file_threshold_mb == 10,
            r.analysis.write_buffer_size_kb == 64,
            r.analysis.temp_dir@ == "/tmp/magicer"@,
            r.analysis.min_free_space_mb == 1024,
            r.analysis.mmap_fallback_enabled,
            r.sandbox.base_dir@ == "/tmp/magicer/files"@,
            r.auth.username@ == Seq::<char>::empty(),
            r.auth.password@ == Seq::<char>::empty(),
            r.magic.database_path is None,
            r.logging.level@ == "info"@,
            r.logging.format@ == "json"@,
    {
        ServerConfig {
            server: ServerSection::default(),
            analysis: AnalysisConfig::default(),
            sandbox: SandboxConfig::default(),
            auth: AuthConfig::default(),
            magic: MagicConfig::default(),
            logging: LoggingConfig::default(),
        }
    }
}

/// The listener settings a configuration file may carry, each optional.
pub struct ServerFileSettings {
    pub host: Option<String>,
    pub port: Option<u16>,
    pub max_connections: Option<u32>,
    pub backlog: Option<u32>,
    pub max_open_files: Option<u32>,
    pub read_timeout_secs: Option<u64>,
    pub write_timeout_secs: Option<u64>,
    pub analysis_timeout_secs: Option<u64>,
    pub keepalive_secs: Option<u64>,
    pub max_body_size_mb: Option<u64>,
    pub max_uri_length: Option<usize>,
    pub max_header_size: Option<usize>,
}

/// The ingestion settings a configuration file may carry, each optional.
pub struct AnalysisFileSettings {
    pub large_file_threshold_mb: Option<usize>,
    pub write_buffer_size_kb: Option<usize>,
    pub temp_dir: Option<String>,
    pub min_free_space_mb: Option<u64>,
    pub temp_file_max_age_secs: Option<u64>,
    pub mmap_fallback_enabled: Option<bool>,
}

/// The settings a configuration file may carry, each optional; an absent
/// entry leaves the default untouched. The application shell parses the
/// file and hands the values here.
pub struct FileSettings {
    pub server: ServerFileSettings,
    pub analysis: AnalysisFileSettings,
    pub sandbox_base_dir: Option<String>,
    pub auth_username: Option<String>,
    pub auth_password: Option<String>,
    pub magic_database_path: Option<String>,
    pub logging_level: Option<String>,
    pub logging_format: Option<String>,
}

/// What applying the file's listener settings means: each present entry
/// replaces its setting, each absent one keeps it.
pub open spec fn server_merged(
    before: ServerSection,
    o: ServerFileSettings,
    after: ServerSection,
) -> bool {
    &&& after.host@ == match o.host {
        Some(v) => v@,
        None => before.host@,
    }
    &&& after.port == match o.port {
        Some(v) => v,
        None => before.port,
    }
    &&& after.max_connections == match o.max_connections {
        Some(v) => v,
        None => before.max_connections,
    }
    &&& after.backlog == match o.backlog {
        Some(v) => v,
        None => before.backlog,
    }
    &&& after.max_open_files == match o.max_open_files {
        Some(v) => v,
        None => before.max_open_files,
    }
    &&& after.timeouts.read_timeout_secs == match o.read_timeout_secs {
        Some(v) => v,
        None => before.timeouts.read_timeout_secs,
    }
    &&& after.timeouts.write_timeout_secs == match o.write_timeout_secs {
        Some(v) => v,
        None => before.timeouts.write_timeout_secs,
    }
    &&& after.timeouts.analysis_timeout_secs == match o.analysis_timeout_secs {
        Some(v) => v,
        None => before.timeouts.analysis_timeout_secs,
    }
    &&& after.timeouts.keepalive_secs == match o.keepalive_secs {
        Some(v) => v,
        None => before.timeouts.keepalive_secs,
    }
    &&& after.limits.max_body_size_mb == match o.max_body_size_mb {
        Some(v) => v,
        None => before.limits.max_body_size_mb,
    }
    &&& after.limits.max_uri_length == match o.max_uri_length {
        Some(v) => v,
        None => before.limits.max_uri_length,
    }
    &&& after.limits.max_header_size == match o.max_header_size {
        Some(v) => v,
        None => before.limits.max_header_size,
    }
}

/// What applying the file's ingestion settings means.
pub open spec fn analysis_merged(
    before: AnalysisConfig,
    o: AnalysisFileSettings,
    after: AnalysisConfig,
) -> bool {
    &&& after.large_file_threshold_mb == match o.large_file_threshold_mb {
        Some(v) => v,
        None => before.large_file_threshold_mb,
    }
    &&& after.write_buffer_size_kb == match o.write_buffer_size_kb {
        Some(v) => v,
        None => before.write_buffer_size_kb,
    }
    &&& after.temp_dir@ == match o.temp_dir {
        Some(v) => v@,
        None => before.temp_dir@,
    }
    &&& after.min_free_space_mb == match o.min_free_space_mb {
        Some(v) => v,
        None => before.min_free_space_mb,
    }
    &&& after.temp_file_max_age_secs == match o.temp_file_max_age_secs {
        Some(v) => v,
        None => before.temp_file_max_age_secs,
    }
    &&& after.mmap_fallback_enabled == match o.mmap_fallback_enabled {
        Some(v) => v,
        None => before.mmap_fallback_enabled,
    }
}

impl ServerSection {
    /// Applies the file's listener settings onto this section.
    pub fn merge_file(&mut self, o: ServerFileSettings)
        ensures
            server_merged(*old(self), o, *final(self)),
    {
        if let Some(v) = o.host {
            self.host = v;
        }
        if let Some(v) = o.port {
            self.port = v;
        }
        if let Some(v) = o.max_connections {
            self.max_connections = v;
        }
        if let Some(v) = o.backlog {
            self.backlog = v;
        }
        if let Some(v) = o.max_open_files {
            self.max_open_files = v;
        }
        if let Some(v) = o.read_timeout_secs {
            self.timeouts.read_timeout_secs = v;
        }
        if let Some(v) = o.write_timeout_secs {
            self.timeouts.write_timeout_secs = v;
        }
        if let Some(v) = o.analysis_timeout_secs {
            self.timeouts.analysis_timeout_secs = v;
        }
        if let Some(v) = o.keepalive_secs {
            self.timeouts.keepalive_secs = v;
        }
        if let Some(v) = o.max_body_size_mb {
            self.limits.max_body_size_mb = v;
        }
        if let Some(v) = o.max_uri_length {
            self.limits.max_uri_length = v;
        }
        if let Some(v) = o.max_header_size {
            self.limits.max_header_size = v;
        }
    }
}

impl AnalysisConfig {
    /// Applies the file's ingestion settings onto this section.
    pub fn merge_file(&mut self, o: AnalysisFileSettings)
        ensures
            analysis_merged(*old(self), o, *final(self)),
    {
        if let Some(v) = o.large_file_threshold_mb {
            self.large_file_threshold_mb = v;
        }
        if let Some(v) = o.write_buffer_size_kb {
            self.write_buffer_size_kb = v;
        }
        if let Some(v) = o.temp_dir {
            self.temp_dir = v;
        }
        if let Some(v) = o.min_free_space_mb {
            self.min_free_space_mb = v;
        }
        if let Some(v) = o.temp_file_max_age_secs {
            self.temp_file_max_age_secs = v;
        }
        if let Some(v) = o.mmap_fallback_enabled {
            self.mmap_fallback_enabled = v;
        }
    }
}

/// The raw override strings the application shell gathered from the
/// process environment; absent entries leave the setting untouched.
pub struct ConfigOverrides {
    pub host: Option<String>,
    pub port: Option<String>,
    pub auth_username: Option<String>,
    pub auth_password: Option<String>,
    pub sandbox_dir: Option<String>,
    pub large_file_threshold_mb: Option<String>,
    pub log_level: Option<String>,
}

impl ServerConfig {
    /// The pure part of startup validation: the port must be non-zero
    /// and the host non-empty. That the sandbox and spill directories
    /// exist is established by the application shell, which creates them.
    pub fn validate(&self) -> (r: Result<(), ValidationError>)
        ensures
            self.server.port == 0 ==> r == Err::<(), ValidationError>(ValidationError::InvalidPath),
            self.server.port != 0 && self.server.host@.len() == 0 ==> r == Err::<
                (),
                ValidationError,
            >(ValidationError::EmptyValue),
            self.server.port != 0 && self.server.host@.len() > 0 ==> r == Ok::<
                (),
                ValidationError,
            >(()),
    {
        if self.server.port == 0 {
            return Err(ValidationError::InvalidPath);
        }
        if self.server.host.as_str().unicode_len() == 0 {
            return Err(ValidationError::EmptyValue);
        }
        Ok(())
    }

    /// Applies the settings of a parsed configuration file onto the
    /// defaults: a present entry replaces its setting, an absent one
    /// leaves it alone.
    pub fn merge_file(&mut self, o: FileSettings)
        ensures
            server_merged(old(self).server, o.server, final(self).server),
            analysis_merged(old(self).analysis, o.analysis, final(self).analysis),
            final(self).sandbox.base_dir@ == match o.sandbox_base_dir {
                Some(v) => v@,
                None => old(self).sandbox.base_dir@,
            },
            final(self).auth.username@ == match o.auth_username {
                Some(v) => v@,
                None => old(self).auth.username@,
            },
            final(self).auth.password@ == match o.auth_password {
                Some(v) => v@,
                None => old(self).auth.password@,
            },
            final(self).magic.database_path == match o.magic_database_path {
                Some(v) => Some(v),
                None => old(self).magic.database_path,
            },
            final(self).logging.level@ == match o.logging_level {
                Some(v) => v@,
                None => old(self).logging.level@,
            },
            final(self).logging.format@ == match o.logging_format {
                Some(v) => v@,
                None => old(self).logging.format@,
            },
    {
        self.server.merge_file(o.server);
        self.analysis.merge_file(o.analysis);
        if let Some(v) = o.sandbox_base_dir {
            self.sandbox.base_dir = v;
        }
        if let Some(v) = o.auth_username {
            self.auth.username = v;
        }
        if let Some(v) = o.auth_password {
            self.auth.password = v;
        }
        if let Some(v) = o.magic_database_path {
            self.magic.database_path = Some(v);
        }
        if let Some(v) = o.logging_level {
            self.logging.level = v;
        }
        if let Some(v) = o.logging_format {
            self.logging.format = v;
        }
    }

    /// Applies the gathered overrides: strings replace their settings
    /// outright; numeric settings change only when the override parses
    /// and fits, and keep their old value otherwise.
    pub fn apply_overrides(&mut self, o: ConfigOverrides)
        ensures
            final(self).server.host@ == match o.host {
                Some(h) => h@,
                None => old(self).server.host@,
            },
            final(self).server.port == match o.port {
                Some(p) => match parsed_u64(p@) {
                    Some(v) => if v <= u16::MAX as u64 {
                        v as u16
                    } else {
                        old(self).server.port
                    },
                    None => old(self).server.port,
                },
                None => old(self).server.port,
            },
            final(self).auth.username@ == match o.auth_username {
                Some(u) => u@,
                None => old(self).auth.username@,
            },
            final(self).auth.password@ == match o.auth_password {
                Some(p) => p@,
                None => old(self).auth.password@,
            },
            final(self).sandbox.base_dir@ == match o.sandbox_dir {
                Some(d) => d@,
                None => old(self).sandbox.base_dir@,
            },
            final(self).analysis.large_file_threshold_mb == match o.large_file_threshold_mb {
                Some(t) => match parsed_u64(t@) {
                    Some(v) => if v <= usize::MAX as u64 {
                        v as usize
                    } else {
                        old(self).analysis.large_file_threshold_mb
                    },
                    None => old(self).analysis.large_file_threshold_mb,
                },
                None => old(self).analysis.large_file_threshold_mb,
            },
            final(self).logging.level@ == match o.log_level {
                Some(l) => l@,
                None => old(self).logging.level@,
            },
            final(self).server.max_connections == old(self).server.max_connections,
            final(self).server.backlog == old(self).server.backlog,
            final(self).server.max_open_files == old(self).server.max_open_files,
            final(self).server.timeouts == old(self).server.timeouts,
            final(self).server.limits == old(self).server.limits,
            final(self).analysis.write_buffer_size_kb == old(self).analysis.write_buffer_size_kb,
            final(self).analysis.temp_dir@ == old(self).analysis.temp_dir@,
            final(self).analysis.min_free_space_mb == old(self).analysis.min_free_space_mb,
            final(self).analysis.temp_file_max_age_secs == old(
                self,
            ).analysis.temp_file_max_age_secs,
            final(self).analysis.mmap_fallback_enabled == old(self).analysis.mmap_fallback_enabled,
            final(self).magic == old(self).magic,
            final(self).logging.format@ == old(self).logging.format@,
    {
        if let Some(h) = o.host {
            self.server.host = h;
        }
        if let Some(p) = o.port {
            if let Some(v) = parse_u64(p.as_str()) {
                if v <= 65535 {
                    self.server.port = v as u16;
                }
            }
        }
        if let Some(u) = o.auth_username {
            self.auth.username = u;
        }
        if let Some(p) = o.auth_password {
            self.auth.password = p;
        }
        if let Some(d) = o.sandbox_dir {
            self.sandbox.base_dir = d;
        }
        if let Some(t) = o.large_file_threshold_mb {
            if let Some(v) = parse_u64(t.as_str()) {
                if v <= usize::MAX as u64 {
                    self.analysis.large_file_threshold_mb = v as usize;
                }
            }
        }
        if let Some(l) = o.log_level {
            self.logging.level = l;
        }
    }
}

impl AnalysisConfig {
    /// The spill threshold in bytes; saturates rather than overflows on
    /// an absurd megabyte setting.
    pub fn threshold_bytes(&self) -> (r: usize)
        ensures
            r as nat == if self.large_file_threshold_mb * 1024 * 1024 <= usize::MAX as nat {
                (self.large_file_threshold_mb * 1024 * 1024) as nat
            } else {
                usize::MAX as nat
            },
    {
        match self.large_file_threshold_mb.checked_mul(1024 * 1024) {
            Some(v) => v,
            None => usize::MAX,
        }
    }
}

} // verus!
