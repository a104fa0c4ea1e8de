//! Service configuration: its sections, their defaults, and the bounds that
//! a loaded configuration is brought within.
use vstd::prelude::*;

verus! {

broadcast use vstd::string::group_string_axioms;

/// The whole configuration file.
#[derive(Debug, Clone)]
pub struct AppConfig {
    pub server: ServerConfig,
    pub database: DatabaseConfig,
    pub assets: AssetsConfig,
    pub history: HistoryConfig,
    pub probe: ProbeConfig,
    pub scheduler: SchedulerConfig,
    pub http_client: HttpClientConfig,
    pub log: LogConfig,
    pub feishu: FeishuConfig,
    pub pushplus: PushplusConfig,
    pub alive_ping: AlivePingConfig,
}

/// Feishu (Lark) robot webhook alerts.
#[derive(Debug, Clone)]
pub struct FeishuConfig {
    pub webhook_url: String,
    pub enabled: bool,
    pub alert_cooldown_secs: i64,
}

/// PushPlus alerts.
#[derive(Debug, Clone)]
pub struct PushplusConfig {
    pub token: String,
    pub enabled: bool,
    pub alert_cooldown_secs: i64,
}

/// Where the HTTP server listens.
#[derive(Debug, Clone)]
pub struct ServerConfig {
    pub host: String,
    pub port: u16,
}

/// Where the SQLite database lives.
#[derive(Debug, Clone)]
pub struct DatabaseConfig {
    pub path: String,
}

/// Where the static assets of the web interface live.
#[derive(Debug, Clone)]
pub struct AssetsConfig {
    pub dir: String,
}

/// How long check history is kept.
#[derive(Debug, Clone)]
pub struct HistoryConfig {
    pub retention_days: u64,
    pub max_per_check: u64,
    pub cleanup_interval_secs: u64,
}

/// How much of a response body a probe keeps.
#[derive(Debug, Clone)]
pub struct ProbeConfig {
    pub capture_max_bytes: usize,
}

/// How often the scheduler wakes.
#[derive(Debug, Clone)]
pub struct SchedulerConfig {
    pub tick_secs: u64,
}

/// Timeout of outgoing HTTP requests.
#[derive(Debug, Clone)]
pub struct HttpClientConfig {
    pub timeout_secs: u64,
}

/// Log level filter.
#[derive(Debug, Clone)]
pub struct LogConfig {
    pub level: String,
}

/// A time of day, as seconds since midnight and a fraction in nanoseconds
/// (a leap second has a fraction of one second or more).
#[derive(Debug, Clone, Copy, PartialEq, Eq, Structural)]
pub struct TimeOfDay {
    pub secs: u32,
    pub nanos: u32,
}

/// The daily "still alive" message.
#[derive(Debug, Clone)]
pub struct AlivePingConfig {
    pub enabled: bool,
    pub send_time: TimeOfDay,
    pub title: String,
    pub message: String,
}

impl Default for AppConfig {
    fn default() -> (r: Self)
        ensures
            r.server.host@ == "0.0.0.0"@ && r.server.port == 8080,
            r.database.path@ == "data/health.db"@,
            r.assets.dir@ == "assets"@,
            r.history.retention_days == 30 && r.history.max_per_check == 1000
                && r.history.cleanup_interval_secs == 3600,
            r.probe.capture_max_bytes == 8192,
            r.scheduler.tick_secs == 5,
            r.http_client.timeout_secs == 15,
            r.log.level@ == "info"@,
            r.feishu.webhook_url@ == Seq::<char>::empty() && !r.feishu.enabled
                && r.feishu.alert_cooldown_secs == 300,
            r.pushplus.token@ == Seq::<char>::empty() && !r.pushplus.enabled
                && r.pushplus.alert_cooldown_secs == 300,
            !r.alive_ping.enabled && r.alive_ping.send_time == (TimeOfDay { secs: 32400, nanos: 0 }),
            r.alive_ping.title@ == "Are You Healthy"@,
            r.alive_ping.message@ == "服务运行正常"@,
    {
        AppConfig {
            server: ServerConfig::default(),
            database: DatabaseConfig::default(),
            assets: AssetsConfig::default(),
            history: HistoryConfig::default(),
            probe: ProbeConfig::default(),
            scheduler: SchedulerConfig::default(),
            http_client: HttpClientConfig::default(),
            log: LogConfig::default(),
            feishu: FeishuConfig::default(),
            pushplus: PushplusConfig::default(),
            alive_ping: AlivePingConfig::default(),
        }
    }
}

impl Default for ServerConfig {
    fn default() -> (r: Self)
        ensures
            r.host@ == "0.0.0.0"@,
            r.port == 8080,
    {
        ServerConfig { host: "0.0.0.0".to_owned(), port: 8080 }
    }
}

impl Default for DatabaseConfig {
    fn default() -> (r: Self)
        ensures
            r.path@ == "data/health.db"@,
    {
        DatabaseConfig { path: "data/health.db".to_owned() }
    }
}

impl Default for AssetsConfig {
    fn default() -> (r: Self)
        ensures
            r.dir@ == "assets"@,
    {
        AssetsConfig { dir: "assets".to_owned() }
    }
}

impl Default for HistoryConfig {
    fn default() -> (r: Self)
        ensures
            r.retention_days == 30,
            r.max_per_check == 1000,
            r.cleanup_interval_secs == 3600,
    {
        HistoryConfig { retention_days: 30, max_per_check: 1000, cleanup_interval_secs: 3600 }
    }
}

impl Default for ProbeConfig {
    fn default() -> (r: Self)
        ensures
            r.capture_max_bytes == 8192,
    {
        ProbeConfig { capture_max_bytes: 8192 }
    }
}

impl Default for SchedulerConfig {
    fn default() -> (r: Self)
        ensures
            r.tick_secs == 5,
    {
        SchedulerConfig { tick_secs: 5 }
    }
}

impl Default for HttpClientConfig {
    fn default() -> (r: Self)
        ensures
            r.timeout_secs == 15,
    {
        HttpClientConfig { timeout_secs: 15 }
    }
}

impl Default for LogConfig {
    fn default() -> (r: Self)
        ensures
            r.level@ == "info"@,
    {
        LogConfig { level: "info".to_owned() }
    }
}

impl Default for FeishuConfig {
    fn default() -> (r: Self)
        ensures
            r.webhook_url@ == Seq::<char>::empty(),
            !r.enabled,
            r.alert_cooldown_secs == 300,
    {
        FeishuConfig { webhook_url: String::new(), enabled: false, alert_cooldown_secs: 300 }
    }
}

impl Default for PushplusConfig {
    fn default() -> (r: Self)
        ensures
            r.token@ == Seq::<char>::empty(),
            !r.enabled,
            r.alert_cooldown_secs == 300,
    {
        PushplusConfig { token: String::new(), enabled: false, alert_cooldown_secs: 300 }
    }
}

impl Default for AlivePingConfig {
    fn default() -> (r: Self)
        ensures
            !r.enabled,
            r.send_time == (TimeOfDay { secs: 32400, nanos: 0 }),
            r.title@ == "Are You Healthy"@,
            r.message@ == "服务运行正常"@,
    {
        AlivePingConfig {
            enabled: false,
            send_time: TimeOfDay { secs: 32400, nanos: 0 },
            title: "Are You Healthy".to_owned(),
            message: "服务运行正常".to_owned(),
        }
    }
}

/// Smallest and largest number of body bytes a probe keeps.
pub open spec fn capture_floor() -> int {
    256
}

/// Largest number of body bytes a probe keeps (1 MiB).
pub open spec fn capture_ceiling() -> int {
    1048576
}

/// `v` brought within `[lo, hi]`.
pub open spec fn clamp_int(v: int, lo: int, hi: int) -> int {
    if v < lo {
        lo
    } else if v > hi {
        hi
    } else {
        v
    }
}

/// `v`, raised to `lo` when below it.
pub open spec fn at_least(v: int, lo: int) -> int {
    if v < lo {
        lo
    } else {
        v
    }
}

/// What normalizing does to a configuration: every bounded setting is
/// brought within its bounds, everything else is kept.
pub open spec fn normalized_from(old: AppConfig, new: AppConfig) -> bool {
    &&& new.probe.capture_max_bytes == clamp_int(
        old.probe.capture_max_bytes as int,
        capture_floor(),
        capture_ceiling(),
    )
    &&& new.scheduler.tick_secs == at_least(old.scheduler.tick_secs as int, 1)
    &&& new.history.cleanup_interval_secs == at_least(old.history.cleanup_interval_secs as int, 60)
    &&& new.http_client.timeout_secs == at_least(old.http_client.timeout_secs as int, 1)
    &&& new.feishu.alert_cooldown_secs == at_least(old.feishu.alert_cooldown_secs as int, 60)
    &&& new.pushplus.alert_cooldown_secs == at_least(old.pushplus.alert_cooldown_secs as int, 60)
    &&& new.server == old.server
    &&& new.database == old.database
    &&& new.assets == old.assets
    &&& new.history.retention_days == old.history.retention_days
    &&& new.history.max_per_check == old.history.max_per_check
    &&& new.log == old.log
    &&& new.feishu.webhook_url == old.feishu.webhook_url
    &&& new.feishu.enabled == old.feishu.enabled
    &&& new.pushplus.token == old.pushplus.token
    &&& new.pushplus.enabled == old.pushplus.enabled
    &&& new.alive_ping == old.alive_ping
}

/// True when every bounded setting lies within its bounds.
pub open spec fn within_bounds(c: AppConfig) -> bool {
    &&& capture_floor() <= c.probe.capture_max_bytes <= capture_ceiling()
    &&& c.scheduler.tick_secs >= 1
    &&& c.history.cleanup_interval_secs >= 60
    &&& c.http_client.timeout_secs >= 1
    &&& c.feishu.alert_cooldown_secs >= 60
    &&& c.pushplus.alert_cooldown_secs >= 60
}

impl AppConfig {
    /// Brings every bounded setting within its bounds: the body capture
    /// between 256 bytes and 1 MiB, the scheduler tick and the HTTP timeout at
    /// least one second, the history cleanup interval and both alert
    /// cooldowns at least 60 seconds.
    pub fn normalized(self) -> (r: Self)
        ensures
            normalized_from(self, r),
    {
        let mut cfg = self;
        if cfg.probe.capture_max_bytes < 256 {
            cfg.probe.capture_max_bytes = 256;
        } else if cfg.probe.capture_max_bytes > 1048576 {
            cfg.probe.capture_max_bytes = 1048576;
        }
        if cfg.scheduler.tick_secs < 1 {
            cfg.scheduler.tick_secs = 1;
        }
        if cfg.history.cleanup_interval_secs < 60 {
            cfg.history.cleanup_interval_secs = 60;
        }
        if cfg.http_client.timeout_secs < 1 {
            cfg.http_client.timeout_secs = 1;
        }
        if cfg.feishu.alert_cooldown_secs < 60 {
            cfg.feishu.alert_cooldown_secs = 60;
        }
        if cfg.pushplus.alert_cooldown_secs < 60 {
            cfg.pushplus.alert_cooldown_secs = 60;
        }
        cfg
    }

    /// The path of the SQLite database, as configured.
    pub fn database_path(&self) -> (r: String)
        ensures
            r@ == self.database.path@,
    {
        self.database.path.clone()
    }

    /// The directory of the static assets, as configured.
    pub fn assets_dir(&self) -> (r: String)
        ensures
            r@ == self.assets.dir@,
    {
        self.assets.dir.clone()
    }
}

/// Where the configuration file is looked for by default.
pub fn default_config_path() -> (r: String)
    ensures
        r@ == "config.toml"@,
{
    "config.toml".to_owned()
}

/// A normalized configuration lies within its bounds.
pub proof fn lemma_normalized_within_bounds(old: AppConfig, new: AppConfig)
    requires
        normalized_from(old, new),
    ensures
        within_bounds(new),
{
}

/// Normalizing twice gives what normalizing once gives.
pub proof fn lemma_normalized_idempotent(c: AppConfig, once: AppConfig, twice: AppConfig)
    requires
        normalized_from(c, once),
        normalized_from(once, twice),
    ensures
        twice == once,
{
    assert(twice.probe == once.probe);
    assert(twice.scheduler == once.scheduler);
    assert(twice.history == once.history);
    assert(twice.http_client == once.http_client);
    assert(twice.feishu == once.feishu);
    assert(twice.pushplus == once.pushplus);
}

/// A configuration already within its bounds is left as it is.
pub proof fn lemma_normalized_keeps_bounded(c: AppConfig, n: AppConfig)
    requires
        within_bounds(c),
        normalized_from(c, n),
    ensures
        n == c,
{
    assert(n.probe == c.probe);
    assert(n.scheduler == c.scheduler);
    assert(n.history == c.history);
    assert(n.http_client == c.http_client);
    assert(n.feishu == c.feishu);
    assert(n.pushplus == c.pushplus);
}

/// After normalizing, the body capture lies between 256 bytes and 1 MiB,
/// the scheduler tick and HTTP timeout are at least one second, and the
/// cleanup interval and both cooldowns at least 60 seconds; a setting that
/// already lay within its bound is kept.
pub proof fn lemma_normalized_values(old: AppConfig, new: AppConfig)
    requires
        normalized_from(old, new),
    ensures
        256 <= new.probe.capture_max_bytes <= 1048576,
        256 <= old.probe.capture_max_bytes <= 1048576 ==> new.probe.capture_max_bytes
            == old.probe.capture_max_bytes,
        new.scheduler.tick_secs >= 1,
        old.scheduler.tick_secs >= 1 ==> new.scheduler.tick_secs == old.scheduler.tick_secs,
        new.history.cleanup_interval_secs >= 60,
        old.history.cleanup_interval_secs >= 60 ==> new.history.cleanup_interval_secs
            == old.history.cleanup_interval_secs,
        new.http_client.timeout_secs >= 1,
        old.http_client.timeout_secs >= 1 ==> new.http_client.timeout_secs
            == old.http_client.timeout_secs,
        new.feishu.alert_cooldown_secs >= 60,
        old.feishu.alert_cooldown_secs >= 60 ==> new.feishu.alert_cooldown_secs
            == old.feishu.alert_cooldown_secs,
        new.pushplus.alert_cooldown_secs >= 60,
        old.pushplus.alert_cooldown_secs >= 60 ==> new.pushplus.alert_cooldown_secs
            == old.pushplus.alert_cooldown_secs,
{
}

} // verus!
