//! The reader's configuration, its defaults, and the dump of it that the
//! `--dump-config` flag prints, with secrets redacted.
use vstd::prelude::*;
use crate::decimal::{
    all_digits, decimal, digits_value, lemma_decimal_roundtrip, push_decimal,
};

verus! {

/// Where and how readings are written to InfluxDB.
#[derive(Debug)]
pub struct InfluxDbConfig {
    pub write_url: String,
    pub token: Option<String>,
    pub username: Option<String>,
    pub password: Option<String>,
    pub database: Option<String>,
    pub org: Option<String>,
    pub bucket: Option<String>,
    pub measurement: String,
    pub device: Option<String>,
}

/// The reader's configuration.
#[derive(Debug)]
pub struct Config {
    pub host: String,
    pub port: u16,
    pub poll_interval_seconds: u64,
    pub read_timeout_seconds: u64,
    pub influxdb: InfluxDbConfig,
}

/// The InfluxDB settings as text values.
pub struct InfluxDbConfigView {
    pub write_url: Seq<char>,
    pub token: Option<Seq<char>>,
    pub username: Option<Seq<char>>,
    pub password: Option<Seq<char>>,
    pub database: Option<Seq<char>>,
    pub org: Option<Seq<char>>,
    pub bucket: Option<Seq<char>>,
    pub measurement: Seq<char>,
    pub device: Option<Seq<char>>,
}

/// The configuration as text values.
pub struct ConfigView {
    pub host: Seq<char>,
    pub port: u16,
    pub poll_interval_seconds: u64,
    pub read_timeout_seconds: u64,
    pub influxdb: InfluxDbConfigView,
}

impl View for InfluxDbConfig {
    type V = InfluxDbConfigView;

    open spec fn view(&self) -> InfluxDbConfigView {
        InfluxDbConfigView {
            write_url: self.write_url@,
            token: self.token.deep_view(),
            username: self.username.deep_view(),
            password: self.password.deep_view(),
            database: self.database.deep_view(),
            org: self.org.deep_view(),
            bucket: self.bucket.deep_view(),
            measurement: self.measurement@,
            device: self.device.deep_view(),
        }
    }
}

impl View for Config {
    type V = ConfigView;

    open spec fn view(&self) -> ConfigView {
        ConfigView {
            host: self.host@,
            port: self.port,
            poll_interval_seconds: self.poll_interval_seconds,
            read_timeout_seconds: self.read_timeout_seconds,
            influxdb: self.influxdb@,
        }
    }
}

/// The poll interval when the configuration gives none.
pub fn default_poll_interval_seconds() -> (s: u64)
    ensures
        s == 5,
{
    5
}

/// The read timeout when the configuration gives none.
pub fn default_read_timeout_seconds() -> (s: u64)
    ensures
        s == 5,
{
    5
}

pub open spec fn spec_default_measurement() -> Seq<char> {
    "solinteg_readings"@
}

/// The measurement name when the configuration gives none.
pub fn default_measurement() -> (m: String)
    ensures
        m@ == spec_default_measurement(),
{
    String::from_str("solinteg_readings")
}

/// A configured interval in seconds, raised to at least one second.
pub fn clamp_to_one_second(seconds: u64) -> (s: u64)
    ensures
        s == if seconds < 1 { 1 } else { seconds },
{
    if seconds < 1 {
        1
    } else {
        seconds
    }
}

/// The inverter's address as `host:port`.
pub open spec fn spec_inverter_address(c: ConfigView) -> Seq<char> {
    c.host + seq![':'] + decimal(c.port as nat)
}

/// The inverter's address as `host:port`, for parsing as a socket address.
pub fn inverter_address(config: &Config) -> (a: String)
    ensures
        a@ == spec_inverter_address(config@),
{
    let mut a = config.host.clone();
    proof { reveal_strlit(":"); }
    a.append(":");
    push_decimal(&mut a, config.port as u128);
    a
}

/// Law: the address is the host, a colon, and the port's decimal digits,
/// which read back as the port.
pub proof fn lemma_inverter_address_parts(c: ConfigView)
    ensures
        spec_inverter_address(c).take(c.host.len() as int) == c.host,
        spec_inverter_address(c)[c.host.len() as int] == ':',
        all_digits(spec_inverter_address(c).skip(c.host.len() as int + 1)),
        digits_value(spec_inverter_address(c).skip(c.host.len() as int + 1)) == c.port,
{
    let a = spec_inverter_address(c);
    lemma_decimal_roundtrip(c.port as nat);
    assert(a.take(c.host.len() as int) =~= c.host);
    assert(a.skip(c.host.len() as int + 1) =~= decimal(c.port as nat));
}

/// What stands in a dump in place of a secret.
pub open spec fn redacted_marker() -> Seq<char> {
    "[redacted]"@
}

/// The marker when a secret is configured, nothing when none is.
pub open spec fn spec_secret_marker(value: Option<Seq<char>>) -> Option<Seq<char>> {
    match value {
        Some(_) => Some(redacted_marker()),
        None => None,
    }
}

/// `[redacted]` when the secret is configured, nothing otherwise.
pub fn configured_secret_marker(value: &Option<String>) -> (m: Option<&'static str>)
    ensures
        m.deep_view() == spec_secret_marker(value.deep_view()),
{
    match value {
        Some(_) => Some("[redacted]"),
        None => None,
    }
}

/// The InfluxDB part of a configuration dump.
#[derive(Debug)]
pub struct InfluxDbConfigDump {
    pub write_url: String,
    pub token: Option<&'static str>,
    pub username: Option<String>,
    pub password: Option<&'static str>,
    pub database: Option<String>,
    pub org: Option<String>,
    pub bucket: Option<String>,
    pub measurement: String,
    pub device: Option<String>,
}

/// The configured values as `--dump-config` prints them.
#[derive(Debug)]
pub struct ConfigDump {
    pub host: String,
    pub port: u16,
    pub poll_interval_seconds: u64,
    pub read_timeout_seconds: u64,
    pub influxdb: InfluxDbConfigDump,
}

impl View for InfluxDbConfigDump {
    type V = InfluxDbConfigView;

    open spec fn view(&self) -> InfluxDbConfigView {
        InfluxDbConfigView {
            write_url: self.write_url@,
            token: self.token.deep_view(),
            username: self.username.deep_view(),
            password: self.password.deep_view(),
            database: self.database.deep_view(),
            org: self.org.deep_view(),
            bucket: self.bucket.deep_view(),
            measurement: self.measurement@,
            device: self.device.deep_view(),
        }
    }
}

impl View for ConfigDump {
    type V = ConfigView;

    open spec fn view(&self) -> ConfigView {
        ConfigView {
            host: self.host@,
            port: self.port,
            poll_interval_seconds: self.poll_interval_seconds,
            read_timeout_seconds: self.read_timeout_seconds,
            influxdb: self.influxdb@,
        }
    }
}

/// The dump of a configuration: every value as configured, except the
/// token and the password, which show only whether they are set.
pub open spec fn spec_dump_config(c: ConfigView) -> ConfigView {
    ConfigView {
        host: c.host,
        port: c.port,
        poll_interval_seconds: c.poll_interval_seconds,
        read_timeout_seconds: c.read_timeout_seconds,
        influxdb: InfluxDbConfigView {
            write_url: c.influxdb.write_url,
            token: spec_secret_marker(c.influxdb.token),
            username: c.influxdb.username,
            password: spec_secret_marker(c.influxdb.password),
            database: c.influxdb.database,
            org: c.influxdb.org,
            bucket: c.influxdb.bucket,
            measurement: c.influxdb.measurement,
            device: c.influxdb.device,
        },
    }
}

fn clone_option(o: &Option<String>) -> (r: Option<String>)
    ensures
        r.deep_view() == o.deep_view(),
{
    match o {
        Some(s) => Some(s.clone()),
        None => None,
    }
}

/// The configured values with the secrets redacted, for printing.
pub fn dump_config(config: &Config) -> (d: ConfigDump)
    ensures
        d@ == spec_dump_config(config@),
{
    let i = &config.influxdb;
    ConfigDump {
        host: config.host.clone(),
        port: config.port,
        poll_interval_seconds: config.poll_interval_seconds,
        read_timeout_seconds: config.read_timeout_seconds,
        influxdb: InfluxDbConfigDump {
            write_url: i.write_url.clone(),
            token: configured_secret_marker(&i.token),
            username: clone_option(&i.username),
            password: configured_secret_marker(&i.password),
            database: clone_option(&i.database),
            org: clone_option(&i.org),
            bucket: clone_option(&i.bucket),
            measurement: i.measurement.clone(),
            device: clone_option(&i.device),
        },
    }
}

/// Law: the dump keeps every value that is no secret in its own place,
/// and shows each secret as set exactly when it is configured.
pub proof fn lemma_dump_keeps_fields(c: ConfigView)
    ensures
        spec_dump_config(c).host == c.host,
        spec_dump_config(c).port == c.port,
        spec_dump_config(c).poll_interval_seconds == c.poll_interval_seconds,
        spec_dump_config(c).read_timeout_seconds == c.read_timeout_seconds,
        spec_dump_config(c).influxdb.write_url == c.influxdb.write_url,
        spec_dump_config(c).influxdb.username == c.influxdb.username,
        spec_dump_config(c).influxdb.database == c.influxdb.database,
        spec_dump_config(c).influxdb.org == c.influxdb.org,
        spec_dump_config(c).influxdb.bucket == c.influxdb.bucket,
        spec_dump_config(c).influxdb.measurement == c.influxdb.measurement,
        spec_dump_config(c).influxdb.device == c.influxdb.device,
        spec_dump_config(c).influxdb.token is Some <==> c.influxdb.token is Some,
        spec_dump_config(c).influxdb.password is Some <==> c.influxdb.password is Some,
        spec_dump_config(c).influxdb.token is Some ==> spec_dump_config(c).influxdb.token
            == Some("[redacted]"@),
        spec_dump_config(c).influxdb.password is Some ==> spec_dump_config(c).influxdb.password
            == Some("[redacted]"@),
{
}

/// Whether two configurations differ at most in the values of their
/// secrets, each secret being set in both or in neither.
pub open spec fn same_but_secrets(a: ConfigView, b: ConfigView) -> bool {
    &&& a.host == b.host
    &&& a.port == b.port
    &&& a.poll_interval_seconds == b.poll_interval_seconds
    &&& a.read_timeout_seconds == b.read_timeout_seconds
    &&& a.influxdb.write_url == b.influxdb.write_url
    &&& (a.influxdb.token is Some) == (b.influxdb.token is Some)
    &&& a.influxdb.username == b.influxdb.username
    &&& (a.influxdb.password is Some) == (b.influxdb.password is Some)
    &&& a.influxdb.database == b.influxdb.database
    &&& a.influxdb.org == b.influxdb.org
    &&& a.influxdb.bucket == b.influxdb.bucket
    &&& a.influxdb.measurement == b.influxdb.measurement
    &&& a.influxdb.device == b.influxdb.device
}

/// Law: the dump reveals nothing of the token or the password: two
/// configurations that differ only in the values of their secrets give the
/// same dump, and a configured secret shows only as `[redacted]`.
pub proof fn lemma_dump_hides_secrets(a: ConfigView, b: ConfigView)
    requires
        same_but_secrets(a, b),
    ensures
        spec_dump_config(a) == spec_dump_config(b),
        spec_dump_config(a).influxdb.token is Some ==> spec_dump_config(a).influxdb.token
            == Some(redacted_marker()),
        spec_dump_config(a).influxdb.password is Some ==> spec_dump_config(a).influxdb.password
            == Some(redacted_marker()),
{
}

} // verus!
