use solinteg_read::decimal::{push_fixed_point, push_plain_decimal};
use solinteg_read::clock::{format_human_timestamp, timestamped_output, unix_nanos_text};
use solinteg_read::config::{
    clamp_to_one_second, default_measurement, default_poll_interval_seconds,
    default_read_timeout_seconds, dump_config, inverter_address, Config, InfluxDbConfig,
};
use solinteg_read::cycle::{classify_read, plan_cycle, read_timeout_message, ReadOutcome};
use solinteg_read::registers::Readings;
use solinteg_read::report::{escape_tag, format_readings};
use solinteg_read::text::prefix_output_with_timestamp;

fn config() -> Config {
    Config {
        host: "192.168.1.142".to_string(),
        port: 502,
        poll_interval_seconds: 0,
        read_timeout_seconds: 7,
        influxdb: InfluxDbConfig {
            write_url: "https://influx.example.com/api/v2/write".to_string(),
            token: Some("tok-123".to_string()),
            username: Some("me".to_string()),
            password: Some("hunter2".to_string()),
            database: None,
            org: Some("home".to_string()),
            bucket: None,
            measurement: "solinteg_readings".to_string(),
            device: None,
        },
    }
}

#[test]
fn defaults_match_the_documented_values() {
    assert_eq!(default_poll_interval_seconds(), 5);
    assert_eq!(default_read_timeout_seconds(), 5);
    assert_eq!(default_measurement(), "solinteg_readings");
    assert_eq!(clamp_to_one_second(0), 1);
    assert_eq!(clamp_to_one_second(1), 1);
    assert_eq!(clamp_to_one_second(30), 30);
}

#[test]
fn dump_redacts_secrets_and_keeps_the_rest() {
    let c = config();
    let d = dump_config(&c);
    assert_eq!(d.host, "192.168.1.142");
    assert_eq!(d.port, 502);
    assert_eq!(d.poll_interval_seconds, 0);
    assert_eq!(d.read_timeout_seconds, 7);
    assert_eq!(d.influxdb.write_url, "https://influx.example.com/api/v2/write");
    assert_eq!(d.influxdb.token, Some("[redacted]"));
    assert_eq!(d.influxdb.password, Some("[redacted]"));
    assert_eq!(d.influxdb.username.as_deref(), Some("me"));
    assert_eq!(d.influxdb.org.as_deref(), Some("home"));
    assert_eq!(d.influxdb.database, None);
    assert_eq!(d.influxdb.bucket, None);
    assert_eq!(d.influxdb.device, None);
    assert_eq!(d.influxdb.measurement, "solinteg_readings");
    let mut other = config();
    other.influxdb.token = None;
    other.influxdb.password = None;
    let d = dump_config(&other);
    assert_eq!(d.influxdb.token, None);
    assert_eq!(d.influxdb.password, None);
}

#[test]
fn inverter_address_joins_host_and_port() {
    assert_eq!(inverter_address(&config()), "192.168.1.142:502");
}

#[test]
fn decimal_rendering() {
    assert_eq!(read_timeout_message(0), "inverter did not respond within 0 seconds");
    assert_eq!(
        read_timeout_message(u64::MAX),
        "inverter did not respond within 18446744073709551615 seconds"
    );
    let mut c = config();
    c.port = 0;
    assert_eq!(inverter_address(&c), "192.168.1.142:0");
    c.port = 65535;
    assert_eq!(inverter_address(&c), "192.168.1.142:65535");
}

#[test]
fn report_shows_units_and_fixed_decimals() {
    let r = Readings {
        pv_power_w: 1234,
        grid_power_w: 0,
        home_load_w: 60000,
        inverter_temp_dc: 305,
        soc_centi_percent: 8800,
        battery_current_da: -42,
        battery_power_w: -1111,
    };
    assert_eq!(
        format_readings(&r, "-1.111"),
        "PV power:        1.234 kW\nGrid power:      0.000 kW\nHome load:       60.000 kW\nInverter temp:   30.5 °C\nSOC:             88 %\nBattery current: -4.2 A\nBattery power:   -1.111 kW"
    );
    let r = Readings {
        pv_power_w: 5,
        grid_power_w: 65535,
        home_load_w: 50,
        inverter_temp_dc: 0,
        soc_centi_percent: 8855,
        battery_current_da: -3,
        battery_power_w: 5,
    };
    assert_eq!(
        format_readings(&r, "0.005"),
        "PV power:        0.005 kW\nGrid power:      65.535 kW\nHome load:       0.050 kW\nInverter temp:   0.0 °C\nSOC:             88.55 %\nBattery current: -0.3 A\nBattery power:   0.005 kW"
    );
}

#[test]
fn escape_tag_escapes_separators_and_backslashes() {
    assert_eq!(escape_tag("plain"), "plain");
    assert_eq!(escape_tag(r"a\b"), r"a\\b");
    assert_eq!(escape_tag("a,b c=d"), r"a\,b\ c\=d");
    assert_eq!(escape_tag(""), "");
    assert_eq!(escape_tag("grüße"), "grüße");
}

#[test]
fn prefix_output_stamps_every_line() {
    assert_eq!(
        prefix_output_with_timestamp("T", "a\nb"),
        "T a\nT b"
    );
    assert_eq!(prefix_output_with_timestamp("T", "a\r\nb\n"), "T a\nT b");
    assert_eq!(prefix_output_with_timestamp("T", "a\n\nb"), "T a\nT \nT b");
    assert_eq!(prefix_output_with_timestamp("T", ""), "");
    assert_eq!(prefix_output_with_timestamp("T", "\n"), "T ");
    assert_eq!(prefix_output_with_timestamp("T", "x\r"), "T x\r");
}

#[test]
fn human_timestamp_is_utc() {
    assert_eq!(
        format_human_timestamp(1431648000).unwrap(),
        "2015-05-15 00:00:00 UTC"
    );
    assert_eq!(format_human_timestamp(0).unwrap(), "1970-01-01 00:00:00 UTC");
    assert_eq!(format_human_timestamp(-1).unwrap(), "1969-12-31 23:59:59 UTC");
    assert_eq!(format_human_timestamp(i64::MAX), None);
}

#[test]
fn timestamped_output_prefixes_every_line() {
    assert_eq!(
        timestamped_output(1431648000, "one\ntwo").unwrap(),
        "2015-05-15 00:00:00 UTC one\n2015-05-15 00:00:00 UTC two"
    );
    assert_eq!(timestamped_output(i64::MIN, "one"), None);
}

#[test]
fn cycle_plans() {
    assert_eq!(classify_read(false, true), ReadOutcome::Failed);
    assert_eq!(classify_read(true, false), ReadOutcome::Implausible);
    assert_eq!(classify_read(true, true), ReadOutcome::Plausible);

    let p = plan_cycle(false, ReadOutcome::Plausible);
    assert!(p.print_readings && p.push && p.timestamped && !p.stop);
    let p = plan_cycle(false, ReadOutcome::Failed);
    assert!(p.report_read_error && !p.push && !p.stop && !p.print_readings);
    let p = plan_cycle(false, ReadOutcome::Implausible);
    assert!(p.log_implausible && !p.push && !p.stop && !p.print_readings);
    let p = plan_cycle(true, ReadOutcome::Plausible);
    assert!(p.print_readings && !p.push && !p.timestamped && p.stop);
    let p = plan_cycle(true, ReadOutcome::Failed);
    assert!(p.report_read_error && p.stop);
}

#[test]
fn timeout_message_names_the_seconds() {
    assert_eq!(
        read_timeout_message(5),
        "inverter did not respond within 5 seconds"
    );
}

#[test]
fn nanosecond_timestamps_are_plain_decimals() {
    assert_eq!(unix_nanos_text(0), "0");
    assert_eq!(unix_nanos_text(1_700_000_000_123_456_789), "1700000000123456789");
    assert_eq!(unix_nanos_text(u128::MAX), u128::MAX.to_string());
}

#[test]
fn fixed_point_scales_beyond_three_digits() {
    let mut s = String::new();
    push_fixed_point(&mut s, i64::MIN, 19);
    assert_eq!(s, "-0.9223372036854775808");
    let mut s = String::new();
    push_plain_decimal(&mut s, 1_500_000, 6);
    assert_eq!(s, "1.5");
}
