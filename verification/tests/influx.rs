use solinteg_read::config::InfluxDbConfig;
use solinteg_read::influx::{influx_query_pairs, influx_write_url, prepare_influx_write, InfluxError};
use solinteg_read::registers::Readings;
use solinteg_read::report::build_influx_line_protocol;

fn readings() -> Readings {
    Readings {
        pv_power_w: 1234,
        grid_power_w: 3456,
        home_load_w: 2345,
        inverter_temp_dc: 305,
        soc_centi_percent: 8800,
        battery_current_da: -42,
        battery_power_w: -1111,
    }
}

#[test]
fn build_influx_line_protocol_includes_all_readings() {
    let influxdb = InfluxDbConfig {
        write_url: "https://influx.example.com/api/v2/write".to_string(),
        token: Some("secret".to_string()),
        username: None,
        password: None,
        database: None,
        org: Some("home".to_string()),
        bucket: Some("solar".to_string()),
        device: Some("garage-inverter".to_string()),
        measurement: "solinteg_readings".to_string(),
    };
    let readings = readings();

    let payload = build_influx_line_protocol(&readings, &influxdb, "-1.111", "123");

    assert_eq!(
        payload,
        "solinteg_readings,source=solinteg-read,device=garage-inverter pv_power_kw=1.234,grid_power_kw=3.456,home_load_kw=2.345,inverter_temp_c=30.5,soc_percent=88,battery_current_a=-4.2,battery_power_kw=-1.111 123"
    );
}

#[test]
fn influx_write_url_includes_query_parameters() {
    let influxdb = InfluxDbConfig {
        write_url: "https://influx.example.com/api/v2/write".to_string(),
        token: None,
        username: None,
        password: None,
        database: Some("solinteg".to_string()),
        org: Some("home".to_string()),
        bucket: Some("solar".to_string()),
        measurement: "solinteg_readings".to_string(),
        device: None,
    };

    let url = influx_write_url(&influxdb).unwrap();

    assert_eq!(
        url.as_str(),
        "https://influx.example.com/api/v2/write?db=solinteg&org=home&bucket=solar&precision=ns"
    );
}

fn bare(write_url: &str) -> InfluxDbConfig {
    InfluxDbConfig {
        write_url: write_url.to_string(),
        token: None,
        username: None,
        password: None,
        database: None,
        org: None,
        bucket: None,
        measurement: "m".to_string(),
        device: None,
    }
}

#[test]
fn line_protocol_escapes_tags_and_omits_missing_device() {
    let mut influxdb = bare("http://localhost:8086/write");
    influxdb.measurement = "solar power".to_string();
    let r = Readings {
        pv_power_w: 1000,
        grid_power_w: 1200,
        home_load_w: 0,
        inverter_temp_dc: 250,
        soc_centi_percent: 5,
        battery_current_da: 0,
        battery_power_w: 2_000_000,
    };
    assert_eq!(
        build_influx_line_protocol(&r, &influxdb, "2000", "9"),
        r"solar\ power,source=solinteg-read pv_power_kw=1,grid_power_kw=1.2,home_load_kw=0,inverter_temp_c=25,soc_percent=0.05,battery_current_a=0,battery_power_kw=2000 9"
    );
    influxdb.device = Some("a=b,c".to_string());
    assert!(build_influx_line_protocol(&r, &influxdb, "2000", "9")
        .starts_with(r"solar\ power,source=solinteg-read,device=a\=b\,c pv_power_kw="));
}

#[test]
fn write_url_keeps_existing_query_and_encodes_values() {
    let mut influxdb = bare("http://localhost:8086/write?x=1");
    influxdb.database = Some("my db&x".to_string());
    assert_eq!(
        influx_write_url(&influxdb).unwrap(),
        "http://localhost:8086/write?x=1&db=my+db%26x&precision=ns"
    );
}

#[test]
fn unparsable_write_url_is_an_error() {
    let influxdb = bare("not a url");
    let err = influx_write_url(&influxdb).unwrap_err();
    assert_eq!(err, InfluxError::InvalidWriteUrl);
    assert_eq!(err.message(), "failed to parse InfluxDB write_url");
    assert!(prepare_influx_write(&influxdb, &readings(), "-1.111", "1").is_err());
}

#[test]
fn query_pairs_follow_the_configuration() {
    let influxdb = bare("http://h/w");
    assert_eq!(
        influx_query_pairs(&influxdb),
        vec![("precision".to_string(), "ns".to_string())]
    );
}

#[test]
fn prepared_write_carries_body_and_authentication() {
    let mut influxdb = bare("http://localhost:8086/api/v2/write");
    influxdb.token = Some("tok".to_string());
    influxdb.username = Some("user".to_string());
    let w = prepare_influx_write(&influxdb, &readings(), "-1.111", "42").unwrap();
    assert_eq!(w.url, "http://localhost:8086/api/v2/write?precision=ns");
    assert_eq!(w.content_type, "text/plain; charset=utf-8");
    assert_eq!(w.authorization.as_deref(), Some("Token tok"));
    assert_eq!(w.basic_auth, None);
    assert_eq!(w.body, build_influx_line_protocol(&readings(), &influxdb, "-1.111", "42"));
    influxdb.token = None;
    influxdb.password = Some("pw".to_string());
    let w = prepare_influx_write(&influxdb, &readings(), "-1.111", "42").unwrap();
    assert_eq!(w.authorization, None);
    assert_eq!(w.basic_auth, Some(("user".to_string(), "pw".to_string())));
}

#[test]
fn configured_query_values_never_cause_an_error() {
    let mut influxdb = bare("https://influx.example.com/api/v2/write");
    influxdb.database = Some("a b#c?d".to_string());
    influxdb.org = Some("ü&=".to_string());
    influxdb.bucket = Some("".to_string());
    assert_eq!(
        influx_write_url(&influxdb).unwrap(),
        "https://influx.example.com/api/v2/write?db=a+b%23c%3Fd&org=%C3%BC%26%3D&bucket=&precision=ns"
    );
}

#[test]
fn oversized_url_input_is_refused_before_parsing() {
    let mut influxdb = bare("http://h/w#f");
    influxdb.database = Some("x".repeat(4_194_304));
    let err = influx_write_url(&influxdb).unwrap_err();
    assert_eq!(err, InfluxError::WriteUrlTooLong);
    assert_eq!(err.message(), "InfluxDB write_url and query values are too long");
    let mut influxdb = bare("http://h/w#f");
    influxdb.database = Some("x".repeat(4_194_304 - 12 - 2 - 9 - 2));
    assert!(influx_write_url(&influxdb).is_ok());
}

#[test]
fn large_battery_power_text_is_passed_through() {
    let influxdb = bare("http://h/w");
    let line = build_influx_line_protocol(&readings(), &influxdb, "123456.79", "1");
    assert!(line.ends_with(",battery_power_kw=123456.79 1"));
}
