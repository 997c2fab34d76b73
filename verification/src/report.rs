//! What is made of readings: the human-readable report and the InfluxDB
//! line protocol record.
use vstd::prelude::*;
use crate::config::InfluxDbConfig;
use crate::decimal::{
    fixed_point, lemma_fixed_point_reads_back, lemma_plain_decimal_reads_back, plain_decimal,
    push_fixed_point, push_plain_decimal, reads_as_fixed, reads_as_plain,
};
use crate::registers::Readings;

verus! {

/// How one character of a tag key or value is written in the line
/// protocol: a backslash, comma, space or equals sign is escaped with a
/// backslash.
pub open spec fn escape_char(c: char) -> Seq<char> {
    if c == '\\' || c == ',' || c == ' ' || c == '=' {
        seq!['\\', c]
    } else {
        seq![c]
    }
}

/// A tag key or value escaped for the line protocol.
pub open spec fn escaped_tag(s: Seq<char>) -> Seq<char>
    decreases s.len(),
{
    if s.len() == 0 {
        Seq::<char>::empty()
    } else {
        escape_char(s[0]) + escaped_tag(s.drop_first())
    }
}

/// Reads an escaped tag back: a backslash stands for the character after it.
pub open spec fn unescape_tag(t: Seq<char>) -> Seq<char>
    decreases t.len(),
{
    if t.len() == 0 {
        Seq::<char>::empty()
    } else if t[0] == '\\' && t.len() >= 2 {
        seq![t[1]] + unescape_tag(t.skip(2))
    } else {
        seq![t[0]] + unescape_tag(t.drop_first())
    }
}

/// Whether a tag text holds no separator of the line protocol (comma,
/// space, equals sign) and no backslash, other than escaped by a
/// backslash.
pub open spec fn no_bare_separator(t: Seq<char>) -> bool
    decreases t.len(),
{
    if t.len() == 0 {
        true
    } else if t[0] == '\\' {
        t.len() >= 2 && no_bare_separator(t.skip(2))
    } else {
        t[0] != ',' && t[0] != ' ' && t[0] != '=' && no_bare_separator(t.drop_first())
    }
}

proof fn lemma_escaped_tag_push(s: Seq<char>, c: char)
    ensures
        escaped_tag(s.push(c)) == escaped_tag(s) + escape_char(c),
    decreases s.len(),
{
    if s.len() == 0 {
        assert(s.push(c).drop_first() =~= Seq::<char>::empty());
        assert(escaped_tag(Seq::<char>::empty()) =~= Seq::<char>::empty());
        assert(escaped_tag(s) =~= Seq::<char>::empty());
        assert(escaped_tag(s.push(c)) =~= escape_char(c));
    } else {
        lemma_escaped_tag_push(s.drop_first(), c);
        assert(s.push(c).drop_first() =~= s.drop_first().push(c));
        assert(escaped_tag(s.push(c)) =~= escaped_tag(s) + escape_char(c));
    }
}

/// Law: escaping a tag loses nothing and leaves no bare separator: the
/// escaped text reads back as the original, and a line-protocol reader
/// finds no comma, space or equals sign in it that would end the tag.
pub proof fn lemma_escape_tag_roundtrip(s: Seq<char>)
    ensures
        unescape_tag(escaped_tag(s)) == s,
        no_bare_separator(escaped_tag(s)),
    decreases s.len(),
{
    if s.len() > 0 {
        lemma_escape_tag_roundtrip(s.drop_first());
        let c = s[0];
        let rest = escaped_tag(s.drop_first());
        let t = escaped_tag(s);
        assert(t == escape_char(c) + rest);
        if c == '\\' || c == ',' || c == ' ' || c == '=' {
            assert(t.skip(2) =~= rest);
            assert(t[0] == '\\' && t[1] == c);
        } else {
            assert(t.drop_first() =~= rest);
            assert(t[0] == c);
        }
        assert(unescape_tag(t) =~= s);
    }
}

/// The characters that the line protocol escapes in tags.
pub open spec fn is_tag_special(c: char) -> bool {
    c == '\\' || c == ',' || c == ' ' || c == '='
}

/// How many characters of `s` the line protocol escapes in tags.
pub open spec fn count_tag_specials(s: Seq<char>) -> nat
    decreases s.len(),
{
    if s.len() == 0 {
        0
    } else {
        (if is_tag_special(s[0]) { 1nat } else { 0nat }) + count_tag_specials(s.drop_first())
    }
}

/// Law: escaping changes nothing but backslashes, commas, spaces and equals
/// signs: each of those gains one backslash and every other character
/// stays as it is, so the escaped text is longer by exactly their number,
/// and a text without them is left unchanged.
pub proof fn lemma_escape_tag_only_specials(s: Seq<char>)
    ensures
        escaped_tag(s).len() == s.len() + count_tag_specials(s),
        (forall|i: int| 0 <= i < s.len() ==> !is_tag_special(#[trigger] s[i])) ==> escaped_tag(s)
            == s,
    decreases s.len(),
{
    if s.len() > 0 {
        lemma_escape_tag_only_specials(s.drop_first());
        if forall|i: int| 0 <= i < s.len() ==> !is_tag_special(#[trigger] s[i]) {
            assert forall|i: int| 0 <= i < s.drop_first().len() implies !is_tag_special(
                #[trigger] s.drop_first()[i],
            ) by {
                assert(s.drop_first()[i] == s[i + 1]);
            }
            assert(!is_tag_special(s[0]));
            assert(escaped_tag(s) =~= seq![s[0]] + s.drop_first());
            assert(seq![s[0]] + s.drop_first() =~= s);
        }
    } else {
        assert(escaped_tag(s) =~= s);
    }
}

/// Law: different tag values never escape to the same text.
pub proof fn lemma_escape_tag_injective(a: Seq<char>, b: Seq<char>)
    requires
        escaped_tag(a) == escaped_tag(b),
    ensures
        a == b,
{
    lemma_escape_tag_roundtrip(a);
    lemma_escape_tag_roundtrip(b);
}

/// Escapes a tag key or value for the line protocol.
pub fn escape_tag(value: &str) -> (r: String)
    ensures
        r@ == escaped_tag(value@),
{
    let n = value.unicode_len();
    let mut out = String::new();
    let mut i: usize = 0;
    proof {
        assert(value@.subrange(0, 0) =~= Seq::<char>::empty());
    }
    while i < n
        invariant
            n == value@.len(),
            i <= n,
            out@ == escaped_tag(value@.subrange(0, i as int)),
        decreases n - i,
    {
        let c = value.get_char(i);
        proof {
            reveal_strlit("\\\\");
            reveal_strlit("\\,");
            reveal_strlit("\\ ");
            reveal_strlit("\\=");
            lemma_escaped_tag_push(value@.subrange(0, i as int), c);
            assert(value@.subrange(0, i + 1) =~= value@.subrange(0, i as int).push(c));
        }
        if c == '\\' {
            out.append("\\\\");
        } else if c == ',' {
            out.append("\\,");
        } else if c == ' ' {
            out.append("\\ ");
        } else if c == '=' {
            out.append("\\=");
        } else {
            out.append(value.substring_char(i, i + 1));
            assert(value@.subrange(i as int, i + 1) =~= seq![c]);
        }
        i = i + 1;
    }
    assert(value@.subrange(0, n as int) =~= value@);
    out
}

/// The human-readable report of readings: powers in kW with three
/// decimals, the temperature and the battery current with one, the state
/// of charge with as many as it needs. The battery power is shown as the
/// given text, which the caller renders from the `f32` value in kW.
pub open spec fn spec_format_readings(r: Readings, battery_power_kw: Seq<char>) -> Seq<char> {
    "PV power:        "@ + fixed_point(r.pv_power_w as int, 3) + " kW\nGrid power:      "@
        + fixed_point(r.grid_power_w as int, 3) + " kW\nHome load:       "@ + fixed_point(
        r.home_load_w as int,
        3,
    ) + " kW\nInverter temp:   "@ + fixed_point(r.inverter_temp_dc as int, 1)
        + " °C\nSOC:             "@ + plain_decimal(r.soc_centi_percent as int, 2)
        + " %\nBattery current: "@ + fixed_point(r.battery_current_da as int, 1)
        + " A\nBattery power:   "@ + battery_power_kw + " kW"@
}

/// The report of readings that is printed as text.
///
/// `battery_power_kw` is the battery power in kW with three decimals, as
/// `{:.3}` renders the `f32` quotient of the watts by 1000: beyond 2^24 W
/// that quotient is no longer exact, so the text comes from the caller.
pub fn format_readings(readings: &Readings, battery_power_kw: &str) -> (s: String)
    ensures
        s@ == spec_format_readings(*readings, battery_power_kw@),
{
    let mut s = String::from_str("PV power:        ");
    push_fixed_point(&mut s, readings.pv_power_w as i64, 3);
    s.append(" kW\nGrid power:      ");
    push_fixed_point(&mut s, readings.grid_power_w as i64, 3);
    s.append(" kW\nHome load:       ");
    push_fixed_point(&mut s, readings.home_load_w as i64, 3);
    s.append(" kW\nInverter temp:   ");
    push_fixed_point(&mut s, readings.inverter_temp_dc as i64, 1);
    s.append(" °C\nSOC:             ");
    push_plain_decimal(&mut s, readings.soc_centi_percent as i64, 2);
    s.append(" %\nBattery current: ");
    push_fixed_point(&mut s, readings.battery_current_da as i64, 1);
    s.append(" A\nBattery power:   ");
    s.append(battery_power_kw);
    s.append(" kW");
    s
}

/// The optional device tag of a record.
pub open spec fn device_tag(device: Option<Seq<char>>) -> Seq<char> {
    match device {
        Some(d) => ",device="@ + escaped_tag(d),
        None => Seq::<char>::empty(),
    }
}

/// The line-protocol record of readings: the escaped measurement, the
/// source tag, the device tag when a device is configured, the seven
/// fields in their units (the battery power as the given text), and the
/// timestamp.
pub open spec fn spec_influx_line(
    r: Readings,
    measurement: Seq<char>,
    device: Option<Seq<char>>,
    battery_power_kw: Seq<char>,
    timestamp_nanos: Seq<char>,
) -> Seq<char> {
    escaped_tag(measurement) + ",source=solinteg-read"@ + device_tag(device) + " pv_power_kw="@
        + plain_decimal(r.pv_power_w as int, 3) + ",grid_power_kw="@ + plain_decimal(
        r.grid_power_w as int,
        3,
    ) + ",home_load_kw="@ + plain_decimal(r.home_load_w as int, 3) + ",inverter_temp_c="@
        + plain_decimal(r.inverter_temp_dc as int, 1) + ",soc_percent="@ + plain_decimal(
        r.soc_centi_percent as int,
        2,
    ) + ",battery_current_a="@ + plain_decimal(r.battery_current_da as int, 1)
        + ",battery_power_kw="@ + battery_power_kw + " "@
        + timestamp_nanos
}

/// The line-protocol record that is written to InfluxDB.
///
/// `battery_power_kw` is the battery power in kW as `Display` renders the
/// `f32` quotient of the watts by 1000: beyond 2^24 W that quotient is no
/// longer exact, so the text comes from the caller.
pub fn build_influx_line_protocol(
    readings: &Readings,
    influxdb: &InfluxDbConfig,
    battery_power_kw: &str,
    timestamp_nanos: &str,
) -> (line: String)
    ensures
        line@ == spec_influx_line(
            *readings,
            influxdb.measurement@,
            influxdb.device.deep_view(),
            battery_power_kw@,
            timestamp_nanos@,
        ),
{
    let mut line = escape_tag(influxdb.measurement.as_str());
    line.append(",source=solinteg-read");
    match &influxdb.device {
        Some(device) => {
            line.append(",device=");
            let escaped = escape_tag(device.as_str());
            line.append(escaped.as_str());
        },
        None => {},
    }
    line.append(" pv_power_kw=");
    push_plain_decimal(&mut line, readings.pv_power_w as i64, 3);
    line.append(",grid_power_kw=");
    push_plain_decimal(&mut line, readings.grid_power_w as i64, 3);
    line.append(",home_load_kw=");
    push_plain_decimal(&mut line, readings.home_load_w as i64, 3);
    line.append(",inverter_temp_c=");
    push_plain_decimal(&mut line, readings.inverter_temp_dc as i64, 1);
    line.append(",soc_percent=");
    push_plain_decimal(&mut line, readings.soc_centi_percent as i64, 2);
    line.append(",battery_current_a=");
    push_plain_decimal(&mut line, readings.battery_current_da as i64, 1);
    line.append(",battery_power_kw=");
    line.append(battery_power_kw);
    line.append(" ");
    line.append(timestamp_nanos);
    assert(line@ =~= spec_influx_line(
        *readings,
        influxdb.measurement@,
        influxdb.device.deep_view(),
        battery_power_kw@,
        timestamp_nanos@,
    ));
    line
}

/// Whether `text` is the report laid out with the given field texts.
pub open spec fn report_has_fields(
    text: Seq<char>,
    battery_power_kw: Seq<char>,
    pv: Seq<char>,
    grid: Seq<char>,
    home: Seq<char>,
    temp: Seq<char>,
    soc: Seq<char>,
    current: Seq<char>,
) -> bool {
    text == "PV power:        "@ + pv + " kW\nGrid power:      "@ + grid + " kW\nHome load:       "@
        + home + " kW\nInverter temp:   "@ + temp + " °C\nSOC:             "@ + soc
        + " %\nBattery current: "@ + current + " A\nBattery power:   "@ + battery_power_kw
        + " kW"@
}

/// Law: every line of the report shows its own reading, with its sign, in
/// its unit: PV power, grid power and home load in kW with three decimals,
/// the temperature in °C and the battery current in A with one decimal
/// (negative exactly when the current is), the state of charge in % with no
/// trailing zero, and the battery power as given.
pub proof fn lemma_report_fields(r: Readings, battery_power_kw: Seq<char>)
    ensures
        exists|pv: Seq<char>, grid: Seq<char>, home: Seq<char>, temp: Seq<char>, soc: Seq<char>, current: Seq<char>|
            #[trigger] report_has_fields(
                spec_format_readings(r, battery_power_kw),
                battery_power_kw,
                pv,
                grid,
                home,
                temp,
                soc,
                current,
            ) && reads_as_fixed(pv, r.pv_power_w as int, 3) && reads_as_fixed(
                grid,
                r.grid_power_w as int,
                3,
            ) && reads_as_fixed(home, r.home_load_w as int, 3) && reads_as_fixed(
                temp,
                r.inverter_temp_dc as int,
                1,
            ) && reads_as_plain(soc, r.soc_centi_percent as int, 2) && reads_as_fixed(
                current,
                r.battery_current_da as int,
                1,
            ),
{
    let pv = fixed_point(r.pv_power_w as int, 3);
    let grid = fixed_point(r.grid_power_w as int, 3);
    let home = fixed_point(r.home_load_w as int, 3);
    let temp = fixed_point(r.inverter_temp_dc as int, 1);
    let soc = plain_decimal(r.soc_centi_percent as int, 2);
    let current = fixed_point(r.battery_current_da as int, 1);
    lemma_fixed_point_reads_back(r.pv_power_w as int, 3);
    lemma_fixed_point_reads_back(r.grid_power_w as int, 3);
    lemma_fixed_point_reads_back(r.home_load_w as int, 3);
    lemma_fixed_point_reads_back(r.inverter_temp_dc as int, 1);
    lemma_plain_decimal_reads_back(r.soc_centi_percent as int, 2);
    lemma_fixed_point_reads_back(r.battery_current_da as int, 1);
    assert(report_has_fields(
        spec_format_readings(r, battery_power_kw),
        battery_power_kw,
        pv,
        grid,
        home,
        temp,
        soc,
        current,
    ));
}

/// Whether `line` is the line-protocol record laid out with the given
/// field texts.
pub open spec fn line_has_fields(
    line: Seq<char>,
    measurement: Seq<char>,
    device: Option<Seq<char>>,
    battery_power_kw: Seq<char>,
    timestamp_nanos: Seq<char>,
    pv: Seq<char>,
    grid: Seq<char>,
    home: Seq<char>,
    temp: Seq<char>,
    soc: Seq<char>,
    current: Seq<char>,
) -> bool {
    line == escaped_tag(measurement) + ",source=solinteg-read"@ + (match device {
        Some(d) => ",device="@ + escaped_tag(d),
        None => Seq::<char>::empty(),
    }) + " pv_power_kw="@ + pv + ",grid_power_kw="@ + grid + ",home_load_kw="@ + home
        + ",inverter_temp_c="@ + temp + ",soc_percent="@ + soc + ",battery_current_a="@ + current
        + ",battery_power_kw="@ + battery_power_kw + " "@ + timestamp_nanos
}

/// Law: the record carries each reading in its own field, with its sign,
/// in its unit and with no trailing fractional zero: PV power, grid power
/// and home load in kW, the temperature in °C, the state of charge in %, the
/// battery current in A; the device tag is there exactly when a device is
/// configured, and the battery power and the timestamp are as given.
pub proof fn lemma_influx_line_fields(
    r: Readings,
    measurement: Seq<char>,
    device: Option<Seq<char>>,
    battery_power_kw: Seq<char>,
    timestamp_nanos: Seq<char>,
)
    ensures
        exists|pv: Seq<char>, grid: Seq<char>, home: Seq<char>, temp: Seq<char>, soc: Seq<char>, current: Seq<char>|
            #[trigger] line_has_fields(
                spec_influx_line(r, measurement, device, battery_power_kw, timestamp_nanos),
                measurement,
                device,
                battery_power_kw,
                timestamp_nanos,
                pv,
                grid,
                home,
                temp,
                soc,
                current,
            ) && reads_as_plain(pv, r.pv_power_w as int, 3) && reads_as_plain(
                grid,
                r.grid_power_w as int,
                3,
            ) && reads_as_plain(home, r.home_load_w as int, 3) && reads_as_plain(
                temp,
                r.inverter_temp_dc as int,
                1,
            ) && reads_as_plain(soc, r.soc_centi_percent as int, 2) && reads_as_plain(
                current,
                r.battery_current_da as int,
                1,
            ),
{
    let pv = plain_decimal(r.pv_power_w as int, 3);
    let grid = plain_decimal(r.grid_power_w as int, 3);
    let home = plain_decimal(r.home_load_w as int, 3);
    let temp = plain_decimal(r.inverter_temp_dc as int, 1);
    let soc = plain_decimal(r.soc_centi_percent as int, 2);
    let current = plain_decimal(r.battery_current_da as int, 1);
    lemma_plain_decimal_reads_back(r.pv_power_w as int, 3);
    lemma_plain_decimal_reads_back(r.grid_power_w as int, 3);
    lemma_plain_decimal_reads_back(r.home_load_w as int, 3);
    lemma_plain_decimal_reads_back(r.inverter_temp_dc as int, 1);
    lemma_plain_decimal_reads_back(r.soc_centi_percent as int, 2);
    lemma_plain_decimal_reads_back(r.battery_current_da as int, 1);
    assert(line_has_fields(
        spec_influx_line(r, measurement, device, battery_power_kw, timestamp_nanos),
        measurement,
        device,
        battery_power_kw,
        timestamp_nanos,
        pv,
        grid,
        home,
        temp,
        soc,
        current,
    ));
}

} // verus!
