//! The InfluxDB write: its URL with query parameters, its body and its
//! authentication, everything the HTTP request is built from.
use vstd::prelude::*;
use crate::config::{InfluxDbConfig, InfluxDbConfigView};
use crate::registers::Readings;
use crate::report::{build_influx_line_protocol, spec_influx_line};

verus! {

/// The most characters that a write URL and its query pairs may hold
/// together. The url crate indexes a URL's serialization with `u32` and
/// panics beyond `u32::MAX` bytes; escaping and host normalisation grow
/// text by far less than the factor of a thousand that this bound leaves.
pub const MAX_URL_INPUT_CHARS: u64 = 4_194_304;

/// The characters in the pairs' names and values together.
pub open spec fn pairs_size(pairs: Seq<(Seq<char>, Seq<char>)>) -> nat
    decreases pairs.len(),
{
    if pairs.len() == 0 {
        0
    } else {
        pairs_size(pairs.drop_last()) + pairs.last().0.len() + pairs.last().1.len()
    }
}

/// The characters in a URL to parse and its query pairs together.
pub open spec fn url_input_size(input: Seq<char>, pairs: Seq<(Seq<char>, Seq<char>)>) -> nat {
    input.len() + pairs_size(pairs)
}

#[verifier::external_type_specification]
#[verifier::external_body]
pub struct ExUrlParseError(url::ParseError);

/// The serialization of the URL that `url::Url::parse_with_params` makes of
/// `input` and the query pairs, or `None` where it returns an error.
pub uninterp spec fn url_parse_with_params(
    input: Seq<char>,
    pairs: Seq<(Seq<char>, Seq<char>)>,
) -> Option<Seq<char>>;

/// Calls `url::Url::parse_with_params`, which parses `input` as an absolute
/// URL and appends the pairs, form-urlencoded, to its query; the URL is
/// handed back as its serialization. The contract claims only that the
/// outcome is a function of `input` and the pairs (named above): an error
/// exactly where that function has no URL, else the URL it gives. The source
/// parses `input` first and only then appends the pairs, which cannot fail,
/// so whether an error comes depends on `input` alone: it comes exactly
/// where `input` with no pairs gives none. Inputs beyond
/// `MAX_URL_INPUT_CHARS` are left out, as their serialization could
/// overflow the crate's `u32` indices, where it panics.
#[verifier::external_body]
fn parse_url_with_params(input: &str, pairs: &Vec<(String, String)>) -> (r: Result<
    String,
    url::ParseError,
>)
    requires
        url_input_size(input@, pairs.deep_view()) <= MAX_URL_INPUT_CHARS,
    ensures
        match r {
            Ok(u) => url_parse_with_params(input@, pairs.deep_view()) == Some(u@),
            Err(_) => url_parse_with_params(input@, pairs.deep_view()) is None,
        },
        r is Err <==> url_parse_with_params(input@, Seq::empty()) is None,
{
    match url::Url::parse_with_params(input, pairs.iter()) {
        Ok(url) => Ok(String::from(url)),
        Err(e) => Err(e),
    }
}

/// A query pair when its value is configured, nothing otherwise.
pub open spec fn optional_pair(name: Seq<char>, value: Option<Seq<char>>) -> Seq<
    (Seq<char>, Seq<char>),
> {
    match value {
        Some(v) => seq![(name, v)],
        None => Seq::empty(),
    }
}

/// The query of a write: the database, organisation and bucket that are
/// configured, in that order, then the timestamp precision in nanoseconds.
pub open spec fn spec_influx_query_pairs(c: InfluxDbConfigView) -> Seq<(Seq<char>, Seq<char>)> {
    optional_pair("db"@, c.database) + optional_pair("org"@, c.org) + optional_pair(
        "bucket"@,
        c.bucket,
    ) + seq![("precision"@, "ns"@)]
}

fn push_optional_pair(
    pairs: &mut Vec<(String, String)>,
    name: &str,
    value: &Option<String>,
)
    ensures
        final(pairs).deep_view() == old(pairs).deep_view() + optional_pair(
            name@,
            value.deep_view(),
        ),
{
    let ghost before = pairs.deep_view();
    match value {
        Some(v) => {
            pairs.push((String::from_str(name), v.clone()));
            assert(pairs.deep_view() =~= before + optional_pair(name@, value.deep_view()));
        },
        None => {
            assert(pairs.deep_view() =~= before + optional_pair(name@, value.deep_view()));
        },
    }
}

/// The query pairs that a write to InfluxDB carries.
pub fn influx_query_pairs(influxdb: &InfluxDbConfig) -> (pairs: Vec<(String, String)>)
    ensures
        pairs.deep_view() == spec_influx_query_pairs(influxdb@),
{
    let mut pairs: Vec<(String, String)> = Vec::new();
    assert(pairs.deep_view() =~= Seq::<(Seq<char>, Seq<char>)>::empty());
    push_optional_pair(&mut pairs, "db", &influxdb.database);
    push_optional_pair(&mut pairs, "org", &influxdb.org);
    push_optional_pair(&mut pairs, "bucket", &influxdb.bucket);
    let ghost before = pairs.deep_view();
    pairs.push((String::from_str("precision"), String::from_str("ns")));
    assert(pairs.deep_view() =~= before + seq![("precision"@, "ns"@)]);
    assert(pairs.deep_view() =~= spec_influx_query_pairs(influxdb@));
    pairs
}

/// Why no write could be prepared.
#[derive(Debug, Clone, Copy, PartialEq, Eq, Structural)]
pub enum InfluxError {
    /// The configured write URL is no absolute URL.
    InvalidWriteUrl,
    /// The write URL and the query values together exceed
    /// `MAX_URL_INPUT_CHARS` characters.
    WriteUrlTooLong,
}

impl InfluxError {
    /// The error's message.
    pub fn message(&self) -> (m: String)
        ensures
            *self == InfluxError::InvalidWriteUrl ==> m@ == "failed to parse InfluxDB write_url"@,
            *self == InfluxError::WriteUrlTooLong ==> m@
                == "InfluxDB write_url and query values are too long"@,
    {
        match self {
            InfluxError::InvalidWriteUrl => String::from_str("failed to parse InfluxDB write_url"),
            InfluxError::WriteUrlTooLong => String::from_str(
                "InfluxDB write_url and query values are too long",
            ),
        }
    }
}

/// The size of the URL input that a write to InfluxDB makes.
pub open spec fn influx_url_input_size(c: InfluxDbConfigView) -> nat {
    url_input_size(c.write_url, spec_influx_query_pairs(c))
}

/// Whether the URL input is within `MAX_URL_INPUT_CHARS`.
fn url_input_fits(input: &str, pairs: &Vec<(String, String)>) -> (r: bool)
    ensures
        r == (url_input_size(input@, pairs.deep_view()) <= MAX_URL_INPUT_CHARS),
{
    let ghost p = pairs.deep_view();
    let mut total: u64 = 0;
    let n = input.unicode_len() as u64;
    if n > MAX_URL_INPUT_CHARS {
        return false;
    }
    total = n;
    let mut i: usize = 0;
    while i < pairs.len()
        invariant
            p == pairs.deep_view(),
            i <= pairs.len(),
            total == input@.len() + pairs_size(p.subrange(0, i as int)),
            total <= MAX_URL_INPUT_CHARS,
        decreases pairs.len() - i,
    {
        proof {
            assert(p.subrange(0, i + 1).drop_last() =~= p.subrange(0, i as int));
            assert(p.subrange(0, i + 1).last() == p[i as int]);
        }
        let a = pairs[i].0.unicode_len() as u64;
        if a > MAX_URL_INPUT_CHARS - total {
            proof { lemma_pairs_size_prefix(p, i + 1); }
            return false;
        }
        total = total + a;
        let b = pairs[i].1.unicode_len() as u64;
        if b > MAX_URL_INPUT_CHARS - total {
            proof { lemma_pairs_size_prefix(p, i + 1); }
            return false;
        }
        total = total + b;
        i = i + 1;
    }
    assert(p.subrange(0, pairs.len() as int) =~= p);
    true
}

/// The size of the whole is at least that of a prefix.
proof fn lemma_pairs_size_prefix(p: Seq<(Seq<char>, Seq<char>)>, j: int)
    requires
        0 <= j <= p.len(),
    ensures
        pairs_size(p.subrange(0, j)) <= pairs_size(p),
    decreases p.len() - j,
{
    if j < p.len() {
        lemma_pairs_size_prefix(p, j + 1);
        assert(p.subrange(0, j + 1).drop_last() =~= p.subrange(0, j));
    } else {
        assert(p.subrange(0, j) =~= p);
    }
}

/// The URL that readings are written to, or `None` where the configured
/// write URL does not parse.
pub open spec fn spec_influx_write_url(c: InfluxDbConfigView) -> Option<Seq<char>> {
    url_parse_with_params(c.write_url, spec_influx_query_pairs(c))
}

/// The write URL: the configured one with the query pairs appended.
pub fn influx_write_url(influxdb: &InfluxDbConfig) -> (r: Result<String, InfluxError>)
    ensures
        spec_write_url_result(influxdb@, r),
{
    let pairs = influx_query_pairs(influxdb);
    if !url_input_fits(influxdb.write_url.as_str(), &pairs) {
        return Err(InfluxError::WriteUrlTooLong);
    }
    match parse_url_with_params(influxdb.write_url.as_str(), &pairs) {
        Ok(u) => Ok(u),
        Err(_) => Err(InfluxError::InvalidWriteUrl),
    }
}

/// What `influx_write_url` gives: too long beyond `MAX_URL_INPUT_CHARS`;
/// otherwise the URL, or an error exactly where the write URL alone does
/// not parse (the query values never cause one).
pub open spec fn spec_write_url_result(c: InfluxDbConfigView, r: Result<String, InfluxError>) -> bool {
    if influx_url_input_size(c) > MAX_URL_INPUT_CHARS {
        r == Err::<String, InfluxError>(InfluxError::WriteUrlTooLong)
    } else {
        &&& r is Err <==> url_parse_with_params(c.write_url, Seq::empty()) is None
        &&& match r {
            Ok(u) => spec_influx_write_url(c) == Some(u@),
            Err(e) => spec_influx_write_url(c) is None && e == InfluxError::InvalidWriteUrl,
        }
    }
}

/// The `Authorization` header that a configured API token gives.
pub open spec fn spec_token_header(token: Option<Seq<char>>) -> Option<Seq<char>> {
    match token {
        Some(t) => Some("Token "@ + t),
        None => None,
    }
}

/// The basic-auth credentials, when both user name and password are set.
pub open spec fn spec_basic_auth(c: InfluxDbConfigView) -> Option<(Seq<char>, Seq<char>)> {
    match (c.username, c.password) {
        (Some(u), Some(p)) => Some((u, p)),
        _ => None,
    }
}

/// Everything an HTTP POST of readings to InfluxDB is made of.
#[derive(Debug)]
pub struct InfluxWrite {
    /// Where the POST goes.
    pub url: String,
    /// The line-protocol record.
    pub body: String,
    /// The `Content-Type` header.
    pub content_type: &'static str,
    /// The `Authorization` header for token authentication, if any.
    pub authorization: Option<String>,
    /// User name and password for basic authentication, if any.
    pub basic_auth: Option<(String, String)>,
}

/// The URL of a prepared write, or its error.
pub open spec fn url_of(r: Result<InfluxWrite, InfluxError>) -> Result<String, InfluxError> {
    match r {
        Ok(w) => Ok(w.url),
        Err(e) => Err(e),
    }
}

/// Prepares the write of readings taken at `timestamp_nanos`, the battery
/// power given as the caller's `Display` text of its `f32` kW value.
pub fn prepare_influx_write(
    influxdb: &InfluxDbConfig,
    readings: &Readings,
    battery_power_kw: &str,
    timestamp_nanos: &str,
) -> (r: Result<InfluxWrite, InfluxError>)
    ensures
        spec_write_url_result(influxdb@, url_of(r)),
        match r {
            Ok(w) => {
                &&& w.body@ == spec_influx_line(
                    *readings,
                    influxdb.measurement@,
                    influxdb.device.deep_view(),
                    battery_power_kw@,
                    timestamp_nanos@,
                )
                &&& w.content_type@ == "text/plain; charset=utf-8"@
                &&& w.authorization.deep_view() == spec_token_header(influxdb.token.deep_view())
                &&& w.basic_auth.deep_view() == spec_basic_auth(influxdb@)
            },
            Err(_) => true,
        },
{
    let body = build_influx_line_protocol(readings, influxdb, battery_power_kw, timestamp_nanos);
    let url = match influx_write_url(influxdb) {
        Ok(u) => u,
        Err(e) => return Err(e),
    };
    let authorization = match &influxdb.token {
        Some(token) => {
            let mut h = String::from_str("Token ");
            h.append(token.as_str());
            Some(h)
        },
        None => None,
    };
    let basic_auth = match (&influxdb.username, &influxdb.password) {
        (Some(user), Some(password)) => Some((user.clone(), password.clone())),
        _ => None,
    };
    Ok(InfluxWrite { url, body, content_type: "text/plain; charset=utf-8", authorization, basic_auth })
}

/// One when an optional value is set, zero when it is not.
pub open spec fn count_set(o: Option<Seq<char>>) -> int {
    if o is Some { 1 } else { 0 }
}

/// Law: the write query holds one pair per configured database,
/// organisation and bucket, in that order and under those names, and ends
/// with the nanosecond precision; nothing else is in it.
pub proof fn lemma_query_pairs(c: InfluxDbConfigView)
    ensures
        spec_influx_query_pairs(c).len() == 1 + count_set(c.database) + count_set(c.org)
            + count_set(c.bucket),
        spec_influx_query_pairs(c).last() == ("precision"@, "ns"@),
        c.database matches Some(d) ==> spec_influx_query_pairs(c)[0] == ("db"@, d),
        c.org matches Some(o) ==> spec_influx_query_pairs(c)[count_set(c.database)] == (
            "org"@,
            o,
        ),
        c.bucket matches Some(b) ==> spec_influx_query_pairs(c)[count_set(c.database) + count_set(
            c.org,
        )] == ("bucket"@, b),
{
}

/// Law: token authentication is used exactly when a token is configured,
/// as `Token ` followed by the token; basic authentication exactly when
/// both user name and password are, with those two values.
pub proof fn lemma_influx_auth(c: InfluxDbConfigView)
    ensures
        spec_token_header(c.token) is Some <==> c.token is Some,
        c.token matches Some(t) ==> spec_token_header(c.token)->0.take(6) == "Token "@
            && spec_token_header(c.token)->0.skip(6) == t,
        spec_basic_auth(c) is Some <==> (c.username is Some && c.password is Some),
        spec_basic_auth(c) matches Some(up) ==> Some(up.0) == c.username && Some(up.1)
            == c.password,
{
    reveal_strlit("Token ");
    if let Some(t) = c.token {
        let h = "Token "@ + t;
        assert(h.take(6) =~= "Token "@);
        assert(h.skip(6) =~= t);
    }
}

} // verus!
