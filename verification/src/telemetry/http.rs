//! Attributes of HTTP metrics and of request spans.

use hyper::header::{HeaderMap, HeaderValue};
use vstd::prelude::*;

use crate::headers::{
    all, byte_views, fields, name_of, parse_name, parsed_name_is_held, to_str, valid_name, values_of,
    visible_text,
};
use crate::protocol::http::error::AppError;
use crate::telemetry::config::{HttpConfig, HttpMetricToggles};
use crate::text::{
    contains, has_text, join, joined, lowercased, pair_views, replace_char, replaced, utf8, views,
};
use crate::transport::HttpVersion;

verus! {

/// The value of an attribute.
pub enum AttrValue {
    /// A text.
    Text(String),
    /// A number.
    Int(i64),
}

/// The value of an attribute, as a mathematical value.
pub enum AttrData {
    /// A text.
    Text(Seq<char>),
    /// A number.
    Int(int),
}

impl AttrValue {
    /// The mathematical value.
    pub open spec fn data(self) -> AttrData {
        match self {
            AttrValue::Text(s) => AttrData::Text(s@),
            AttrValue::Int(i) => AttrData::Int(i as int),
        }
    }
}

/// Attributes as mathematical values.
pub open spec fn attrs_data(v: Seq<(String, AttrValue)>) -> Seq<(Seq<char>, AttrData)> {
    Seq::new(v.len(), |i: int| (v[i].0@, v[i].1.data()))
}

/// A request that is counted as being in flight.
pub struct ActiveRequestGuard {
    /// The attributes that it is counted under, when it begins and when it ends.
    pub attrs: Vec<(String, AttrValue)>,
}

impl ActiveRequestGuard {
    /// Counts a request as being in flight, unless that metric is off.
    pub fn enter(toggles: HttpMetricToggles, method: &str, scheme: &str) -> (out: Option<
        ActiveRequestGuard,
    >)
        ensures
            out is Some == toggles.server_active_requests,
            out matches Some(g) ==> attrs_data(g.attrs@) == seq![
                ("http.request.method"@, AttrData::Text(method@)),
                ("url.scheme"@, AttrData::Text(scheme@)),
            ],
    {
        if !toggles.server_active_requests {
            return None;
        }
        let mut attrs: Vec<(String, AttrValue)> = Vec::new();
        attrs.push((String::from_str("http.request.method"), AttrValue::Text(method.to_owned())));
        attrs.push((String::from_str("url.scheme"), AttrValue::Text(scheme.to_owned())));
        assert(attrs_data(attrs@) =~= seq![
            ("http.request.method"@, AttrData::Text(method@)),
            ("url.scheme"@, AttrData::Text(scheme@)),
        ]);
        Some(ActiveRequestGuard { attrs })
    }
}

/// The attributes of a request duration.
pub open spec fn duration_attrs(
    method: Seq<char>,
    scheme: Seq<char>,
    status: u16,
    route: Seq<char>,
    error_type: Option<Seq<char>>,
) -> Seq<(Seq<char>, AttrData)> {
    let base = seq![
        ("http.request.method"@, AttrData::Text(method)),
        ("url.scheme"@, AttrData::Text(scheme)),
        ("http.response.status_code"@, AttrData::Int(status as int)),
        ("http.route"@, AttrData::Text(route)),
    ];
    match error_type {
        Some(t) => base.push(("error.type"@, AttrData::Text(t))),
        None => base,
    }
}

/// An optional borrowed text.
pub open spec fn opt_str(s: Option<&str>) -> Option<Seq<char>> {
    match s {
        Some(t) => Some(t@),
        None => None,
    }
}

/// The attributes under which a request duration is recorded, unless that metric is off.
pub fn record_duration(
    toggles: HttpMetricToggles,
    method: &str,
    scheme: &str,
    status_code: u16,
    route: &str,
    error_type: Option<&str>,
) -> (out: Option<Vec<(String, AttrValue)>>)
    ensures
        out is Some == toggles.server_request_duration,
        out matches Some(v) ==> attrs_data(v@) == duration_attrs(
            method@,
            scheme@,
            status_code,
            route@,
            opt_str(error_type),
        ),
{
    if !toggles.server_request_duration {
        return None;
    }
    let mut attrs: Vec<(String, AttrValue)> = Vec::new();
    attrs.push((String::from_str("http.request.method"), AttrValue::Text(method.to_owned())));
    attrs.push((String::from_str("url.scheme"), AttrValue::Text(scheme.to_owned())));
    attrs.push((String::from_str("http.response.status_code"), AttrValue::Int(status_code as i64)));
    attrs.push((String::from_str("http.route"), AttrValue::Text(route.to_owned())));
    match error_type {
        Some(t) => {
            attrs.push((String::from_str("error.type"), AttrValue::Text(t.to_owned())));
        },
        None => {},
    }
    assert(attrs_data(attrs@) =~= duration_attrs(
        method@,
        scheme@,
        status_code,
        route@,
        opt_str(error_type),
    ));
    Some(attrs)
}

/// The kind of error recorded for an error: its status as text.
pub fn error_type_for(err: &AppError) -> (out: &'static str)
    ensures
        out@ == (match *err {
            AppError::Internal(_) => "500"@,
            AppError::Timeout => "408"@,
        }),
{
    match err {
        AppError::Internal(_) => "500",
        AppError::Timeout => "408",
    }
}

/// The text recorded for an HTTP version.
pub fn protocol_version(version: HttpVersion) -> (out: &'static str)
    ensures
        out@ == (match version {
            HttpVersion::Http09 => "0.9"@,
            HttpVersion::Http10 => "1.0"@,
            HttpVersion::Http2 => "2"@,
            HttpVersion::Http3 => "3"@,
            HttpVersion::Http11 => "1.1"@,
        }),
{
    match version {
        HttpVersion::Http09 => "0.9",
        HttpVersion::Http10 => "1.0",
        HttpVersion::Http2 => "2",
        HttpVersion::Http3 => "3",
        HttpVersion::Http11 => "1.1",
    }
}

/// The visible values in a list of header values, in order.
pub open spec fn visible_values(v: Seq<Seq<u8>>) -> Seq<Seq<char>>
    decreases v.len(),
{
    if v.len() == 0 {
        Seq::empty()
    } else {
        match visible_text(v.last()) {
            Some(s) => visible_values(v.drop_last()).push(s),
            None => visible_values(v.drop_last()),
        }
    }
}

/// The name under which a header is looked up; one that cannot be a name is looked up as
/// `x-unknown`.
pub open spec fn captured_name(name: Seq<char>) -> Seq<char> {
    match name_of(utf8(lowercased(name))) {
        Some(n) => n,
        None => "x-unknown"@,
    }
}

/// Whether one of the patterns, in lower case, occurs in a name, in lower case.
pub open spec fn is_sensitive(name: Seq<char>, patterns: Seq<Seq<char>>) -> bool {
    exists|i: int|
        0 <= i < patterns.len() && has_text(lowercased(name), lowercased(#[trigger] patterns[i]))
}

/// The attribute for one header, or nothing when it has no visible value. The value of a
/// sensitive header is not shown.
pub open spec fn captured(
    direction: Seq<char>,
    name: Seq<char>,
    f: Map<Seq<char>, Seq<Seq<u8>>>,
    patterns: Seq<Seq<char>>,
) -> Option<(Seq<char>, Seq<char>)> {
    let values = visible_values(values_of(f, captured_name(name)));
    if values.len() == 0 {
        None
    } else {
        Some(
            (
                "http."@ + direction + ".header."@ + replaced(lowercased(name), '-', '_'),
                if is_sensitive(name, patterns) {
                    "[REDACTED]"@
                } else {
                    joined(values, ", "@)
                },
            ),
        )
    }
}

/// The attributes for a list of headers, in order.
pub open spec fn captured_all(
    direction: Seq<char>,
    names: Seq<Seq<char>>,
    f: Map<Seq<char>, Seq<Seq<u8>>>,
    patterns: Seq<Seq<char>>,
) -> Seq<(Seq<char>, Seq<char>)>
    decreases names.len(),
{
    if names.len() == 0 {
        Seq::empty()
    } else {
        let before = captured_all(direction, names.drop_last(), f, patterns);
        match captured(direction, names.last(), f, patterns) {
            Some(a) => before.push(a),
            None => before,
        }
    }
}

/// Keeps the visible values of a list of header values.
fn keep_visible(values: &Vec<Vec<u8>>) -> (out: Vec<String>)
    ensures
        views(out@) == visible_values(byte_views(values@)),
{
    let ghost given = byte_views(values@);
    let mut out: Vec<String> = Vec::new();
    assert(views(out@) =~= Seq::<Seq<char>>::empty());
    for i in 0..values.len()
        invariant
            given == byte_views(values@),
            views(out@) == visible_values(given.take(i as int)),
    {
        assert(given.take(i + 1).drop_last() =~= given.take(i as int));
        assert(given.take(i + 1).last() == values@[i as int]@);
        match to_str(&values[i]) {
            Some(s) => {
                let ghost before = out@;
                let ghost text = s@;
                out.push(s);
                assert(views(out@) =~= views(before).push(text));
            },
            None => {},
        }
    }
    assert(given.take(given.len() as int) =~= given);
    out
}

/// Decides whether a header is sensitive.
fn matches_pattern(name: &str, patterns: &[String]) -> (out: bool)
    ensures
        out == is_sensitive(name@, views(patterns@)),
{
    let lower = name.to_lowercase();
    for i in 0..patterns.len()
        invariant
            lower@ == lowercased(name@),
            forall|j: int|
                0 <= j < i ==> !has_text(
                    lowercased(name@),
                    lowercased(#[trigger] views(patterns@)[j]),
                ),
    {
        assert(views(patterns@)[i as int] == patterns@[i as int]@);
        if contains(&lower, &patterns[i].to_lowercase()) {
            return true;
        }
    }
    false
}

/// The stand-in for a name that cannot be one.
proof fn unknown_is_a_name()
    ensures
        valid_name("x-unknown"@),
{
    reveal_strlit("x-unknown");
}

/// Turns one header into an attribute.
fn capture_header(
    direction: &str,
    name: &str,
    headers: &HeaderMap<HeaderValue>,
    patterns: &[String],
) -> (out: Option<(String, String)>)
    ensures
        match out {
            Some(p) => captured(direction@, name@, fields(*headers), views(patterns@)) == Some(
                (p.0@, p.1@),
            ),
            None => captured(direction@, name@, fields(*headers), views(patterns@)) is None,
        },
{
    let lower = name.to_lowercase();
    let key = match parse_name(lower.as_str().as_bytes()) {
        Ok(n) => {
            proof {
                parsed_name_is_held(utf8(lower@));
            }
            n
        },
        Err(_) => {
            proof {
                unknown_is_a_name();
            }
            String::from_str("x-unknown")
        },
    };
    let values = keep_visible(&all(headers, &key));
    assert(views(values@).len() == values@.len());
    if values.len() == 0 {
        return None;
    }
    let mut attr = String::from_str("http.");
    attr.append(direction);
    attr.append(".header.");
    attr.append(&replace_char(&lower, '-', '_'));
    let value = if matches_pattern(name, patterns) {
        String::from_str("[REDACTED]")
    } else {
        join(&values, ", ")
    };
    Some((attr, value))
}

/// Turns headers into attributes for one direction.
pub fn capture_headers(
    direction: &str,
    header_names: &[String],
    headers: &HeaderMap<HeaderValue>,
    sanitize_patterns: &[String],
) -> (out: Vec<(String, String)>)
    ensures
        pair_views(out@) == captured_all(
            direction@,
            views(header_names@),
            fields(*headers),
            views(sanitize_patterns@),
        ),
{
    let ghost names = views(header_names@);
    let mut out: Vec<(String, String)> = Vec::new();
    assert(pair_views(out@) =~= Seq::<(Seq<char>, Seq<char>)>::empty());
    for i in 0..header_names.len()
        invariant
            names == views(header_names@),
            pair_views(out@) == captured_all(
                direction@,
                names.take(i as int),
                fields(*headers),
                views(sanitize_patterns@),
            ),
    {
        assert(names.take(i + 1).drop_last() =~= names.take(i as int));
        assert(names.take(i + 1).last() == header_names@[i as int]@);
        match capture_header(direction, &header_names[i], headers, sanitize_patterns) {
            Some(p) => {
                let ghost before = out@;
                let ghost pair = (p.0@, p.1@);
                out.push(p);
                assert(pair_views(out@) =~= pair_views(before).push(pair));
            },
            None => {},
        }
    }
    assert(names.take(names.len() as int) =~= names);
    out
}

/// Turns the request headers that a configuration names into attributes.
pub fn capture_request_headers(headers: &HeaderMap<HeaderValue>, config: &HttpConfig) -> (out: Vec<
    (String, String),
>)
    ensures
        pair_views(out@) == captured_all(
            "request"@,
            views(config.capture_request_headers@),
            fields(*headers),
            views(config.sanitize_headers@),
        ),
{
    capture_headers(
        "request",
        &config.capture_request_headers,
        headers,
        &config.sanitize_headers,
    )
}

/// Turns the response headers that a configuration names into attributes.
pub fn capture_response_headers(headers: &HeaderMap<HeaderValue>, config: &HttpConfig) -> (out:
    Vec<(String, String)>)
    ensures
        pair_views(out@) == captured_all(
            "response"@,
            views(config.capture_response_headers@),
            fields(*headers),
            views(config.sanitize_headers@),
        ),
{
    capture_headers(
        "response",
        &config.capture_response_headers,
        headers,
        &config.sanitize_headers,
    )
}

/// The value of a sensitive header is never shown, whatever it is.
pub proof fn sensitive_values_are_hidden(
    direction: Seq<char>,
    name: Seq<char>,
    f: Map<Seq<char>, Seq<Seq<u8>>>,
    patterns: Seq<Seq<char>>,
)
    requires
        is_sensitive(name, patterns),
    ensures
        captured(direction, name, f, patterns) matches Some(a) ==> a.1 == "[REDACTED]"@,
{
}

/// A header that is captured is hidden if a pattern occurs in its name, whatever the case, and
/// otherwise shown with its visible values, in order and separated by commas. It is captured under
/// the direction and its name in lower case with underscores for dashes.
pub proof fn captured_headers_are_shown_or_hidden(
    direction: Seq<char>,
    name: Seq<char>,
    f: Map<Seq<char>, Seq<Seq<u8>>>,
    patterns: Seq<Seq<char>>,
    hidden: bool,
)
    requires
        hidden <==> exists|i: int|
            0 <= i < patterns.len() && has_text(
                lowercased(name),
                lowercased(#[trigger] patterns[i]),
            ),
    ensures
        captured(direction, name, f, patterns) matches Some(a) ==> a.0 == "http."@ + direction
            + ".header."@ + replaced(lowercased(name), '-', '_') && (if hidden {
            a.1 == "[REDACTED]"@
        } else {
            a.1 == joined(visible_values(values_of(f, captured_name(name))), ", "@)
        }),
        captured(direction, name, f, patterns) is Some <==> visible_values(
            values_of(f, captured_name(name)),
        ).len() > 0,
{
}

/// Every request header that a configuration hides is captured as hidden, wherever it stands in
/// the list.
pub proof fn hidden_headers_never_show(
    direction: Seq<char>,
    names: Seq<Seq<char>>,
    f: Map<Seq<char>, Seq<Seq<u8>>>,
    patterns: Seq<Seq<char>>,
    k: int,
)
    requires
        0 <= k < captured_all(direction, names, f, patterns).len(),
    ensures
        exists|i: int|
            0 <= i < names.len() && captured(direction, #[trigger] names[i], f, patterns) == Some(
                captured_all(direction, names, f, patterns)[k],
            ),
        (forall|i: int|
            0 <= i < names.len() ==> exists|j: int|
                0 <= j < patterns.len() && has_text(
                    lowercased(#[trigger] names[i]),
                    lowercased(#[trigger] patterns[j]),
                )) ==> captured_all(direction, names, f, patterns)[k].1 == "[REDACTED]"@,
    decreases names.len(),
{
    let all = captured_all(direction, names, f, patterns);
    let front = names.drop_last();
    let before = captured_all(direction, front, f, patterns);
    if k < before.len() {
        hidden_headers_never_show(direction, front, f, patterns, k);
        let i = choose|i: int|
            0 <= i < front.len() && captured(direction, #[trigger] front[i], f, patterns) == Some(
                before[k],
            );
        assert(names[i] == front[i]);
        assert(all[k] == before[k]);
        assert(captured(direction, names[i], f, patterns) == Some(all[k]));
    } else {
        assert(names[names.len() - 1] == names.last());
        assert(captured(direction, names[names.len() - 1], f, patterns) == Some(all[k]));
    }
}

/// A header that has a visible value is captured, and the values of one header are looked up under
/// its own name if that can be one.
pub proof fn named_headers_are_captured(
    direction: Seq<char>,
    names: Seq<Seq<char>>,
    f: Map<Seq<char>, Seq<Seq<u8>>>,
    patterns: Seq<Seq<char>>,
    i: int,
)
    requires
        0 <= i < names.len(),
        captured(direction, names[i], f, patterns) is Some,
    ensures
        captured_all(direction, names, f, patterns).contains(
            captured(direction, names[i], f, patterns)->0,
        ),
    decreases names.len(),
{
    let all = captured_all(direction, names, f, patterns);
    let before = captured_all(direction, names.drop_last(), f, patterns);
    if i < names.len() - 1 {
        named_headers_are_captured(direction, names.drop_last(), f, patterns, i);
        let a = captured(direction, names[i], f, patterns)->0;
        let k = choose|k: int| 0 <= k < before.len() && before[k] == a;
        assert(all[k] == a);
    } else {
        assert(all.last() == captured(direction, names[i], f, patterns)->0);
        assert(all[all.len() - 1] == all.last());
    }
}

/// A header is looked up under the name that its text in lower case spells; a text that spells none
/// is looked up as one that no client sends.
pub proof fn headers_are_looked_up_by_name(name: Seq<char>)
    ensures
        name_of(utf8(lowercased(name))) matches Some(n) ==> captured_name(name) == n,
        name_of(utf8(lowercased(name))) is None ==> captured_name(name) == "x-unknown"@,
{
}

/// Values that are visible text are all shown, in order; others are left out.
pub proof fn visible_values_are_kept(v: Seq<Seq<u8>>, last: Seq<u8>)
    ensures
        visible_text(last) matches Some(s) ==> visible_values(v.push(last)) == visible_values(v).push(
            s,
        ),
        visible_text(last) is None ==> visible_values(v.push(last)) == visible_values(v),
        visible_values(Seq::empty()).len() == 0,
{
    assert(v.push(last).drop_last() =~= v);
}

/// A request duration is recorded under method, scheme, status and route, and under the kind of
/// error exactly if there was one.
pub proof fn durations_are_described(
    method: Seq<char>,
    scheme: Seq<char>,
    status: u16,
    route: Seq<char>,
    error: Seq<char>,
)
    ensures
        ({
            let fine = duration_attrs(method, scheme, status, route, None);
            &&& fine.len() == 4
            &&& fine[0] == ("http.request.method"@, AttrData::Text(method))
            &&& fine[1] == ("url.scheme"@, AttrData::Text(scheme))
            &&& fine[2] == ("http.response.status_code"@, AttrData::Int(status as int))
            &&& fine[3] == ("http.route"@, AttrData::Text(route))
            &&& duration_attrs(method, scheme, status, route, Some(error)) == fine.push(
                ("error.type"@, AttrData::Text(error)),
            )
        }),
{
}

/// Attributes are shown as what they hold.
pub proof fn attributes_are_shown(v: Seq<(String, AttrValue)>, i: int)
    requires
        0 <= i < v.len(),
    ensures
        attrs_data(v).len() == v.len(),
        attrs_data(v)[i].0 == v[i].0@,
        v[i].1 matches AttrValue::Text(s) ==> attrs_data(v)[i].1 == AttrData::Text(s@),
        v[i].1 matches AttrValue::Int(n) ==> attrs_data(v)[i].1 == AttrData::Int(n as int),
{
}

} // verus!
