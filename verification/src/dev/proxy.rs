//! The proxies of the development server: which requests go where, and with which headers.

use hyper::header::{HeaderMap, HeaderValue};
use vstd::prelude::*;

use crate::headers::{
    append, empty, fields, first, has_room, line_views, lines, named, to_str, values_of, visible_text,
};
use crate::protocol::http::service::TooManyHeaders;
use crate::text::{
    bytes_of, contains, cut, decimal, decimal_text, ends_with, has_text, lower, same,
    same_ignoring_case, split_once, starts_with, to_lower, utf8,
};

verus! {

/// The largest body of a request that is passed on.
pub const MAX_BODY_BYTES: usize = 10 * 1024 * 1024;

/// The header that carries the access token to the API.
pub const ACCESS_TOKEN_HEADER: &'static str = "x-forwarded-access-token";

/// The header that carries the user to the API.
pub const FORWARDED_USER_HEADER: &'static str = "x-forwarded-user";

/// Seconds without a message after which a WebSocket is closed.
pub const IDLE_TIMEOUT_SECS: u64 = 300;

/// The path ends like a file that the frontend's tooling serves.
pub open spec fn asset(path: Seq<char>) -> bool {
    ||| ".js"@.is_suffix_of(path)
    ||| ".ts"@.is_suffix_of(path)
    ||| ".tsx"@.is_suffix_of(path)
    ||| ".jsx"@.is_suffix_of(path)
    ||| ".css"@.is_suffix_of(path)
    ||| ".map"@.is_suffix_of(path)
    ||| ".svg"@.is_suffix_of(path)
    ||| ".png"@.is_suffix_of(path)
    ||| ".jpg"@.is_suffix_of(path)
    ||| ".jpeg"@.is_suffix_of(path)
    ||| ".gif"@.is_suffix_of(path)
    ||| ".ico"@.is_suffix_of(path)
    ||| ".woff"@.is_suffix_of(path)
    ||| ".woff2"@.is_suffix_of(path)
    ||| ".ttf"@.is_suffix_of(path)
    ||| ".eot"@.is_suffix_of(path)
}

/// The part of a path before its query.
pub open spec fn before_query(path: Seq<char>) -> Seq<char> {
    match cut(path, '?') {
        Some((p, _)) => p,
        None => path,
    }
}

/// A request that a log shows: none for the frontend tooling's own files and assets.
pub open spec fn logged(path: Seq<char>, is_ui: bool) -> bool {
    &&& !"/@"@.is_prefix_of(path)
    &&& !(is_ui && has_text(path, "?tsr-split"@))
    &&& !asset(before_query(lower(path)))
    &&& !has_text(path, "/node_modules/"@)
}

/// Whether a log shows a request.
pub fn should_log_request(path: &str, is_ui: bool) -> (out: bool)
    ensures
        out == logged(path@, is_ui),
{
    if starts_with(path, "/@") {
        return false;
    }
    if is_ui && contains(path, "?tsr-split") {
        return false;
    }
    let lowered = to_lower(path);
    let path_only = match split_once(&lowered, '?') {
        Some((p, _)) => p,
        None => lowered,
    };
    if ends_with(&path_only, ".js") || ends_with(&path_only, ".ts") || ends_with(&path_only, ".tsx")
        || ends_with(&path_only, ".jsx") || ends_with(&path_only, ".css") || ends_with(
        &path_only,
        ".map",
    ) || ends_with(&path_only, ".svg") || ends_with(&path_only, ".png") || ends_with(
        &path_only,
        ".jpg",
    ) || ends_with(&path_only, ".jpeg") || ends_with(&path_only, ".gif") || ends_with(
        &path_only,
        ".ico",
    ) || ends_with(&path_only, ".woff") || ends_with(&path_only, ".woff2") || ends_with(
        &path_only,
        ".ttf",
    ) || ends_with(&path_only, ".eot") {
        return false;
    }
    !contains(path, "/node_modules/")
}

/// A header that concerns one connection only.
pub open spec fn hop(name: Seq<char>) -> bool {
    let n = lower(name);
    ||| n == "connection"@
    ||| n == "upgrade"@
    ||| n == "keep-alive"@
    ||| n == "proxy-connection"@
    ||| n == "transfer-encoding"@
    ||| n == "te"@
    ||| n == "trailer"@
    ||| n == "host"@
}

/// Whether a header concerns one connection only.
pub fn is_hop_header(name: &str) -> (out: bool)
    ensures
        out == hop(name@),
        out == (lower(name@) == "connection"@ || lower(name@) == "upgrade"@ || lower(name@)
            == "keep-alive"@ || lower(name@) == "proxy-connection"@ || lower(name@)
            == "transfer-encoding"@ || lower(name@) == "te"@ || lower(name@) == "trailer"@ || lower(
            name@,
        ) == "host"@),
{
    let n = to_lower(name);
    same(&n, "connection") || same(&n, "upgrade") || same(&n, "keep-alive") || same(
        &n,
        "proxy-connection",
    ) || same(&n, "transfer-encoding") || same(&n, "te") || same(&n, "trailer") || same(&n, "host")
}

/// The headers that go on to the next connection.
pub open spec fn end_to_end(f: Map<Seq<char>, Seq<Seq<u8>>>) -> Map<Seq<char>, Seq<Seq<u8>>> {
    f.restrict(Set::new(|name: Seq<char>| !hop(name)))
}

/// A name has a value in a list of lines exactly if it occurs there.
proof fn named_when_listed(l: Seq<(Seq<char>, Seq<u8>)>, name: Seq<char>)
    ensures
        named(l, name).len() > 0 <==> exists|i: int| 0 <= i < l.len() && #[trigger] l[i].0 == name,
    decreases l.len(),
{
    if l.len() > 0 {
        named_when_listed(l.drop_last(), name);
        if named(l, name).len() > 0 {
            if l.last().0 == name {
                assert(l[l.len() - 1].0 == name);
            } else {
                let i = choose|i: int|
                    0 <= i < l.drop_last().len() && #[trigger] l.drop_last()[i].0 == name;
                assert(l[i].0 == name);
            }
        }
        if exists|i: int| 0 <= i < l.len() && #[trigger] l[i].0 == name {
            let i = choose|i: int| 0 <= i < l.len() && #[trigger] l[i].0 == name;
            if i < l.len() - 1 {
                assert(l.drop_last()[i].0 == name);
            }
        }
    }
}

/// What a map holds once the given lines were passed on: the end-to-end ones, in order.
pub open spec fn holds_end_to_end(
    f: Map<Seq<char>, Seq<Seq<u8>>>,
    l: Seq<(Seq<char>, Seq<u8>)>,
) -> bool {
    forall|name: Seq<char>|
        {
            &&& #[trigger] f.dom().contains(name) <==> !hop(name) && named(l, name).len() > 0
            &&& f.dom().contains(name) ==> f[name] == named(l, name)
        }
}

/// The headers that go on to the next connection.
pub fn filter_headers(headers: &HeaderMap<HeaderValue>) -> (out: Result<
    HeaderMap<HeaderValue>,
    TooManyHeaders,
>)
    ensures
        has_room(fields(*headers)) ==> out is Ok,
        out matches Ok(m) ==> fields(m) == end_to_end(fields(*headers)),
        out matches Ok(m) ==> forall|name: Seq<char>| #[trigger]
            values_of(fields(m), name) == (if lower(name) == "connection"@ || lower(name)
                == "upgrade"@ || lower(name) == "keep-alive"@ || lower(name) == "proxy-connection"@
                || lower(name) == "transfer-encoding"@ || lower(name) == "te"@ || lower(name)
                == "trailer"@ || lower(name) == "host"@ {
                Seq::empty()
            } else {
                values_of(fields(*headers), name)
            }),
{
    let all = lines(headers);
    let ghost l = line_views(all@);
    let ghost given = fields(*headers);
    let mut filtered = empty();
    assert(holds_end_to_end(fields(filtered), l.take(0)));
    for i in 0..all.len()
        invariant
            l == line_views(all@),
            given == fields(*headers),
            forall|name: Seq<char>| #[trigger] named(l, name) == values_of(given, name),
            forall|j: int|
                0 <= j < all@.len() ==> given.dom().contains(#[trigger] all@[j].0@)
                    && crate::headers::held_name(all@[j].0@) && crate::headers::valid_value(all@[j].1@),
            holds_end_to_end(fields(filtered), l.take(i as int)),
    {
        let ghost before = fields(filtered);
        let ghost head = l.take(i as int);
        let ghost next = l.take(i + 1);
        assert(next.drop_last() =~= head);
        assert(next.last() == l[i as int]);
        if !is_hop_header(&all[i].0) {
            if !append(&mut filtered, &all[i].0, &all[i].1) {
                proof {
                    assert forall|name: Seq<char>| #[trigger] before.dom().contains(name) implies given.dom().contains(
                    name) by {
                        named_when_listed(head, name);
                        let j = choose|j: int| 0 <= j < head.len() && #[trigger] head[j].0 == name;
                        assert(all@[j].0@ == name);
                    }
                    assert(before.dom().subset_of(given.dom()));
                    if has_room(given) {
                        vstd::set_lib::lemma_len_subset(before.dom(), given.dom());
                    }
                }
                return Err(TooManyHeaders);
            }
        }
        proof {
            let now = fields(filtered);
            assert forall|name: Seq<char>|
                {
                    &&& #[trigger] now.dom().contains(name) <==> !hop(name) && named(next, name).len() > 0
                    &&& now.dom().contains(name) ==> now[name] == named(next, name)
                } by {
                assert(before.dom().contains(name) <==> !hop(name) && named(head, name).len() > 0);
                if name == l[i as int].0 {
                    assert(named(next, name) == named(head, name).push(l[i as int].1));
                    assert(values_of(before, name) =~= named(head, name) || hop(name));
                } else {
                    assert(named(next, name) == named(head, name));
                }
            }
        }
    }
    assert(l.take(l.len() as int) =~= l);
    proof {
        let f = fields(filtered);
        assert forall|name: Seq<char>| #[trigger] f.dom().contains(name) <==> end_to_end(
            given,
        ).dom().contains(name) by {
            named_when_listed(l, name);
            if given.dom().contains(name) {
                let j = choose|j: int| 0 <= j < all@.len() && #[trigger] all@[j].0@ == name;
                assert(l[j].0 == name);
            }
            if named(l, name).len() > 0 {
                let j = choose|j: int| 0 <= j < l.len() && #[trigger] l[j].0 == name;
                assert(all@[j].0@ == name);
            }
        }
        assert forall|name: Seq<char>| #[trigger] f.dom().contains(name) implies f[name]
            == end_to_end(given)[name] by {
            named_when_listed(l, name);
            assert(named(l, name) == values_of(given, name));
        }
        assert(f =~= end_to_end(given));
    }
    Ok(filtered)
}

/// The first value under a name as a text; empty if there is none or it is not visible ASCII.
pub open spec fn text_under(f: Map<Seq<char>, Seq<Seq<u8>>>, name: Seq<char>) -> Seq<char> {
    let v = values_of(f, name);
    if v.len() > 0 {
        match visible_text(v[0]) {
            Some(t) => t,
            None => Seq::empty(),
        }
    } else {
        Seq::empty()
    }
}

/// Reads the first value of the `connection` header.
fn connection_header(headers: &HeaderMap<HeaderValue>) -> (out: String)
    ensures
        out@ == text_under(fields(*headers), "connection"@),
{
    proof {
        reveal_strlit("connection");
    }
    match first(headers, "connection") {
        Some(v) => match to_str(&v) {
            Some(t) => t,
            None => String::new(),
        },
        None => String::new(),
    }
}

/// Reads the first value of the `upgrade` header.
fn upgrade_header(headers: &HeaderMap<HeaderValue>) -> (out: String)
    ensures
        out@ == text_under(fields(*headers), "upgrade"@),
{
    proof {
        reveal_strlit("upgrade");
    }
    match first(headers, "upgrade") {
        Some(v) => match to_str(&v) {
            Some(t) => t,
            None => String::new(),
        },
        None => String::new(),
    }
}

/// Whether a request asks for a WebSocket.
pub fn is_websocket_request(headers: &HeaderMap<HeaderValue>) -> (out: bool)
    ensures
        out == (has_text(lower(text_under(fields(*headers), "connection"@)), "upgrade"@) && lower(
            text_under(fields(*headers), "upgrade"@),
        ) == lower("websocket"@)),
{
    contains(&to_lower(&connection_header(headers)), "upgrade") && same_ignoring_case(
        &upgrade_header(headers),
        "websocket",
    )
}

/// Where a request goes.
#[derive(Clone, Copy, PartialEq, Eq, Structural, Debug)]
pub enum ProxyTarget {
    /// The API, under its prefix.
    Api,
    /// The documentation and schema of the API, which have no prefix.
    ApiUtils,
    /// The user interface.
    Ui,
}

/// The path and query on the target. The prefix of the API was stripped by the router.
pub open spec fn target_path(target: ProxyTarget, path_and_query: Option<Seq<char>>) -> Seq<char> {
    let p = match path_and_query {
        Some(p) => p,
        None => "/"@,
    };
    if target == ProxyTarget::Api {
        "/api"@ + p
    } else {
        p
    }
}

/// The path and query on the target.
pub fn proxy_path(target: ProxyTarget, path_and_query: Option<&str>) -> (out: String)
    ensures
        out@ == target_path(
            target,
            match path_and_query {
                Some(p) => Some(p@),
                None => None,
            },
        ),
{
    let p = match path_and_query {
        Some(p) => p,
        None => "/",
    };
    match target {
        ProxyTarget::Api => "/api".to_owned().concat(p),
        _ => p.to_owned(),
    }
}

/// What the proxy adds to a request.
pub struct Credentials {
    /// The name of a header, in lower case, and the token for it.
    pub dev_token: Option<(String, String)>,
    /// The access token.
    pub access_token: Option<String>,
    /// The user.
    pub forwarded_user: Option<String>,
}

/// The header lines of credentials: the development token, the access token, the user.
pub open spec fn credential_lines(c: Credentials) -> Seq<(Seq<char>, Seq<u8>)> {
    (match c.dev_token {
        Some((name, token)) => seq![(name@, utf8(token@))],
        None => Seq::empty(),
    }) + (match c.access_token {
        Some(token) => seq![(ACCESS_TOKEN_HEADER@, utf8(token@))],
        None => Seq::empty(),
    }) + (match c.forwarded_user {
        Some(user) => seq![(FORWARDED_USER_HEADER@, utf8(user@))],
        None => Seq::empty(),
    })
}

/// What the proxy adds to a request for a target: the user interface gets the development token,
/// the API the access token and the user.
pub fn credentials(
    target: ProxyTarget,
    dev_token: (String, String),
    access_token: Option<String>,
    forwarded_user: Option<String>,
) -> (out: Credentials)
    ensures
        out == (if target == ProxyTarget::Ui {
            Credentials { dev_token: Some(dev_token), access_token: None, forwarded_user: None }
        } else {
            Credentials { dev_token: None, access_token, forwarded_user }
        }),
{
    match target {
        ProxyTarget::Ui => Credentials {
            dev_token: Some(dev_token),
            access_token: None,
            forwarded_user: None,
        },
        _ => Credentials { dev_token: None, access_token, forwarded_user },
    }
}

/// The values of a name in two lists of lines.
proof fn named_in_both(a: Seq<(Seq<char>, Seq<u8>)>, b: Seq<(Seq<char>, Seq<u8>)>, name: Seq<char>)
    ensures
        named(a + b, name) == named(a, name) + named(b, name),
    decreases b.len(),
{
    if b.len() == 0 {
        assert(a + b =~= a);
        assert(named(a, name) + named(b, name) =~= named(a, name));
    } else {
        assert((a + b).drop_last() =~= a + b.drop_last());
        named_in_both(a, b.drop_last(), name);
        assert(named(a + b, name) =~= named(a, name) + named(b, name));
    }
}

/// The header lines of the request to the target: the end-to-end ones of the client's request, and
/// the credentials behind them.
pub fn request_headers(headers: &HeaderMap<HeaderValue>, added: &Credentials) -> (out: Vec<
    (String, Vec<u8>),
>)
    ensures
        forall|name: Seq<char>| #[trigger]
            named(line_views(out@), name) == values_of(end_to_end(fields(*headers)), name) + named(
                credential_lines(*added),
                name,
            ),
        forall|name: Seq<char>| #[trigger]
            named(line_views(out@), name) == (if lower(name) == "connection"@ || lower(name)
                == "upgrade"@ || lower(name) == "keep-alive"@ || lower(name) == "proxy-connection"@
                || lower(name) == "transfer-encoding"@ || lower(name) == "te"@ || lower(name)
                == "trailer"@ || lower(name) == "host"@ {
                Seq::empty()
            } else {
                values_of(fields(*headers), name)
            }) + named(credential_lines(*added), name),
{
    let all = lines(headers);
    let ghost l = line_views(all@);
    let ghost given = fields(*headers);
    let mut out: Vec<(String, Vec<u8>)> = Vec::new();
    for i in 0..all.len()
        invariant
            l == line_views(all@),
            forall|name: Seq<char>| #[trigger]
                named(line_views(out@), name) == (if hop(name) {
                    Seq::empty()
                } else {
                    named(l.take(i as int), name)
                }),
    {
        let ghost before = line_views(out@);
        let ghost next = l.take(i + 1);
        assert(next.drop_last() =~= l.take(i as int));
        if !is_hop_header(&all[i].0) {
            let value = vstd::slice::slice_to_vec(all[i].1.as_slice());
            out.push((all[i].0.clone(), value));
            assert(line_views(out@).drop_last() =~= before);
        }
        assert forall|name: Seq<char>| #[trigger]
            named(line_views(out@), name) == (if hop(name) {
                Seq::empty()
            } else {
                named(next, name)
            }) by {
            assert(named(before, name) == (if hop(name) {
                Seq::empty()
            } else {
                named(l.take(i as int), name)
            }));
        }
    }
    assert(l.take(l.len() as int) =~= l);
    let ghost kept = line_views(out@);
    if let Some((name, token)) = &added.dev_token {
        out.push((name.clone(), bytes_of(token)));
    }
    if let Some(token) = &added.access_token {
        out.push((ACCESS_TOKEN_HEADER.to_owned(), bytes_of(token)));
    }
    if let Some(user) = &added.forwarded_user {
        out.push((FORWARDED_USER_HEADER.to_owned(), bytes_of(user)));
    }
    proof {
        assert(line_views(out@) =~= kept + credential_lines(*added));
        assert forall|name: Seq<char>| #[trigger]
            named(line_views(out@), name) == values_of(end_to_end(given), name) + named(
                credential_lines(*added),
                name,
            ) by {
            named_in_both(kept, credential_lines(*added), name);
            assert(named(l, name) == values_of(given, name));
            assert(named(kept, name) =~= values_of(end_to_end(given), name));
        }
    }
    out
}

/// A header of one connection is not passed on, and every other one is, as it came.
pub proof fn hop_headers_stay(f: Map<Seq<char>, Seq<Seq<u8>>>, name: Seq<char>)
    ensures
        hop(name) ==> values_of(end_to_end(f), name) == Seq::<Seq<u8>>::empty(),
        !hop(name) ==> values_of(end_to_end(f), name) == values_of(f, name),
{
}

/// Passing headers on a second time changes nothing.
pub proof fn filtering_is_idempotent(f: Map<Seq<char>, Seq<Seq<u8>>>)
    ensures
        end_to_end(end_to_end(f)) == end_to_end(f),
{
    assert(end_to_end(end_to_end(f)) =~= end_to_end(f));
}

/// What became of a request to the target.
pub enum Upstream {
    /// The body was too large, or could not be read.
    BodyRefused,
    /// The target could not be reached.
    Unreachable,
    /// The target answered with a status and headers; the body follows.
    Answered(u16, HeaderMap<HeaderValue>),
}

/// The answer to the client: the target's, without the headers of the connection, or a bare 502.
pub fn proxy_http(upstream: &Upstream) -> (out: (u16, HeaderMap<HeaderValue>))
    ensures
        match upstream {
            Upstream::Answered(status, headers) => {
                ||| out.0 == *status && fields(out.1) == end_to_end(fields(*headers))
                ||| !has_room(fields(*headers)) && out.0 == 502 && fields(out.1)
                    == crate::headers::no_fields()
            },
            _ => out.0 == 502 && fields(out.1) == crate::headers::no_fields(),
        },
{
    match upstream {
        Upstream::Answered(status, headers) => match filter_headers(headers) {
            Ok(h) => (*status, h),
            Err(_) => (502, empty()),
        },
        _ => (502, empty()),
    }
}

/// The address of a WebSocket on the target.
pub fn ws_url(host: &str, port: u16, path_and_query: &str) -> (out: String)
    ensures
        out@ == "ws://"@ + host@ + ":"@ + decimal(port as nat) + path_and_query@,
{
    "ws://".to_owned().concat(host).concat(":").concat(&decimal_text(port as u64)).concat(
        path_and_query,
    )
}

/// A message of a WebSocket.
pub enum WsMessage {
    /// A text.
    Text(String),
    /// Bytes.
    Binary(Vec<u8>),
    /// A ping.
    Ping(Vec<u8>),
    /// A pong.
    Pong(Vec<u8>),
    /// A close with its code and reason, if it has them.
    Close(Option<(u16, String)>),
    /// A frame that was not put together to a message.
    Frame,
}

/// What came from one of the two sides.
pub enum RelayEvent {
    /// A message of the client.
    FromClient(WsMessage),
    /// A message of the target.
    FromTarget(WsMessage),
    /// A side is gone, or failed.
    Ended,
    /// Nothing came for a while.
    Idle,
}

/// What to do.
pub enum RelayAction {
    /// Send the message to the target.
    ToTarget(WsMessage),
    /// Send the message to the client.
    ToClient(WsMessage),
    /// Go on.
    Skip,
    /// End the connection.
    Stop,
}

/// Relays between client and target: messages go through unchanged, bare frames of the target are
/// dropped. A client's messages are always whole.
pub fn proxy_websocket(event: RelayEvent) -> (out: RelayAction)
    ensures
        match event {
            RelayEvent::FromClient(m) => out == RelayAction::ToTarget(m),
            RelayEvent::FromTarget(m) => out == (if m is Frame {
                RelayAction::Skip
            } else {
                RelayAction::ToClient(m)
            }),
            RelayEvent::Ended => out is Stop,
            RelayEvent::Idle => out is Stop,
        },
{
    match event {
        RelayEvent::FromClient(m) => RelayAction::ToTarget(m),
        RelayEvent::FromTarget(WsMessage::Frame) => RelayAction::Skip,
        RelayEvent::FromTarget(m) => RelayAction::ToClient(m),
        RelayEvent::Ended => RelayAction::Stop,
        RelayEvent::Idle => RelayAction::Stop,
    }
}

/// Of the headers of a message exactly eight names concern one connection and stay behind; a
/// header of any other name reaches the other side with all its values, in order.
pub proof fn only_eight_names_stay_behind(f: Map<Seq<char>, Seq<Seq<u8>>>, name: Seq<char>)
    ensures
        ({
            let n = lower(name);
            if n == "connection"@ || n == "upgrade"@ || n == "keep-alive"@ || n
                == "proxy-connection"@ || n == "transfer-encoding"@ || n == "te"@ || n
                == "trailer"@ || n == "host"@ {
                !end_to_end(f).dom().contains(name)
            } else {
                &&& end_to_end(f).dom().contains(name) <==> f.dom().contains(name)
                &&& f.dom().contains(name) ==> end_to_end(f)[name] == f[name]
            }
        }),
{
}

/// What the proxy adds is found by name: the development token under the name given for it, the
/// access token and the user under the names that the API reads.
pub proof fn credentials_are_found_by_name(c: Credentials)
    ensures
        ({
            let l = credential_lines(c);
            &&& forall|i: int|
                0 <= i < l.len() ==> {
                    ||| c.dev_token matches Some(t) && (#[trigger] l[i]) == (t.0@, utf8(t.1@))
                    ||| c.access_token matches Some(t) && l[i] == (
                        "x-forwarded-access-token"@,
                        utf8(t@),
                    )
                    ||| c.forwarded_user matches Some(u) && l[i] == ("x-forwarded-user"@, utf8(u@))
                }
            &&& c.dev_token matches Some(t) ==> l.contains((t.0@, utf8(t.1@)))
            &&& c.access_token matches Some(t) ==> l.contains(
                ("x-forwarded-access-token"@, utf8(t@)),
            )
            &&& c.forwarded_user matches Some(u) ==> l.contains(("x-forwarded-user"@, utf8(u@)))
        }),
{
    let l = credential_lines(c);
    let a = (match c.dev_token {
        Some((name, token)) => seq![(name@, utf8(token@))],
        None => Seq::empty(),
    });
    let b = (match c.access_token {
        Some(token) => seq![(ACCESS_TOKEN_HEADER@, utf8(token@))],
        None => Seq::empty(),
    });
    let d = (match c.forwarded_user {
        Some(user) => seq![(FORWARDED_USER_HEADER@, utf8(user@))],
        None => Seq::empty(),
    });
    assert(l =~= a + b + d);
    if c.dev_token is Some {
        assert(l[0] == a[0]);
    }
    if c.access_token is Some {
        assert(l[a.len() as int] == b[0]);
    }
    if c.forwarded_user is Some {
        assert(l[a.len() + b.len() as int] == d[0]);
    }
}

/// A request goes to the API under `/api`, and to any other target at its own path; without a path
/// it goes to the root.
pub proof fn targets_keep_the_path(path: Seq<char>)
    ensures
        target_path(ProxyTarget::Api, Some(path)) == "/api"@ + path,
        target_path(ProxyTarget::ApiUtils, Some(path)) == path,
        target_path(ProxyTarget::Ui, Some(path)) == path,
        target_path(ProxyTarget::Ui, None) == "/"@,
        target_path(ProxyTarget::ApiUtils, None) == "/"@,
        target_path(ProxyTarget::Api, None) == "/api"@ + "/"@,
{
}

/// A request is not logged exactly if it is for the tooling: below `/@`, a split route of the user
/// interface, within the installed modules, or a file with one of sixteen endings before its query,
/// in whatever case.
pub proof fn tooling_requests_are_not_logged(path: Seq<char>, is_ui: bool)
    ensures
        "/@"@.is_prefix_of(path) ==> !logged(path, is_ui),
        is_ui && has_text(path, "?tsr-split"@) ==> !logged(path, is_ui),
        has_text(path, "/node_modules/"@) ==> !logged(path, is_ui),
        !logged(path, is_ui) ==> "/@"@.is_prefix_of(path) || (is_ui && has_text(path, "?tsr-split"@))
            || has_text(path, "/node_modules/"@) || ends_like_an_asset(
            match cut(lower(path), '?') {
                Some((p, _)) => p,
                None => lower(path),
            },
        ),
        ends_like_an_asset(
            match cut(lower(path), '?') {
                Some((p, _)) => p,
                None => lower(path),
            },
        ) ==> !logged(path, is_ui),
{
    let p = match cut(lower(path), '?') {
        Some((p, _)) => p,
        None => lower(path),
    };
    let endings = asset_endings();
    assert(endings[0] == ".js"@ && endings[1] == ".ts"@ && endings[2] == ".tsx"@ && endings[3]
        == ".jsx"@);
    assert(endings[4] == ".css"@ && endings[5] == ".map"@ && endings[6] == ".svg"@ && endings[7]
        == ".png"@);
    assert(endings[8] == ".jpg"@ && endings[9] == ".jpeg"@ && endings[10] == ".gif"@ && endings[11]
        == ".ico"@);
    assert(endings[12] == ".woff"@ && endings[13] == ".woff2"@ && endings[14] == ".ttf"@
        && endings[15] == ".eot"@);
    if ends_like_an_asset(p) {
        let i = choose|i: int| 0 <= i < endings.len() && (#[trigger] endings[i]).is_suffix_of(p);
        assert(0 <= i < 16);
    }
}

/// The endings of files that the tooling serves.
pub open spec fn asset_endings() -> Seq<Seq<char>> {
    seq![
        ".js"@,
        ".ts"@,
        ".tsx"@,
        ".jsx"@,
        ".css"@,
        ".map"@,
        ".svg"@,
        ".png"@,
        ".jpg"@,
        ".jpeg"@,
        ".gif"@,
        ".ico"@,
        ".woff"@,
        ".woff2"@,
        ".ttf"@,
        ".eot"@,
    ]
}

/// The path has one of the endings.
pub open spec fn ends_like_an_asset(path: Seq<char>) -> bool {
    exists|i: int|
        0 <= i < asset_endings().len() && (#[trigger] asset_endings()[i]).is_suffix_of(path)
}

/// A header is read as the text of its first value; one that is not there, or is no text, is empty.
pub proof fn the_first_value_is_read(
    f: Map<Seq<char>, Seq<Seq<u8>>>,
    name: Seq<char>,
    value: Seq<u8>,
    more: Seq<Seq<u8>>,
)
    ensures
        visible_text(value) matches Some(t) ==> text_under(f.insert(name, seq![value] + more), name)
            == t,
        visible_text(value) is None ==> text_under(
            f.insert(name, seq![value] + more),
            name,
        ).len() == 0,
        !f.dom().contains(name) ==> text_under(f, name).len() == 0,
{
    assert((seq![value] + more)[0] == value);
}

} // verus!
