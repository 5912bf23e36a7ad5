//! The scope dict that an application gets with a request.

use hyper::header::{HeaderMap, HeaderValue};
use vstd::prelude::*;

use crate::asgi::percent::{percent_decode, percent_decoded};
use crate::headers::{fields, line_views, lines, named, values_of};
use crate::python_value::{
    copy_entries, dict_data, dict_holds_entries, items_data, list_holds_items, set_item,
    with_entry, PyData, PyValue,
};
use crate::text::{bytes_of, utf8};
use crate::transport::{Addr, InboundRequest, ProtocolVersion};

verus! {

/// A scope as a mathematical value.
pub type ScopeData = Seq<(Seq<char>, PyData)>;

/// The version text that the application is told.
pub open spec fn version_text(p: ProtocolVersion) -> Seq<char> {
    match p {
        ProtocolVersion::Http10 => "1.0"@,
        ProtocolVersion::Http11 => "1.1"@,
        ProtocolVersion::H2 => "2"@,
    }
}

impl ProtocolVersion {
    /// Writes the version text that the application is told.
    pub fn as_asgi_version(&self) -> (out: String)
        ensures
            out@ == version_text(*self),
    {
        match self {
            ProtocolVersion::Http10 => String::from_str("1.0"),
            ProtocolVersion::Http11 => String::from_str("1.1"),
            ProtocolVersion::H2 => String::from_str("2"),
        }
    }
}

/// The versions of the protocol between server and application.
pub open spec fn asgi_versions() -> PyData {
    PyData::Dict(
        seq![("version"@, PyData::Str("3.0"@)), ("spec_version"@, PyData::Str("2.4"@))],
    )
}

/// Builds the dict of protocol versions.
fn asgi_dict() -> (out: PyValue)
    ensures
        out.data() == asgi_versions(),
{
    let mut v: Vec<(String, PyValue)> = Vec::new();
    v.push((String::from_str("version"), PyValue::Str(String::from_str("3.0"))));
    v.push((String::from_str("spec_version"), PyValue::Str(String::from_str("2.4"))));
    proof {
        dict_holds_entries(v);
        assert(dict_data(v@) =~= asgi_versions()->Dict_0);
    }
    PyValue::Dict(v)
}

/// An address as a tuple of text and port.
pub open spec fn addr_data(a: Addr) -> PyData {
    PyData::Tuple(seq![PyData::Str(a.ip@), PyData::Int(a.port as int)])
}

/// Builds the tuple for an address.
fn addr_tuple(a: &Addr) -> (out: PyValue)
    ensures
        out.data() == addr_data(*a),
{
    let mut v: Vec<PyValue> = Vec::new();
    v.push(PyValue::Str(a.ip.clone()));
    v.push(PyValue::Int(a.port as i64));
    proof {
        list_holds_items(v);
        assert(items_data(v@) =~= addr_data(*a)->Tuple_0);
    }
    PyValue::Tuple(v)
}

/// What every HTTP scope begins with.
pub open spec fn http_template(server: Addr) -> ScopeData {
    seq![
        ("type"@, PyData::Str("http"@)),
        ("asgi"@, asgi_versions()),
        ("scheme"@, PyData::Str("http"@)),
        ("root_path"@, PyData::Str(Seq::empty())),
        ("http_version"@, PyData::Str("1.1"@)),
        ("server"@, addr_data(server)),
    ]
}

/// What is the same in every scope of a worker.
pub struct ScopeInterns {
    /// Address of the server.
    pub server: Addr,
    /// The beginning of every HTTP scope.
    pub scope_template: Vec<(String, PyValue)>,
}

impl ScopeInterns {
    /// The template is the one for the server's address.
    pub open spec fn well_formed(self) -> bool {
        dict_data(self.scope_template@) == http_template(self.server)
    }

    /// Builds what is the same in every scope of a worker at this address.
    pub fn new(server_addr: Addr) -> (out: ScopeInterns)
        ensures
            out.well_formed(),
            out.server == server_addr,
    {
        let mut t: Vec<(String, PyValue)> = Vec::new();
        t.push((String::from_str("type"), PyValue::Str(String::from_str("http"))));
        t.push((String::from_str("asgi"), asgi_dict()));
        t.push((String::from_str("scheme"), PyValue::Str(String::from_str("http"))));
        t.push((String::from_str("root_path"), PyValue::Str(String::new())));
        t.push((String::from_str("http_version"), PyValue::Str(String::from_str("1.1"))));
        t.push((String::from_str("server"), addr_tuple(&server_addr)));
        assert(dict_data(t@) =~= http_template(server_addr));
        ScopeInterns { server: server_addr, scope_template: t }
    }
}

/// A listing of a header map: every value with its name, the values of one name in order.
pub open spec fn listing(map: HeaderMap<HeaderValue>, l: Seq<(Seq<char>, Seq<u8>)>) -> bool {
    forall|name: Seq<char>| #[trigger] named(l, name) == values_of(fields(map), name)
}

/// A header line as a tuple of byte strings.
pub open spec fn line_data(l: (Seq<char>, Seq<u8>)) -> PyData {
    PyData::Tuple(seq![PyData::Bytes(utf8(l.0)), PyData::Bytes(l.1)])
}

/// Header lines as a list of tuples.
pub open spec fn headers_data(l: Seq<(Seq<char>, Seq<u8>)>) -> PyData {
    PyData::List(Seq::new(l.len(), |i: int| line_data(l[i])))
}

/// Builds the list of header tuples.
fn header_list(l: &[(String, Vec<u8>)]) -> (out: PyValue)
    ensures
        out.data() == headers_data(line_views(l@)),
{
    let ghost want = headers_data(line_views(l@))->List_0;
    let mut items: Vec<PyValue> = Vec::new();
    for i in 0..l.len()
        invariant
            want == headers_data(line_views(l@))->List_0,
            items_data(items@) == want.take(i as int),
    {
        let ghost before = items@;
        let mut t: Vec<PyValue> = Vec::new();
        t.push(PyValue::Bytes(bytes_of(&l[i].0)));
        t.push(PyValue::Bytes(copy_bytes(&l[i].1)));
        proof {
            list_holds_items(t);
            assert(items_data(t@) =~= line_data(line_views(l@)[i as int])->Tuple_0);
        }
        items.push(PyValue::Tuple(t));
        assert(items_data(items@) =~= items_data(before).push(want[i as int]));
        assert(want.take(i + 1) =~= want.take(i as int).push(want[i as int]));
    }
    assert(want.take(want.len() as int) =~= want);
    proof {
        list_holds_items(items);
    }
    PyValue::List(items)
}

/// A copy of bytes.
pub fn copy_bytes(b: &Vec<u8>) -> (out: Vec<u8>)
    ensures
        out@ == b@,
{
    vstd::slice::slice_to_vec(b.as_slice())
}

/// The client's address as the scope holds it.
pub open spec fn client_data(c: Option<Addr>) -> PyData {
    match c {
        Some(a) => addr_data(a),
        None => PyData::Nothing,
    }
}

/// Path parameters with decoded values; a later value of a name replaces an earlier one.
pub open spec fn params_data(p: Seq<(String, String)>) -> ScopeData
    decreases p.len(),
{
    if p.len() == 0 {
        Seq::empty()
    } else {
        with_entry(
            params_data(p.drop_last()),
            p.last().0@,
            PyData::Str(percent_decoded(p.last().1@)),
        )
    }
}

/// Builds the dict of path parameters.
fn params_dict(p: &[(String, String)]) -> (out: PyValue)
    ensures
        out.data() == PyData::Dict(params_data(p@)),
{
    let mut d: Vec<(String, PyValue)> = Vec::new();
    assert(dict_data(d@) =~= params_data(p@.take(0)));
    for i in 0..p.len()
        invariant
            dict_data(d@) == params_data(p@.take(i as int)),
    {
        assert(p@.take(i + 1).drop_last() =~= p@.take(i as int));
        set_item(&mut d, &p[i].0, PyValue::Str(percent_decode(&p[i].1)));
    }
    assert(p@.take(p@.len() as int) =~= p@);
    proof {
        dict_holds_entries(d);
    }
    PyValue::Dict(d)
}

/// What an HTTP scope holds, given a listing of its headers.
pub open spec fn http_scope(
    r: InboundRequest,
    server: Addr,
    l: Seq<(Seq<char>, Seq<u8>)>,
) -> ScopeData {
    seq![
        ("type"@, PyData::Str("http"@)),
        ("asgi"@, asgi_versions()),
        ("scheme"@, PyData::Str("http"@)),
        ("root_path"@, PyData::Str(Seq::empty())),
        ("http_version"@, PyData::Str(version_text(r.protocol))),
        ("server"@, addr_data(server)),
        ("method"@, PyData::Str(r.method@)),
        ("path"@, PyData::Str(percent_decoded(r.path@))),
        ("raw_path"@, PyData::Bytes(utf8(r.path@))),
        ("query_string"@, PyData::Bytes(r.query_string@)),
        ("headers"@, headers_data(l)),
        ("client"@, client_data(r.client_addr)),
        ("path_params"@, PyData::Dict(params_data(r.path_params@))),
        ("state"@, PyData::Dict(Seq::empty())),
    ]
}

/// Builds the tuple of the client's address, or `None`.
fn client_value(c: &Option<Addr>) -> (out: PyValue)
    ensures
        out.data() == client_data(*c),
{
    match c {
        Some(a) => addr_tuple(a),
        None => PyValue::Nothing,
    }
}

/// Builds an empty dict.
fn empty_dict() -> (out: PyValue)
    ensures
        out.data() == PyData::Dict(Seq::empty()),
{
    let v: Vec<(String, PyValue)> = Vec::new();
    proof {
        dict_holds_entries(v);
        assert(dict_data(v@) =~= Seq::empty());
    }
    PyValue::Dict(v)
}

/// Builds an HTTP scope from the template and header lines in a given order.
pub fn scope_with_headers(
    interns: &ScopeInterns,
    request: &InboundRequest,
    header_lines: &[(String, Vec<u8>)],
) -> (out: Vec<(String, PyValue)>)
    requires
        interns.well_formed(),
    ensures
        dict_data(out@) == http_scope(*request, interns.server, line_views(header_lines@)),
{
    let mut s = copy_entries(&interns.scope_template);
    let ghost template = dict_data(s@);
    assert(template == http_template(interns.server));
    assert(s@.len() == template.len());
    assert(forall|i: int|
        0 <= i < 6 ==> (s@[i].0@, (#[trigger] s@[i]).1.data()) == http_template(interns.server)[i])
        by {
        assert forall|i: int| 0 <= i < 6 implies (s@[i].0@, (#[trigger] s@[i]).1.data())
            == http_template(interns.server)[i] by {
            assert(template[i] == (s@[i].0@, s@[i].1.data()));
        }
    }
    let version = request.protocol.as_asgi_version();
    s.set(4, (String::from_str("http_version"), PyValue::Str(version)));
    s.push((String::from_str("method"), PyValue::Str(request.method.clone())));
    s.push((String::from_str("path"), PyValue::Str(percent_decode(&request.path))));
    s.push((String::from_str("raw_path"), PyValue::Bytes(bytes_of(&request.path))));
    s.push((String::from_str("query_string"), PyValue::Bytes(copy_bytes(&request.query_string))));
    s.push((String::from_str("headers"), header_list(header_lines)));
    s.push((String::from_str("client"), client_value(&request.client_addr)));
    s.push((String::from_str("path_params"), params_dict(&request.path_params)));
    s.push((String::from_str("state"), empty_dict()));
    assert(dict_data(s@) =~= http_scope(*request, interns.server, line_views(header_lines@)));
    s
}

/// The application object that a scope carries, and its router if it has that attribute.
pub struct AppObject {
    /// The application.
    pub app: PyValue,
    /// Its attribute `router`.
    pub router: Option<PyValue>,
}

/// The application object has no router.
#[derive(Clone, Copy, PartialEq, Eq, Structural, Debug)]
pub struct MissingRouter;

/// What an application object adds to a scope.
pub open spec fn app_entries(app: Option<AppObject>) -> ScopeData {
    match app {
        Some(AppObject { app, router: Some(router) }) => seq![
            ("app"@, app.data()),
            ("router"@, router.data()),
        ],
        _ => Seq::empty(),
    }
}

/// Builds the HTTP scope of a request; an application object is added with its router.
pub fn scope_from_template(
    interns: &ScopeInterns,
    request: &InboundRequest,
    fastapi_app: Option<AppObject>,
) -> (out: Result<Vec<(String, PyValue)>, MissingRouter>)
    requires
        interns.well_formed(),
    ensures
        match out {
            Ok(scope) => {
                &&& fastapi_app matches Some(a) ==> a.router is Some
                &&& exists|l: Seq<(Seq<char>, Seq<u8>)>|
                    listing(request.headers, l) && dict_data(scope@) == #[trigger] http_scope(
                        *request,
                        interns.server,
                        l,
                    ) + app_entries(fastapi_app)
            },
            Err(_) => fastapi_app matches Some(a) && a.router is None,
        },
{
    let l = lines(&request.headers);
    assert(listing(request.headers, line_views(l@)));
    let mut scope = scope_with_headers(interns, request, &l);
    let ghost bare = http_scope(*request, interns.server, line_views(l@));
    match fastapi_app {
        None => {
            assert(dict_data(scope@) =~= bare + app_entries(fastapi_app));
        },
        Some(AppObject { app, router: None }) => {
            return Err(MissingRouter);
        },
        Some(AppObject { app, router: Some(router) }) => {
            scope.push((String::from_str("app"), app));
            scope.push((String::from_str("router"), router));
            assert(dict_data(scope@) =~= bare + app_entries(fastapi_app));
        },
    }
    Ok(scope)
}

/// What a WebSocket scope holds, given a listing of its headers.
pub open spec fn ws_scope(
    r: InboundRequest,
    server: Addr,
    l: Seq<(Seq<char>, Seq<u8>)>,
) -> ScopeData {
    seq![
        ("type"@, PyData::Str("websocket"@)),
        ("asgi"@, asgi_versions()),
        ("scheme"@, PyData::Str("ws"@)),
        ("root_path"@, PyData::Str(Seq::empty())),
        ("http_version"@, PyData::Str(version_text(r.protocol))),
        ("path"@, PyData::Str(percent_decoded(r.path@))),
        ("raw_path"@, PyData::Bytes(utf8(r.path@))),
        ("query_string"@, PyData::Bytes(r.query_string@)),
        ("headers"@, headers_data(l)),
        ("server"@, addr_data(server)),
        ("client"@, client_data(r.client_addr)),
        ("path_params"@, PyData::Dict(params_data(r.path_params@))),
        ("state"@, PyData::Dict(Seq::empty())),
    ]
}

/// Builds a WebSocket scope from header lines in a given order.
pub fn ws_scope_with_headers(
    interns: &ScopeInterns,
    request: &InboundRequest,
    header_lines: &[(String, Vec<u8>)],
) -> (out: Vec<(String, PyValue)>)
    ensures
        dict_data(out@) == ws_scope(*request, interns.server, line_views(header_lines@)),
{
    let mut s: Vec<(String, PyValue)> = Vec::new();
    s.push((String::from_str("type"), PyValue::Str(String::from_str("websocket"))));
    s.push((String::from_str("asgi"), asgi_dict()));
    s.push((String::from_str("scheme"), PyValue::Str(String::from_str("ws"))));
    s.push((String::from_str("root_path"), PyValue::Str(String::new())));
    s.push((String::from_str("http_version"), PyValue::Str(request.protocol.as_asgi_version())));
    s.push((String::from_str("path"), PyValue::Str(percent_decode(&request.path))));
    s.push((String::from_str("raw_path"), PyValue::Bytes(bytes_of(&request.path))));
    s.push((String::from_str("query_string"), PyValue::Bytes(copy_bytes(&request.query_string))));
    s.push((String::from_str("headers"), header_list(header_lines)));
    s.push((String::from_str("server"), addr_tuple(&interns.server)));
    s.push((String::from_str("client"), client_value(&request.client_addr)));
    s.push((String::from_str("path_params"), params_dict(&request.path_params)));
    s.push((String::from_str("state"), empty_dict()));
    assert(dict_data(s@) =~= ws_scope(*request, interns.server, line_views(header_lines@)));
    s
}

/// Builds the WebSocket scope of a request.
pub fn build_ws_scope(interns: &ScopeInterns, request: &InboundRequest) -> (out: Vec<
    (String, PyValue),
>)
    ensures
        exists|l: Seq<(Seq<char>, Seq<u8>)>|
            listing(request.headers, l) && dict_data(out@) == #[trigger] ws_scope(
                *request,
                interns.server,
                l,
            ),
{
    let l = lines(&request.headers);
    assert(listing(request.headers, line_views(l@)));
    ws_scope_with_headers(interns, request, &l)
}

/// The items of a list that are pairs of bytes with the given first one: their second ones, in
/// order.
pub open spec fn seconds_under(items: Seq<PyData>, first: Seq<u8>) -> Seq<Seq<u8>>
    decreases items.len(),
{
    if items.len() == 0 {
        Seq::empty()
    } else {
        let before = seconds_under(items.drop_last(), first);
        match items.last() {
            PyData::Tuple(t) => if t.len() == 2 && t[0] == PyData::Bytes(first) && t[1] is Bytes {
                before.push(t[1]->Bytes_0)
            } else {
                before
            },
            _ => before,
        }
    }
}

/// Two texts with the same bytes are the same text.
proof fn bytes_tell_texts_apart(a: Seq<char>, b: Seq<char>)
    ensures
        utf8(a) == utf8(b) <==> a == b,
{
    vstd::utf8::encode_utf8_decode_utf8(a);
    vstd::utf8::encode_utf8_decode_utf8(b);
}

/// In the list that header lines make, the values of a name stand behind the name, in order.
proof fn values_stand_behind_names(l: Seq<(Seq<char>, Seq<u8>)>, name: Seq<char>)
    ensures
        headers_data(l) is List,
        headers_data(l)->List_0.len() == l.len(),
        seconds_under(headers_data(l)->List_0, utf8(name)) == named(l, name),
    decreases l.len(),
{
    let items = headers_data(l)->List_0;
    if l.len() > 0 {
        let front = l.drop_last();
        values_stand_behind_names(front, name);
        assert(items.drop_last() =~= headers_data(front)->List_0);
        assert(items.last() == line_data(l.last()));
        bytes_tell_texts_apart(l.last().0, name);
    }
}

/// What both scopes say of the headers of a request: a list in which the values of every name, as
/// the request has them, stand behind the bytes of the name, in order, and every item is a pair of
/// bytes whose first one is a name that the request has.
pub open spec fn tells_headers(scope: ScopeData, f: Map<Seq<char>, Seq<Seq<u8>>>) -> bool {
    match crate::python_value::lookup(scope, "headers"@) {
        Some(PyData::List(items)) => {
            &&& forall|name: Seq<char>| #[trigger]
                seconds_under(items, utf8(name)) == (if f.dom().contains(name) {
                    f[name]
                } else {
                    Seq::empty()
                })
            &&& forall|i: int|
                0 <= i < items.len() ==> ((#[trigger] items[i]) matches PyData::Tuple(t) && t.len()
                    == 2 && t[0] is Bytes && t[1] is Bytes)
        },
        _ => false,
    }
}

/// The keys of a scope are all different, so each can be read.
proof fn scope_keys_differ()
    ensures
        "type"@ != "headers"@,
        "asgi"@ != "headers"@,
        "scheme"@ != "headers"@,
        "root_path"@ != "headers"@,
        "http_version"@ != "headers"@,
        "server"@ != "headers"@,
        "method"@ != "headers"@,
        "path"@ != "headers"@,
        "raw_path"@ != "headers"@,
        "query_string"@ != "headers"@,
{
    reveal_strlit("type");
    reveal_strlit("asgi");
    reveal_strlit("scheme");
    reveal_strlit("root_path");
    reveal_strlit("http_version");
    reveal_strlit("server");
    reveal_strlit("method");
    reveal_strlit("path");
    reveal_strlit("raw_path");
    reveal_strlit("query_string");
    reveal_strlit("headers");
    assert("type"@.len() != "headers"@.len());
    assert("asgi"@.len() != "headers"@.len());
    assert("scheme"@.len() != "headers"@.len());
    assert("root_path"@.len() != "headers"@.len());
    assert("http_version"@.len() != "headers"@.len());
    assert("server"@.len() != "headers"@.len());
    assert("method"@.len() != "headers"@.len());
    assert("path"@.len() != "headers"@.len());
    assert("raw_path"@.len() != "headers"@.len());
    assert("query_string"@.len() != "headers"@.len());
}

/// An application finds the headers of a request by their names, in the scope of an HTTP request
/// and in that of a WebSocket, whatever order the header map lists them in.
pub proof fn headers_are_found_by_name(
    request: InboundRequest,
    server: Addr,
    l: Seq<(Seq<char>, Seq<u8>)>,
    app: Option<AppObject>,
)
    requires
        listing(request.headers, l),
    ensures
        tells_headers(http_scope(request, server, l) + app_entries(app), fields(request.headers)),
        tells_headers(ws_scope(request, server, l), fields(request.headers)),
{
    scope_keys_differ();
    let items = headers_data(l)->List_0;
    let http = http_scope(request, server, l) + app_entries(app);
    let ws = ws_scope(request, server, l);
    crate::python_value::lookup_finds_the_first(http, "headers"@, 10);
    crate::python_value::lookup_finds_the_first(ws, "headers"@, 8);
    values_stand_behind_names(l, Seq::empty());
    assert forall|name: Seq<char>| #[trigger]
        seconds_under(items, utf8(name)) == (if fields(request.headers).dom().contains(name) {
            fields(request.headers)[name]
        } else {
            Seq::empty()
        }) by {
        values_stand_behind_names(l, name);
        assert(named(l, name) == values_of(fields(request.headers), name));
    }
    assert forall|i: int| 0 <= i < items.len() implies ((#[trigger] items[i]) matches PyData::Tuple(t)
        && t.len() == 2 && t[0] is Bytes && t[1] is Bytes) by {
        assert(items[i] == line_data(l[i]));
    }
}

/// Every header item of a scope has a name of the request's header map in front.
pub proof fn no_header_is_made_up(
    request: InboundRequest,
    l: Seq<(Seq<char>, Seq<u8>)>,
    i: int,
)
    requires
        listing(request.headers, l),
        0 <= i < l.len(),
    ensures
        headers_data(l) matches PyData::List(items) && items[i] matches PyData::Tuple(t) && t.len()
            == 2 && exists|name: Seq<char>| #[trigger]
            fields(request.headers).dom().contains(name) && t[0] == PyData::Bytes(utf8(name)),
{
    let name = l[i].0;
    listed_names_have_values(l, i);
    assert(named(l, name) == values_of(fields(request.headers), name));
    assert(headers_data(l)->List_0[i] == line_data(l[i]));
    assert(fields(request.headers).dom().contains(name));
}

/// A name that is listed has a value in the listing.
proof fn listed_names_have_values(l: Seq<(Seq<char>, Seq<u8>)>, i: int)
    requires
        0 <= i < l.len(),
    ensures
        named(l, l[i].0).len() > 0,
    decreases l.len(),
{
    if i < l.len() - 1 {
        listed_names_have_values(l.drop_last(), i);
    }
}

/// An HTTP scope tells the application of the request as it came: the method, the decoded and the
/// raw path, the query, the version, both addresses, the parameters of the path and a state of its
/// own.
pub proof fn http_scope_tells_the_request(
    request: InboundRequest,
    server: Addr,
    l: Seq<(Seq<char>, Seq<u8>)>,
)
    ensures
        ({
            let s = http_scope(request, server, l);
            &&& s.contains(("type"@, PyData::Str("http"@)))
            &&& s.contains(("scheme"@, PyData::Str("http"@)))
            &&& s.contains(("root_path"@, PyData::Str(Seq::empty())))
            &&& s.contains(("method"@, PyData::Str(request.method@)))
            &&& s.contains(("path"@, PyData::Str(percent_decoded(request.path@))))
            &&& s.contains(("raw_path"@, PyData::Bytes(utf8(request.path@))))
            &&& s.contains(("query_string"@, PyData::Bytes(request.query_string@)))
            &&& s.contains(
                (
                    "server"@,
                    PyData::Tuple(seq![PyData::Str(server.ip@), PyData::Int(server.port as int)]),
                ),
            )
            &&& s.contains(
                (
                    "client"@,
                    match request.client_addr {
                        Some(a) => PyData::Tuple(
                            seq![PyData::Str(a.ip@), PyData::Int(a.port as int)],
                        ),
                        None => PyData::Nothing,
                    },
                ),
            )
            &&& s.contains(
                (
                    "http_version"@,
                    PyData::Str(
                        match request.protocol {
                            ProtocolVersion::Http10 => "1.0"@,
                            ProtocolVersion::Http11 => "1.1"@,
                            ProtocolVersion::H2 => "2"@,
                        },
                    ),
                ),
            )
            &&& s.contains(
                (
                    "asgi"@,
                    PyData::Dict(
                        seq![
                            ("version"@, PyData::Str("3.0"@)),
                            ("spec_version"@, PyData::Str("2.4"@)),
                        ],
                    ),
                ),
            )
            &&& s.contains(("state"@, PyData::Dict(Seq::empty())))
            &&& s.contains(("path_params"@, PyData::Dict(params_data(request.path_params@))))
            &&& s.len() == 14
        }),
{
    let s = http_scope(request, server, l);
    assert(s[0].0 == "type"@ && s[1].0 == "asgi"@ && s[2].0 == "scheme"@ && s[3].0 == "root_path"@);
    assert(s[4].0 == "http_version"@ && s[5].0 == "server"@ && s[6].0 == "method"@ && s[7].0
        == "path"@);
    assert(s[8].0 == "raw_path"@ && s[9].0 == "query_string"@ && s[11].0 == "client"@ && s[12].0
        == "path_params"@ && s[13].0 == "state"@);
}

/// A WebSocket scope tells the application of the request as it came.
pub proof fn ws_scope_tells_the_request(
    request: InboundRequest,
    server: Addr,
    l: Seq<(Seq<char>, Seq<u8>)>,
)
    ensures
        ({
            let s = ws_scope(request, server, l);
            &&& s.contains(("type"@, PyData::Str("websocket"@)))
            &&& s.contains(("scheme"@, PyData::Str("ws"@)))
            &&& s.contains(("root_path"@, PyData::Str(Seq::empty())))
            &&& s.contains(("path"@, PyData::Str(percent_decoded(request.path@))))
            &&& s.contains(("raw_path"@, PyData::Bytes(utf8(request.path@))))
            &&& s.contains(("query_string"@, PyData::Bytes(request.query_string@)))
            &&& s.contains(
                (
                    "server"@,
                    PyData::Tuple(seq![PyData::Str(server.ip@), PyData::Int(server.port as int)]),
                ),
            )
            &&& s.contains(
                (
                    "client"@,
                    match request.client_addr {
                        Some(a) => PyData::Tuple(
                            seq![PyData::Str(a.ip@), PyData::Int(a.port as int)],
                        ),
                        None => PyData::Nothing,
                    },
                ),
            )
            &&& s.contains(
                (
                    "http_version"@,
                    PyData::Str(
                        match request.protocol {
                            ProtocolVersion::Http10 => "1.0"@,
                            ProtocolVersion::Http11 => "1.1"@,
                            ProtocolVersion::H2 => "2"@,
                        },
                    ),
                ),
            )
            &&& s.contains(("asgi"@, asgi_versions()))
            &&& s.contains(("state"@, PyData::Dict(Seq::empty())))
            &&& s.contains(("path_params"@, PyData::Dict(params_data(request.path_params@))))
            &&& s.len() == 13
        }),
{
    let s = ws_scope(request, server, l);
    assert(s[0].0 == "type"@ && s[1].0 == "asgi"@ && s[2].0 == "scheme"@ && s[3].0 == "root_path"@);
    assert(s[4].0 == "http_version"@ && s[5].0 == "path"@ && s[6].0 == "raw_path"@ && s[7].0
        == "query_string"@);
    assert(s[9].0 == "server"@ && s[10].0 == "client"@ && s[11].0 == "path_params"@ && s[12].0
        == "state"@);
}

/// A path parameter is found under its name with its decoded value, and the last one of a name
/// counts.
pub proof fn path_parameters_are_found(p: Seq<(String, String)>, i: int)
    requires
        0 <= i < p.len(),
        forall|j: int| i < j < p.len() ==> (#[trigger] p[j]).0@ != p[i].0@,
    ensures
        crate::python_value::lookup(params_data(p), p[i].0@) == Some(
            PyData::Str(percent_decoded(p[i].1@)),
        ),
    decreases p.len(),
{
    let front = params_data(p.drop_last());
    crate::python_value::set_then_get(
        front,
        p.last().0@,
        PyData::Str(percent_decoded(p.last().1@)),
    );
    if i < p.len() - 1 {
        assert(p.last().0@ != p[i].0@);
        assert forall|j: int| i < j < p.drop_last().len() implies (#[trigger] p.drop_last()[j]).0@
            != p.drop_last()[i].0@ by {
            assert(p.drop_last()[j] == p[j]);
        }
        path_parameters_are_found(p.drop_last(), i);
    }
}

/// An application object is told with its router, and without one nothing is added.
pub proof fn application_objects_are_told(app: PyValue, router: PyValue)
    ensures
        app_entries(Some(AppObject { app, router: Some(router) })) == seq![
            ("app"@, app.data()),
            ("router"@, router.data()),
        ],
        app_entries(None).len() == 0,
        app_entries(Some(AppObject { app, router: None })).len() == 0,
{
}

/// What all requests of a server have in common is part of the scope of each of them.
pub proof fn templates_are_part_of_scopes(
    request: InboundRequest,
    server: Addr,
    l: Seq<(Seq<char>, Seq<u8>)>,
    i: int,
)
    requires
        0 <= i < http_template(server).len(),
    ensures
        http_template(server)[i].0 != "http_version"@ ==> http_scope(request, server, l).contains(
            http_template(server)[i],
        ),
{
    let s = http_scope(request, server, l);
    assert(s[0] == ("type"@, PyData::Str("http"@)));
    assert(s[1] == ("asgi"@, asgi_versions()));
    assert(s[2] == ("scheme"@, PyData::Str("http"@)));
    assert(s[3] == ("root_path"@, PyData::Str(Seq::empty())));
    assert(s[5].0 == "server"@);
}

} // verus!
