//! Requests and responses between the HTTP service and the application.

use hyper::header::{HeaderMap, HeaderValue};
use vstd::prelude::*;

verus! {

/// HTTP version of a connection.
#[derive(Clone, Copy, PartialEq, Eq, Structural, Debug)]
pub enum HttpVersion {
    /// HTTP/0.9.
    Http09,
    /// HTTP/1.0.
    Http10,
    /// HTTP/1.1.
    Http11,
    /// HTTP/2.
    Http2,
    /// HTTP/3.
    Http3,
}

/// HTTP version as the application is told.
#[derive(Clone, Copy, PartialEq, Eq, Structural, Debug)]
pub enum ProtocolVersion {
    /// HTTP/1.0.
    Http10,
    /// HTTP/1.1.
    Http11,
    /// HTTP/2.
    H2,
}

/// The version that the application is told: HTTP/1.1 unless it is 1.0 or 2.
pub open spec fn told_version(v: HttpVersion) -> ProtocolVersion {
    match v {
        HttpVersion::Http10 => ProtocolVersion::Http10,
        HttpVersion::Http2 => ProtocolVersion::H2,
        _ => ProtocolVersion::Http11,
    }
}

/// Chooses the version that the application is told.
pub fn protocol_of(v: HttpVersion) -> (out: ProtocolVersion)
    ensures
        out == told_version(v),
{
    match v {
        HttpVersion::Http10 => ProtocolVersion::Http10,
        HttpVersion::Http2 => ProtocolVersion::H2,
        _ => ProtocolVersion::Http11,
    }
}

/// An address of a socket.
#[derive(Clone, Debug)]
pub struct Addr {
    /// The IP address as text.
    pub ip: String,
    /// The port.
    pub port: u16,
}

/// A request, apart from its body.
#[derive(Debug)]
pub struct InboundRequest {
    /// Method.
    pub method: String,
    /// Path, not decoded.
    pub path: String,
    /// Query string without the question mark, empty when there is none.
    pub query_string: Vec<u8>,
    /// Headers.
    pub headers: HeaderMap<HeaderValue>,
    /// HTTP version.
    pub protocol: ProtocolVersion,
    /// Whether a body follows.
    pub has_body: bool,
    /// Address of the client, if known.
    pub client_addr: Option<Addr>,
    /// Address of the server.
    pub server_addr: Addr,
    /// Parameters matched in the path.
    pub path_params: Vec<(String, String)>,
}

/// The body of a response.
#[derive(Debug)]
pub enum ResponseBody {
    /// Bytes that are known.
    Fixed(Vec<u8>),
    /// Bytes that come later.
    Stream,
}

/// A response of the application.
#[derive(Debug)]
pub struct OutboundResponse {
    /// Status code.
    pub status: u16,
    /// Headers.
    pub headers: HeaderMap<HeaderValue>,
    /// Body.
    pub body: ResponseBody,
    /// Route that matched, if the application reports one.
    pub server_route: Option<String>,
}

/// A response as it is sent.
#[derive(Debug)]
pub struct HttpResponse {
    /// Status code.
    pub status: u16,
    /// Headers.
    pub headers: HeaderMap<HeaderValue>,
    /// Body.
    pub body: ResponseBody,
}

/// An application is told HTTP/1.0 and HTTP/2 as they are, and every other version as HTTP/1.1.
pub proof fn versions_are_told(v: HttpVersion)
    ensures
        told_version(v) == ProtocolVersion::Http10 <==> v == HttpVersion::Http10,
        told_version(v) == ProtocolVersion::H2 <==> v == HttpVersion::Http2,
        told_version(v) == ProtocolVersion::Http11 <==> v == HttpVersion::Http11 || v
            == HttpVersion::Http09 || v == HttpVersion::Http3,
{
}

} // verus!
