//! The messages that peers exchange to tunnel a protocol through the overlay.

use vstd::prelude::*;

verus! {

/// `bytes::Bytes`, carried through unopened.
#[verifier::external_type_specification]
#[verifier::external_body]
pub struct ExBytes(bytes::Bytes);

/// The bytes that a buffer holds.
pub uninterp spec fn bytes_contents(buffer: bytes::Bytes) -> Seq<u8>;

/// `Bytes::from` on a string: a buffer that holds its UTF-8 encoding.
#[verifier::external_body]
pub(crate) fn bytes_from_string(text: String) -> (r: bytes::Bytes)
    ensures
        bytes_contents(r) == vstd::utf8::encode_utf8(text@),
{
    bytes::Bytes::from(text)
}

/// The bytes of an optional body.
pub open spec fn body_contents(body: Option<bytes::Bytes>) -> Option<Seq<u8>> {
    match body {
        Some(buffer) => Some(bytes_contents(buffer)),
        None => None,
    }
}

/// A request that a peer wants carried out against the local HTTP service.
#[derive(Debug, Clone, PartialEq, Eq)]
pub struct HttpServerRequest {
    pub method: String,
    pub path: String,
    pub headers: Vec<(String, String)>,
    pub body: Option<bytes::Bytes>,
}

/// What the local HTTP service answered, or what stands for its answer.
#[derive(Debug, Clone, PartialEq, Eq)]
pub struct HttpServerResponse {
    pub status: u16,
    pub headers: Vec<(String, String)>,
    pub body: Option<bytes::Bytes>,
}

/// The two directions of the HTTP tunnel.
#[derive(Debug, Clone, PartialEq, Eq)]
pub enum HttpServerMessage {
    Request(HttpServerRequest),
    Response(HttpServerResponse),
}

/// A message of one of the tunnelled protocols.
#[derive(Debug, Clone, PartialEq, Eq)]
pub enum BackendMessage {
    HttpServer(HttpServerMessage),
}

/// A request as plain values.
pub struct RequestView {
    pub method: Seq<char>,
    pub path: Seq<char>,
    pub headers: Seq<(Seq<char>, Seq<char>)>,
    pub body: Option<Seq<u8>>,
}

/// A response as plain values.
pub struct ResponseView {
    pub status: u16,
    pub headers: Seq<(Seq<char>, Seq<char>)>,
    pub body: Option<Seq<u8>>,
}

/// A tunnelled message as plain values.
pub enum MessageView {
    Request(RequestView),
    Response(ResponseView),
}

impl View for HttpServerRequest {
    type V = RequestView;

    open spec fn view(&self) -> RequestView {
        RequestView {
            method: self.method@,
            path: self.path@,
            headers: self.headers.deep_view(),
            body: body_contents(self.body),
        }
    }
}

impl View for HttpServerResponse {
    type V = ResponseView;

    open spec fn view(&self) -> ResponseView {
        ResponseView {
            status: self.status,
            headers: self.headers.deep_view(),
            body: body_contents(self.body),
        }
    }
}

impl View for HttpServerMessage {
    type V = MessageView;

    open spec fn view(&self) -> MessageView {
        match self {
            HttpServerMessage::Request(request) => MessageView::Request(request@),
            HttpServerMessage::Response(response) => MessageView::Response(response@),
        }
    }
}

impl View for BackendMessage {
    type V = MessageView;

    open spec fn view(&self) -> MessageView {
        match self {
            BackendMessage::HttpServer(message) => message@,
        }
    }
}

} // verus!
