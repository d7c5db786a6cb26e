//! Execution of tunnelled service requests on behalf of remote peers.

pub mod headers;
pub mod laws;
pub mod message;

use crate::backend::headers::{
    appended, header_map_append, header_map_entries, header_map_new, header_name_from_str,
    header_value_from_str, is_header_name, is_header_value, is_known_method, method_from_name,
    method_text, no_entries, normalised, HEADER_MAP_ROOM,
};
use crate::backend::message::{
    body_contents, bytes_contents, bytes_from_string, BackendMessage, HttpServerMessage,
    HttpServerRequest, HttpServerResponse, MessageView, RequestView, ResponseView,
};
use crate::error::Error;
use crate::text::{
    decimal, push_decimal, to_uppercase, trim_start, trim_start_matches, uppercase,
};
use vstd::prelude::*;
use vstd::utf8::encode_utf8;

verus! {

/// How long a call of the local service may take, in seconds.
pub const REQUEST_TIMEOUT_SECS: u64 = 15;

/// What the backend serves.
#[derive(Debug)]
pub struct BackendConfig {
    /// The local HTTP service, if requests are to be tunnelled to one.
    pub http_server: Option<HttpServerConfig>,
}

/// Where the local HTTP service listens.
#[derive(Debug)]
pub struct HttpServerConfig {
    pub port: u16,
}

/// The local HTTP service that tunnelled requests are carried out against.
pub struct HttpServer {
    port: u16,
}

/// The dispatcher of tunnelled messages.
pub struct Backend {
    http_server: Option<HttpServer>,
}

/// What arrived over the overlay, as far as it could be read.
pub enum Inbound {
    /// The payload could not be decrypted.
    Undecryptable,
    /// The decrypted bytes are no message.
    Unparseable,
    /// A message.
    Message(BackendMessage),
}

/// A message on its way back to the peer that asked, with the routing
/// context of the request it answers: the transaction it belongs to, the
/// path it takes, the key it is encrypted for.
pub struct Report<C> {
    pub context: C,
    pub message: BackendMessage,
}

/// What the dispatcher does about an inbound message.
pub enum Dispatch<C> {
    /// Nothing: the input was noise.
    Ignore,
    /// Nothing: a request came in, but no local service is configured.
    Unserved,
    /// Nothing is sent: this is the answer to a request of this node.
    Received(HttpServerResponse),
    /// The local service is to be called, and the outcome answered with
    /// [`Backend::answer`] under the same context.
    Call { context: C, call: HttpCall },
    /// The report is to be sent as it is.
    Report(Report<C>),
}

/// The status of a response that stands for a failed execution.
pub const FAILURE_STATUS: u16 = 500;

/// The response that stands for an execution that failed with `cause`.
pub open spec fn failure_response(cause: Seq<char>) -> ResponseView {
    ResponseView { status: FAILURE_STATUS, headers: Seq::empty(), body: Some(encode_utf8(cause)) }
}

/// One call of the local HTTP service, ready to be made.
pub struct HttpCall {
    pub url: String,
    pub method: http::Method,
    pub headers: http::header::HeaderMap<http::header::HeaderValue>,
    pub body: Option<bytes::Bytes>,
    pub timeout_secs: u64,
}

/// A call of the local service as plain values.
pub struct HttpCallView {
    pub url: Seq<char>,
    pub method: Seq<char>,
    pub headers: Map<Seq<char>, Seq<Seq<u8>>>,
    pub body: Option<Seq<u8>>,
    pub timeout_secs: u64,
}

impl View for HttpCall {
    type V = HttpCallView;

    open spec fn view(&self) -> HttpCallView {
        HttpCallView {
            url: self.url@,
            method: method_text(self.method),
            headers: header_map_entries(self.headers),
            body: body_contents(self.body),
            timeout_secs: self.timeout_secs,
        }
    }
}

/// What arrived, as plain values.
pub enum InboundView {
    Undecryptable,
    Unparseable,
    Message(MessageView),
}

impl View for Inbound {
    type V = InboundView;

    open spec fn view(&self) -> InboundView {
        match self {
            Inbound::Undecryptable => InboundView::Undecryptable,
            Inbound::Unparseable => InboundView::Unparseable,
            Inbound::Message(message) => InboundView::Message(message@),
        }
    }
}

/// A report as plain values, but for its context.
pub struct ReportView<C> {
    pub context: C,
    pub message: MessageView,
}

impl<C> View for Report<C> {
    type V = ReportView<C>;

    open spec fn view(&self) -> ReportView<C> {
        ReportView { context: self.context, message: self.message@ }
    }
}

/// A decision of the dispatcher as plain values, but for its context.
pub enum DispatchView<C> {
    Ignore,
    Unserved,
    Received(ResponseView),
    Call { context: C, call: HttpCallView },
    Report(ReportView<C>),
}

impl<C> View for Dispatch<C> {
    type V = DispatchView<C>;

    open spec fn view(&self) -> DispatchView<C> {
        match self {
            Dispatch::Ignore => DispatchView::Ignore,
            Dispatch::Unserved => DispatchView::Unserved,
            Dispatch::Received(response) => DispatchView::Received(response@),
            Dispatch::Call { context, call } => DispatchView::Call {
                context: *context,
                call: call@,
            },
            Dispatch::Report(report) => DispatchView::Report(report@),
        }
    }
}

/// The address of `path` at the local service on `port`.
pub open spec fn target_url(port: u16, path: Seq<char>) -> Seq<char> {
    "http://localhost:"@ + decimal(port as nat) + "/"@ + trim_start(path, '/')
}

/// What is wrong with one header, if anything: its name is looked at first.
pub open spec fn header_fault(header: (Seq<char>, Seq<char>)) -> Option<Seq<char>> {
    if !is_header_name(header.0) {
        Some("Invalid header name: "@ + header.0)
    } else if !is_header_value(header.1) {
        Some("Invalid header value: "@ + header.1)
    } else {
        None
    }
}

/// The fault of the first header that has one.
pub open spec fn first_fault(headers: Seq<(Seq<char>, Seq<char>)>) -> Option<Seq<char>>
    decreases headers.len(),
{
    if headers.len() == 0 {
        None
    } else {
        match first_fault(headers.drop_last()) {
            Some(fault) => Some(fault),
            None => header_fault(headers.last()),
        }
    }
}

/// The header map that faultless headers fill, one after the other: each
/// value goes behind the values that were given under its name before it.
pub open spec fn entries_of(headers: Seq<(Seq<char>, Seq<char>)>) -> Map<
    Seq<char>,
    Seq<Seq<u8>>,
>
    decreases headers.len(),
{
    if headers.len() == 0 {
        no_entries()
    } else {
        appended(
            entries_of(headers.drop_last()),
            normalised(headers.last().0),
            encode_utf8(headers.last().1),
        )
    }
}

/// Why a request is turned down before any call is made, if it is: its
/// method is looked at first, in upper case.
pub open spec fn rejection(request: RequestView) -> Option<Seq<char>> {
    if !is_known_method(uppercase(request.method)) {
        Some("Invalid HTTP method"@)
    } else {
        first_fault(request.headers)
    }
}

/// The call that carries out a request with the method that reads
/// `method`.
pub open spec fn prepared(port: u16, method: Seq<char>, request: RequestView) -> HttpCallView {
    HttpCallView {
        url: target_url(port, request.path),
        method,
        headers: entries_of(request.headers),
        body: request.body,
        timeout_secs: REQUEST_TIMEOUT_SECS,
    }
}

/// Whether `cause` is a reason for which no call is made for a request: it
/// is why the request is turned down, or the request has more headers than
/// a header map surely has room for.
pub open spec fn refused(request: RequestView, cause: Seq<char>) -> bool {
    ||| rejection(request) == Some(cause)
    ||| (cause == "Too many headers"@ && request.headers.len() > HEADER_MAP_ROOM)
}

/// The report that ends a request under `context`.
pub open spec fn answer_of<C>(context: C, outcome: Result<ResponseView, Seq<char>>) -> ReportView<
    C,
> {
    ReportView {
        context,
        message: MessageView::Response(
            match outcome {
                Ok(response) => response,
                Err(cause) => failure_response(cause),
            },
        ),
    }
}

/// Whether `decision` is what a dispatcher that serves `port` makes of
/// `inbound`.
pub open spec fn dispatches<C>(
    port: Option<u16>,
    context: C,
    inbound: InboundView,
    decision: DispatchView<C>,
) -> bool {
    match inbound {
        InboundView::Undecryptable | InboundView::Unparseable => decision is Ignore,
        InboundView::Message(MessageView::Response(response)) => decision
            == DispatchView::<C>::Received(response),
        InboundView::Message(MessageView::Request(request)) => match port {
            None => decision is Unserved,
            Some(port) => match decision {
                DispatchView::Call { context: c, call } => {
                    &&& c == context
                    &&& rejection(request) is None
                    &&& call == prepared(port, uppercase(request.method), request)
                },
                DispatchView::Report(report) => exists|cause: Seq<char>|
                    {
                        &&& refused(request, cause)
                        &&& report == #[trigger] answer_of(context, Err(cause))
                    },
                _ => false,
            },
        },
    }
}

/// A byte that a header value shows as text: a tab, or a visible character
/// of the ASCII alphabet, the space included.
pub open spec fn is_visible_byte(b: u8) -> bool {
    b == 9 || 32 <= b <= 126
}

/// Bytes that a header value shows as text.
pub open spec fn is_visible_text(bytes: Seq<u8>) -> bool {
    forall|i: int| 0 <= i < bytes.len() ==> is_visible_byte(#[trigger] bytes[i])
}

/// The text that bytes of the ASCII alphabet spell.
pub open spec fn text_of(bytes: Seq<u8>) -> Seq<char> {
    Seq::new(bytes.len(), |i: int| bytes[i] as char)
}

/// The headers of a response as text, from their bytes.
pub open spec fn read_headers(raw: Seq<(Seq<char>, Seq<u8>)>) -> Seq<(Seq<char>, Seq<char>)> {
    Seq::new(raw.len(), |i: int| (raw[i].0, text_of(raw[i].1)))
}

/// Whether `cause` says that the header at `i` is the first whose value is
/// no text.
pub open spec fn unreadable_at(raw: Seq<(Seq<char>, Seq<u8>)>, i: int, cause: Seq<char>) -> bool {
    &&& 0 <= i < raw.len()
    &&& forall|j: int| 0 <= j < i ==> is_visible_text(#[trigger] raw[j].1)
    &&& !is_visible_text(raw[i].1)
    &&& cause == "Invalid response header value: "@ + raw[i].0
}

/// Whether `cause` says which header is the first whose value is no text.
pub open spec fn unreadable(raw: Seq<(Seq<char>, Seq<u8>)>, cause: Seq<char>) -> bool {
    exists|i: int| #[trigger] unreadable_at(raw, i, cause)
}

/// A fault among the first `k` headers is the fault of the whole list.
pub proof fn lemma_fault_persists(headers: Seq<(Seq<char>, Seq<char>)>, k: int)
    requires
        0 <= k <= headers.len(),
        first_fault(headers.take(k)) is Some,
    ensures
        first_fault(headers) == first_fault(headers.take(k)),
    decreases headers.len() - k,
{
    if k == headers.len() {
        assert(headers.take(k) == headers);
    } else {
        assert(headers.take(k + 1).drop_last() == headers.take(k));
        lemma_fault_persists(headers, k + 1);
    }
}

/// Whether `name` reads as `word`.
fn reads(name: &String, word: &str) -> (r: bool)
    ensures
        r == (name@ == word@),
{
    *name == String::from_str(word)
}

/// The method that an upper-case name stands for.
pub fn method_from_upper(upper: &str) -> (r: Result<http::Method, Error>)
    ensures
        r is Ok <==> is_known_method(upper@),
        r matches Ok(method) ==> method_text(method) == upper@,
        r matches Err(e) ==> e.message() == "Invalid HTTP method"@,
{
    let name = String::from_str(upper);
    let known = reads(&name, "GET") || reads(&name, "POST") || reads(&name, "PUT") || reads(
        &name,
        "DELETE",
    ) || reads(&name, "HEAD") || reads(&name, "OPTIONS") || reads(&name, "TRACE") || reads(
        &name,
        "CONNECT",
    ) || reads(&name, "PATCH");
    if known {
        match method_from_name(upper) {
            Some(method) => Ok(method),
            None => Err(Error::HttpRequestError(String::from_str("Invalid HTTP method"))),
        }
    } else {
        Err(Error::HttpRequestError(String::from_str("Invalid HTTP method")))
    }
}

/// The text that `bytes` spell, where they show as text.
fn visible_text(bytes: &Vec<u8>) -> (r: Option<String>)
    ensures
        r is Some <==> is_visible_text(bytes@),
        r matches Some(text) ==> text@ == text_of(bytes@),
{
    let mut text = String::new();
    let mut i: usize = 0;
    while i < bytes.len()
        invariant
            i <= bytes.len(),
            text@ == text_of(bytes@.take(i as int)),
            is_visible_text(bytes@.take(i as int)),
        decreases bytes.len() - i,
    {
        let b = bytes[i];
        if !(b == 9 || (32 <= b && b <= 126)) {
            return None;
        }
        text.push(b as char);
        assert(bytes@.take(i + 1) == bytes@.take(i as int).push(b));
        assert(text@ =~= text_of(bytes@.take(i + 1)));
        i = i + 1;
    }
    assert(bytes@.take(i as int) == bytes@);
    Some(text)
}

/// The method that a name stands for, whatever its case.
pub fn try_into_method(s: &str) -> (r: Result<http::Method, Error>)
    ensures
        r is Ok <==> is_known_method(uppercase(s@)),
        r matches Ok(method) ==> method_text(method) == uppercase(s@),
        r matches Err(e) ==> e.message() == "Invalid HTTP method"@,
{
    let upper = to_uppercase(s);
    method_from_upper(upper.as_str())
}

impl Backend {
    /// The dispatcher that serves what `config` names.
    pub fn new(config: BackendConfig) -> (backend: Self)
        ensures
            backend.port() == match config.http_server {
                Some(server) => Some(server.port),
                None => None,
            },
    {
        Self {
            http_server: match config.http_server {
                Some(server) => Some(HttpServer::new(server)),
                None => None,
            },
        }
    }

    /// The port of the local HTTP service, where one is configured.
    pub closed spec fn port(&self) -> Option<u16> {
        match self.http_server {
            Some(server) => Some(server.port()),
            None => None,
        }
    }

    /// Whether requests are carried out against a local HTTP service.
    pub fn serves_http(&self) -> (r: bool)
        ensures
            r == self.port() is Some,
    {
        self.http_server.is_some()
    }

    /// The report that ends a request: the response of the local service,
    /// or the response that stands for the failure of the call.
    pub fn answer<C>(context: C, outcome: Result<HttpServerResponse, Error>) -> (report: Report<C>)
        ensures
            report@ == answer_of(
                context,
                match outcome {
                    Ok(response) => Ok(response@),
                    Err(e) => Err(e.message()),
                },
            ),
    {
        let response = match outcome {
            Ok(response) => response,
            Err(e) => {
                let failure = HttpServerResponse {
                    status: FAILURE_STATUS,
                    headers: Vec::new(),
                    body: Some(bytes_from_string(e.to_string())),
                };
                assert(failure@.headers =~= Seq::empty());
                failure
            },
        };
        Report {
            context,
            message: BackendMessage::HttpServer(HttpServerMessage::Response(response)),
        }
    }

    /// Decides what to do about an inbound message that arrived under
    /// `context`.
    pub fn custom_message<C>(&self, context: C, inbound: Inbound) -> (r: Dispatch<C>)
        ensures
            dispatches(self.port(), context, inbound@, r@),
    {
        match inbound {
            Inbound::Undecryptable => Dispatch::Ignore,
            Inbound::Unparseable => Dispatch::Ignore,
            Inbound::Message(BackendMessage::HttpServer(HttpServerMessage::Response(response))) => {
                Dispatch::Received(response)
            },
            Inbound::Message(BackendMessage::HttpServer(HttpServerMessage::Request(request))) => {
                match &self.http_server {
                    None => Dispatch::Unserved,
                    Some(server) => match server.execute(request) {
                        Ok(call) => Dispatch::Call { context, call },
                        Err(e) => {
                            let ghost cause = e.message();
                            let report = Self::answer(context, Err(e));
                            assert(report@ == answer_of(context, Err(cause)));
                            Dispatch::Report(report)
                        },
                    },
                }
            },
        }
    }
}

impl HttpServer {
    /// The local service that listens where `config` says.
    pub fn new(config: HttpServerConfig) -> (server: Self)
        ensures
            server.port() == config.port,
    {
        Self { port: config.port }
    }

    /// The port of the local service.
    pub closed spec fn port(&self) -> u16 {
        self.port
    }

    /// The address of `path` at the local service.
    pub fn url(&self, path: &str) -> (url: String)
        ensures
            url@ == target_url(self.port(), path@),
    {
        let mut url = String::from_str("http://localhost:");
        push_decimal(&mut url, self.port);
        url.append("/");
        url.append(trim_start_matches(path, '/'));
        url
    }

    /// The headers of a response of the local service as text. A response
    /// with a header value that is no text cannot be handed on.
    pub fn reply_headers(raw: Vec<(String, Vec<u8>)>) -> (r: Result<Vec<(String, String)>, Error>)
        ensures
            r is Ok <==> forall|i: int|
                0 <= i < raw.len() ==> is_visible_text(#[trigger] raw.deep_view()[i].1),
            r matches Ok(headers) ==> headers.deep_view() == read_headers(raw.deep_view()),
            r matches Err(e) ==> unreadable(raw.deep_view(), e.message()),
    {
        let mut headers: Vec<(String, String)> = Vec::new();
        let ghost all = raw.deep_view();
        let mut i: usize = 0;
        while i < raw.len()
            invariant
                i <= raw.len(),
                all == raw.deep_view(),
                headers.len() == i,
                forall|j: int| 0 <= j < i ==> is_visible_text(#[trigger] all[j].1),
                forall|j: int|
                    0 <= j < i ==> (#[trigger] headers@[j]).0@ == all[j].0 && headers@[j].1@
                        == text_of(all[j].1),
            decreases raw.len() - i,
        {
            assert(all[i as int] == (raw@[i as int].0@, raw@[i as int].1@));
            match visible_text(&raw[i].1) {
                Some(value) => {
                    headers.push((raw[i].0.clone(), value));
                },
                None => {
                    let cause = String::from_str("Invalid response header value: ").concat(
                        raw[i].0.as_str(),
                    );
                    let e = Error::HttpRequestError(cause);
                    assert(unreadable_at(all, i as int, e.message()));
                    return Err(e);
                },
            }
            i = i + 1;
        }
        assert(headers.deep_view() =~= read_headers(all));
        Ok(headers)
    }

    /// The response that the local service gave, from its parts.
    pub fn response(status: u16, headers: Vec<(String, String)>, body: bytes::Bytes) -> (response:
        HttpServerResponse)
        ensures
            response@ == (ResponseView {
                status,
                headers: headers.deep_view(),
                body: Some(bytes_contents(body)),
            }),
    {
        HttpServerResponse { status, headers, body: Some(body) }
    }

    /// The call that carries out `request` with `method`.
    pub fn prepare(&self, method: http::Method, request: HttpServerRequest) -> (r: Result<
        HttpCall,
        Error,
    >)
        ensures
            request.headers.len() <= HEADER_MAP_ROOM ==> (r is Ok <==> first_fault(
                request@.headers,
            ) is None),
            r matches Ok(call) ==> {
                &&& first_fault(request@.headers) is None
                &&& call.method == method
                &&& call@ == prepared(self.port(), method_text(method), request@)
            },
            r matches Err(e) ==> {
                ||| first_fault(request@.headers) == Some(e.message())
                ||| (e.message() == "Too many headers"@ && request.headers.len()
                    > HEADER_MAP_ROOM)
            },
    {
        let url = self.url(request.path.as_str());
        let mut headers = header_map_new();
        let ghost all = request@.headers;
        let count = request.headers.len();
        let mut i: usize = 0;
        assert(all.take(0) == Seq::<(Seq<char>, Seq<char>)>::empty());
        while i < count
            invariant
                i <= count,
                count == request.headers.len(),
                all == request@.headers,
                first_fault(all.take(i as int)) is None,
                header_map_entries(headers) == entries_of(all.take(i as int)),
                header_map_entries(headers).dom().finite(),
                header_map_entries(headers).dom().len() <= i,
            decreases count - i,
        {
            let ghost before = all.take(i as int);
            let ghost upto = all.take(i + 1);
            assert(upto.drop_last() == before);
            assert(upto.last() == all[i as int]);
            assert(all[i as int] == (
                request.headers@[i as int].0@,
                request.headers@[i as int].1@,
            ));
            let name = match header_name_from_str(request.headers[i].0.as_str()) {
                Some(name) => name,
                None => {
                    let cause = String::from_str("Invalid header name: ").concat(
                        request.headers[i].0.as_str(),
                    );
                    proof {
                        lemma_fault_persists(all, i + 1);
                    }
                    return Err(Error::HttpRequestError(cause));
                },
            };
            let value = match header_value_from_str(request.headers[i].1.as_str()) {
                Some(value) => value,
                None => {
                    let cause = String::from_str("Invalid header value: ").concat(
                        request.headers[i].1.as_str(),
                    );
                    proof {
                        lemma_fault_persists(all, i + 1);
                    }
                    return Err(Error::HttpRequestError(cause));
                },
            };
            if !header_map_append(&mut headers, name, value) {
                return Err(Error::HttpRequestError(String::from_str("Too many headers")));
            }
            i = i + 1;
        }
        assert(all.take(count as int) == all);
        Ok(
            HttpCall {
                url,
                method,
                headers,
                body: request.body,
                timeout_secs: REQUEST_TIMEOUT_SECS,
            },
        )
    }

    /// The call that carries out `request`, or why none is made.
    pub fn execute(&self, request: HttpServerRequest) -> (r: Result<HttpCall, Error>)
        ensures
            request.headers.len() <= HEADER_MAP_ROOM ==> (r is Ok <==> rejection(request@)
                is None),
            r matches Ok(call) ==> {
                &&& rejection(request@) is None
                &&& call@ == prepared(self.port(), uppercase(request@.method), request@)
            },
            r matches Err(e) ==> refused(request@, e.message()),
    {
        match try_into_method(request.method.as_str()) {
            Ok(method) => self.prepare(method, request),
            Err(e) => Err(e),
        }
    }
}

} // verus!
