//! What holds of every inbound message, whatever the local service does.

use crate::backend::message::{MessageView, RequestView, ResponseView};
use crate::backend::headers::{normalised, values_under, HEADER_MAP_ROOM};
use crate::backend::{
    answer_of, dispatches, entries_of, is_visible_byte, is_visible_text, rejection, text_of,
    DispatchView, InboundView, FAILURE_STATUS,
};
use vstd::utf8::encode_utf8;
use vstd::prelude::*;

verus! {

/// The status of the response that a report carries.
pub open spec fn report_status(message: MessageView) -> Option<u16> {
    match message {
        MessageView::Response(response) => Some(response.status),
        MessageView::Request(_) => None,
    }
}

/// The name under which a header goes into the header map.
pub open spec fn entry_name(header: (Seq<char>, Seq<char>)) -> Seq<char> {
    normalised(header.0)
}

/// The values of the headers that go under `name`, in the order in which
/// the headers are given.
pub open spec fn values_named(headers: Seq<(Seq<char>, Seq<char>)>, name: Seq<char>) -> Seq<
    Seq<u8>,
>
    decreases headers.len(),
{
    if headers.len() == 0 {
        Seq::empty()
    } else if entry_name(headers.last()) == name {
        values_named(headers.drop_last(), name).push(encode_utf8(headers.last().1))
    } else {
        values_named(headers.drop_last(), name)
    }
}

/// Whether `a` is the beginning of `b`.
pub open spec fn begins<A>(a: Seq<A>, b: Seq<A>) -> bool {
    a.len() <= b.len() && b.take(a.len() as int) == a
}

/// Under each name the header map holds the values of all the headers of
/// that name, in the order given, and nothing else: no header is dropped.
pub proof fn law_header_map_keeps_every_header(
    headers: Seq<(Seq<char>, Seq<char>)>,
    name: Seq<char>,
)
    ensures
        values_under(entries_of(headers), name) == values_named(headers, name),
        entries_of(headers).contains_key(name) <==> values_named(headers, name).len() > 0,
    decreases headers.len(),
{
    if headers.len() > 0 {
        law_header_map_keeps_every_header(headers.drop_last(), name);
        law_header_map_keeps_every_header(headers.drop_last(), entry_name(headers.last()));
    }
}

/// The values of the first `k` headers of a name are those with which the
/// values of all the headers of that name begin.
pub proof fn lemma_earlier_values_come_first(
    headers: Seq<(Seq<char>, Seq<char>)>,
    name: Seq<char>,
    k: int,
)
    requires
        0 <= k <= headers.len(),
    ensures
        begins(values_named(headers.take(k), name), values_named(headers, name)),
    decreases headers.len(),
{
    if k == headers.len() {
        assert(headers.take(k) == headers);
        assert(values_named(headers, name).take(values_named(headers, name).len() as int)
            == values_named(headers, name));
    } else {
        let front = headers.drop_last();
        assert(front.take(k) == headers.take(k));
        lemma_earlier_values_come_first(front, name, k);
        let early = values_named(headers.take(k), name);
        assert(values_named(headers, name).take(early.len() as int) == values_named(
            front,
            name,
        ).take(early.len() as int));
    }
}

/// Each header stands under its name at the place that the order of the
/// headers gives it: behind the values of the headers of that name that
/// come before it, and before those of the ones that follow.
pub proof fn law_header_stands_in_its_place(headers: Seq<(Seq<char>, Seq<char>)>, i: int)
    requires
        0 <= i < headers.len(),
    ensures
        ({
            let name = entry_name(headers[i]);
            let before = values_named(headers.take(i), name).len() as int;
            let values = values_under(entries_of(headers), name);
            before < values.len() && values[before] == encode_utf8(headers[i].1)
        }),
{
    let name = entry_name(headers[i]);
    law_header_map_keeps_every_header(headers, name);
    lemma_earlier_values_come_first(headers, name, i + 1);
    let upto = headers.take(i + 1);
    assert(upto.drop_last() == headers.take(i));
    assert(upto.last() == headers[i]);
    let early = values_named(upto, name);
    let before = values_named(headers.take(i), name).len() as int;
    assert(early[before] == encode_utf8(headers[i].1));
    assert(values_named(headers, name).take(early.len() as int)[before] == early[before]);
}

/// A header value of a response that shows as text is handed on as the
/// text that encodes to its very bytes.
pub proof fn law_read_header_keeps_its_bytes(bytes: Seq<u8>)
    requires
        is_visible_text(bytes),
    ensures
        encode_utf8(text_of(bytes)) == bytes,
{
    let text = text_of(bytes);
    assert forall|i: int| 0 <= i < text.len() implies '\0' <= #[trigger] text[i] <= '\u{7f}' by {
        assert(is_visible_byte(bytes[i]));
    }
    vstd::utf8::is_ascii_chars_encode_utf8(text);
    assert forall|i: int| 0 <= i < bytes.len() implies encode_utf8(text)[i] == bytes[i] by {
        assert(text[i] as u8 == encode_utf8(text)[i]);
        assert(is_visible_byte(bytes[i]));
    }
    assert(encode_utf8(text) =~= bytes);
}

/// Input that cannot be decrypted, or that is no message, is never
/// answered: nothing is sent and the local service is not called.
pub proof fn law_noise_is_never_answered<C>(
    port: Option<u16>,
    context: C,
    inbound: InboundView,
    decision: DispatchView<C>,
)
    requires
        inbound is Undecryptable || inbound is Unparseable,
        dispatches(port, context, inbound, decision),
    ensures
        decision is Ignore,
{
}

/// A request that reaches a dispatcher with a local service is answered
/// with one response, under the context it came with: at once with the
/// failure status where no call can be made for it, else after the call
/// with the status of the service, or with the failure status where the
/// call failed.
pub proof fn law_request_is_answered<C>(
    port: u16,
    context: C,
    request: RequestView,
    decision: DispatchView<C>,
    outcome: Result<ResponseView, Seq<char>>,
)
    requires
        dispatches(
            Some(port),
            context,
            InboundView::Message(MessageView::Request(request)),
            decision,
        ),
    ensures
        match decision {
            DispatchView::Report(report) => report.context == context && report_status(
                report.message,
            )
                == Some(FAILURE_STATUS),
            DispatchView::Call { context: c, .. } => c == context && answer_of(c, outcome).context
                == context && report_status(answer_of(c, outcome).message) == Some(
                match outcome {
                    Ok(response) => response.status,
                    Err(_) => FAILURE_STATUS,
                },
            ),
            _ => false,
        },
{
}

/// Whether the local service is called for a request is decided by the
/// request alone, as long as its headers are no more than a header map has
/// room for: it is called unless the request is turned down.
pub proof fn law_call_is_made_unless_request_is_turned_down<C>(
    port: u16,
    context: C,
    request: RequestView,
    decision: DispatchView<C>,
)
    requires
        request.headers.len() <= HEADER_MAP_ROOM,
        dispatches(
            Some(port),
            context,
            InboundView::Message(MessageView::Request(request)),
            decision,
        ),
    ensures
        decision is Call <==> rejection(request) is None,
        decision is Report <==> rejection(request) is Some,
{
}

/// The status of an answer lies between 200 and 599 wherever that of the
/// local service does.
pub proof fn law_answer_status_is_final<C>(context: C, outcome: Result<ResponseView, Seq<char>>)
    requires
        outcome matches Ok(response) ==> 200 <= response.status <= 599,
    ensures
        report_status(answer_of(context, outcome).message) matches Some(status) && 200 <= status
            <= 599,
{
}

/// A request is not answered where no local service is configured, and a
/// response never is.
pub proof fn law_only_served_requests_are_answered<C>(
    port: Option<u16>,
    context: C,
    message: MessageView,
    decision: DispatchView<C>,
)
    requires
        dispatches(port, context, InboundView::Message(message), decision),
        port is None || message is Response,
    ensures
        decision is Unserved || decision is Received,
{
}

} // verus!
