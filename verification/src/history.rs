//! An exchange as a whole: the request and the replies that the driver gave so far, what the
//! exchange has asked for up to then, and what the engine was told.

use vstd::prelude::*;

use crate::{exchange, message};
use crate::exchange::{Checkpoint, ExchangeView};
use crate::message::{HttpVersion, RequestHeadView, ResponseHeadView};
use crate::intervention::InterventionView;
use crate::protocol::{ActionView, ChunkView, DirectiveView, EngineCallView, Fault, ReplyView};

verus! {

/// The exchange of a request after the given replies, and the directives issued so far.
pub open spec fn run(request: RequestHeadView, replies: Seq<ReplyView>) -> (
    ExchangeView,
    Seq<DirectiveView>,
)
    decreases replies.len(),
{
    if replies.len() == 0 {
        let (e, d) = exchange::opening(request);
        (e, seq![d])
    } else {
        let (e, issued) = run(request, replies.drop_last());
        let (e2, d) = exchange::next(e, replies.last());
        (e2, issued.push(d))
    }
}

/// The directives issued up to the given replies, the answer to the last of them included.
pub open spec fn issued(request: RequestHeadView, replies: Seq<ReplyView>) -> Seq<DirectiveView> {
    run(request, replies).1
}

/// The action that the exchange asks for after the given replies.
pub open spec fn asked(request: RequestHeadView, replies: Seq<ReplyView>) -> ActionView {
    issued(request, replies).last().action
}

/// Whether a reply is one that an action can have.
pub open spec fn answers(action: ActionView, reply: ReplyView) -> bool {
    match action {
        ActionView::Build => reply is Done || reply is Failed,
        ActionView::Call(_) => reply is Done || reply is Failed,
        ActionView::PollIntervention => reply is Intervention,
        ActionView::ReadRequestBody => reply is Chunk,
        ActionView::RunHandler(_) => reply is Response,
        ActionView::ReadResponseBody => reply is Chunk,
        ActionView::Reject(_) => false,
        ActionView::Release(_) => false,
        ActionView::Abort(_) => false,
    }
}

/// Whether every reply answers the action before it.
pub open spec fn in_turn(request: RequestHeadView, replies: Seq<ReplyView>) -> bool
    decreases replies.len(),
{
    replies.len() > 0 ==> {
        &&& in_turn(request, replies.drop_last())
        &&& answers(asked(request, replies.drop_last()), replies.last())
    }
}

/// The calls to the engine among the directives.
pub open spec fn calls(directives: Seq<DirectiveView>) -> Seq<EngineCallView>
    decreases directives.len(),
{
    if directives.len() == 0 {
        Seq::empty()
    } else {
        match directives.last().action {
            ActionView::Call(call) => calls(directives.drop_last()).push(call),
            _ => calls(directives.drop_last()),
        }
    }
}

/// The messages that the directives bring for the audit log.
pub open spec fn logs(directives: Seq<DirectiveView>) -> Seq<Seq<char>>
    decreases directives.len(),
{
    if directives.len() == 0 {
        Seq::empty()
    } else {
        match directives.last().log {
            Some(log) => logs(directives.drop_last()).push(log),
            None => logs(directives.drop_last()),
        }
    }
}

/// The messages in what the engine reported.
pub open spec fn reported_logs(replies: Seq<ReplyView>) -> Seq<Seq<char>>
    decreases replies.len(),
{
    if replies.len() == 0 {
        Seq::empty()
    } else {
        let before = reported_logs(replies.drop_last());
        match replies.last() {
            ReplyView::Intervention(Some(InterventionView { log: Some(log), .. })) => before.push(
                log,
            ),
            _ => before,
        }
    }
}

/// Whether a report refuses the exchange with the given status: it is disruptive, and the status
/// is a status code that the engine's number equals, multiples of 2^16 aside.
pub open spec fn refuses(report: Option<InterventionView>, status: u16) -> bool {
    &&& report matches Some(i)
    &&& i.disruptive
    &&& 100 <= status <= 999
    &&& (i.status - status) % 0x1_0000 == 0
}

/// The status of the first refusal that the engine reported.
pub open spec fn first_refusal(replies: Seq<ReplyView>) -> Option<u16>
    decreases replies.len(),
{
    if replies.len() == 0 {
        None
    } else {
        match (first_refusal(replies.drop_last()), replies.last()) {
            (Some(status), _) => Some(status),
            (None, ReplyView::Intervention(report)) => if exists|status: u16|
                refuses(report, status) {
                Some(choose|status: u16| refuses(report, status))
            } else {
                None
            },
            _ => None,
        }
    }
}

/// Whether the engine refused nothing at a checkpoint: no report that it gave before it was
/// called to run the logging rules is a refusal. What it reports after them refuses nothing.
pub open spec fn refused_nothing(request: RequestHeadView, replies: Seq<ReplyView>) -> bool {
    forall|k: int|
        #![trigger replies[k]]
        0 <= k < replies.len() && !calls(issued(request, replies.take(k))).contains(
            EngineCallView::ProcessLogging,
        ) ==> match replies[k] {
            ReplyView::Intervention(report) => forall|status: u16| !refuses(report, status),
            _ => true,
        }
}

/// The head of the service's response, once there is one.
pub open spec fn response(replies: Seq<ReplyView>) -> Option<ResponseHeadView>
    decreases replies.len(),
{
    if replies.len() == 0 {
        None
    } else {
        match replies.last() {
            ReplyView::Response(head) => Some(head),
            _ => response(replies.drop_last()),
        }
    }
}

/// The body pieces that were read before the service responded.
pub open spec fn request_body(replies: Seq<ReplyView>) -> Seq<Seq<u8>>
    decreases replies.len(),
{
    if replies.len() == 0 {
        Seq::empty()
    } else {
        let before = request_body(replies.drop_last());
        match replies.last() {
            ReplyView::Chunk(ChunkView::Data(bytes)) => if response(replies) is None {
                before.push(bytes)
            } else {
                before
            },
            _ => before,
        }
    }
}

/// The body pieces that were read after the service responded.
pub open spec fn response_body(replies: Seq<ReplyView>) -> Seq<Seq<u8>>
    decreases replies.len(),
{
    if replies.len() == 0 {
        Seq::empty()
    } else {
        let before = response_body(replies.drop_last());
        match replies.last() {
            ReplyView::Chunk(ChunkView::Data(bytes)) => if response(replies) is Some {
                before.push(bytes)
            } else {
                before
            },
            _ => before,
        }
    }
}

/// How often the service is run.
pub open spec fn service_runs(directives: Seq<DirectiveView>) -> nat
    decreases directives.len(),
{
    if directives.len() == 0 {
        0
    } else {
        service_runs(directives.drop_last()) + if directives.last().action is RunHandler {
            1nat
        } else {
            0nat
        }
    }
}

/// How many replies the pieces of the bodies can cost: two for each that was read, one for
/// each that could not be read.
pub open spec fn body_replies(replies: Seq<ReplyView>) -> nat
    decreases replies.len(),
{
    if replies.len() == 0 {
        0
    } else {
        body_replies(replies.drop_last()) + match replies.last() {
            ReplyView::Chunk(ChunkView::Data(_)) => 2nat,
            ReplyView::Chunk(ChunkView::Broken) => 1nat,
            _ => 0nat,
        }
    }
}

/// How many headers a response has, if there is one.
pub open spec fn response_headers(replies: Seq<ReplyView>) -> nat {
    match response(replies) {
        Some(head) => head.headers.len(),
        None => 0,
    }
}

/// The number of a protocol version.
pub open spec fn number(version: HttpVersion) -> Seq<char> {
    match version {
        HttpVersion::Http09 => "0.9"@,
        HttpVersion::Http10 => "1.0"@,
        HttpVersion::Http11 => "1.1"@,
        HttpVersion::Http2 => "2.0"@,
        HttpVersion::Http3 => "3.0"@,
    }
}

/// The calls that bring the connection, the request line and the first headers of a request.
pub open spec fn request_head_calls(request: RequestHeadView, count: int) -> Seq<EngineCallView> {
    seq![
        EngineCallView::ProcessConnection {
            client: "127.0.0.1"@,
            client_port: 1234,
            server: "127.0.0.1"@,
            server_port: 8080,
        },
        EngineCallView::ProcessUri {
            uri: request.uri,
            method: request.method,
            version: number(request.version),
        },
    ] + Seq::new(
        count as nat,
        |i: int|
            EngineCallView::AddRequestHeader {
                name: request.headers[i].0,
                value: vstd::utf8::decode_utf8(request.headers[i].1),
            },
    )
}

/// The calls that bring the first headers of a response.
pub open spec fn response_header_calls(head: ResponseHeadView, count: int) -> Seq<EngineCallView> {
    Seq::new(
        count as nat,
        |i: int|
            EngineCallView::AddResponseHeader {
                name: head.headers[i].0,
                value: head.headers[i].1.map_values(|b: u8| b as char),
            },
    )
}

/// The calls that bring all the headers of a response, and the content type if it has none.
pub open spec fn response_head_calls(head: ResponseHeadView) -> Seq<EngineCallView> {
    let own = response_header_calls(head, head.headers.len() as int);
    if head.typed {
        own
    } else {
        own.push(
            EngineCallView::AddResponseHeader { name: "Content-Type"@, value: "text/plain"@ },
        )
    }
}

/// What a message exchange holds: the request and its body, the response and its body.
pub struct Content {
    pub request: RequestHeadView,
    pub request_body: Seq<Seq<u8>>,
    pub response: ResponseHeadView,
    pub response_body: Seq<Seq<u8>>,
}

/// The calls up to the run of the rules on the request headers.
pub open spec fn calls_to_request_headers(c: Content) -> Seq<EngineCallView> {
    request_head_calls(c.request, c.request.headers.len() as int).push(
        EngineCallView::ProcessRequestHeaders,
    )
}

/// The calls up to the last piece of the request body.
pub open spec fn calls_with_request_body(c: Content) -> Seq<EngineCallView> {
    calls_to_request_headers(c) + c.request_body.map_values(
        |bytes: Seq<u8>| EngineCallView::AppendRequestBody(bytes),
    )
}

/// The calls up to the run of the rules on the request body.
pub open spec fn calls_to_request_body(c: Content) -> Seq<EngineCallView> {
    calls_with_request_body(c).push(EngineCallView::ProcessRequestBody)
}

/// The calls up to the run of the rules on the response headers.
pub open spec fn calls_to_response_headers(c: Content) -> Seq<EngineCallView> {
    (calls_to_request_body(c) + response_head_calls(c.response)).push(
        EngineCallView::ProcessResponseHeaders {
            status: c.response.status as int,
            version: number(c.response.version),
        },
    )
}

/// The calls up to the last piece of the response body.
pub open spec fn calls_with_response_body(c: Content) -> Seq<EngineCallView> {
    calls_to_response_headers(c) + c.response_body.map_values(
        |bytes: Seq<u8>| EngineCallView::AppendResponseBody(bytes),
    )
}

/// The calls up to the run of the rules on the response body.
pub open spec fn calls_to_response_body(c: Content) -> Seq<EngineCallView> {
    calls_with_response_body(c).push(EngineCallView::ProcessResponseBody)
}

/// The calls up to a checkpoint.
pub open spec fn calls_to(c: Content, point: Checkpoint) -> Seq<EngineCallView> {
    match point {
        Checkpoint::RequestHeaders => calls_to_request_headers(c),
        Checkpoint::RequestBody => calls_to_request_body(c),
        Checkpoint::ResponseHeaders => calls_to_response_headers(c),
        Checkpoint::ResponseBody => calls_to_response_body(c),
    }
}

/// The content of an exchange as far as the replies brought it. The response is arbitrary
/// before the service responded.
pub open spec fn content(request: RequestHeadView, replies: Seq<ReplyView>) -> Content {
    Content {
        request,
        request_body: request_body(replies),
        response: response(replies)->0,
        response_body: response_body(replies),
    }
}

/// Whether bytes are the text of a header value: UTF-8 without control characters other than
/// the tab.
pub open spec fn is_text(bytes: Seq<u8>) -> bool {
    &&& vstd::utf8::valid_utf8(bytes)
    &&& forall|k: int|
        0 <= k < bytes.len() ==> (#[trigger] bytes[k]) == 9 || (bytes[k] >= 32 && bytes[k] != 127)
}

/// Whether bytes are printable ASCII or tabs.
pub open spec fn is_printable(bytes: Seq<u8>) -> bool {
    forall|k: int| 0 <= k < bytes.len() ==> (#[trigger] bytes[k]) == 9 || 32 <= bytes[k] <= 126
}

/// Whether the request headers before the given index are all texts.
pub open spec fn readable(request: RequestHeadView, count: int) -> bool {
    forall|i: int| 0 <= i < count ==> is_text((#[trigger] request.headers[i]).1)
}

/// Whether the response headers before the given index are all visible ASCII.
pub open spec fn visible(head: ResponseHeadView, count: int) -> bool {
    forall|i: int|
        0 <= i < count ==> is_printable((#[trigger] head.headers[i]).1)
}

/// Whether a request has a malformed header, with the given index, after readable ones.
pub open spec fn malformed_at(request: RequestHeadView, i: int) -> bool {
    &&& 0 <= i < request.headers.len()
    &&& readable(request, i)
    &&& !is_text(request.headers[i].1)
}

/// The lower-case form of a text.
pub open spec fn lower_text(text: Seq<char>) -> Seq<char> {
    text.map_values(|c: char| message::lower(c))
}

/// Whether a call tells the engine the content type of the response.
pub open spec fn tells_content_type(call: EngineCallView) -> bool {
    match call {
        EngineCallView::AddResponseHeader { name, .. } => lower_text(name) == "content-type"@,
        _ => false,
    }
}

/// Whether the engine was told everything up to one of the checkpoints, and then only to run
/// the logging rules.
pub open spec fn refused_at_some_point(
    request: RequestHeadView,
    replies: Seq<ReplyView>,
) -> bool {
    exists|point: Checkpoint|
        calls(issued(request, replies)) == (#[trigger] calls_to(
            content(request, replies),
            point,
        )).push(EngineCallView::ProcessLogging)
}

/// What holds of an exchange that ends with the response being released with a body.
pub open spec fn released(
    request: RequestHeadView,
    replies: Seq<ReplyView>,
    body: Seq<Seq<u8>>,
) -> bool {
    let c = content(request, replies);
    &&& replies.len() > 0
    &&& first_refusal(replies.drop_last()) is None
    &&& response(replies) is Some
    &&& body == c.response_body
    &&& calls(issued(request, replies)) == calls_to_response_body(c).push(
        EngineCallView::ProcessLogging,
    )
}

/// What holds of an exchange that ends with a refusal: either the engine refused it at a
/// checkpoint, or a header is malformed and the engine only saw what stands before it.
pub open spec fn rejected(
    request: RequestHeadView,
    replies: Seq<ReplyView>,
    status: u16,
) -> bool {
    ||| {
        &&& first_refusal(replies) == Some(status)
        &&& refused_at_some_point(request, replies)
    }
    ||| {
        &&& status == 400
        &&& first_refusal(replies) is None
        &&& exists|i: int| #[trigger]
            malformed_at(request, i) && calls(issued(request, replies)) == request_head_calls(
                request,
                i,
            )
    }
}

/// What holds of an exchange that is given up.
pub open spec fn aborted(replies: Seq<ReplyView>, fault: Fault) -> bool {
    &&& replies.len() > 0
    &&& match fault {
        Fault::EngineFailure => replies.last() is Failed,
        Fault::UnreadableResponseHeader => {
            &&& response(replies) is Some
            &&& !visible(response(replies)->0, response(replies)->0.headers.len() as int)
        },
        Fault::OutOfTurn => false,
    }
}

} // verus!
