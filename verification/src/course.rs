//! The course of an exchange, step by step: what it asks for after each reply, in the terms of
//! the request, the response and the reports themselves.

use vstd::prelude::*;

use crate::{history, laws, stages};
use crate::exchange::{Checkpoint, StageView};
use crate::message::{HttpVersion, RequestHeadView, ResponseHeadView};
use crate::intervention::InterventionView;
use crate::protocol::{ActionView, ChunkView, EngineCallView, Fault, ReplyView};

verus! {

/// An exchange begins with a transaction, and the first thing that the engine is told is the
/// connection, which is the same for every request.
pub proof fn law_connection_comes_first(request: RequestHeadView)
    ensures
        history::asked(request, Seq::empty()) == ActionView::Build,
        history::issued(request, Seq::empty()).last().log is None,
        history::asked(request, seq![ReplyView::Done]) == ActionView::Call(
            EngineCallView::ProcessConnection {
                client: "127.0.0.1"@,
                client_port: 1234,
                server: "127.0.0.1"@,
                server_port: 8080,
            },
        ),
{
    let first = seq![ReplyView::Done];
    assert(first.drop_last() =~= Seq::empty());
    stages::lemma_one_more(request, first);
}

/// Once the engine has taken the connection, it is told the request line: the URI and the method
/// of the request as they are, and the number of its version.
pub proof fn law_request_line_follows(request: RequestHeadView, replies: Seq<ReplyView>)
    requires
        history::in_turn(request, replies),
        history::asked(request, replies) matches ActionView::Call(call)
            && call is ProcessConnection,
    ensures
        history::asked(request, replies.push(ReplyView::Done)) matches ActionView::Call(
            EngineCallView::ProcessUri { uri, method, version },
        ) && uri == request.uri && method == request.method && version == (
        match request.version {
            HttpVersion::Http09 => "0.9"@,
            HttpVersion::Http10 => "1.0"@,
            HttpVersion::Http11 => "1.1"@,
            HttpVersion::Http2 => "2.0"@,
            HttpVersion::Http3 => "3.0"@,
        }),
{
    let all = replies.push(ReplyView::Done);
    assert(all.drop_last() =~= replies);
    stages::lemma_steady(request, replies);
    laws::lemma_last_call(request, replies);
    stages::lemma_one_more(request, all);
}

/// The engine is told the request headers one after the other, each with its own name and with
/// the text of its value; a value of any length counts as a text where it is UTF-8 without
/// control characters other than the tab. The first header without such a value has the
/// request refused as a bad one, and after the last header the rules on them are run.
pub proof fn law_request_headers_follow_in_order(request: RequestHeadView, i: int)
    requires
        0 <= i <= request.headers.len(),
        forall|j: int|
            0 <= j < i ==> {
                &&& vstd::utf8::valid_utf8((#[trigger] request.headers[j]).1)
                &&& forall|k: int|
                    0 <= k < request.headers[j].1.len() ==> {
                        ||| (#[trigger] request.headers[j].1[k]) == 9
                        ||| request.headers[j].1[k] >= 32 && request.headers[j].1[k] != 127
                    }
            },
    ensures
        ({
            let replies = Seq::new((i + 3) as nat, |k: int| ReplyView::Done);
            let (name, bytes) = request.headers[i];
            &&& history::in_turn(request, replies)
            &&& history::asked(request, replies) == if i == request.headers.len() {
                ActionView::Call(EngineCallView::ProcessRequestHeaders)
            } else if vstd::utf8::valid_utf8(bytes) && (forall|k: int|
                0 <= k < bytes.len() ==> (#[trigger] bytes[k]) == 9 || (bytes[k] >= 32 && bytes[k]
                    != 127)) {
                ActionView::Call(
                    EngineCallView::AddRequestHeader {
                        name,
                        value: vstd::utf8::decode_utf8(bytes),
                    },
                )
            } else {
                ActionView::Reject(400)
            }
        }),
{
    assert(forall|j: int| 0 <= j < i ==> history::is_text((#[trigger] request.headers[j]).1));
    laws::lemma_headers_taken(request, i);
    if i < request.headers.len() {
        let bytes = request.headers[i].1;
        assert(history::is_text(bytes) <==> (vstd::utf8::valid_utf8(bytes) && (forall|k: int|
            0 <= k < bytes.len() ==> (#[trigger] bytes[k]) == 9 || (bytes[k] >= 32 && bytes[k]
                != 127))));
    }
}

/// Where the engine refused nothing at a checkpoint, only a request with a header value that
/// holds a control character or is no UTF-8 is refused, and it is refused as a bad request.
pub proof fn law_only_bad_headers_make_a_bad_request(
    request: RequestHeadView,
    replies: Seq<ReplyView>,
    status: u16,
)
    requires
        history::in_turn(request, replies),
        history::refused_nothing(request, replies),
        history::asked(request, replies) == ActionView::Reject(status),
    ensures
        status == 400,
        exists|i: int|
            0 <= i < request.headers.len() && {
                ||| !vstd::utf8::valid_utf8((#[trigger] request.headers[i]).1)
                ||| exists|k: int|
                    0 <= k < request.headers[i].1.len() && {
                        ||| (#[trigger] request.headers[i].1[k]) == 127
                        ||| request.headers[i].1[k] < 32 && request.headers[i].1[k] != 9
                    }
            },
{
    laws::lemma_nothing_refused(request, replies);
    stages::lemma_steady(request, replies);
    let i = choose|i: int| history::malformed_at(request, i);
    assert(!history::is_text(request.headers[i].1));
}

/// Before the rules on the request headers are run, every header of the request was seen to be a
/// text, and before those on the response headers, every header of the response to be printable.
pub proof fn law_rules_run_on_readable_headers(request: RequestHeadView, replies: Seq<ReplyView>)
    requires
        history::in_turn(request, replies),
    ensures
        history::asked(request, replies) == ActionView::Call(EngineCallView::ProcessRequestHeaders)
            ==> forall|i: int|
            0 <= i < request.headers.len() ==> history::is_text((#[trigger] request.headers[i]).1),
        history::asked(request, replies) matches ActionView::Call(
            EngineCallView::ProcessResponseHeaders { .. },
        ) ==> {
            &&& history::response(replies) matches Some(head)
            &&& forall|i: int|
                0 <= i < head.headers.len() ==> history::is_printable(
                    (#[trigger] head.headers[i]).1,
                )
        },
{
    if replies.len() > 0 {
        stages::lemma_steady(request, replies.drop_last());
        stages::lemma_steady(request, replies);
        laws::lemma_last_call(request, replies);
        stages::lemma_one_more(request, replies);
    }
}

/// After a report at a checkpoint that is missing, not disruptive, or whose number is no status
/// code, multiples of 2^16 aside, the exchange goes on: from the request headers to the request
/// body, from there to the service, which gets the body that was read, from the response headers
/// to the response body, and from there to the logging rules.
pub proof fn law_exchange_goes_on_where_nothing_is_refused(
    request: RequestHeadView,
    before: Seq<ReplyView>,
    report: Option<InterventionView>,
)
    requires
        history::in_turn(request, before.push(ReplyView::Intervention(report))),
        !history::calls(history::issued(request, before)).contains(EngineCallView::ProcessLogging),
        report matches Some(i) ==> !i.disruptive || i.status % 0x1_0000 < 100 || i.status % 0x1_0000
            > 999,
    ensures
        ({
            let told = history::calls(history::issued(request, before));
            let action = history::asked(request, before.push(ReplyView::Intervention(report)));
            &&& told.len() > 0
            &&& match told.last() {
                EngineCallView::ProcessRequestHeaders => action == ActionView::ReadRequestBody,
                EngineCallView::ProcessRequestBody => action == ActionView::RunHandler(
                    history::request_body(before),
                ),
                EngineCallView::ProcessResponseHeaders { .. } => action
                    == ActionView::ReadResponseBody,
                EngineCallView::ProcessResponseBody => action == ActionView::Call(
                    EngineCallView::ProcessLogging,
                ),
                _ => false,
            }
        }),
{
    let all = before.push(ReplyView::Intervention(report));
    assert(all.drop_last() =~= before);
    laws::lemma_at_checkpoint(request, before, report);
    stages::lemma_refusal(report);
    stages::lemma_steady(request, before);
    stages::lemma_one_more(request, all);
}

/// A disruptive report at a checkpoint whose number is a status code refuses the exchange with
/// that very status: the logging rules are run, the engine is asked twice, and then the client is
/// answered with the number that the report gave, whatever the engine reports in between.
pub proof fn law_refused_with_the_number_reported(
    request: RequestHeadView,
    before: Seq<ReplyView>,
    report: InterventionView,
    second: Option<InterventionView>,
    third: Option<InterventionView>,
)
    requires
        history::in_turn(request, before.push(ReplyView::Intervention(Some(report)))),
        !history::calls(history::issued(request, before)).contains(EngineCallView::ProcessLogging),
        report.disruptive,
        100 <= report.status <= 999,
    ensures
        ({
            let refused = before.push(ReplyView::Intervention(Some(report)));
            let logging = refused.push(ReplyView::Done);
            let logged = logging.push(ReplyView::Intervention(second));
            let all = logged.push(ReplyView::Intervention(third));
            &&& history::asked(request, refused) == ActionView::Call(EngineCallView::ProcessLogging)
            &&& history::asked(request, logging) == ActionView::PollIntervention
            &&& history::asked(request, logged) == ActionView::PollIntervention
            &&& history::asked(request, all) == ActionView::Reject(report.status as u16)
            &&& history::in_turn(request, all)
        }),
{
    let refused = before.push(ReplyView::Intervention(Some(report)));
    let logging = refused.push(ReplyView::Done);
    let logged = logging.push(ReplyView::Intervention(second));
    assert(history::refuses(Some(report), report.status as u16));
    laws::law_refusal_is_answered(
        request,
        before,
        Some(report),
        report.status as u16,
        second,
        third,
    );
    assert(refused.drop_last() =~= before);
    laws::lemma_at_checkpoint(request, before, Some(report));
    stages::lemma_refusal(Some(report));
    stages::lemma_one_more(request, refused);
    assert(logging.drop_last() =~= refused);
    stages::lemma_one_more(request, logging);
    assert(logged.drop_last() =~= logging);
    stages::lemma_one_more(request, logged);
}

/// A piece of the request body that was read is told to the engine as it is before the next one
/// is waited for. One that could not be read is passed over. At the end the rules on the body
/// are run.
pub proof fn law_request_body_is_told_piece_by_piece(
    request: RequestHeadView,
    replies: Seq<ReplyView>,
    bytes: Seq<u8>,
)
    requires
        history::in_turn(request, replies),
        history::asked(request, replies) is ReadRequestBody,
    ensures
        ({
            let read = replies.push(ReplyView::Chunk(ChunkView::Data(bytes)));
            let broken = replies.push(ReplyView::Chunk(ChunkView::Broken));
            let ended = replies.push(ReplyView::Chunk(ChunkView::End));
            &&& history::asked(request, read) == ActionView::Call(
                EngineCallView::AppendRequestBody(bytes),
            )
            &&& history::asked(request, read.push(ReplyView::Done)) == ActionView::ReadRequestBody
            &&& history::asked(request, broken) == ActionView::ReadRequestBody
            &&& history::asked(request, ended) == ActionView::Call(
                EngineCallView::ProcessRequestBody,
            )
        }),
{
    let read = replies.push(ReplyView::Chunk(ChunkView::Data(bytes)));
    let broken = replies.push(ReplyView::Chunk(ChunkView::Broken));
    let ended = replies.push(ReplyView::Chunk(ChunkView::End));
    assert(read.drop_last() =~= replies);
    assert(broken.drop_last() =~= replies);
    assert(ended.drop_last() =~= replies);
    assert(read.push(ReplyView::Done).drop_last() =~= read);
    stages::lemma_steady(request, replies);
    stages::lemma_one_more(request, read);
    stages::lemma_one_more(request, broken);
    stages::lemma_one_more(request, ended);
    stages::lemma_one_more(request, read.push(ReplyView::Done));
}

/// A piece of the response body that was read is told to the engine as it is before the next one
/// is waited for. One that could not be read is passed over. At the end the rules on the body
/// are run.
pub proof fn law_response_body_is_told_piece_by_piece(
    request: RequestHeadView,
    replies: Seq<ReplyView>,
    bytes: Seq<u8>,
)
    requires
        history::in_turn(request, replies),
        history::asked(request, replies) is ReadResponseBody,
    ensures
        ({
            let read = replies.push(ReplyView::Chunk(ChunkView::Data(bytes)));
            let broken = replies.push(ReplyView::Chunk(ChunkView::Broken));
            let ended = replies.push(ReplyView::Chunk(ChunkView::End));
            &&& history::asked(request, read) == ActionView::Call(
                EngineCallView::AppendResponseBody(bytes),
            )
            &&& history::asked(request, read.push(ReplyView::Done)) == ActionView::ReadResponseBody
            &&& history::asked(request, broken) == ActionView::ReadResponseBody
            &&& history::asked(request, ended) == ActionView::Call(
                EngineCallView::ProcessResponseBody,
            )
        }),
{
    let read = replies.push(ReplyView::Chunk(ChunkView::Data(bytes)));
    let broken = replies.push(ReplyView::Chunk(ChunkView::Broken));
    let ended = replies.push(ReplyView::Chunk(ChunkView::End));
    assert(read.drop_last() =~= replies);
    assert(broken.drop_last() =~= replies);
    assert(ended.drop_last() =~= replies);
    assert(read.push(ReplyView::Done).drop_last() =~= read);
    stages::lemma_steady(request, replies);
    stages::lemma_one_more(request, read);
    stages::lemma_one_more(request, broken);
    stages::lemma_one_more(request, ended);
    stages::lemma_one_more(request, read.push(ReplyView::Done));
}

/// The engine is told the response headers one after the other, each with its own name and with
/// the bytes of its value read as ASCII, as long as they are printable; the first header with
/// any other byte has the exchange given up.
pub proof fn law_response_headers_follow_in_order(
    request: RequestHeadView,
    before: Seq<ReplyView>,
    head: ResponseHeadView,
    i: int,
)
    requires
        history::in_turn(request, before.push(ReplyView::Response(head))),
        0 <= i < head.headers.len(),
        forall|j: int, k: int|
            0 <= j < i && 0 <= k < head.headers[j].1.len() ==> {
                ||| (#[trigger] head.headers[j].1[k]) == 9
                ||| 32 <= head.headers[j].1[k] <= 126
            },
    ensures
        ({
            let replies = before.push(ReplyView::Response(head)) + Seq::new(
                i as nat,
                |k: int| ReplyView::Done,
            );
            let (name, bytes) = head.headers[i];
            let action = history::asked(request, replies);
            &&& history::in_turn(request, replies)
            &&& if forall|k: int|
                0 <= k < bytes.len() ==> (#[trigger] bytes[k]) == 9 || 32 <= bytes[k] <= 126 {
                action matches ActionView::Call(
                    EngineCallView::AddResponseHeader { name: told, value },
                ) && told == name && value.len() == bytes.len() && forall|k: int|
                    0 <= k < bytes.len() ==> (#[trigger] value[k]) == bytes[k] as char
            } else {
                action == ActionView::Abort(Fault::UnreadableResponseHeader)
            }
        }),
{
    assert forall|j: int| 0 <= j < i implies history::is_printable(
        (#[trigger] head.headers[j]).1,
    ) by {
        assert forall|k: int| 0 <= k < head.headers[j].1.len() implies (
        #[trigger] head.headers[j].1[k]) == 9 || 32 <= head.headers[j].1[k] <= 126 by {
        }
    }
    lemma_response_headers_taken(request, before, head, i);
    let bytes = head.headers[i].1;
    assert(history::is_printable(bytes) <==> forall|k: int|
        0 <= k < bytes.len() ==> (#[trigger] bytes[k]) == 9 || 32 <= bytes[k] <= 126);
}

/// Where the engine takes every call, the response header whose turn it is follows the number of
/// replies since the response came.
proof fn lemma_response_headers_taken(
    request: RequestHeadView,
    before: Seq<ReplyView>,
    head: ResponseHeadView,
    i: int,
)
    requires
        history::in_turn(request, before.push(ReplyView::Response(head))),
        0 <= i <= head.headers.len(),
        history::visible(head, i),
    ensures
        ({
            let replies = before.push(ReplyView::Response(head)) + Seq::new(
                i as nat,
                |k: int| ReplyView::Done,
            );
            let e = history::run(request, replies).0;
            let action = history::asked(request, replies);
            &&& history::in_turn(request, replies)
            &&& if i == head.headers.len() {
                if head.typed {
                    action == told_status_line(head)
                } else {
                    &&& e.stage == StageView::AddingContentType(head)
                    &&& action == ActionView::Call(
                        EngineCallView::AddResponseHeader {
                            name: "Content-Type"@,
                            value: "text/plain"@,
                        },
                    )
                }
            } else if history::is_printable(head.headers[i].1) {
                &&& e.stage == StageView::AddingResponseHeader(head, i)
                &&& action == ActionView::Call(
                    EngineCallView::AddResponseHeader {
                        name: head.headers[i].0,
                        value: head.headers[i].1.map_values(|b: u8| b as char),
                    },
                )
            } else {
                action == ActionView::Abort(Fault::UnreadableResponseHeader)
            }
        }),
    decreases i,
{
    let responded = before.push(ReplyView::Response(head));
    let replies = responded + Seq::new(i as nat, |k: int| ReplyView::Done);
    if i == 0 {
        assert(replies =~= responded);
        assert(responded.drop_last() =~= before);
        stages::lemma_steady(request, before);
        stages::lemma_one_more(request, responded);
    } else {
        let shorter = responded + Seq::new((i - 1) as nat, |k: int| ReplyView::Done);
        assert(replies.drop_last() =~= shorter);
        assert(replies.last() is Done);
        lemma_response_headers_taken(request, before, head, i - 1);
        assert(history::is_printable(head.headers[i - 1].1));
        stages::lemma_steady(request, shorter);
        assert(history::in_turn(request, replies));
        stages::lemma_one_more(request, replies);
    }
}

/// The call that runs the rules on the response headers, with the status and the version of the
/// response.
spec fn told_status_line(head: ResponseHeadView) -> ActionView {
    ActionView::Call(
        EngineCallView::ProcessResponseHeaders {
            status: head.status as int,
            version: history::number(head.version),
        },
    )
}

/// After the last header of a response that names the type of its content, the rules on the
/// response headers are run at once. Of one that does not, the engine is told first that the
/// content is plain text.
pub proof fn law_missing_content_type_is_plain_text(
    request: RequestHeadView,
    before: Seq<ReplyView>,
    head: ResponseHeadView,
)
    requires
        history::in_turn(request, before.push(ReplyView::Response(head))),
        history::visible(head, head.headers.len() as int),
    ensures
        ({
            let replies = before.push(ReplyView::Response(head)) + Seq::new(
                head.headers.len(),
                |k: int| ReplyView::Done,
            );
            let action = history::asked(request, replies);
            &&& head.typed ==> (action matches ActionView::Call(
                EngineCallView::ProcessResponseHeaders { .. },
            ))
            &&& !head.typed ==> {
                &&& action == ActionView::Call(
                    EngineCallView::AddResponseHeader {
                        name: "Content-Type"@,
                        value: "text/plain"@,
                    },
                )
                &&& history::in_turn(request, replies.push(ReplyView::Done))
                &&& history::asked(
                    request,
                    replies.push(ReplyView::Done),
                ) matches ActionView::Call(EngineCallView::ProcessResponseHeaders { .. })
            }
        }),
{
    let replies = before.push(ReplyView::Response(head)) + Seq::new(
        head.headers.len(),
        |k: int| ReplyView::Done,
    );
    let more = replies.push(ReplyView::Done);
    lemma_response_headers_taken(request, before, head, head.headers.len() as int);
    if !head.typed {
        assert(more.drop_last() =~= replies);
        stages::lemma_steady(request, replies);
        stages::lemma_one_more(request, more);
    }
}

/// Whenever the rules on the response headers are run, the engine is told the status of the
/// service's response as it is, and the number of its version.
pub proof fn law_engine_is_told_the_status(
    request: RequestHeadView,
    replies: Seq<ReplyView>,
    status: int,
    version: Seq<char>,
)
    requires
        history::in_turn(request, replies),
        history::asked(request, replies) == ActionView::Call(
            EngineCallView::ProcessResponseHeaders { status, version },
        ),
    ensures
        history::response(replies) matches Some(head) && status == head.status && version == (
        match head.version {
            HttpVersion::Http09 => "0.9"@,
            HttpVersion::Http10 => "1.0"@,
            HttpVersion::Http11 => "1.1"@,
            HttpVersion::Http2 => "2.0"@,
            HttpVersion::Http3 => "3.0"@,
        }),
{
    stages::lemma_steady(request, replies);
    laws::lemma_last_call(request, replies);
}

/// A response at whose body the engine refuses nothing is released, with the body that was read,
/// once the logging rules were run and the engine was asked about them, whatever it reports then.
pub proof fn law_response_is_released(
    request: RequestHeadView,
    before: Seq<ReplyView>,
    report: Option<InterventionView>,
    last: Option<InterventionView>,
)
    requires
        history::in_turn(request, before.push(ReplyView::Intervention(report))),
        history::calls(history::issued(request, before)).len() > 0,
        history::calls(history::issued(request, before)).last() is ProcessResponseBody,
        report matches Some(i) ==> !i.disruptive || i.status % 0x1_0000 < 100 || i.status % 0x1_0000
            > 999,
    ensures
        ({
            let logging = before.push(ReplyView::Intervention(report)).push(ReplyView::Done);
            let all = logging.push(ReplyView::Intervention(last));
            &&& history::in_turn(request, all)
            &&& history::asked(request, logging) == ActionView::PollIntervention
            &&& history::asked(request, all) == ActionView::Release(history::response_body(before))
        }),
{
    let passed = before.push(ReplyView::Intervention(report));
    let logging = passed.push(ReplyView::Done);
    let all = logging.push(ReplyView::Intervention(last));
    assert(passed.drop_last() =~= before);
    stages::lemma_steady(request, before);
    assert(history::run(request, before).0.stage == StageView::Checking(Checkpoint::ResponseBody));
    stages::lemma_refusal(report);
    stages::lemma_one_more(request, passed);
    assert(logging.drop_last() =~= passed);
    assert(history::in_turn(request, logging));
    stages::lemma_one_more(request, logging);
    assert(all.drop_last() =~= logging);
    stages::lemma_one_more(request, all);
}

/// With the answer to a report, its message goes to the audit log, where it has one; no other
/// reply brings a message.
pub proof fn law_a_report_is_logged_at_once(
    request: RequestHeadView,
    replies: Seq<ReplyView>,
    reply: ReplyView,
)
    requires
        history::in_turn(request, replies.push(reply)),
    ensures
        history::issued(request, replies.push(reply)).last().log == (match reply {
            ReplyView::Intervention(Some(i)) => i.log,
            _ => None,
        }),
{
    let all = replies.push(reply);
    assert(all.drop_last() =~= replies);
    stages::lemma_steady(request, replies);
    stages::lemma_one_more(request, all);
}

/// Once a reply came out of turn, whatever else the driver replies is out of turn too, and
/// nothing of it goes to the audit log.
pub proof fn law_nothing_mends_a_reply_out_of_turn(
    request: RequestHeadView,
    replies: Seq<ReplyView>,
)
    requires
        !history::in_turn(request, replies),
    ensures
        history::asked(request, replies) == ActionView::Abort(Fault::OutOfTurn),
        history::issued(request, replies).last().log is None,
{
    lemma_closed_for_good(request, replies);
}

/// An exchange that a reply out of turn has closed stays closed.
proof fn lemma_closed_for_good(request: RequestHeadView, replies: Seq<ReplyView>)
    requires
        !history::in_turn(request, replies),
    ensures
        history::run(request, replies).0.stage is Closed,
        history::asked(request, replies) == ActionView::Abort(Fault::OutOfTurn),
        history::issued(request, replies).last().log is None,
    decreases replies.len(),
{
    let before = replies.drop_last();
    stages::lemma_one_more(request, replies);
    if history::in_turn(request, before) {
        stages::lemma_steady(request, before);
    } else {
        lemma_closed_for_good(request, before);
    }
}

} // verus!
