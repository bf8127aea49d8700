//! What is known of an exchange at each of its stages.

use vstd::prelude::*;

use crate::{exchange, history, intervention, message};
use crate::exchange::{Checkpoint, ExchangeView, StageView};
use crate::intervention::InterventionView;
use crate::message::{RequestHeadView, RequestValueView, ResponseHeadView};
use crate::protocol::{ActionView, ChunkView, EngineCallView, ReplyView};

verus! {

/// What is known of an exchange that waits at a stage: which action is outstanding, what the
/// engine was told, which pieces are kept, and whether a refusal was reported.
pub open spec fn steady(
    e: ExchangeView, request: RequestHeadView, replies: Seq<ReplyView>) -> bool {
    let told = history::calls(history::issued(request, replies));
    let action = history::asked(request, replies);
    let c = history::content(request, replies);
    let calm = history::first_refusal(replies) is None;
    &&& e.load.request == request
    &&& match e.stage {
        StageView::Building => {
            &&& action is Build
            &&& early(e, replies)
            &&& told == Seq::<EngineCallView>::empty()
        },
        StageView::Connecting => {
            &&& action is Call
            &&& early(e, replies)
            &&& told == seq![exchange::connection_call()]
        },
        StageView::Addressing => {
            &&& action is Call
            &&& early(e, replies)
            &&& told == history::request_head_calls(request, 0)
        },
        StageView::AddingRequestHeader(i) => {
            &&& action is Call
            &&& early(e, replies)
            &&& 0 <= i < request.headers.len()
            &&& history::readable(request, i + 1)
            &&& told == history::request_head_calls(request, i + 1)
        },
        StageView::ReadingRequest => {
            &&& action is ReadRequestBody
            &&& before_service(e, replies)
            &&& told == history::calls_with_request_body(c)
        },
        StageView::AppendingRequest => {
            &&& action matches ActionView::Call(EngineCallView::AppendRequestBody(_))
            &&& before_service(e, replies)
            &&& told == history::calls_with_request_body(c)
        },
        StageView::Handling => {
            &&& action == ActionView::RunHandler(c.request_body)
            &&& calm
            &&& history::response(replies) is None
            &&& history::response_body(replies) == Seq::<Seq<u8>>::empty()
            &&& e.load.kept == Seq::<Seq<u8>>::empty()
            &&& told == history::calls_to_request_body(c)
        },
        StageView::AddingResponseHeader(head, i) => {
            &&& action is Call
            &&& after_service(e, replies)
            &&& c.response == head
            &&& c.response_body == Seq::<Seq<u8>>::empty()
            &&& 0 <= i < head.headers.len()
            &&& history::visible(head, i + 1)
            &&& told == history::calls_to_request_body(c)
                + history::response_header_calls(head, i + 1)
        },
        StageView::AddingContentType(head) => {
            &&& action == ActionView::Call(exchange::content_type_call())
            &&& after_service(e, replies)
            &&& history::visible(head, head.headers.len() as int)
            &&& c.response == head
            &&& c.response_body == Seq::<Seq<u8>>::empty()
            &&& told == history::calls_to_request_body(c) + history::response_head_calls(head)
        },
        StageView::ReadingResponse => {
            &&& action is ReadResponseBody
            &&& after_service(e, replies)
            &&& told == history::calls_with_response_body(c)
        },
        StageView::AppendingResponse => {
            &&& action matches ActionView::Call(EngineCallView::AppendResponseBody(_))
            &&& after_service(e, replies)
            &&& told == history::calls_with_response_body(c)
        },
        StageView::Processing(point) => {
            &&& action is Call
            &&& at_point(e, replies, point)
            &&& told == history::calls_to(c, point)
        },
        StageView::Checking(point) => {
            &&& action is PollIntervention
            &&& at_point(e, replies, point)
            &&& told == history::calls_to(c, point)
        },
        StageView::RefusalLogging(status) => {
            &&& action == ActionView::Call(EngineCallView::ProcessLogging)
            &&& history::first_refusal(replies) == Some(status)
            &&& history::refused_at_some_point(request, replies)
        },
        StageView::RefusalLogged(status) => {
            &&& action is PollIntervention
            &&& history::first_refusal(replies) == Some(status)
            &&& history::refused_at_some_point(request, replies)
        },
        StageView::RefusalChecking(status) => {
            &&& action is PollIntervention
            &&& history::first_refusal(replies) == Some(status)
            &&& history::refused_at_some_point(request, replies)
        },
        StageView::FinalLogging => {
            &&& action is Call
            &&& after_service(e, replies)
            &&& told == history::calls_to_response_body(c).push(EngineCallView::ProcessLogging)
        },
        StageView::FinalLogged => {
            &&& action is PollIntervention
            &&& after_service(e, replies)
            &&& told == history::calls_to_response_body(c).push(EngineCallView::ProcessLogging)
        },
        StageView::Closed => match action {
            ActionView::Release(body) => history::released(request, replies, body),
            ActionView::Reject(status) => history::rejected(request, replies, status),
            ActionView::Abort(fault) => history::aborted(replies, fault),
            _ => false,
        },
    }
}

/// Nothing of a body was read yet.
pub open spec fn early(e: ExchangeView, replies: Seq<ReplyView>) -> bool {
    &&& before_service(e, replies)
    &&& e.load.kept == Seq::<Seq<u8>>::empty()
}

/// The service was not run yet, and the pieces of the request body are kept.
pub open spec fn before_service(e: ExchangeView, replies: Seq<ReplyView>) -> bool {
    &&& history::first_refusal(replies) is None
    &&& history::response(replies) is None
    &&& history::response_body(replies) == Seq::<Seq<u8>>::empty()
    &&& e.load.kept == history::request_body(replies)
}

/// The service has responded, and the pieces of the response body are kept.
pub open spec fn after_service(e: ExchangeView, replies: Seq<ReplyView>) -> bool {
    &&& history::first_refusal(replies) is None
    &&& history::response(replies) is Some
    &&& e.load.kept == history::response_body(replies)
}

/// What is known of the bodies at a checkpoint.
pub open spec fn at_point(e: ExchangeView, replies: Seq<ReplyView>, point: Checkpoint) -> bool {
    match point {
        Checkpoint::RequestHeaders => early(e, replies),
        Checkpoint::RequestBody => before_service(e, replies),
        Checkpoint::ResponseHeaders => {
            &&& after_service(e, replies)
            &&& history::response_body(replies) == Seq::<Seq<u8>>::empty()
        },
        Checkpoint::ResponseBody => after_service(e, replies),
    }
}

/// One more reply adds one directive, and with it at most one call and one message.
pub(crate) proof fn lemma_one_more(request: RequestHeadView, replies: Seq<ReplyView>)
    requires
        replies.len() > 0,
    ensures
        ({
            let before = replies.drop_last();
            let (e, d) = exchange::next(history::run(request, before).0, replies.last());
            let told = history::calls(history::issued(request, before));
            let sent = history::logs(history::issued(request, before));
            &&& history::run(request, replies).0 == e
            &&& history::issued(request, replies) == history::issued(request, before).push(d)
            &&& history::asked(request, replies) == d.action
            &&& history::calls(history::issued(request, replies)) == (match d.action {
                ActionView::Call(call) => told.push(call),
                _ => told,
            })
            &&& history::logs(history::issued(request, replies)) == (match d.log {
                Some(log) => sent.push(log),
                None => sent,
            })
        }),
{
    let all = history::issued(request, replies);
    assert(all.drop_last() =~= history::issued(request, replies.drop_last()));
}

/// A report refuses with one status at most.
pub(crate) proof fn lemma_refusal(report: Option<InterventionView>)
    ensures
        match intervention::refusal(report) {
            Some(status) => history::refuses(report, status) && (choose|s: u16|
                history::refuses(report, s)) == status,
            None => forall|s: u16| !history::refuses(report, s),
        },
{
    assert forall|s: u16| history::refuses(report, s) <==> intervention::refusal(report) == Some(
        s,
    ) by {
        intervention::law_disruptive_reports_refuse(report, s);
    }
}

/// The calls that bring the headers grow with the headers.
proof fn lemma_request_head_calls(request: RequestHeadView)
    ensures
        seq![exchange::connection_call()].push(exchange::uri_call(request))
            == history::request_head_calls(request, 0),
        forall|i: int|
            0 <= i < request.headers.len()
                ==> #[trigger] history::request_head_calls(request, i + 1)
                == history::request_head_calls(request, i).push(
                EngineCallView::AddRequestHeader {
                    name: request.headers[i].0,
                    value: vstd::utf8::decode_utf8(request.headers[i].1),
                },
            ),
{
    assert(seq![exchange::connection_call()].push(exchange::uri_call(request))
        =~= history::request_head_calls(request, 0));
    assert forall|i: int| 0 <= i < request.headers.len(
        ) implies #[trigger] history::request_head_calls(
        request,
        i + 1,
    ) == history::request_head_calls(request, i).push(
        EngineCallView::AddRequestHeader {
            name: request.headers[i].0,
            value: vstd::utf8::decode_utf8(request.headers[i].1),
        },
    ) by {
        assert(history::request_head_calls(request, i + 1)
            =~= history::request_head_calls(request, i).push(
            EngineCallView::AddRequestHeader {
                name: request.headers[i].0,
                value: vstd::utf8::decode_utf8(request.headers[i].1),
            },
        ));
    }
}

/// The invariant survives a turn to a request header.
proof fn lemma_request_header(request: RequestHeadView, replies: Seq<ReplyView>, i: int)
    requires
        replies.len() > 0,
        0 <= i <= request.headers.len(),
        history::readable(request, i),
        history::calls(history::issued(request, replies.drop_last()))
            == history::request_head_calls(request, i),
        replies.last() is Done,
        early(history::run(request, replies.drop_last()).0, replies.drop_last()),
        history::run(request, replies.drop_last()).0.load.request == request,
        exchange::next(history::run(request, replies.drop_last()).0, replies.last())
            == exchange::turn_to_request_header(
            history::run(request, replies.drop_last()).0.load,
            i,
        ),
    ensures
        steady(history::run(request, replies).0, request, replies),
{
    lemma_one_more(request, replies);
    lemma_request_head_calls(request);
    if i < request.headers.len() {
        let _ = history::request_head_calls(request, i + 1);
        match message::request_value(request.headers[i].1) {
            RequestValueView::Malformed => {
                assert(history::malformed_at(request, i));
            },
            RequestValueView::Text(value) => {
                assert(history::readable(request, i + 1));
            },
        }
    }
}

/// The invariant survives a turn to a response header.
proof fn lemma_response_header(
    request: RequestHeadView,
    replies: Seq<ReplyView>,
    head: ResponseHeadView,
    i: int,
)
    requires
        replies.len() > 0,
        0 <= i <= head.headers.len(),
        history::visible(head, i),
        history::calls(history::issued(request, replies.drop_last()))
            == history::calls_to_request_body(
            history::content(request, replies),
        ) + history::response_header_calls(head, i),
        after_service(history::run(request, replies.drop_last()).0, replies),
        history::response(replies) == Some(head),
        history::response_body(replies) == Seq::<Seq<u8>>::empty(),
        history::run(request, replies.drop_last()).0.load.request == request,
        exchange::next(history::run(request, replies.drop_last()).0, replies.last())
            == exchange::turn_to_response_header(
            history::run(request, replies.drop_last()).0.load,
            head,
            i,
        ),
    ensures
        steady(history::run(request, replies).0, request, replies),
{
    lemma_one_more(request, replies);
    let c = history::content(request, replies);
    let told = history::calls_to_request_body(c);
    if i < head.headers.len() {
        let bytes = head.headers[i].1;
        if message::visible_value(bytes) {
            let call = EngineCallView::AddResponseHeader {
                name: head.headers[i].0,
                value: message::ascii_text(bytes),
            };
            assert((told + history::response_header_calls(head, i)).push(call) =~= told
                + history::response_header_calls(head, i + 1));
            assert(history::visible(head, i + 1));
        }
    } else {
        let own = history::response_header_calls(head, head.headers.len() as int);
        assert((told + own).push(exchange::content_type_call()) =~= told + own.push(
            exchange::content_type_call(),
        ));
    }
}

/// The invariant survives a call that the engine took.
proof fn lemma_after_call(request: RequestHeadView, replies: Seq<ReplyView>)
    requires
        replies.len() > 0,
        replies.last() is Done,
        history::answers(history::asked(request, replies.drop_last()), replies.last()),
        steady(history::run(request, replies.drop_last()).0, request, replies.drop_last()),
    ensures
        steady(history::run(request, replies).0, request, replies),
{
    let before = replies.drop_last();
    let e = history::run(request, before).0;
    lemma_one_more(request, replies);
    lemma_request_head_calls(request);
    assert(history::content(request, replies) == history::content(request, before));
    match e.stage {
        StageView::Addressing => {
            lemma_request_header(request, replies, 0);
        },
        StageView::AddingRequestHeader(i) => {
            lemma_request_header(request, replies, i + 1);
        },
        StageView::AddingResponseHeader(head, i) => {
            lemma_response_header(request, replies, head, i + 1);
        },
        StageView::RefusalLogging(_) => {
            let point = choose|point: Checkpoint|
                history::calls(history::issued(request, before)) == (#[trigger] history::calls_to(
                    history::content(request, before),
                    point,
                )).push(EngineCallView::ProcessLogging);
            assert(history::calls(history::issued(request, replies)) == history::calls_to(
                history::content(request, replies),
                point,
            ).push(EngineCallView::ProcessLogging));
        },
        _ => {},
    }
}

/// The invariant survives what the engine reports.
proof fn lemma_after_report(request: RequestHeadView, replies: Seq<ReplyView>)
    requires
        replies.len() > 0,
        replies.last() is Intervention,
        history::answers(history::asked(request, replies.drop_last()), replies.last()),
        steady(history::run(request, replies.drop_last()).0, request, replies.drop_last()),
    ensures
        steady(history::run(request, replies).0, request, replies),
{
    let before = replies.drop_last();
    let e = history::run(request, before).0;
    lemma_one_more(request, replies);
    assert(history::content(request, replies) == history::content(request, before));
    let c = history::content(request, replies);
    lemma_refusal(replies.last()->Intervention_0);
    match e.stage {
        StageView::Checking(point) => {
            assert(history::calls_to(c, point) == history::calls(history::issued(request, before)));
            if c.request_body.len() == 0 {
                assert(history::calls_with_request_body(c)
                    =~= history::calls_to_request_headers(c));
            }
            if c.response_body.len() == 0 {
                assert(history::calls_with_response_body(c)
                    =~= history::calls_to_response_headers(c));
            }
        },
        StageView::RefusalLogged(_) | StageView::RefusalChecking(_) => {
            let point = choose|point: Checkpoint|
                history::calls(history::issued(request, before)) == (#[trigger] history::calls_to(
                    history::content(request, before),
                    point,
                )).push(EngineCallView::ProcessLogging);
            assert(history::calls(history::issued(request, replies))
                == history::calls_to(c, point).push(
                EngineCallView::ProcessLogging,
            ));
        },
        _ => {},
    }
}

/// The invariant survives what came of waiting for a piece of a body.
proof fn lemma_after_chunk(request: RequestHeadView, replies: Seq<ReplyView>)
    requires
        replies.len() > 0,
        replies.last() is Chunk,
        history::answers(history::asked(request, replies.drop_last()), replies.last()),
        steady(history::run(request, replies.drop_last()).0, request, replies.drop_last()),
    ensures
        steady(history::run(request, replies).0, request, replies),
{
    let before = replies.drop_last();
    let e = history::run(request, before).0;
    lemma_one_more(request, replies);
    let old_c = history::content(request, before);
    let c = history::content(request, replies);
    match replies.last() {
        ReplyView::Chunk(ChunkView::Data(bytes)) => {
            if e.stage is ReadingRequest {
                assert(history::calls_with_request_body(c)
                    =~= history::calls_with_request_body(old_c).push(
                    EngineCallView::AppendRequestBody(bytes),
                ));
            } else {
                assert(history::calls_with_response_body(c)
                    =~= history::calls_with_response_body(old_c).push(
                    EngineCallView::AppendResponseBody(bytes),
                ));
            }
        },
        _ => {
            assert(c == old_c);
        },
    }
}

/// The invariant survives the head of the service's response.
proof fn lemma_after_response(request: RequestHeadView, replies: Seq<ReplyView>)
    requires
        replies.len() > 0,
        replies.last() is Response,
        history::answers(history::asked(request, replies.drop_last()), replies.last()),
        steady(history::run(request, replies.drop_last()).0, request, replies.drop_last()),
    ensures
        steady(history::run(request, replies).0, request, replies),
{
    let before = replies.drop_last();
    let e = history::run(request, before).0;
    let head = replies.last()->Response_0;
    let c = history::content(request, replies);
    assert(e.stage is Handling);
    assert(history::calls_to_request_body(c)
        == history::calls_to_request_body(history::content(request, before)));
    assert(history::calls_to_request_body(c) + history::response_header_calls(head, 0)
        =~= history::calls_to_request_body(c));
    lemma_response_header(request, replies, head, 0);
}

/// The invariant holds as long as the replies come in turn.
pub(crate) proof fn lemma_steady(request: RequestHeadView, replies: Seq<ReplyView>)
    requires
        history::in_turn(request, replies),
    ensures
        steady(history::run(request, replies).0, request, replies),
    decreases replies.len(),
{
    if replies.len() == 0 {
        reveal_with_fuel(history::calls, 2);
    } else {
        lemma_steady(request, replies.drop_last());
        match replies.last() {
            ReplyView::Done => lemma_after_call(request, replies),
            ReplyView::Failed => lemma_one_more(request, replies),
            ReplyView::Intervention(_) => lemma_after_report(request, replies),
            ReplyView::Chunk(_) => lemma_after_chunk(request, replies),
            ReplyView::Response(_) => lemma_after_response(request, replies),
        }
    }
}

/// How many replies can at most have come when the exchange waits at a stage, apart from
/// those for pieces of a body.
pub open spec fn progress(stage: StageView, request: int, response: int) -> int {
    match stage {
        StageView::Building => 0,
        StageView::Connecting => 1,
        StageView::Addressing => 2,
        StageView::AddingRequestHeader(i) => 3 + i,
        StageView::ReadingRequest => 5 + request,
        StageView::AppendingRequest => 4 + request,
        StageView::Handling => 8 + request,
        StageView::AddingResponseHeader(_, i) => 9 + request + i,
        StageView::AddingContentType(_) => 9 + request + response,
        StageView::ReadingResponse => 12 + request + response,
        StageView::AppendingResponse => 11 + request + response,
        StageView::Processing(Checkpoint::RequestHeaders) => 3 + request,
        StageView::Checking(Checkpoint::RequestHeaders) => 4 + request,
        StageView::Processing(Checkpoint::RequestBody) => 6 + request,
        StageView::Checking(Checkpoint::RequestBody) => 7 + request,
        StageView::Processing(Checkpoint::ResponseHeaders) => 10 + request + response,
        StageView::Checking(Checkpoint::ResponseHeaders) => 11 + request + response,
        StageView::Processing(Checkpoint::ResponseBody) => 13 + request + response,
        StageView::Checking(Checkpoint::ResponseBody) => 14 + request + response,
        StageView::FinalLogging => 15 + request + response,
        StageView::FinalLogged => 16 + request + response,
        StageView::RefusalLogging(_) => 15 + request + response,
        StageView::RefusalLogged(_) => 16 + request + response,
        StageView::RefusalChecking(_) => 17 + request + response,
        StageView::Closed => 18 + request + response,
    }
}

/// The stages come in order.
#[verifier::rlimit(20)]
pub(crate) proof fn lemma_progress(request: RequestHeadView, replies: Seq<ReplyView>)
    requires
        history::in_turn(request, replies),
    ensures
        replies.len() <= progress(
            history::run(request, replies).0.stage,
            request.headers.len() as int,
            history::response_headers(replies) as int,
        ) + history::body_replies(replies),
    decreases replies.len(),
{
    if replies.len() > 0 {
        let before = replies.drop_last();
        lemma_progress(request, before);
        lemma_steady(request, before);
        lemma_steady(request, replies);
        lemma_one_more(request, replies);
    }
}

} // verus!
