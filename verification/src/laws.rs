//! What holds of every exchange, from its first directive to its last.
//!
//! The laws speak of what an exchange has asked for after some replies. Since the beginning of
//! an exchange is one too, a law on the last directive is a law on each of them.

use vstd::prelude::*;

use crate::{history, message, stages};
use crate::exchange::{Checkpoint, StageView};
use crate::history::Content;
use crate::message::RequestHeadView;
use crate::intervention::InterventionView;
use crate::protocol::{ActionView, EngineCallView, Fault, ReplyView};

verus! {

/// A reply that does not answer the action before it ends the exchange with a fault of its
/// own, and no other reply does.
pub proof fn law_out_of_turn(request: RequestHeadView, replies: Seq<ReplyView>, reply: ReplyView)
    requires
        history::in_turn(request, replies),
    ensures
        history::asked(request, replies.push(reply))
            == ActionView::Abort(Fault::OutOfTurn) <==> !history::answers(
            history::asked(request, replies),
            reply,
        ),
{
    let all = replies.push(reply);
    assert(all.drop_last() =~= replies);
    stages::lemma_steady(request, replies);
    stages::lemma_one_more(request, all);
}

/// The service gets the request only after the engine was told all of it, in order, and
/// refused nothing; and it gets the body that the engine was told, piece by piece.
pub proof fn law_service_gets_what_was_inspected(
    request: RequestHeadView,
    replies: Seq<ReplyView>,
    body: Seq<Seq<u8>>,
)
    requires
        history::in_turn(request, replies),
        history::asked(request, replies) == ActionView::RunHandler(body),
    ensures
        body == history::request_body(replies),
        history::first_refusal(replies) is None,
        history::calls(history::issued(request, replies))
            == history::calls_to_request_body(history::content(request, replies)),
{
    stages::lemma_steady(request, replies);
}

/// The client gets the response only after the service gave one, the engine was told all of
/// it and of the request, in order, refused nothing and has run its logging rules; and the
/// client gets the body that the engine was told, piece by piece.
pub proof fn law_client_gets_what_was_inspected(
    request: RequestHeadView,
    replies: Seq<ReplyView>,
    body: Seq<Seq<u8>>,
)
    requires
        history::in_turn(request, replies),
        history::asked(request, replies) == ActionView::Release(body),
    ensures
        body == history::response_body(replies),
        history::response(replies) is Some,
        replies.len() > 0,
        history::first_refusal(replies.drop_last()) is None,
        history::calls(history::issued(request, replies))
            == history::calls_to_response_body(history::content(request, replies)).push(
            EngineCallView::ProcessLogging,
        ),
{
    stages::lemma_steady(request, replies);
}

/// A client that gets a bare status gets the one that the engine refused the exchange with,
/// after the calls up to a checkpoint and the logging rules; or the engine refused nothing,
/// the request has a malformed header, and the status is that of a bad request.
pub proof fn law_refused_client_gets_the_status(
    request: RequestHeadView,
    replies: Seq<ReplyView>,
    status: u16,
)
    requires
        history::in_turn(request, replies),
        history::asked(request, replies) == ActionView::Reject(status),
    ensures
        100 <= status <= 999,
        history::rejected(request, replies, status),
{
    stages::lemma_steady(request, replies);
    lemma_refusals_are_statuses(replies);
}

/// A refusal is a status code.
proof fn lemma_refusals_are_statuses(replies: Seq<ReplyView>)
    ensures
        history::first_refusal(replies) matches Some(status) ==> 100 <= status <= 999,
    decreases replies.len(),
{
    if replies.len() > 0 {
        lemma_refusals_are_statuses(replies.drop_last());
    }
}

/// Every message that the engine reports goes to the audit log, once and in order, and
/// nothing else does.
pub proof fn law_every_report_is_logged(request: RequestHeadView, replies: Seq<ReplyView>)
    requires
        history::in_turn(request, replies),
    ensures
        history::logs(history::issued(request, replies)) == history::reported_logs(replies),
    decreases replies.len(),
{
    if replies.len() == 0 {
        reveal_with_fuel(history::logs, 2);
    } else {
        law_every_report_is_logged(request, replies.drop_last());
        stages::lemma_steady(request, replies.drop_last());
        stages::lemma_one_more(request, replies);
    }
}

/// Whether a call makes the engine run rules.
pub open spec fn runs_rules(call: EngineCallView) -> bool {
    ||| call is ProcessRequestHeaders
    ||| call is ProcessRequestBody
    ||| call is ProcessResponseHeaders
    ||| call is ProcessResponseBody
    ||| call is ProcessLogging
}

/// Whenever the engine has run rules, it is asked at once what it wants done.
pub proof fn law_every_phase_is_checked(
    request: RequestHeadView,
    replies: Seq<ReplyView>,
    call: EngineCallView,
)
    requires
        history::in_turn(request, replies),
        history::asked(request, replies) == ActionView::Call(call),
        runs_rules(call),
    ensures
        history::asked(request, replies.push(ReplyView::Done)) is PollIntervention,
{
    let all = replies.push(ReplyView::Done);
    assert(all.drop_last() =~= replies);
    stages::lemma_steady(request, replies);
    stages::lemma_one_more(request, all);
    lemma_last_call(request, replies);
}

/// No call before the logging phase is the call for it.
proof fn lemma_no_logging_before(c: Content, point: Checkpoint, count: int)
    requires
        0 <= count,
    ensures
        !history::calls_to(c, point).contains(EngineCallView::ProcessLogging),
        !history::request_head_calls(c.request, count).contains(EngineCallView::ProcessLogging),
{
}

/// The logging rules run exactly once, as the last call, in an exchange that the engine let
/// pass and in one that it refused; they do not run in one that is refused for a malformed
/// header.
pub proof fn law_logging_runs_once(request: RequestHeadView, replies: Seq<ReplyView>)
    requires
        history::in_turn(request, replies),
        history::asked(request, replies) is Release || history::asked(request, replies) is Reject,
    ensures
        ({
            let told = history::calls(history::issued(request, replies));
            if history::asked(request, replies) is Reject && history::first_refusal(
                replies) is None {
                !told.contains(EngineCallView::ProcessLogging)
            } else {
                &&& told.len() > 0
                &&& told.last() == EngineCallView::ProcessLogging
                &&& !told.drop_last().contains(EngineCallView::ProcessLogging)
            }
        }),
{
    stages::lemma_steady(request, replies);
    let told = history::calls(history::issued(request, replies));
    let c = history::content(request, replies);
    if history::asked(request, replies) is Release {
        lemma_no_logging_before(c, Checkpoint::ResponseBody, 0);
        assert(told.drop_last() =~= history::calls_to(c, Checkpoint::ResponseBody));
    } else if history::first_refusal(replies) is None {
        let i = choose|i: int| #[trigger]
            history::malformed_at(request, i) && told == history::request_head_calls(request, i);
        lemma_no_logging_before(c, Checkpoint::RequestHeaders, i);
    } else {
        let point = choose|point: Checkpoint|
            told == (#[trigger] history::calls_to(c, point)).push(EngineCallView::ProcessLogging);
        lemma_no_logging_before(c, point, 0);
        assert(told.drop_last() =~= history::calls_to(c, point));
    }
}

/// The service is run once in an exchange that has a response or waits for one, and not at
/// all in any other.
pub proof fn law_service_runs_once(request: RequestHeadView, replies: Seq<ReplyView>)
    requires
        history::in_turn(request, replies),
    ensures
        history::service_runs(history::issued(request, replies))
            == if history::response(replies) is Some || history::asked(
            request,
            replies,
        ) is RunHandler {
            1nat
        } else {
            0nat
        },
    decreases replies.len(),
{
    if replies.len() == 0 {
        reveal_with_fuel(history::service_runs, 2);
    } else {
        let before = replies.drop_last();
        law_service_runs_once(request, before);
        stages::lemma_steady(request, before);
        stages::lemma_one_more(request, replies);
        assert(history::issued(request, replies).drop_last() =~= history::issued(request, before));
    }
}

/// Once the engine has refused the exchange at a checkpoint, all that still happens is that
/// the logging rules run, that the engine is asked about them, and that the client gets the
/// status of that refusal, unless the engine fails; the service is not run any more, and no
/// response is released.
pub proof fn law_refusal_is_final(
    request: RequestHeadView,
    before: Seq<ReplyView>,
    report: Option<InterventionView>,
    after: Seq<ReplyView>,
    status: u16,
)
    requires
        history::in_turn(request, before.push(ReplyView::Intervention(report)) + after),
        !history::calls(history::issued(request, before)).contains(EngineCallView::ProcessLogging),
        history::refuses(report, status),
    ensures
        ({
            let all = before.push(ReplyView::Intervention(report)) + after;
            let action = history::asked(request, all);
            &&& {
                ||| action == ActionView::Call(EngineCallView::ProcessLogging)
                ||| action is PollIntervention
                ||| action == ActionView::Reject(status)
                ||| action == ActionView::Abort(Fault::EngineFailure)
            }
            &&& history::response(all) == history::response(before)
            &&& history::service_runs(history::issued(request, all)) == history::service_runs(
                history::issued(request, before),
            )
        }),
{
    let refused = before.push(ReplyView::Intervention(report));
    let all = refused + after;
    lemma_refused_stage(request, before, report, after, status);
    assert(refused.drop_last() =~= before);
    lemma_prefix_in_turn(request, refused, after);
    law_service_runs_once(request, all);
    law_service_runs_once(request, before);
    stages::lemma_steady(request, all);
}

/// A refusal at a checkpoint is answered with its status once the engine has run the logging
/// rules and was asked twice about them, whatever it reports then.
pub proof fn law_refusal_is_answered(
    request: RequestHeadView,
    before: Seq<ReplyView>,
    report: Option<InterventionView>,
    status: u16,
    second: Option<InterventionView>,
    third: Option<InterventionView>,
)
    requires
        history::in_turn(request, before.push(ReplyView::Intervention(report))),
        !history::calls(history::issued(request, before)).contains(EngineCallView::ProcessLogging),
        history::refuses(report, status),
    ensures
        ({
            let all = before.push(ReplyView::Intervention(report)).push(ReplyView::Done).push(
                ReplyView::Intervention(second),
            ).push(ReplyView::Intervention(third));
            &&& history::in_turn(request, all)
            &&& history::asked(request, all) == ActionView::Reject(status)
        }),
{
    let refused = before.push(ReplyView::Intervention(report));
    let logging = refused.push(ReplyView::Done);
    let logged = logging.push(ReplyView::Intervention(second));
    let all = logged.push(ReplyView::Intervention(third));
    assert(refused.drop_last() =~= before);
    lemma_at_checkpoint(request, before, report);
    stages::lemma_refusal(report);
    stages::lemma_one_more(request, refused);
    assert(logging.drop_last() =~= refused);
    assert(history::in_turn(request, logging));
    stages::lemma_one_more(request, logging);
    assert(logged.drop_last() =~= logging);
    assert(history::in_turn(request, logged));
    stages::lemma_one_more(request, logged);
    assert(all.drop_last() =~= logged);
    stages::lemma_one_more(request, all);
}

/// The beginning of an exchange whose replies come in turn is one too.
proof fn lemma_prefix_in_turn(
    request: RequestHeadView,
    replies: Seq<ReplyView>,
    after: Seq<ReplyView>,
)
    requires
        history::in_turn(request, replies + after),
    ensures
        history::in_turn(request, replies),
    decreases after.len(),
{
    if after.len() == 0 {
        assert(replies + after =~= replies);
    } else {
        assert((replies + after).drop_last() =~= replies + after.drop_last());
        lemma_prefix_in_turn(request, replies, after.drop_last());
    }
}

/// An engine that is asked before the logging rules have run is asked about a checkpoint.
pub(crate) proof fn lemma_at_checkpoint(
    request: RequestHeadView,
    before: Seq<ReplyView>,
    report: Option<InterventionView>,
)
    requires
        history::in_turn(request, before.push(ReplyView::Intervention(report))),
        !history::calls(history::issued(request, before)).contains(EngineCallView::ProcessLogging),
    ensures
        history::in_turn(request, before),
        history::run(request, before).0.stage is Checking,
{
    assert(before.push(ReplyView::Intervention(report)).drop_last() =~= before);
    stages::lemma_steady(request, before);
    let told = history::calls(history::issued(request, before));
    let stage = history::run(request, before).0.stage;
    if !(stage is Checking) {
        if !(stage is FinalLogged) {
            assert(history::refused_at_some_point(request, before));
        }
        assert(told.last() == EngineCallView::ProcessLogging);
        assert(told.contains(told.last()));
    }
}

/// The stages that can follow a refusal.
proof fn lemma_refused_stage(
    request: RequestHeadView,
    before: Seq<ReplyView>,
    report: Option<InterventionView>,
    after: Seq<ReplyView>,
    status: u16,
)
    requires
        history::in_turn(request, before.push(ReplyView::Intervention(report)) + after),
        !history::calls(history::issued(request, before)).contains(EngineCallView::ProcessLogging),
        history::refuses(report, status),
    ensures
        ({
            let all = before.push(ReplyView::Intervention(report)) + after;
            let action = history::asked(request, all);
            &&& history::response(all) == history::response(before)
            &&& match history::run(request, all).0.stage {
                StageView::RefusalLogging(s) => s == status,
                StageView::RefusalLogged(s) => s == status,
                StageView::RefusalChecking(s) => s == status,
                StageView::Closed => {
                    ||| action == ActionView::Reject(status)
                    ||| action == ActionView::Abort(Fault::EngineFailure)
                },
                _ => false,
            }
        }),
    decreases after.len(),
{
    let refused = before.push(ReplyView::Intervention(report));
    let all = refused + after;
    if after.len() == 0 {
        assert(all =~= refused);
        assert(refused.drop_last() =~= before);
        lemma_at_checkpoint(request, before, report);
        stages::lemma_refusal(report);
        stages::lemma_one_more(request, refused);
    } else {
        let shorter = refused + after.drop_last();
        assert(all.drop_last() =~= shorter);
        lemma_refused_stage(request, before, report, after.drop_last(), status);
        stages::lemma_steady(request, shorter);
        stages::lemma_one_more(request, all);
    }
}

/// An exchange is given up only where the engine failed just before, or where a header
/// of the response cannot be read.
pub proof fn law_reasons_to_give_up(
    request: RequestHeadView,
    replies: Seq<ReplyView>,
    fault: Fault,
)
    requires
        history::in_turn(request, replies),
        history::asked(request, replies) == ActionView::Abort(fault),
    ensures
        history::aborted(replies, fault),
{
    stages::lemma_steady(request, replies);
}

/// An engine that fails to make the transaction or to take a call ends the exchange: from then
/// on neither the service nor the client gets anything.
pub proof fn law_engine_failure_ends_the_exchange(
    request: RequestHeadView,
    replies: Seq<ReplyView>,
)
    requires
        history::in_turn(request, replies.push(ReplyView::Failed)),
    ensures
        history::asked(request, replies.push(ReplyView::Failed))
            == ActionView::Abort(Fault::EngineFailure),
{
    let all = replies.push(ReplyView::Failed);
    assert(all.drop_last() =~= replies);
    stages::lemma_steady(request, replies);
    stages::lemma_one_more(request, all);
}

/// An exchange with readable headers, at which the engine neither fails nor refuses anything
/// at a checkpoint, is neither refused nor given up, whatever the engine reports after the
/// logging rules.
pub proof fn law_clean_exchange_passes(request: RequestHeadView, replies: Seq<ReplyView>)
    requires
        history::in_turn(request, replies),
        history::refused_nothing(request, replies),
        !replies.contains(ReplyView::Failed),
        history::readable(request, request.headers.len() as int),
        history::response(replies) matches Some(head)
            ==> history::visible(head, head.headers.len() as int),
    ensures
        !(history::asked(request, replies) is Reject),
        !(history::asked(request, replies) is Abort),
{
    lemma_nothing_refused(request, replies);
    if replies.len() > 0 {
        assert(replies.contains(replies.last()));
    }
    if history::asked(request, replies) is Abort {
        law_reasons_to_give_up(request, replies, history::asked(request, replies)->Abort_0);
    } else if history::asked(request, replies) is Reject {
        let i = choose|i: int| history::malformed_at(request, i);
        assert(history::is_text(request.headers[i].1));
    }
}

/// Where the engine refused nothing at a checkpoint, the exchange is not being refused, and
/// only a malformed header has it rejected.
pub(crate) proof fn lemma_nothing_refused(request: RequestHeadView, replies: Seq<ReplyView>)
    requires
        history::in_turn(request, replies),
        history::refused_nothing(request, replies),
    ensures
        ({
            let stage = history::run(request, replies).0.stage;
            &&& !(stage is RefusalLogging)
            &&& !(stage is RefusalLogged)
            &&& !(stage is RefusalChecking)
            &&& history::asked(request, replies) matches ActionView::Reject(status) ==> {
                &&& status == 400
                &&& exists|i: int| history::malformed_at(request, i)
            }
        }),
    decreases replies.len(),
{
    if replies.len() > 0 {
        let before = replies.drop_last();
        lemma_nothing_refused_before(request, replies);
        lemma_nothing_refused(request, before);
        stages::lemma_steady(request, before);
        stages::lemma_one_more(request, replies);
        match history::run(request, before).0.stage {
            StageView::Checking(point) => {
                lemma_no_logging_before(history::content(request, before), point, 0);
                stages::lemma_refusal(replies.last()->Intervention_0);
            },
            StageView::Addressing | StageView::AddingRequestHeader(_) => {
                if history::asked(request, replies) is Reject {
                    lemma_rejected_for_a_header(request, replies);
                }
            },
            _ => {},
        }
    }
}

/// Where the engine refused nothing at a checkpoint, it did not do so earlier, nor with the last
/// reply.
proof fn lemma_nothing_refused_before(request: RequestHeadView, replies: Seq<ReplyView>)
    requires
        replies.len() > 0,
        history::refused_nothing(request, replies),
    ensures
        history::refused_nothing(request, replies.drop_last()),
        replies.last() matches ReplyView::Intervention(report) ==> {
            ||| history::calls(history::issued(request, replies.drop_last())).contains(
                EngineCallView::ProcessLogging,
            )
            ||| forall|status: u16| !history::refuses(report, status)
        },
{
    let before = replies.drop_last();
    assert forall|k: int| #![trigger before[k]] 0 <= k < before.len() implies replies.take(k)
        == before.take(k) && replies[k] == before[k] by {
        assert(replies.take(k) =~= before.take(k));
    }
    assert(replies.take(replies.len() - 1) =~= before);
    assert(replies[replies.len() - 1] == replies.last());
}

/// An exchange that is refused where no refusal was reported has a malformed header.
proof fn lemma_rejected_for_a_header(request: RequestHeadView, replies: Seq<ReplyView>)
    requires
        replies.len() > 0,
        history::in_turn(request, replies),
        history::run(request, replies.drop_last()).0.stage is Addressing || history::run(
            request,
            replies.drop_last(),
        ).0.stage is AddingRequestHeader,
        history::asked(request, replies) is Reject,
    ensures
        history::asked(request, replies) == ActionView::Reject(400),
        exists|i: int| history::malformed_at(request, i),
{
    stages::lemma_steady(request, replies.drop_last());
    stages::lemma_steady(request, replies);
    stages::lemma_one_more(request, replies);
}

/// Only a closed exchange has been ended.
proof fn lemma_stage_of_end(request: RequestHeadView, replies: Seq<ReplyView>)
    requires
        history::in_turn(request, replies),
    ensures
        history::run(request, replies).0.stage is Closed <==> {
            ||| history::asked(request, replies) is Reject
            ||| history::asked(request, replies) is Release
            ||| history::asked(request, replies) is Abort
        },
{
    stages::lemma_steady(request, replies);
}

/// An exchange that has ended takes no more replies.
pub proof fn law_ended_exchange_takes_no_reply(
    request: RequestHeadView,
    replies: Seq<ReplyView>,
    reply: ReplyView,
)
    requires
        history::in_turn(request, replies),
        history::asked(request, replies) is Reject || history::asked(request, replies) is Release
            || history::asked(request, replies) is Abort,
    ensures
        history::asked(request, replies.push(reply)) == ActionView::Abort(Fault::OutOfTurn),
{
    assert(replies.push(reply).drop_last() =~= replies);
    lemma_stage_of_end(request, replies);
    stages::lemma_one_more(request, replies.push(reply));
}

/// A request whose headers are readable up to a malformed one is refused as a bad request as
/// soon as the engine has taken what stands before it.
pub proof fn law_malformed_request_is_refused(request: RequestHeadView, i: int)
    requires
        history::malformed_at(request, i),
    ensures
        ({
            let replies = Seq::new((i + 3) as nat, |k: int| ReplyView::Done);
            &&& history::in_turn(request, replies)
            &&& history::asked(request, replies) == ActionView::Reject(400)
        }),
{
    lemma_headers_taken(request, i);
}

/// Where the engine takes every call, the header whose turn it is follows the number of
/// replies.
pub(crate) proof fn lemma_headers_taken(request: RequestHeadView, i: int)
    requires
        0 <= i <= request.headers.len(),
        history::readable(request, i),
    ensures
        ({
            let replies = Seq::new((i + 3) as nat, |k: int| ReplyView::Done);
            &&& history::in_turn(request, replies)
            &&& if i == request.headers.len() {
                history::asked(request, replies) == ActionView::Call(
                    EngineCallView::ProcessRequestHeaders,
                )
            } else if history::is_text(request.headers[i].1) {
                &&& history::run(request, replies).0.stage == StageView::AddingRequestHeader(i)
                &&& history::asked(request, replies) == ActionView::Call(
                    EngineCallView::AddRequestHeader {
                        name: request.headers[i].0,
                        value: vstd::utf8::decode_utf8(request.headers[i].1),
                    },
                )
            } else {
                history::asked(request, replies) == ActionView::Reject(400)
            }
        }),
    decreases i,
{
    let replies = Seq::new((i + 3) as nat, |k: int| ReplyView::Done);
    let before = Seq::new((i + 2) as nat, |k: int| ReplyView::Done);
    assert(replies.drop_last() =~= before);
    assert(before.last() is Done);
    if i == 0 {
        let none = Seq::<ReplyView>::empty();
        let first = none.push(ReplyView::Done);
        assert(first.drop_last() =~= none);
        assert(before.drop_last() =~= first);
        assert(history::in_turn(request, none));
        stages::lemma_one_more(request, first);
        assert(history::in_turn(request, first));
        stages::lemma_one_more(request, before);
        assert(history::in_turn(request, before));
    } else {
        lemma_headers_taken(request, i - 1);
        assert(history::is_text(request.headers[i - 1].1));
    }
    stages::lemma_steady(request, before);
    assert(replies.last() is Done);
    assert(history::in_turn(request, replies));
    stages::lemma_one_more(request, replies);
}

/// An exchange cannot go on for ever: apart from those that bring pieces of a body, it takes
/// as many replies as the request and the response have headers, and eighteen more at most.
pub proof fn law_exchange_ends(request: RequestHeadView, replies: Seq<ReplyView>)
    requires
        history::in_turn(request, replies),
    ensures
        replies.len() <= 18 + request.headers.len() + history::response_headers(replies)
            + history::body_replies(
            replies,
        ),
{
    stages::lemma_progress(request, replies);
    stages::lemma_steady(request, replies);
}

/// The engine has been told a content type of the response before it runs the rules on the
/// response headers, whether the response names one or not.
pub proof fn law_engine_knows_the_content_type(request: RequestHeadView, replies: Seq<ReplyView>)
    requires
        history::in_turn(request, replies),
        history::asked(request, replies) matches ActionView::Call(call)
            && call is ProcessResponseHeaders,
        history::response(replies) matches Some(head) ==> head.consistent(),
    ensures
        exists|i: int|
            0 <= i < history::calls(history::issued(request, replies)).len(
                ) && #[trigger] history::tells_content_type(
                history::calls(history::issued(request, replies))[i],
            ),
{
    stages::lemma_steady(request, replies);
    lemma_last_call(request, replies);
    let told = history::calls(history::issued(request, replies));
    let c = history::content(request, replies);
    let head = c.response;
    assert(history::run(request, replies).0.stage
        == StageView::Processing(Checkpoint::ResponseHeaders));
    let start = history::calls_to_request_body(c).len() as int;
    message::law_content_type_is_found_in_lower_case(head.headers);
    reveal_strlit("Content-Type");
    reveal_strlit("content-type");
    assert(history::lower_text("content-type"@) =~= "content-type"@);
    assert(history::lower_text("Content-Type"@) =~= "content-type"@);
    if head.typed {
        let i = choose|i: int|
            0 <= i < head.headers.len() && (#[trigger] head.headers[i]).0 == "content-type"@;
        assert(told[start + i]
            == history::response_header_calls(head, head.headers.len() as int)[i]);
        assert(history::tells_content_type(told[start + i]));
    } else {
        let at = start + head.headers.len();
        assert(told[at] == (EngineCallView::AddResponseHeader {
            name: "Content-Type"@,
            value: "text/plain"@,
        }));
        assert(history::tells_content_type(told[at]));
    }
}

/// A call that is asked for is the last of the calls.
pub(crate) proof fn lemma_last_call(request: RequestHeadView, replies: Seq<ReplyView>)
    ensures
        history::asked(request, replies) matches ActionView::Call(call) ==> {
            &&& history::calls(history::issued(request, replies)).len() > 0
            &&& history::calls(history::issued(request, replies)).last() == call
        },
{
    if replies.len() > 0 {
        stages::lemma_one_more(request, replies);
    }
}

} // verus!
