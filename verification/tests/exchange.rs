use waf_gate::exchange::{Exchange, BAD_REQUEST};
use waf_gate::intervention::Intervention;
use waf_gate::message::{Header, HttpVersion, RequestHead, ResponseHead};
use waf_gate::protocol::{Action, Chunk, Directive, Fault, Reply};

fn header(name: &str, value: &[u8]) -> Header {
    Header {
        name: name.to_owned(),
        value: value.to_vec(),
    }
}

fn request(headers: Vec<Header>) -> RequestHead {
    RequestHead {
        version: HttpVersion::Http11,
        uri: "/index?a=b".to_owned(),
        method: "POST".to_owned(),
        headers,
    }
}

fn response(headers: Vec<Header>, typed: bool) -> Reply {
    Reply::Response(ResponseHead {
        version: HttpVersion::Http2,
        status: 201,
        headers,
        typed,
    })
}

fn quiet() -> Reply {
    Reply::Intervention(None)
}

fn reports(status: i32, log: &str, disruptive: bool) -> Reply {
    Reply::Intervention(Some(Intervention {
        status,
        log: Some(log.to_owned()),
        disruptive,
    }))
}

fn data(text: &str) -> Reply {
    Reply::Chunk(Chunk::Data(text.as_bytes().to_vec()))
}

fn end() -> Reply {
    Reply::Chunk(Chunk::End)
}

fn broken() -> Reply {
    Reply::Chunk(Chunk::Broken)
}

/// Plays the replies and returns what was asked for, and the messages for the log.
fn play(head: RequestHead, replies: Vec<Reply>) -> (Vec<Directive>, Vec<String>) {
    let (mut exchange, first) = Exchange::open(head);
    let mut directives = vec![first];
    for reply in replies {
        let (next, directive) = exchange.step(reply);
        exchange = next;
        directives.push(directive);
    }
    let logs = directives.iter().filter_map(|d| d.log.clone()).collect();
    (directives, logs)
}

fn actions(directives: &[Directive]) -> Vec<String> {
    directives
        .iter()
        .map(|d| format!("{:?}", d.action))
        .collect()
}

fn last_action(head: RequestHead, replies: Vec<Reply>) -> Action {
    let (mut directives, _) = play(head, replies);
    directives.pop().unwrap().action
}

/// The replies up to the question about the request headers, with one header.
fn to_request_headers() -> Vec<Reply> {
    vec![
        Reply::Done,
        Reply::Done,
        Reply::Done,
        Reply::Done,
        Reply::Done,
    ]
}

/// The replies up to the question about the request body.
fn to_request_body() -> Vec<Reply> {
    let mut replies = to_request_headers();
    replies.extend([quiet(), data("in"), Reply::Done, end(), Reply::Done]);
    replies
}

/// The replies up to the question about the response headers.
fn to_response_headers() -> Vec<Reply> {
    let mut replies = to_request_body();
    replies.extend([
        quiet(),
        response(vec![header("x-a", b"b")], false),
        Reply::Done,
        Reply::Done,
        Reply::Done,
    ]);
    replies
}

/// The replies up to the question about the response body.
fn to_response_body() -> Vec<Reply> {
    let mut replies = to_response_headers();
    replies.extend([quiet(), data("out"), Reply::Done, end(), Reply::Done]);
    replies
}

fn one_header() -> RequestHead {
    request(vec![header("host", b"example.com")])
}

#[test]
fn a_clean_exchange_passes_the_engine() {
    let mut replies = to_response_body();
    replies.extend([quiet(), Reply::Done, quiet()]);
    let (directives, logs) = play(one_header(), replies);
    assert_eq!(logs, Vec::<String>::new());
    assert_eq!(
        actions(&directives),
        vec![
            "Build",
            "Call(ProcessConnection { client: \"127.0.0.1\", client_port: 1234, server: \
             \"127.0.0.1\", server_port: 8080 })",
            "Call(ProcessUri { uri: \"/index?a=b\", method: \"POST\", version: \"1.1\" })",
            "Call(AddRequestHeader { name: \"host\", value: \"example.com\" })",
            "Call(ProcessRequestHeaders)",
            "PollIntervention",
            "ReadRequestBody",
            "Call(AppendRequestBody([105, 110]))",
            "ReadRequestBody",
            "Call(ProcessRequestBody)",
            "PollIntervention",
            "RunHandler([[105, 110]])",
            "Call(AddResponseHeader { name: \"x-a\", value: \"b\" })",
            "Call(AddResponseHeader { name: \"Content-Type\", value: \"text/plain\" })",
            "Call(ProcessResponseHeaders { status: 201, version: \"2.0\" })",
            "PollIntervention",
            "ReadResponseBody",
            "Call(AppendResponseBody([111, 117, 116]))",
            "ReadResponseBody",
            "Call(ProcessResponseBody)",
            "PollIntervention",
            "Call(ProcessLogging)",
            "PollIntervention",
            "Release([[111, 117, 116]])",
        ]
    );
}

#[test]
fn a_typed_response_keeps_its_type() {
    let mut replies = to_request_body();
    replies.extend([
        quiet(),
        response(vec![header("content-type", b"text/html")], true),
        Reply::Done,
    ]);
    let (directives, _) = play(one_header(), replies);
    let asked = actions(&directives);
    assert_eq!(
        asked[asked.len() - 2..].to_vec(),
        vec![
            "Call(AddResponseHeader { name: \"content-type\", value: \"text/html\" })",
            "Call(ProcessResponseHeaders { status: 201, version: \"2.0\" })",
        ]
    );
}

#[test]
fn a_refusal_is_logged_and_answered_at_every_checkpoint() {
    let starts = [
        to_request_headers(),
        to_request_body(),
        to_response_headers(),
        to_response_body(),
    ];
    for mut replies in starts {
        let asked_before = replies.len() + 1;
        replies.extend([
            reports(403, "first", true),
            Reply::Done,
            reports(500, "second", true),
            reports(502, "third", true),
        ]);
        let (directives, logs) = play(one_header(), replies);
        let asked = actions(&directives);
        assert_eq!(
            asked[asked_before..].to_vec(),
            vec![
                "Call(ProcessLogging)",
                "PollIntervention",
                "PollIntervention",
                "Reject(403)",
            ]
        );
        assert_eq!(logs, vec!["first", "second", "third"]);
        let runs = asked
            .iter()
            .filter(|a| a.as_str() == "Call(ProcessLogging)")
            .count();
        assert_eq!(runs, 1);
    }
}

#[test]
fn a_refused_request_does_not_reach_the_service() {
    let mut replies = to_request_body();
    replies.extend([reports(403, "no", true), Reply::Done, quiet(), quiet()]);
    let (directives, _) = play(one_header(), replies);
    assert!(!directives
        .iter()
        .any(|d| matches!(d.action, Action::RunHandler(_))));
}

#[test]
fn reports_that_do_not_refuse_are_logged_in_order() {
    let mut replies = to_request_headers();
    replies.extend([
        reports(403, "one", false),
        end(),
        Reply::Done,
        reports(99, "two", true),
        response(Vec::new(), false),
        Reply::Done,
        Reply::Done,
        quiet(),
        end(),
        Reply::Done,
        reports(200, "three", false),
        Reply::Done,
        reports(403, "four", true),
    ]);
    let (directives, logs) = play(one_header(), replies);
    assert_eq!(logs, vec!["one", "two", "three", "four"]);
    assert!(matches!(
        &directives.last().unwrap().action,
        Action::Release(body) if body.is_empty()
    ));
}

#[test]
fn a_piece_that_cannot_be_read_is_passed_over() {
    let mut replies = to_request_headers();
    replies.extend([
        quiet(),
        data("a"),
        Reply::Done,
        broken(),
        broken(),
        data("b"),
        Reply::Done,
        end(),
        Reply::Done,
        quiet(),
    ]);
    match last_action(one_header(), replies) {
        Action::RunHandler(body) => assert_eq!(body, vec![b"a".to_vec(), b"b".to_vec()]),
        other => panic!("{:?}", other),
    }

    let mut replies = to_response_headers();
    replies.extend([
        quiet(),
        broken(),
        data("c"),
        Reply::Done,
        end(),
        Reply::Done,
        quiet(),
        Reply::Done,
        quiet(),
    ]);
    match last_action(one_header(), replies) {
        Action::Release(body) => assert_eq!(body, vec![b"c".to_vec()]),
        other => panic!("{:?}", other),
    }
}

#[test]
fn a_malformed_header_is_refused_where_it_stands() {
    let head = request(vec![
        header("host", b"example.com"),
        header("x-bad", b"a\x01"),
        header("x-late", b"b"),
    ]);
    let (directives, logs) = play(
        head,
        vec![Reply::Done, Reply::Done, Reply::Done, Reply::Done],
    );
    let asked = actions(&directives);
    assert_eq!(logs.len(), 0);
    assert_eq!(asked.len(), 5);
    assert_eq!(
        asked[3],
        "Call(AddRequestHeader { name: \"host\", value: \"example.com\" })"
    );
    assert!(matches!(directives[4].action, Action::Reject(status) if status == BAD_REQUEST));
    assert_eq!(BAD_REQUEST, 400);
}

#[test]
fn a_request_header_that_is_no_text_is_refused() {
    let head = request(vec![header("x-bad", b"\xff")]);
    assert!(matches!(
        last_action(head, vec![Reply::Done, Reply::Done, Reply::Done]),
        Action::Reject(400)
    ));
}

#[test]
fn a_disruptive_report_after_the_logging_rules_refuses_nothing() {
    let mut replies = to_response_body();
    replies.extend([quiet(), Reply::Done, reports(403, "late", true)]);
    let (directives, logs) = play(one_header(), replies);
    assert_eq!(logs, vec!["late"]);
    assert!(matches!(
        &directives.last().unwrap().action,
        Action::Release(body) if *body == vec![b"out".to_vec()]
    ));
}

#[test]
fn a_response_header_that_is_not_visible_gives_the_exchange_up() {
    let mut replies = to_request_body();
    replies.extend([quiet(), response(vec![header("x-bad", b"\xc3\xbc")], false)]);
    assert!(matches!(
        last_action(one_header(), replies),
        Action::Abort(Fault::UnreadableResponseHeader)
    ));
}

#[test]
fn an_engine_failure_gives_the_exchange_up() {
    let full = to_response_body().len();
    let mut failures = 0;
    for cut in 0..full {
        let mut replies: Vec<Reply> = to_response_body();
        replies.truncate(cut);
        if matches!(
            last_action(one_header(), replies),
            Action::Build | Action::Call(_)
        ) {
            let mut replies: Vec<Reply> = to_response_body();
            replies.truncate(cut);
            replies.push(Reply::Failed);
            assert!(matches!(
                last_action(one_header(), replies),
                Action::Abort(Fault::EngineFailure)
            ));
            failures += 1;
        }
    }
    assert_eq!(failures, 12);

    let mut replies = to_request_headers();
    replies.extend([reports(403, "no", true), Reply::Failed]);
    assert!(matches!(
        last_action(one_header(), replies),
        Action::Abort(Fault::EngineFailure)
    ));

    let mut replies = to_response_body();
    replies.extend([quiet(), Reply::Failed]);
    assert!(matches!(
        last_action(one_header(), replies),
        Action::Abort(Fault::EngineFailure)
    ));
}

#[test]
fn a_reply_out_of_turn_gives_the_exchange_up() {
    let full = to_response_body().len();
    for cut in 0..=full {
        let wrong = || -> Vec<Reply> {
            vec![
                Reply::Done,
                Reply::Failed,
                quiet(),
                end(),
                response(Vec::new(), false),
            ]
        };
        for (kind, reply) in wrong().into_iter().enumerate() {
            let mut replies: Vec<Reply> = to_response_body();
            replies.truncate(cut);
            let fits = match last_action(one_header(), replies) {
                Action::Build | Action::Call(_) => kind < 2,
                Action::PollIntervention => kind == 2,
                Action::ReadRequestBody | Action::ReadResponseBody => kind == 3,
                Action::RunHandler(_) => kind == 4,
                _ => false,
            };
            let mut replies: Vec<Reply> = to_response_body();
            replies.truncate(cut);
            replies.push(reply);
            let out_of_turn = matches!(
                last_action(one_header(), replies),
                Action::Abort(Fault::OutOfTurn)
            );
            assert_eq!(out_of_turn, !fits);
        }
    }
}

#[test]
fn an_exchange_that_is_over_takes_no_reply() {
    let mut replies = to_response_body();
    replies.extend([quiet(), Reply::Done, quiet(), Reply::Done]);
    assert!(matches!(
        last_action(one_header(), replies),
        Action::Abort(Fault::OutOfTurn)
    ));
}

#[test]
fn the_engine_is_asked_after_every_phase() {
    let mut replies = to_response_body();
    replies.extend([quiet(), Reply::Done, quiet()]);
    let (directives, _) = play(one_header(), replies);
    let asked = actions(&directives);
    let mut phases = 0;
    for i in 0..asked.len() {
        let runs_rules = [
            "Call(ProcessRequestHeaders",
            "Call(ProcessRequestBody",
            "Call(ProcessResponseHeaders",
            "Call(ProcessResponseBody",
            "Call(ProcessLogging",
        ]
        .iter()
        .any(|phase| asked[i].starts_with(phase));
        if runs_rules {
            assert_eq!(asked[i + 1], "PollIntervention");
            phases += 1;
        }
    }
    assert_eq!(phases, 5);
}

#[test]
fn an_exchange_takes_a_known_number_of_replies() {
    let mut replies = to_response_body();
    replies.extend([quiet(), Reply::Done, quiet()]);
    // One header each way, one piece each way, and a response without a content type.
    assert_eq!(replies.len(), 17 + 1 + 1 + 2 * 2);
    assert!(matches!(
        last_action(one_header(), replies),
        Action::Release(_)
    ));
}
