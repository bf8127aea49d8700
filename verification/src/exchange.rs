//! One request and its response on their way past the engine.
//!
//! An [`Exchange`] is driven from outside: it issues a [`Directive`], the driver carries it
//! out and comes back with a [`Reply`], and so on until a directive ends the exchange.

use vstd::prelude::*;

use crate::{intervention, message, protocol};
use crate::message::{
    map_http_version, read_request_value, read_response_value, RequestHead, RequestHeadView,
    RequestValue, RequestValueView, ResponseHead, ResponseHeadView,
};
use crate::intervention::{
    check_for_intervention, process_logging, Intervention, InterventionView,
};
use crate::protocol::{
    Action, ActionView, Chunk, ChunkView, Directive, DirectiveView, EngineCall,
    EngineCallView, Fault, Reply, ReplyView,
};

verus! {

/// The status with which a malformed request is refused.
pub const BAD_REQUEST: u16 = 400;

/// The address that stands for either end of the connection.
pub const LOOPBACK: &'static str = "127.0.0.1";

/// The port that stands for the client's end of the connection.
pub const CLIENT_PORT: i32 = 1234;

/// The port that stands for the server's end of the connection.
pub const SERVER_PORT: i32 = 8080;

/// The four points at which the engine may refuse the exchange.
#[derive(Clone, Copy, Debug, PartialEq, Eq, Structural)]
pub enum Checkpoint {
    RequestHeaders,
    RequestBody,
    ResponseHeaders,
    ResponseBody,
}

/// The action whose reply is outstanding.
#[derive(Debug)]
enum Stage {
    Building,
    Connecting,
    Addressing,
    /// The request header with this index is on its way to the engine.
    AddingRequestHeader(usize),
    ReadingRequest,
    AppendingRequest,
    Handling,
    /// The response header with this index is on its way to the engine.
    AddingResponseHeader(ResponseHead, usize),
    /// The content type that the response lacks is on its way to the engine.
    AddingContentType(ResponseHead),
    ReadingResponse,
    AppendingResponse,
    /// The rules up to this checkpoint are being run.
    Processing(Checkpoint),
    /// The engine is being asked about this checkpoint.
    Checking(Checkpoint),
    /// The exchange is refused with this status; the logging rules are being run.
    RefusalLogging(u16),
    /// ... the engine is being asked about the logging phase.
    RefusalLogged(u16),
    /// ... the engine is being asked for the last time.
    RefusalChecking(u16),
    /// The response may go out; the logging rules are being run.
    FinalLogging,
    /// ... the engine is being asked about the logging phase.
    FinalLogged,
    Closed,
}

/// The view of what an exchange waits for.
pub enum StageView {
    Building,
    Connecting,
    Addressing,
    AddingRequestHeader(int),
    ReadingRequest,
    AppendingRequest,
    Handling,
    AddingResponseHeader(message::ResponseHeadView, int),
    AddingContentType(message::ResponseHeadView),
    ReadingResponse,
    AppendingResponse,
    Processing(Checkpoint),
    Checking(Checkpoint),
    RefusalLogging(u16),
    RefusalLogged(u16),
    RefusalChecking(u16),
    FinalLogging,
    FinalLogged,
    Closed,
}

impl View for Stage {
    type V = StageView;

    closed spec fn view(&self) -> StageView {
        match self {
            Stage::Building => StageView::Building,
            Stage::Connecting => StageView::Connecting,
            Stage::Addressing => StageView::Addressing,
            Stage::AddingRequestHeader(i) => StageView::AddingRequestHeader(*i as int),
            Stage::ReadingRequest => StageView::ReadingRequest,
            Stage::AppendingRequest => StageView::AppendingRequest,
            Stage::Handling => StageView::Handling,
            Stage::AddingResponseHeader(head, i) => StageView::AddingResponseHeader(
                head@,
                *i as int,
            ),
            Stage::AddingContentType(head) => StageView::AddingContentType(head@),
            Stage::ReadingResponse => StageView::ReadingResponse,
            Stage::AppendingResponse => StageView::AppendingResponse,
            Stage::Processing(point) => StageView::Processing(*point),
            Stage::Checking(point) => StageView::Checking(*point),
            Stage::RefusalLogging(status) => StageView::RefusalLogging(*status),
            Stage::RefusalLogged(status) => StageView::RefusalLogged(*status),
            Stage::RefusalChecking(status) => StageView::RefusalChecking(*status),
            Stage::FinalLogging => StageView::FinalLogging,
            Stage::FinalLogged => StageView::FinalLogged,
            Stage::Closed => StageView::Closed,
        }
    }
}

/// What an exchange carries along.
#[derive(Debug)]
struct Load {
    request: RequestHead,
    /// The body pieces that were read and have to be passed on.
    kept: Vec<Vec<u8>>,
}

/// The view of what an exchange carries along.
pub struct LoadView {
    pub request: RequestHeadView,
    pub kept: Seq<Seq<u8>>,
}

impl View for Load {
    type V = LoadView;

    closed spec fn view(&self) -> LoadView {
        LoadView { request: self.request@, kept: protocol::chunks_view(self.kept@) }
    }
}

/// One request and its response on their way past the engine.
#[derive(Debug)]
pub struct Exchange {
    load: Load,
    stage: Stage,
}

/// The view of an [`Exchange`].
pub struct ExchangeView {
    pub load: LoadView,
    pub stage: StageView,
}

impl View for Exchange {
    type V = ExchangeView;

    closed spec fn view(&self) -> ExchangeView {
        ExchangeView { load: self.load@, stage: self.stage@ }
    }
}

impl Exchange {
    /// The header on its way to the engine is one of the headers.
    #[verifier::type_invariant]
    spec fn index_in_range(self) -> bool {
        match self.stage {
            Stage::AddingRequestHeader(i) => i < self.load.request.headers.len(),
            Stage::AddingResponseHeader(head, i) => i < head.headers.len(),
            _ => true,
        }
    }
}

/// Goes on to another stage: the message, if there is one, is for the audit log, and the
/// action is the one whose reply that stage waits for.
pub open spec fn go(
    load: LoadView,
    log: Option<Seq<char>>,
    stage: StageView,
    action: ActionView,
) -> (ExchangeView, DirectiveView) {
    (ExchangeView { load, stage }, DirectiveView { log, action })
}

/// Ends the exchange.
pub open spec fn end(load: LoadView, log: Option<Seq<char>>, action: ActionView) -> (
    ExchangeView,
    DirectiveView,
) {
    go(LoadView { kept: Seq::empty(), ..load }, log, StageView::Closed, action)
}

/// Gives the exchange up.
pub open spec fn give_up(load: LoadView, fault: Fault) -> (ExchangeView, DirectiveView) {
    end(load, None, ActionView::Abort(fault))
}

/// The call that tells the engine about the connection, which is always the same.
pub open spec fn connection_call() -> EngineCallView {
    EngineCallView::ProcessConnection {
        client: LOOPBACK@,
        client_port: CLIENT_PORT as int,
        server: LOOPBACK@,
        server_port: SERVER_PORT as int,
    }
}

/// The call that tells the engine what is asked for.
pub open spec fn uri_call(request: RequestHeadView) -> EngineCallView {
    EngineCallView::ProcessUri {
        uri: request.uri,
        method: request.method,
        version: message::version_text(request.version),
    }
}

/// The call that tells the engine about the status and the version of the response.
pub open spec fn response_head_call(head: ResponseHeadView) -> EngineCallView {
    EngineCallView::ProcessResponseHeaders {
        status: head.status as int,
        version: message::version_text(head.version),
    }
}

/// The call that tells the engine the content type of a response that names none.
pub open spec fn content_type_call() -> EngineCallView {
    EngineCallView::AddResponseHeader { name: "Content-Type"@, value: "text/plain"@ }
}

/// How an exchange begins.
pub open spec fn opening(request: RequestHeadView) -> (ExchangeView, DirectiveView) {
    go(
        LoadView { request, kept: Seq::empty() },
        None,
        StageView::Building,
        ActionView::Build,
    )
}

/// Turns to the request header with the given index, or, past the last one, to the rules on
/// the request headers.
pub open spec fn turn_to_request_header(load: LoadView, i: int) -> (ExchangeView, DirectiveView) {
    if i < load.request.headers.len() {
        let (name, bytes) = load.request.headers[i];
        match message::request_value(bytes) {
            RequestValueView::Malformed => end(load, None, ActionView::Reject(BAD_REQUEST)),
            RequestValueView::Text(value) => go(
                load,
                None,
                StageView::AddingRequestHeader(i),
                ActionView::Call(EngineCallView::AddRequestHeader { name, value }),
            ),
        }
    } else {
        go(
            load,
            None,
            StageView::Processing(Checkpoint::RequestHeaders),
            ActionView::Call(EngineCallView::ProcessRequestHeaders),
        )
    }
}

/// Turns to the rules on the response headers.
pub open spec fn turn_to_response_rules(load: LoadView, head: ResponseHeadView) -> (
    ExchangeView,
    DirectiveView,
) {
    go(
        load,
        None,
        StageView::Processing(Checkpoint::ResponseHeaders),
        ActionView::Call(response_head_call(head)),
    )
}

/// Turns to the response header with the given index, or, past the last one, to the content
/// type where it is missing and to the rules on the response headers where it is not.
pub open spec fn turn_to_response_header(load: LoadView, head: ResponseHeadView, i: int) -> (
    ExchangeView,
    DirectiveView,
) {
    if i < head.headers.len() {
        let (name, bytes) = head.headers[i];
        match message::response_value(bytes) {
            None => give_up(load, Fault::UnreadableResponseHeader),
            Some(value) => go(
                load,
                None,
                StageView::AddingResponseHeader(head, i),
                ActionView::Call(EngineCallView::AddResponseHeader { name, value }),
            ),
        }
    } else if head.typed {
        turn_to_response_rules(load, head)
    } else {
        go(load, None, StageView::AddingContentType(head), ActionView::Call(content_type_call()))
    }
}

/// What follows a checkpoint at which the engine refused nothing.
pub open spec fn pass(load: LoadView, log: Option<Seq<char>>, point: Checkpoint) -> (
    ExchangeView,
    DirectiveView,
) {
    match point {
        Checkpoint::RequestHeaders => go(
            load,
            log,
            StageView::ReadingRequest,
            ActionView::ReadRequestBody,
        ),
        Checkpoint::RequestBody => go(
            LoadView { kept: Seq::empty(), ..load },
            log,
            StageView::Handling,
            ActionView::RunHandler(load.kept),
        ),
        Checkpoint::ResponseHeaders => go(
            load,
            log,
            StageView::ReadingResponse,
            ActionView::ReadResponseBody,
        ),
        Checkpoint::ResponseBody => go(
            load,
            log,
            StageView::FinalLogging,
            ActionView::Call(EngineCallView::ProcessLogging),
        ),
    }
}

/// What follows when the engine took a call.
pub open spec fn after_call(e: ExchangeView) -> (ExchangeView, DirectiveView) {
    match e.stage {
        StageView::Building => go(
            e.load,
            None,
            StageView::Connecting,
            ActionView::Call(connection_call()),
        ),
        StageView::Connecting => go(
            e.load,
            None,
            StageView::Addressing,
            ActionView::Call(uri_call(e.load.request)),
        ),
        StageView::Addressing => turn_to_request_header(e.load, 0),
        StageView::AddingRequestHeader(i) => turn_to_request_header(e.load, i + 1),
        StageView::AppendingRequest => go(
            e.load,
            None,
            StageView::ReadingRequest,
            ActionView::ReadRequestBody,
        ),
        StageView::AddingResponseHeader(head, i) => turn_to_response_header(e.load, head, i + 1),
        StageView::AddingContentType(head) => turn_to_response_rules(e.load, head),
        StageView::AppendingResponse => go(
            e.load,
            None,
            StageView::ReadingResponse,
            ActionView::ReadResponseBody,
        ),
        StageView::Processing(point) => go(
            e.load,
            None,
            StageView::Checking(point),
            ActionView::PollIntervention,
        ),
        StageView::RefusalLogging(status) => go(
            e.load,
            None,
            StageView::RefusalLogged(status),
            ActionView::PollIntervention,
        ),
        StageView::FinalLogging => go(
            e.load,
            None,
            StageView::FinalLogged,
            ActionView::PollIntervention,
        ),
        _ => give_up(e.load, Fault::OutOfTurn),
    }
}

/// What follows when the engine could not take a call.
pub open spec fn after_failure(e: ExchangeView) -> (ExchangeView, DirectiveView) {
    if awaits_call(e.stage) {
        give_up(e.load, Fault::EngineFailure)
    } else {
        give_up(e.load, Fault::OutOfTurn)
    }
}

/// Whether a transaction or a call to the engine is outstanding.
pub open spec fn awaits_call(stage: StageView) -> bool {
    match stage {
        StageView::Building => true,
        StageView::Connecting => true,
        StageView::Addressing => true,
        StageView::AddingRequestHeader(_) => true,
        StageView::AppendingRequest => true,
        StageView::AddingResponseHeader(_, _) => true,
        StageView::AddingContentType(_) => true,
        StageView::AppendingResponse => true,
        StageView::Processing(_) => true,
        StageView::RefusalLogging(_) => true,
        StageView::FinalLogging => true,
        _ => false,
    }
}

/// What follows what the engine reports.
pub open spec fn after_report(e: ExchangeView, report: Option<InterventionView>) -> (
    ExchangeView,
    DirectiveView,
) {
    let log = intervention::reported_log(report);
    match e.stage {
        StageView::Checking(point) => match intervention::refusal(report) {
            Some(status) => go(
                e.load,
                log,
                StageView::RefusalLogging(status),
                ActionView::Call(EngineCallView::ProcessLogging),
            ),
            None => pass(e.load, log, point),
        },
        StageView::RefusalLogged(status) => go(
            e.load,
            log,
            StageView::RefusalChecking(status),
            ActionView::PollIntervention,
        ),
        StageView::RefusalChecking(status) => end(e.load, log, ActionView::Reject(status)),
        StageView::FinalLogged => end(e.load, log, ActionView::Release(e.load.kept)),
        _ => give_up(e.load, Fault::OutOfTurn),
    }
}

/// What follows what came of waiting for a piece of a body. A piece that was read goes to
/// the engine and is kept; one that could not be read is passed over.
pub open spec fn after_chunk(e: ExchangeView, chunk: ChunkView) -> (ExchangeView, DirectiveView) {
    match (e.stage, chunk) {
        (StageView::ReadingRequest, ChunkView::Data(bytes)) => go(
            LoadView { kept: e.load.kept.push(bytes), ..e.load },
            None,
            StageView::AppendingRequest,
            ActionView::Call(EngineCallView::AppendRequestBody(bytes)),
        ),
        (StageView::ReadingRequest, ChunkView::Broken) => go(
            e.load,
            None,
            StageView::ReadingRequest,
            ActionView::ReadRequestBody,
        ),
        (StageView::ReadingRequest, ChunkView::End) => go(
            e.load,
            None,
            StageView::Processing(Checkpoint::RequestBody),
            ActionView::Call(EngineCallView::ProcessRequestBody),
        ),
        (StageView::ReadingResponse, ChunkView::Data(bytes)) => go(
            LoadView { kept: e.load.kept.push(bytes), ..e.load },
            None,
            StageView::AppendingResponse,
            ActionView::Call(EngineCallView::AppendResponseBody(bytes)),
        ),
        (StageView::ReadingResponse, ChunkView::Broken) => go(
            e.load,
            None,
            StageView::ReadingResponse,
            ActionView::ReadResponseBody,
        ),
        (StageView::ReadingResponse, ChunkView::End) => go(
            e.load,
            None,
            StageView::Processing(Checkpoint::ResponseBody),
            ActionView::Call(EngineCallView::ProcessResponseBody),
        ),
        _ => give_up(e.load, Fault::OutOfTurn),
    }
}

/// What follows the head of the service's response.
pub open spec fn after_response(e: ExchangeView, head: ResponseHeadView) -> (
    ExchangeView,
    DirectiveView,
) {
    match e.stage {
        StageView::Handling => turn_to_response_header(e.load, head, 0),
        _ => give_up(e.load, Fault::OutOfTurn),
    }
}

/// What follows a reply.
pub open spec fn next(e: ExchangeView, reply: ReplyView) -> (ExchangeView, DirectiveView) {
    match reply {
        ReplyView::Done => after_call(e),
        ReplyView::Failed => after_failure(e),
        ReplyView::Intervention(report) => after_report(e, report),
        ReplyView::Chunk(chunk) => after_chunk(e, chunk),
        ReplyView::Response(head) => after_response(e, head),
    }
}

impl Exchange {
    /// Begins the exchange of a request.
    pub fn open(request: RequestHead) -> (r: (Exchange, Directive))
        ensures
            (r.0@, r.1@) == opening(request@),
    {
        let load = Load { request, kept: Vec::new() };
        assert(load@.kept =~= Seq::empty());
        load.go(None, Stage::Building, Action::Build)
    }

    /// Goes on with the driver's reply to the directive before.
    pub fn step(self, reply: Reply) -> (r: (Exchange, Directive))
        ensures
            (r.0@, r.1@) == next(self@, reply@),
    {
        match reply {
            Reply::Done => self.called(),
            Reply::Failed => self.failed(),
            Reply::Intervention(report) => self.reported(report),
            Reply::Chunk(chunk) => self.received(chunk),
            Reply::Response(head) => self.responded(head),
        }
    }

    /// Goes on after the engine took a call.
    fn called(self) -> (r: (Exchange, Directive))
        ensures
            (r.0@, r.1@) == after_call(self@),
    {
        proof {
            use_type_invariant(&self);
        }
        let Exchange { load, stage } = self;
        match stage {
            Stage::Building => {
                let call = EngineCall::ProcessConnection {
                    client: LOOPBACK,
                    client_port: CLIENT_PORT,
                    server: LOOPBACK,
                    server_port: SERVER_PORT,
                };
                load.go(None, Stage::Connecting, Action::Call(call))
            },
            Stage::Connecting => {
                let call = EngineCall::ProcessUri {
                    uri: load.request.uri.clone(),
                    method: load.request.method.clone(),
                    version: map_http_version(load.request.version),
                };
                load.go(None, Stage::Addressing, Action::Call(call))
            },
            Stage::Addressing => load.turn_to_request_header(0),
            Stage::AddingRequestHeader(i) => load.turn_to_request_header(i + 1),
            Stage::AppendingRequest => load.go(
                None,
                Stage::ReadingRequest,
                Action::ReadRequestBody,
            ),
            Stage::AddingResponseHeader(head, i) => load.turn_to_response_header(head, i + 1),
            Stage::AddingContentType(head) => load.turn_to_response_rules(head),
            Stage::AppendingResponse => load.go(
                None,
                Stage::ReadingResponse,
                Action::ReadResponseBody,
            ),
            Stage::Processing(point) => load.go(
                None,
                Stage::Checking(point),
                Action::PollIntervention,
            ),
            Stage::RefusalLogging(status) => load.go(
                None,
                Stage::RefusalLogged(status),
                Action::PollIntervention,
            ),
            Stage::FinalLogging => load.go(None, Stage::FinalLogged, Action::PollIntervention),
            _ => load.give_up(Fault::OutOfTurn),
        }
    }

    /// Goes on after the engine could not take a call.
    fn failed(self) -> (r: (Exchange, Directive))
        ensures
            (r.0@, r.1@) == after_failure(self@),
    {
        match self.stage {
            Stage::Building
            | Stage::Connecting
            | Stage::Addressing
            | Stage::AddingRequestHeader(_)
            | Stage::AppendingRequest
            | Stage::AddingResponseHeader(_, _)
            | Stage::AddingContentType(_)
            | Stage::AppendingResponse
            | Stage::Processing(_)
            | Stage::RefusalLogging(_)
            | Stage::FinalLogging => self.load.give_up(Fault::EngineFailure),
            _ => self.load.give_up(Fault::OutOfTurn),
        }
    }

    /// Goes on with what the engine reports.
    fn reported(self, report: Option<Intervention>) -> (r: (Exchange, Directive))
        ensures
            (r.0@, r.1@) == after_report(self@, intervention::report_view(report)),
    {
        let Exchange { load, stage } = self;
        match stage {
            Stage::Checking(point) => {
                let ruling = check_for_intervention(report);
                match ruling.status {
                    Some(status) => load.go(
                        ruling.log,
                        Stage::RefusalLogging(status),
                        Action::Call(EngineCall::ProcessLogging),
                    ),
                    None => load.pass(ruling.log, point),
                }
            },
            Stage::RefusalLogged(status) => load.go(
                process_logging(report),
                Stage::RefusalChecking(status),
                Action::PollIntervention,
            ),
            Stage::RefusalChecking(status) => {
                let ruling = check_for_intervention(report);
                load.end(ruling.log, Action::Reject(status))
            },
            Stage::FinalLogged => {
                let Load { request, kept } = load;
                let rest = Load { request, kept: Vec::new() };
                rest.end(process_logging(report), Action::Release(kept))
            },
            _ => load.give_up(Fault::OutOfTurn),
        }
    }

    /// Goes on with what came of waiting for a piece of a body.
    fn received(self, chunk: Chunk) -> (r: (Exchange, Directive))
        ensures
            (r.0@, r.1@) == after_chunk(self@, chunk@),
    {
        let Exchange { load, stage } = self;
        match stage {
            Stage::ReadingRequest => match chunk {
                Chunk::Data(bytes) => {
                    let call = EngineCall::AppendRequestBody(bytes.clone());
                    load.keep(bytes).go(None, Stage::AppendingRequest, Action::Call(call))
                },
                Chunk::Broken => load.go(None, Stage::ReadingRequest, Action::ReadRequestBody),
                Chunk::End => load.go(
                    None,
                    Stage::Processing(Checkpoint::RequestBody),
                    Action::Call(EngineCall::ProcessRequestBody),
                ),
            },
            Stage::ReadingResponse => match chunk {
                Chunk::Data(bytes) => {
                    let call = EngineCall::AppendResponseBody(bytes.clone());
                    load.keep(bytes).go(None, Stage::AppendingResponse, Action::Call(call))
                },
                Chunk::Broken => load.go(None, Stage::ReadingResponse, Action::ReadResponseBody),
                Chunk::End => load.go(
                    None,
                    Stage::Processing(Checkpoint::ResponseBody),
                    Action::Call(EngineCall::ProcessResponseBody),
                ),
            },
            _ => load.give_up(Fault::OutOfTurn),
        }
    }

    /// Goes on with the head of the service's response.
    fn responded(self, head: ResponseHead) -> (r: (Exchange, Directive))
        ensures
            (r.0@, r.1@) == after_response(self@, head@),
    {
        match self.stage {
            Stage::Handling => self.load.turn_to_response_header(head, 0),
            _ => self.load.give_up(Fault::OutOfTurn),
        }
    }
}

impl Load {
    /// Keeps one more piece of a body.
    fn keep(self, bytes: Vec<u8>) -> (r: Load)
        ensures
            r@ == (LoadView { kept: self@.kept.push(bytes@), ..self@ }),
    {
        let Load { request, mut kept } = self;
        kept.push(bytes);
        let r = Load { request, kept };
        assert(r@.kept =~= self@.kept.push(bytes@));
        r
    }

    /// Goes on to another stage.
    fn go(self, log: Option<String>, stage: Stage, action: Action) -> (r: (Exchange, Directive))
        requires
            stage matches Stage::AddingRequestHeader(i) ==> i < self.request.headers.len(),
            stage matches Stage::AddingResponseHeader(head, i) ==> i < head.headers.len(),
        ensures
            (r.0@, r.1@) == go(self@, message::text_view(log), stage@, action@),
    {
        (Exchange { load: self, stage }, Directive { log, action })
    }

    /// Ends the exchange.
    fn end(self, log: Option<String>, action: Action) -> (r: (Exchange, Directive))
        ensures
            (r.0@, r.1@) == end(self@, message::text_view(log), action@),
    {
        let rest = Load { request: self.request, kept: Vec::new() };
        assert(rest@.kept =~= Seq::empty());
        rest.go(log, Stage::Closed, action)
    }

    /// Gives the exchange up.
    fn give_up(self, fault: Fault) -> (r: (Exchange, Directive))
        ensures
            (r.0@, r.1@) == give_up(self@, fault),
    {
        self.end(None, Action::Abort(fault))
    }

    /// Turns to the request header with this index, or to what follows the last one.
    fn turn_to_request_header(self, i: usize) -> (r: (Exchange, Directive))
        ensures
            (r.0@, r.1@) == turn_to_request_header(self@, i as int),
    {
        if i < self.request.headers.len() {
            let header = &self.request.headers[i];
            assert(self@.request.headers[i as int] == header@);
            match read_request_value(header.value.as_slice()) {
                RequestValue::Malformed => self.end(None, Action::Reject(BAD_REQUEST)),
                RequestValue::Text(value) => {
                    let call = EngineCall::AddRequestHeader { name: header.name.clone(), value };
                    self.go(None, Stage::AddingRequestHeader(i), Action::Call(call))
                },
            }
        } else {
            self.go(
                None,
                Stage::Processing(Checkpoint::RequestHeaders),
                Action::Call(EngineCall::ProcessRequestHeaders),
            )
        }
    }

    /// Turns to the rules on the response headers.
    fn turn_to_response_rules(self, head: ResponseHead) -> (r: (Exchange, Directive))
        ensures
            (r.0@, r.1@) == turn_to_response_rules(self@, head@),
    {
        let call = EngineCall::ProcessResponseHeaders {
            status: head.status as i32,
            version: map_http_version(head.version),
        };
        self.go(None, Stage::Processing(Checkpoint::ResponseHeaders), Action::Call(call))
    }

    /// Turns to the response header with this index, or to what follows the last one.
    fn turn_to_response_header(self, head: ResponseHead, i: usize) -> (r: (Exchange, Directive))
        ensures
            (r.0@, r.1@) == turn_to_response_header(self@, head@, i as int),
    {
        if i < head.headers.len() {
            let header = &head.headers[i];
            assert(head@.headers[i as int] == header@);
            match read_response_value(header.value.as_slice()) {
                None => self.give_up(Fault::UnreadableResponseHeader),
                Some(value) => {
                    let call = EngineCall::AddResponseHeader { name: header.name.clone(), value };
                    self.go(None, Stage::AddingResponseHeader(head, i), Action::Call(call))
                },
            }
        } else if head.typed {
            self.turn_to_response_rules(head)
        } else {
            let call = EngineCall::AddResponseHeader {
                name: "Content-Type".to_owned(),
                value: "text/plain".to_owned(),
            };
            self.go(None, Stage::AddingContentType(head), Action::Call(call))
        }
    }

    /// Goes on after a checkpoint at which the engine refused nothing.
    fn pass(self, log: Option<String>, point: Checkpoint) -> (r: (Exchange, Directive))
        ensures
            (r.0@, r.1@) == pass(self@, message::text_view(log), point),
    {
        match point {
            Checkpoint::RequestHeaders => self.go(
                log,
                Stage::ReadingRequest,
                Action::ReadRequestBody,
            ),
            Checkpoint::RequestBody => {
                let rest = Load { request: self.request, kept: Vec::new() };
                assert(rest@.kept =~= Seq::empty());
                rest.go(log, Stage::Handling, Action::RunHandler(self.kept))
            },
            Checkpoint::ResponseHeaders => self.go(
                log,
                Stage::ReadingResponse,
                Action::ReadResponseBody,
            ),
            Checkpoint::ResponseBody => self.go(
                log,
                Stage::FinalLogging,
                Action::Call(EngineCall::ProcessLogging),
            ),
        }
    }
}

} // verus!
