//! What an exchange and its driver say to each other.

use vstd::prelude::*;

use crate::{intervention, message};
use crate::message::ResponseHead;
use crate::intervention::Intervention;

verus! {

/// A call that the engine's transaction has to take.
#[derive(Debug)]
pub enum EngineCall {
    ProcessConnection {
        client: &'static str,
        client_port: i32,
        server: &'static str,
        server_port: i32,
    },
    ProcessUri { uri: String, method: String, version: &'static str },
    AddRequestHeader { name: String, value: String },
    ProcessRequestHeaders,
    AppendRequestBody(Vec<u8>),
    ProcessRequestBody,
    AddResponseHeader { name: String, value: String },
    ProcessResponseHeaders { status: i32, version: &'static str },
    AppendResponseBody(Vec<u8>),
    ProcessResponseBody,
    ProcessLogging,
}

/// The view of an [`EngineCall`].
pub enum EngineCallView {
    ProcessConnection {
        client: Seq<char>,
        client_port: int,
        server: Seq<char>,
        server_port: int,
    },
    ProcessUri { uri: Seq<char>, method: Seq<char>, version: Seq<char> },
    AddRequestHeader { name: Seq<char>, value: Seq<char> },
    ProcessRequestHeaders,
    AppendRequestBody(Seq<u8>),
    ProcessRequestBody,
    AddResponseHeader { name: Seq<char>, value: Seq<char> },
    ProcessResponseHeaders { status: int, version: Seq<char> },
    AppendResponseBody(Seq<u8>),
    ProcessResponseBody,
    ProcessLogging,
}

impl View for EngineCall {
    type V = EngineCallView;

    open spec fn view(&self) -> EngineCallView {
        match self {
            EngineCall::ProcessConnection { client, client_port, server, server_port } => {
                EngineCallView::ProcessConnection {
                    client: client@,
                    client_port: *client_port as int,
                    server: server@,
                    server_port: *server_port as int,
                }
            },
            EngineCall::ProcessUri { uri, method, version } => EngineCallView::ProcessUri {
                uri: uri@,
                method: method@,
                version: version@,
            },
            EngineCall::AddRequestHeader { name, value } => EngineCallView::AddRequestHeader {
                name: name@,
                value: value@,
            },
            EngineCall::ProcessRequestHeaders => EngineCallView::ProcessRequestHeaders,
            EngineCall::AppendRequestBody(chunk) => EngineCallView::AppendRequestBody(chunk@),
            EngineCall::ProcessRequestBody => EngineCallView::ProcessRequestBody,
            EngineCall::AddResponseHeader { name, value } => EngineCallView::AddResponseHeader {
                name: name@,
                value: value@,
            },
            EngineCall::ProcessResponseHeaders { status, version } => {
                EngineCallView::ProcessResponseHeaders { status: *status as int, version: version@ }
            },
            EngineCall::AppendResponseBody(chunk) => EngineCallView::AppendResponseBody(chunk@),
            EngineCall::ProcessResponseBody => EngineCallView::ProcessResponseBody,
            EngineCall::ProcessLogging => EngineCallView::ProcessLogging,
        }
    }
}

/// Why an exchange is given up without an answer.
#[derive(Clone, Copy, Debug, PartialEq, Eq, Structural)]
pub enum Fault {
    /// The engine could not make a transaction or take a call.
    EngineFailure,
    /// A response header value is not visible ASCII.
    UnreadableResponseHeader,
    /// The driver's reply does not answer the directive.
    OutOfTurn,
}

/// What the driver has to do next.
#[derive(Debug)]
pub enum Action {
    /// Make a transaction with the engine's rules and report whether that worked.
    Build,
    /// Make this call and report whether the engine took it.
    Call(EngineCall),
    /// Ask the engine what it wants done.
    PollIntervention,
    /// Wait for a piece of the request body.
    ReadRequestBody,
    /// Hand the request, with this body, to the service and wait for its response.
    RunHandler(Vec<Vec<u8>>),
    /// Wait for a piece of the response body.
    ReadResponseBody,
    /// Answer the client with this status. The exchange is over.
    Reject(u16),
    /// Answer the client with the response, with this body. The exchange is over.
    Release(Vec<Vec<u8>>),
    /// Give up. The exchange is over.
    Abort(Fault),
}

/// The view of an [`Action`].
pub enum ActionView {
    Build,
    Call(EngineCallView),
    PollIntervention,
    ReadRequestBody,
    RunHandler(Seq<Seq<u8>>),
    ReadResponseBody,
    Reject(u16),
    Release(Seq<Seq<u8>>),
    Abort(Fault),
}

/// The bytes of a list of body pieces.
pub open spec fn chunks_view(chunks: Seq<Vec<u8>>) -> Seq<Seq<u8>> {
    chunks.map_values(|c: Vec<u8>| c@)
}

impl View for Action {
    type V = ActionView;

    open spec fn view(&self) -> ActionView {
        match self {
            Action::Build => ActionView::Build,
            Action::Call(call) => ActionView::Call(call@),
            Action::PollIntervention => ActionView::PollIntervention,
            Action::ReadRequestBody => ActionView::ReadRequestBody,
            Action::RunHandler(body) => ActionView::RunHandler(chunks_view(body@)),
            Action::ReadResponseBody => ActionView::ReadResponseBody,
            Action::Reject(status) => ActionView::Reject(*status),
            Action::Release(body) => ActionView::Release(chunks_view(body@)),
            Action::Abort(fault) => ActionView::Abort(*fault),
        }
    }
}

/// What the driver has to do next, after it has sent the message, if there is one, to the
/// audit log.
#[derive(Debug)]
pub struct Directive {
    pub log: Option<String>,
    pub action: Action,
}

/// The view of a [`Directive`].
pub struct DirectiveView {
    pub log: Option<Seq<char>>,
    pub action: ActionView,
}

impl View for Directive {
    type V = DirectiveView;

    open spec fn view(&self) -> DirectiveView {
        DirectiveView { log: message::text_view(self.log), action: self.action@ }
    }
}

/// What came of waiting for a piece of a body.
#[derive(Debug)]
pub enum Chunk {
    Data(Vec<u8>),
    /// The piece could not be read.
    Broken,
    /// There are no more pieces.
    End,
}

/// The view of a [`Chunk`].
pub enum ChunkView {
    Data(Seq<u8>),
    Broken,
    End,
}

impl View for Chunk {
    type V = ChunkView;

    open spec fn view(&self) -> ChunkView {
        match self {
            Chunk::Data(bytes) => ChunkView::Data(bytes@),
            Chunk::Broken => ChunkView::Broken,
            Chunk::End => ChunkView::End,
        }
    }
}

/// What the driver has to say after it has carried out an action.
#[derive(Debug)]
pub enum Reply {
    /// The engine made the transaction, or took the call.
    Done,
    /// The engine could not.
    Failed,
    /// What the engine wants done.
    Intervention(Option<Intervention>),
    /// What came of waiting for a piece of a body.
    Chunk(Chunk),
    /// The head of the service's response.
    Response(ResponseHead),
}

/// The view of a [`Reply`].
pub enum ReplyView {
    Done,
    Failed,
    Intervention(Option<intervention::InterventionView>),
    Chunk(ChunkView),
    Response(message::ResponseHeadView),
}

impl View for Reply {
    type V = ReplyView;

    open spec fn view(&self) -> ReplyView {
        match self {
            Reply::Done => ReplyView::Done,
            Reply::Failed => ReplyView::Failed,
            Reply::Intervention(report) => ReplyView::Intervention(
                intervention::report_view(*report),
            ),
            Reply::Chunk(chunk) => ReplyView::Chunk(chunk@),
            Reply::Response(head) => ReplyView::Response(head@),
        }
    }
}

/// The view of a reply tells the replies apart, and shows the report, the bytes of the piece or
/// the head that it brings.
pub proof fn law_reply_is_seen_whole(reply: Reply)
    ensures
        reply is Done <==> reply@ is Done,
        reply is Failed <==> reply@ is Failed,
        reply matches Reply::Intervention(report) ==> reply@ == ReplyView::Intervention(
            intervention::report_view(report),
        ),
        reply matches Reply::Chunk(Chunk::Data(bytes)) ==> reply@ == ReplyView::Chunk(
            ChunkView::Data(bytes@),
        ),
        reply matches Reply::Chunk(Chunk::Broken) ==> reply@ == ReplyView::Chunk(ChunkView::Broken),
        reply matches Reply::Chunk(Chunk::End) ==> reply@ == ReplyView::Chunk(ChunkView::End),
        reply matches Reply::Response(head) ==> reply@ == ReplyView::Response(head@),
{
}

/// The view of a directive shows its message, tells the actions apart, and shows the call, the
/// pieces of the body, the status or the fault that the action comes with.
pub proof fn law_directive_is_seen_whole(directive: Directive)
    ensures
        directive.log is None <==> directive@.log is None,
        directive.log matches Some(text) ==> directive@.log == Some(text@),
        directive.action is Build <==> directive@.action is Build,
        directive.action is PollIntervention <==> directive@.action is PollIntervention,
        directive.action is ReadRequestBody <==> directive@.action is ReadRequestBody,
        directive.action is ReadResponseBody <==> directive@.action is ReadResponseBody,
        directive.action matches Action::Call(call) ==> directive@.action == ActionView::Call(
            call@,
        ),
        directive.action matches Action::RunHandler(body) ==> (directive@.action
            matches ActionView::RunHandler(pieces) && pieces.len() == body@.len() && forall|i: int|
            0 <= i < body@.len() ==> (#[trigger] pieces[i]) == body@[i]@),
        directive.action matches Action::Release(body) ==> (directive@.action
            matches ActionView::Release(pieces) && pieces.len() == body@.len() && forall|i: int|
            0 <= i < body@.len() ==> (#[trigger] pieces[i]) == body@[i]@),
        directive.action matches Action::Reject(status) ==> directive@.action == ActionView::Reject(
            status,
        ),
        directive.action matches Action::Abort(fault) ==> directive@.action == ActionView::Abort(
            fault,
        ),
{
}

/// The view of a call tells the calls apart and shows each of their parts.
pub proof fn law_call_is_seen_whole(call: EngineCall)
    ensures
        call matches EngineCall::ProcessConnection { client, client_port, server, server_port }
            ==> call@ == (EngineCallView::ProcessConnection {
            client: client@,
            client_port: client_port as int,
            server: server@,
            server_port: server_port as int,
        }),
        call matches EngineCall::ProcessUri { uri, method, version } ==> call@ == (
        EngineCallView::ProcessUri { uri: uri@, method: method@, version: version@ }),
        call matches EngineCall::AddRequestHeader { name, value } ==> call@ == (
        EngineCallView::AddRequestHeader { name: name@, value: value@ }),
        call is ProcessRequestHeaders <==> call@ is ProcessRequestHeaders,
        call matches EngineCall::AppendRequestBody(bytes) ==> call@
            == EngineCallView::AppendRequestBody(bytes@),
        call is ProcessRequestBody <==> call@ is ProcessRequestBody,
        call matches EngineCall::AddResponseHeader { name, value } ==> call@ == (
        EngineCallView::AddResponseHeader { name: name@, value: value@ }),
        call matches EngineCall::ProcessResponseHeaders { status, version } ==> call@ == (
        EngineCallView::ProcessResponseHeaders { status: status as int, version: version@ }),
        call matches EngineCall::AppendResponseBody(bytes) ==> call@
            == EngineCallView::AppendResponseBody(bytes@),
        call is ProcessResponseBody <==> call@ is ProcessResponseBody,
        call is ProcessLogging <==> call@ is ProcessLogging,
{
}

} // verus!
