//! The frames that travel between the bridge and a connected client.
use crate::keys::opt_text;
use vstd::prelude::*;

verus! {

/// A user's answer to an approval request.
#[derive(Debug, Clone, Copy, PartialEq, Eq, Structural)]
pub enum ApprovalDecision {
    Approve,
    Deny,
    Always,
}

/// A frame from a client.
#[derive(Debug)]
pub enum InboundFrame {
    /// First words of a client.
    Hello { client: String, version: Option<String> },
    /// Presents the token of this boot. Where the channel has a token, a connection must send it
    /// before any frame other than `Hello` and `Ping` is honored.
    HelloAuth { token: String },
    /// A chat message of the user.
    Message {
        sender_id: String,
        reply_target: String,
        thread_ts: Option<String>,
        content: String,
        message_id: String,
    },
    /// Stops the turn that is running in the same scope.
    Cancel {
        sender_id: String,
        reply_target: String,
        thread_ts: Option<String>,
        message_id: String,
    },
    /// Sets the model hint of a session.
    ModelSet { sender_id: String, reply_target: String, thread_ts: Option<String>, model: String },
    /// The user's answer to an `ApprovalRequest`.
    ApprovalResponse { sender_id: String, request_id: String, decision: ApprovalDecision },
    /// Asks for the stored turns of a conversation, at most the last `limit` of them.
    HistoryRequest {
        sender_id: String,
        reply_target: String,
        thread_ts: Option<String>,
        limit: Option<usize>,
    },
    /// Reads the model hint last set for a session.
    ModelGet { sender_id: String, reply_target: String, thread_ts: Option<String> },
    /// Asks for a sign of life.
    Ping,
}

/// What an [`InboundFrame`] says.
#[verifier::ext_equal]
pub enum InboundView {
    Hello { client: Seq<char>, version: Option<Seq<char>> },
    HelloAuth { token: Seq<char> },
    Message {
        sender_id: Seq<char>,
        reply_target: Seq<char>,
        thread_ts: Option<Seq<char>>,
        content: Seq<char>,
        message_id: Seq<char>,
    },
    Cancel {
        sender_id: Seq<char>,
        reply_target: Seq<char>,
        thread_ts: Option<Seq<char>>,
        message_id: Seq<char>,
    },
    ModelSet {
        sender_id: Seq<char>,
        reply_target: Seq<char>,
        thread_ts: Option<Seq<char>>,
        model: Seq<char>,
    },
    ApprovalResponse { sender_id: Seq<char>, request_id: Seq<char>, decision: ApprovalDecision },
    HistoryRequest {
        sender_id: Seq<char>,
        reply_target: Seq<char>,
        thread_ts: Option<Seq<char>>,
        limit: Option<usize>,
    },
    ModelGet { sender_id: Seq<char>, reply_target: Seq<char>, thread_ts: Option<Seq<char>> },
    Ping,
}

impl View for InboundFrame {
    type V = InboundView;

    open spec fn view(&self) -> InboundView {
        match self {
            InboundFrame::Hello { client, version } => InboundView::Hello {
                client: client@,
                version: opt_text(*version),
            },
            InboundFrame::HelloAuth { token } => InboundView::HelloAuth { token: token@ },
            InboundFrame::Message { sender_id, reply_target, thread_ts, content, message_id } => {
                InboundView::Message {
                    sender_id: sender_id@,
                    reply_target: reply_target@,
                    thread_ts: opt_text(*thread_ts),
                    content: content@,
                    message_id: message_id@,
                }
            },
            InboundFrame::Cancel { sender_id, reply_target, thread_ts, message_id } => {
                InboundView::Cancel {
                    sender_id: sender_id@,
                    reply_target: reply_target@,
                    thread_ts: opt_text(*thread_ts),
                    message_id: message_id@,
                }
            },
            InboundFrame::ModelSet { sender_id, reply_target, thread_ts, model } => {
                InboundView::ModelSet {
                    sender_id: sender_id@,
                    reply_target: reply_target@,
                    thread_ts: opt_text(*thread_ts),
                    model: model@,
                }
            },
            InboundFrame::ApprovalResponse { sender_id, request_id, decision } => {
                InboundView::ApprovalResponse {
                    sender_id: sender_id@,
                    request_id: request_id@,
                    decision: *decision,
                }
            },
            InboundFrame::HistoryRequest { sender_id, reply_target, thread_ts, limit } => {
                InboundView::HistoryRequest {
                    sender_id: sender_id@,
                    reply_target: reply_target@,
                    thread_ts: opt_text(*thread_ts),
                    limit: *limit,
                }
            },
            InboundFrame::ModelGet { sender_id, reply_target, thread_ts } => InboundView::ModelGet {
                sender_id: sender_id@,
                reply_target: reply_target@,
                thread_ts: opt_text(*thread_ts),
            },
            InboundFrame::Ping => InboundView::Ping,
        }
    }
}

impl Clone for InboundFrame {
    fn clone(&self) -> (copy: Self)
        ensures
            copy@ == self@,
    {
        match self {
            InboundFrame::Hello { client, version } => InboundFrame::Hello {
                client: client.clone(),
                version: version.clone(),
            },
            InboundFrame::HelloAuth { token } => InboundFrame::HelloAuth { token: token.clone() },
            InboundFrame::Message { sender_id, reply_target, thread_ts, content, message_id } => {
                InboundFrame::Message {
                    sender_id: sender_id.clone(),
                    reply_target: reply_target.clone(),
                    thread_ts: thread_ts.clone(),
                    content: content.clone(),
                    message_id: message_id.clone(),
                }
            },
            InboundFrame::Cancel { sender_id, reply_target, thread_ts, message_id } => {
                InboundFrame::Cancel {
                    sender_id: sender_id.clone(),
                    reply_target: reply_target.clone(),
                    thread_ts: thread_ts.clone(),
                    message_id: message_id.clone(),
                }
            },
            InboundFrame::ModelSet { sender_id, reply_target, thread_ts, model } => {
                InboundFrame::ModelSet {
                    sender_id: sender_id.clone(),
                    reply_target: reply_target.clone(),
                    thread_ts: thread_ts.clone(),
                    model: model.clone(),
                }
            },
            InboundFrame::ApprovalResponse { sender_id, request_id, decision } => {
                InboundFrame::ApprovalResponse {
                    sender_id: sender_id.clone(),
                    request_id: request_id.clone(),
                    decision: *decision,
                }
            },
            InboundFrame::HistoryRequest { sender_id, reply_target, thread_ts, limit } => {
                InboundFrame::HistoryRequest {
                    sender_id: sender_id.clone(),
                    reply_target: reply_target.clone(),
                    thread_ts: thread_ts.clone(),
                    limit: *limit,
                }
            },
            InboundFrame::ModelGet { sender_id, reply_target, thread_ts } => {
                InboundFrame::ModelGet {
                    sender_id: sender_id.clone(),
                    reply_target: reply_target.clone(),
                    thread_ts: thread_ts.clone(),
                }
            },
            InboundFrame::Ping => InboundFrame::Ping,
        }
    }
}

/// One stored turn of a conversation, as clients see it.
#[derive(Debug)]
pub struct HistoryMessage {
    pub role: String,
    pub content: String,
    pub ts: u64,
}

/// What a [`HistoryMessage`] says.
#[verifier::ext_equal]
pub struct HistoryView {
    pub role: Seq<char>,
    pub content: Seq<char>,
    pub ts: u64,
}

impl View for HistoryMessage {
    type V = HistoryView;

    open spec fn view(&self) -> HistoryView {
        HistoryView { role: self.role@, content: self.content@, ts: self.ts }
    }
}

impl Clone for HistoryMessage {
    fn clone(&self) -> (copy: Self)
        ensures
            copy@ == self@,
    {
        HistoryMessage { role: self.role.clone(), content: self.content.clone(), ts: self.ts }
    }
}

/// What a list of history messages says.
pub open spec fn history_view(messages: Seq<HistoryMessage>) -> Seq<HistoryView> {
    Seq::new(messages.len(), |i: int| messages[i]@)
}

/// A copy of `messages`.
fn clone_history(messages: &Vec<HistoryMessage>) -> (copy: Vec<HistoryMessage>)
    ensures
        history_view(copy@) == history_view(messages@),
{
    let mut copy: Vec<HistoryMessage> = Vec::new();
    let mut i: usize = 0;
    while i < messages.len()
        invariant
            i <= messages.len(),
            copy.len() == i,
            forall|j: int| 0 <= j < i ==> (#[trigger] copy[j])@ == messages[j]@,
        decreases messages.len() - i,
    {
        copy.push(messages[i].clone());
        i += 1;
    }
    assert(history_view(copy@) =~= history_view(messages@));
    copy
}

/// A frame to the clients.
#[derive(Debug)]
#[allow(inconsistent_fields)]
pub enum OutboundFrame {
    /// Answer to `Hello`.
    HelloOk { daemon_version: String },
    /// A draft reply is being opened.
    DraftStart { sender_id: String, draft_id: String, conversation_id: String },
    /// New text of an open draft.
    DraftDelta { draft_id: String, text: String },
    /// A line of progress of a tool that runs for a draft.
    ToolProgress { draft_id: String, text: String },
    /// A tool call starts: its name and its arguments.
    ToolCallStart {
        draft_id: String,
        tool_id: Option<String>,
        tool_name: String,
        arguments_json: String,
    },
    /// A tool call ended. `output` was shortened for the wire before it came here.
    ToolCallResult {
        draft_id: String,
        tool_id: Option<String>,
        tool_name: String,
        success: bool,
        output: String,
    },
    /// The final text of a draft.
    DraftFinalize { draft_id: String, text: String },
    /// A draft was given up.
    DraftCancel { draft_id: String },
    /// The user is asked to approve a tool call.
    ApprovalRequest {
        sender_id: String,
        request_id: String,
        tool_name: String,
        arguments_summary: String,
    },
    /// The agent starts to type.
    TypingStart { sender_id: String },
    /// The agent stopped typing.
    TypingStop { sender_id: String },
    /// Answer to `HistoryRequest`.
    HistoryResponse { sender_id: String, reply_target: String, messages: Vec<HistoryMessage> },
    /// Answer to `ModelSet`.
    ModelSetOk { sender_id: String, reply_target: String, model: String },
    /// Answer to `ModelGet`: the hint last set for the session, or `None` while the session is on
    /// the daemon's default. `thread_ts` echoes the request, so concurrent requests can be told
    /// apart.
    ModelGetOk {
        sender_id: String,
        reply_target: String,
        thread_ts: Option<String>,
        model: Option<String>,
    },
    /// Terminal outcome: the message gets no reply. `reason` is left off the wire where there is
    /// none.
    NoReply {
        sender_id: String,
        message_id: String,
        kind: String,
        reason: Option<String>,
        elapsed_ms: u64,
        display_text: String,
    },
    /// Answer to `Ping`.
    Pong,
}

/// What an [`OutboundFrame`] says.
#[verifier::ext_equal]
#[allow(inconsistent_fields)]
pub enum OutboundView {
    HelloOk { daemon_version: Seq<char> },
    DraftStart { sender_id: Seq<char>, draft_id: Seq<char>, conversation_id: Seq<char> },
    DraftDelta { draft_id: Seq<char>, text: Seq<char> },
    ToolProgress { draft_id: Seq<char>, text: Seq<char> },
    ToolCallStart {
        draft_id: Seq<char>,
        tool_id: Option<Seq<char>>,
        tool_name: Seq<char>,
        arguments_json: Seq<char>,
    },
    ToolCallResult {
        draft_id: Seq<char>,
        tool_id: Option<Seq<char>>,
        tool_name: Seq<char>,
        success: bool,
        output: Seq<char>,
    },
    DraftFinalize { draft_id: Seq<char>, text: Seq<char> },
    DraftCancel { draft_id: Seq<char> },
    ApprovalRequest {
        sender_id: Seq<char>,
        request_id: Seq<char>,
        tool_name: Seq<char>,
        arguments_summary: Seq<char>,
    },
    TypingStart { sender_id: Seq<char> },
    TypingStop { sender_id: Seq<char> },
    HistoryResponse { sender_id: Seq<char>, reply_target: Seq<char>, messages: Seq<HistoryView> },
    ModelSetOk { sender_id: Seq<char>, reply_target: Seq<char>, model: Seq<char> },
    ModelGetOk {
        sender_id: Seq<char>,
        reply_target: Seq<char>,
        thread_ts: Option<Seq<char>>,
        model: Option<Seq<char>>,
    },
    NoReply {
        sender_id: Seq<char>,
        message_id: Seq<char>,
        kind: Seq<char>,
        reason: Option<Seq<char>>,
        elapsed_ms: u64,
        display_text: Seq<char>,
    },
    Pong,
}

impl View for OutboundFrame {
    type V = OutboundView;

    open spec fn view(&self) -> OutboundView {
        match self {
            OutboundFrame::HelloOk { daemon_version } => OutboundView::HelloOk {
                daemon_version: daemon_version@,
            },
            OutboundFrame::DraftStart { sender_id, draft_id, conversation_id } => {
                OutboundView::DraftStart {
                    sender_id: sender_id@,
                    draft_id: draft_id@,
                    conversation_id: conversation_id@,
                }
            },
            OutboundFrame::DraftDelta { draft_id, text } => OutboundView::DraftDelta {
                draft_id: draft_id@,
                text: text@,
            },
            OutboundFrame::ToolProgress { draft_id, text } => OutboundView::ToolProgress {
                draft_id: draft_id@,
                text: text@,
            },
            OutboundFrame::ToolCallStart { draft_id, tool_id, tool_name, arguments_json } => {
                OutboundView::ToolCallStart {
                    draft_id: draft_id@,
                    tool_id: opt_text(*tool_id),
                    tool_name: tool_name@,
                    arguments_json: arguments_json@,
                }
            },
            OutboundFrame::ToolCallResult { draft_id, tool_id, tool_name, success, output } => {
                OutboundView::ToolCallResult {
                    draft_id: draft_id@,
                    tool_id: opt_text(*tool_id),
                    tool_name: tool_name@,
                    success: *success,
                    output: output@,
                }
            },
            OutboundFrame::DraftFinalize { draft_id, text } => OutboundView::DraftFinalize {
                draft_id: draft_id@,
                text: text@,
            },
            OutboundFrame::DraftCancel { draft_id } => OutboundView::DraftCancel {
                draft_id: draft_id@,
            },
            OutboundFrame::ApprovalRequest {
                sender_id,
                request_id,
                tool_name,
                arguments_summary,
            } => OutboundView::ApprovalRequest {
                sender_id: sender_id@,
                request_id: request_id@,
                tool_name: tool_name@,
                arguments_summary: arguments_summary@,
            },
            OutboundFrame::TypingStart { sender_id } => OutboundView::TypingStart {
                sender_id: sender_id@,
            },
            OutboundFrame::TypingStop { sender_id } => OutboundView::TypingStop {
                sender_id: sender_id@,
            },
            OutboundFrame::HistoryResponse { sender_id, reply_target, messages } => {
                OutboundView::HistoryResponse {
                    sender_id: sender_id@,
                    reply_target: reply_target@,
                    messages: history_view(messages@),
                }
            },
            OutboundFrame::ModelSetOk { sender_id, reply_target, model } => {
                OutboundView::ModelSetOk {
                    sender_id: sender_id@,
                    reply_target: reply_target@,
                    model: model@,
                }
            },
            OutboundFrame::ModelGetOk { sender_id, reply_target, thread_ts, model } => {
                OutboundView::ModelGetOk {
                    sender_id: sender_id@,
                    reply_target: reply_target@,
                    thread_ts: opt_text(*thread_ts),
                    model: opt_text(*model),
                }
            },
            OutboundFrame::NoReply {
                sender_id,
                message_id,
                kind,
                reason,
                elapsed_ms,
                display_text,
            } => OutboundView::NoReply {
                sender_id: sender_id@,
                message_id: message_id@,
                kind: kind@,
                reason: opt_text(*reason),
                elapsed_ms: *elapsed_ms,
                display_text: display_text@,
            },
            OutboundFrame::Pong => OutboundView::Pong,
        }
    }
}

impl Clone for OutboundFrame {
    fn clone(&self) -> (copy: Self)
        ensures
            copy@ == self@,
    {
        match self {
            OutboundFrame::HelloOk { daemon_version } => OutboundFrame::HelloOk {
                daemon_version: daemon_version.clone(),
            },
            OutboundFrame::DraftStart { sender_id, draft_id, conversation_id } => {
                OutboundFrame::DraftStart {
                    sender_id: sender_id.clone(),
                    draft_id: draft_id.clone(),
                    conversation_id: conversation_id.clone(),
                }
            },
            OutboundFrame::DraftDelta { draft_id, text } => OutboundFrame::DraftDelta {
                draft_id: draft_id.clone(),
                text: text.clone(),
            },
            OutboundFrame::ToolProgress { draft_id, text } => OutboundFrame::ToolProgress {
                draft_id: draft_id.clone(),
                text: text.clone(),
            },
            OutboundFrame::ToolCallStart { draft_id, tool_id, tool_name, arguments_json } => {
                OutboundFrame::ToolCallStart {
                    draft_id: draft_id.clone(),
                    tool_id: tool_id.clone(),
                    tool_name: tool_name.clone(),
                    arguments_json: arguments_json.clone(),
                }
            },
            OutboundFrame::ToolCallResult { draft_id, tool_id, tool_name, success, output } => {
                OutboundFrame::ToolCallResult {
                    draft_id: draft_id.clone(),
                    tool_id: tool_id.clone(),
                    tool_name: tool_name.clone(),
                    success: *success,
                    output: output.clone(),
                }
            },
            OutboundFrame::DraftFinalize { draft_id, text } => OutboundFrame::DraftFinalize {
                draft_id: draft_id.clone(),
                text: text.clone(),
            },
            OutboundFrame::DraftCancel { draft_id } => OutboundFrame::DraftCancel {
                draft_id: draft_id.clone(),
            },
            OutboundFrame::ApprovalRequest {
                sender_id,
                request_id,
                tool_name,
                arguments_summary,
            } => OutboundFrame::ApprovalRequest {
                sender_id: sender_id.clone(),
                request_id: request_id.clone(),
                tool_name: tool_name.clone(),
                arguments_summary: arguments_summary.clone(),
            },
            OutboundFrame::TypingStart { sender_id } => OutboundFrame::TypingStart {
                sender_id: sender_id.clone(),
            },
            OutboundFrame::TypingStop { sender_id } => OutboundFrame::TypingStop {
                sender_id: sender_id.clone(),
            },
            OutboundFrame::HistoryResponse { sender_id, reply_target, messages } => {
                OutboundFrame::HistoryResponse {
                    sender_id: sender_id.clone(),
                    reply_target: reply_target.clone(),
                    messages: clone_history(messages),
                }
            },
            OutboundFrame::ModelSetOk { sender_id, reply_target, model } => {
                OutboundFrame::ModelSetOk {
                    sender_id: sender_id.clone(),
                    reply_target: reply_target.clone(),
                    model: model.clone(),
                }
            },
            OutboundFrame::ModelGetOk { sender_id, reply_target, thread_ts, model } => {
                OutboundFrame::ModelGetOk {
                    sender_id: sender_id.clone(),
                    reply_target: reply_target.clone(),
                    thread_ts: thread_ts.clone(),
                    model: model.clone(),
                }
            },
            OutboundFrame::NoReply {
                sender_id,
                message_id,
                kind,
                reason,
                elapsed_ms,
                display_text,
            } => OutboundFrame::NoReply {
                sender_id: sender_id.clone(),
                message_id: message_id.clone(),
                kind: kind.clone(),
                reason: reason.clone(),
                elapsed_ms: *elapsed_ms,
                display_text: display_text.clone(),
            },
            OutboundFrame::Pong => OutboundFrame::Pong,
        }
    }
}

/// A frame from a client shows each of its fields under its own name.
pub proof fn law_inbound_frames_show_what_they_hold(frame: InboundFrame)
    ensures
        match frame {
            InboundFrame::Hello { client, version } => {
                frame@ == (InboundView::Hello {
                    client: client@,
                    version: opt_text(version),
                })
            },
            InboundFrame::HelloAuth { token } => {
                frame@ == (InboundView::HelloAuth {
                    token: token@,
                })
            },
            InboundFrame::Message { sender_id, reply_target, thread_ts, content, message_id } => {
                frame@ == (InboundView::Message {
                    sender_id: sender_id@,
                    reply_target: reply_target@,
                    thread_ts: opt_text(thread_ts),
                    content: content@,
                    message_id: message_id@,
                })
            },
            InboundFrame::Cancel { sender_id, reply_target, thread_ts, message_id } => {
                frame@ == (InboundView::Cancel {
                    sender_id: sender_id@,
                    reply_target: reply_target@,
                    thread_ts: opt_text(thread_ts),
                    message_id: message_id@,
                })
            },
            InboundFrame::ModelSet { sender_id, reply_target, thread_ts, model } => {
                frame@ == (InboundView::ModelSet {
                    sender_id: sender_id@,
                    reply_target: reply_target@,
                    thread_ts: opt_text(thread_ts),
                    model: model@,
                })
            },
            InboundFrame::ApprovalResponse { sender_id, request_id, decision } => {
                frame@ == (InboundView::ApprovalResponse {
                    sender_id: sender_id@,
                    request_id: request_id@,
                    decision,
                })
            },
            InboundFrame::HistoryRequest { sender_id, reply_target, thread_ts, limit } => {
                frame@ == (InboundView::HistoryRequest {
                    sender_id: sender_id@,
                    reply_target: reply_target@,
                    thread_ts: opt_text(thread_ts),
                    limit,
                })
            },
            InboundFrame::ModelGet { sender_id, reply_target, thread_ts } => {
                frame@ == (InboundView::ModelGet {
                    sender_id: sender_id@,
                    reply_target: reply_target@,
                    thread_ts: opt_text(thread_ts),
                })
            },
            InboundFrame::Ping => frame@ == InboundView::Ping,
        },
{
}

/// A frame to the clients shows each of its fields under its own name.
pub proof fn law_outbound_frames_show_what_they_hold(frame: OutboundFrame)
    ensures
        match frame {
            OutboundFrame::HelloOk { daemon_version } => {
                frame@ == (OutboundView::HelloOk {
                    daemon_version: daemon_version@,
                })
            },
            OutboundFrame::DraftStart { sender_id, draft_id, conversation_id } => {
                frame@ == (OutboundView::DraftStart {
                    sender_id: sender_id@,
                    draft_id: draft_id@,
                    conversation_id: conversation_id@,
                })
            },
            OutboundFrame::DraftDelta { draft_id, text } => {
                frame@ == (OutboundView::DraftDelta {
                    draft_id: draft_id@,
                    text: text@,
                })
            },
            OutboundFrame::ToolProgress { draft_id, text } => {
                frame@ == (OutboundView::ToolProgress {
                    draft_id: draft_id@,
                    text: text@,
                })
            },
            OutboundFrame::ToolCallStart { draft_id, tool_id, tool_name, arguments_json } => {
                frame@ == (OutboundView::ToolCallStart {
                    draft_id: draft_id@,
                    tool_id: opt_text(tool_id),
                    tool_name: tool_name@,
                    arguments_json: arguments_json@,
                })
            },
            OutboundFrame::ToolCallResult { draft_id, tool_id, tool_name, success, output } => {
                frame@ == (OutboundView::ToolCallResult {
                    draft_id: draft_id@,
                    tool_id: opt_text(tool_id),
                    tool_name: tool_name@,
                    success,
                    output: output@,
                })
            },
            OutboundFrame::DraftFinalize { draft_id, text } => {
                frame@ == (OutboundView::DraftFinalize {
                    draft_id: draft_id@,
                    text: text@,
                })
            },
            OutboundFrame::DraftCancel { draft_id } => {
                frame@ == (OutboundView::DraftCancel {
                    draft_id: draft_id@,
                })
            },
            OutboundFrame::ApprovalRequest {
                sender_id,
                request_id,
                tool_name,
                arguments_summary,
            } => {
                frame@ == (OutboundView::ApprovalRequest {
                    sender_id: sender_id@,
                    request_id: request_id@,
                    tool_name: tool_name@,
                    arguments_summary: arguments_summary@,
                })
            },
            OutboundFrame::TypingStart { sender_id } => {
                frame@ == (OutboundView::TypingStart {
                    sender_id: sender_id@,
                })
            },
            OutboundFrame::TypingStop { sender_id } => {
                frame@ == (OutboundView::TypingStop {
                    sender_id: sender_id@,
                })
            },
            OutboundFrame::HistoryResponse { sender_id, reply_target, messages } => {
                frame@ == (OutboundView::HistoryResponse {
                    sender_id: sender_id@,
                    reply_target: reply_target@,
                    messages: history_view(messages@),
                })
            },
            OutboundFrame::ModelSetOk { sender_id, reply_target, model } => {
                frame@ == (OutboundView::ModelSetOk {
                    sender_id: sender_id@,
                    reply_target: reply_target@,
                    model: model@,
                })
            },
            OutboundFrame::ModelGetOk { sender_id, reply_target, thread_ts, model } => {
                frame@ == (OutboundView::ModelGetOk {
                    sender_id: sender_id@,
                    reply_target: reply_target@,
                    thread_ts: opt_text(thread_ts),
                    model: opt_text(model),
                })
            },
            OutboundFrame::NoReply {
                sender_id,
                message_id,
                kind,
                reason,
                elapsed_ms,
                display_text,
            } => {
                frame@ == (OutboundView::NoReply {
                    sender_id: sender_id@,
                    message_id: message_id@,
                    kind: kind@,
                    reason: opt_text(reason),
                    elapsed_ms,
                    display_text: display_text@,
                })
            },
            OutboundFrame::Pong => frame@ == OutboundView::Pong,
        },
{
}

/// The messages of a history show their roles, texts and times, in their order.
pub proof fn law_histories_show_what_they_hold(messages: Seq<HistoryMessage>)
    ensures
        history_view(messages).len() == messages.len(),
        forall|i: int|
            0 <= i < messages.len() ==> {
                let shown = #[trigger] history_view(messages)[i];
                &&& shown.role == messages[i].role@
                &&& shown.content == messages[i].content@
                &&& shown.ts == messages[i].ts
            },
{
}

} // verus!
