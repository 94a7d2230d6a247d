//! What the bridge does with what a client sends.
use crate::approvals::Waiter;
use crate::channel::{BrickChannel, ChannelView, CHANNEL_NAME};
use crate::clock::now_secs;
use crate::frames::{ApprovalDecision, InboundFrame, InboundView, OutboundFrame, OutboundView};
use crate::history::{HistoryQuery, QueryView};
use crate::keys::{
    as_slice, history_key, history_key_text, opt_text, session_key, session_key_text,
};
use crate::messages::{ChannelMessage, MessageView};
use crate::outside::{is_uuid_v4, new_uuid_text};
use crate::session::{ReadSession, SessionView};
use vstd::prelude::*;
use vstd::string::*;

verus! {

/// What came off the socket.
#[derive(Debug)]
pub enum SocketItem {
    Text(String),
    Binary,
    Ping,
    Pong,
    Close,
    /// A raw frame of the transport.
    Raw,
    /// Reading failed.
    Failed,
}

/// What is to be done with what came off the socket.
#[derive(Debug)]
pub enum Intake {
    /// Read the text as a frame.
    Parse(String),
    /// Pass over it and read on.
    Skip,
    /// Close the connection.
    Close,
}

/// Only text carries frames. The transport's own pings and pongs are passed over. Anything else
/// ends the connection, binary messages too, so that no client takes silence for consent.
pub fn take_in(item: SocketItem) -> (intake: Intake)
    ensures
        match item {
            SocketItem::Text(text) => intake == Intake::Parse(text),
            SocketItem::Ping => intake == Intake::Skip,
            SocketItem::Pong => intake == Intake::Skip,
            SocketItem::Close => intake == Intake::Close,
            SocketItem::Failed => intake == Intake::Close,
            SocketItem::Binary => intake == Intake::Close,
            SocketItem::Raw => intake == Intake::Close,
        },
{
    match item {
        SocketItem::Text(text) => Intake::Parse(text),
        SocketItem::Ping | SocketItem::Pong => Intake::Skip,
        SocketItem::Close | SocketItem::Failed | SocketItem::Binary | SocketItem::Raw => {
            Intake::Close
        },
    }
}

/// What is to be done about a frame.
pub enum FrameAction {
    /// Nothing; read on.
    Continue,
    /// Close the connection.
    Close,
    /// Queue `frame` for this connection, if it is still there and has room; read on.
    Reply { frame: OutboundFrame },
    /// Hand `message` to the orchestrator, then go by [`after_forward`] with `reply`.
    Forward { message: ChannelMessage, reply: Option<OutboundFrame> },
    /// Wake `waiter` with `decision`; read on.
    Resolve { waiter: Waiter, decision: ApprovalDecision },
    /// Load the stored turns and queue the answer to `query` as for a reply; read on.
    LoadHistory { query: HistoryQuery },
}

/// What a [`FrameAction`] says.
#[verifier::ext_equal]
pub enum ActionView {
    Continue,
    Close,
    Reply { frame: OutboundView },
    Forward { message: MessageView, reply: Option<OutboundView> },
    Resolve { waiter: Waiter, decision: ApprovalDecision },
    LoadHistory { query: QueryView },
}

/// The view of an optional frame.
pub open spec fn opt_frame(frame: Option<OutboundFrame>) -> Option<OutboundView> {
    match frame {
        Some(f) => Some(f@),
        None => None,
    }
}

impl View for FrameAction {
    type V = ActionView;

    open spec fn view(&self) -> ActionView {
        match self {
            FrameAction::Continue => ActionView::Continue,
            FrameAction::Close => ActionView::Close,
            FrameAction::Reply { frame } => ActionView::Reply { frame: frame@ },
            FrameAction::Forward { message, reply } => ActionView::Forward {
                message: message@,
                reply: opt_frame(*reply),
            },
            FrameAction::Resolve { waiter, decision } => ActionView::Resolve {
                waiter: *waiter,
                decision: *decision,
            },
            FrameAction::LoadHistory { query } => ActionView::LoadHistory { query: query@ },
        }
    }
}

/// What follows the attempt to hand a message to the orchestrator. An orchestrator that takes no
/// more messages ends the connection; otherwise the reply, if any, is queued.
pub fn after_forward(delivered: bool, reply: Option<OutboundFrame>) -> (action: FrameAction)
    ensures
        action@ == if !delivered {
            ActionView::Close
        } else {
            match opt_frame(reply) {
                Some(frame) => ActionView::Reply { frame },
                None => ActionView::Continue,
            }
        },
        !delivered ==> action is Close,
        delivered && reply is None ==> action is Continue,
        delivered && reply is Some ==> action is Reply && action->frame == reply->0,
{
    if !delivered {
        FrameAction::Close
    } else {
        match reply {
            Some(frame) => FrameAction::Reply { frame },
            None => FrameAction::Continue,
        }
    }
}

/// The frames that are heard before a connection has presented the token.
pub open spec fn is_handshake(frame: InboundView) -> bool {
    frame is Hello || frame is HelloAuth || frame is Ping
}

/// Whether a session is heard on `frame`.
pub open spec fn is_heard(session: SessionView, frame: InboundView) -> bool {
    session.authed || is_handshake(frame)
}

/// Whether `token` opens a channel that asks for `expected`. A channel that asks for none takes
/// any.
pub open spec fn opens(expected: Option<Seq<char>>, token: Seq<char>) -> bool {
    expected is None || expected == Some(token)
}

/// The session after `frame` was heard.
pub open spec fn session_after(
    v: ChannelView,
    session: SessionView,
    frame: InboundView,
) -> SessionView {
    SessionView {
        authed: session.authed || (frame matches InboundView::HelloAuth { token } && opens(
            v.auth_token,
            token,
        )),
        ..session
    }
}

/// The channel after `frame` was heard on the connection `conn`.
pub open spec fn channel_after(v: ChannelView, conn: u64, frame: InboundView) -> ChannelView {
    match frame {
        InboundView::Message { sender_id, .. } => ChannelView {
            router: v.router.associated(conn, sender_id),
            ..v
        },
        InboundView::ModelSet { sender_id, reply_target, thread_ts, model } => ChannelView {
            router: v.router.associated(conn, sender_id),
            session_models: v.session_models.insert(
                session_key_text(sender_id, reply_target, thread_ts),
                model,
            ),
            ..v
        },
        InboundView::ApprovalResponse { request_id, .. } => ChannelView {
            pending_approvals: v.pending_approvals.remove(request_id),
            ..v
        },
        _ => v,
    }
}

/// The hint last set for a session.
pub open spec fn model_hint(
    v: ChannelView,
    sender_id: Seq<char>,
    reply_target: Seq<char>,
    thread_ts: Option<Seq<char>>,
) -> Option<Seq<char>> {
    let key = session_key_text(sender_id, reply_target, thread_ts);
    if v.session_models.contains_key(key) {
        Some(v.session_models[key])
    } else {
        None
    }
}

/// A message of this channel.
pub open spec fn message_of(
    id: Seq<char>,
    sender: Seq<char>,
    reply_target: Seq<char>,
    thread_ts: Option<Seq<char>>,
    content: Seq<char>,
    now: u64,
) -> MessageView {
    MessageView {
        id,
        sender,
        reply_target,
        content,
        channel: "brick"@,
        timestamp: now,
        thread_ts,
        interruption_scope_id: None,
        attachments: seq![],
    }
}

/// What is to be done about `frame` once it is heard, at the time `now`. Where the bridge makes a
/// message of its own, `fresh` sets its id apart.
pub open spec fn action_for(
    v: ChannelView,
    frame: InboundView,
    now: u64,
    fresh: Seq<char>,
) -> ActionView {
    match frame {
        InboundView::Hello { .. } => ActionView::Reply {
            frame: OutboundView::HelloOk { daemon_version: v.daemon_version },
        },
        InboundView::HelloAuth { token } => if opens(v.auth_token, token) {
            ActionView::Continue
        } else {
            ActionView::Close
        },
        InboundView::Message { sender_id, reply_target, thread_ts, content, message_id } => {
            ActionView::Forward {
                message: message_of(message_id, sender_id, reply_target, thread_ts, content, now),
                reply: None,
            }
        },
        InboundView::Cancel { sender_id, reply_target, thread_ts, message_id } => {
            ActionView::Forward {
                message: message_of(
                    message_id,
                    sender_id,
                    reply_target,
                    thread_ts,
                    "/stop"@,
                    now,
                ),
                reply: None,
            }
        },
        InboundView::ModelSet { sender_id, reply_target, thread_ts, model } => {
            ActionView::Forward {
                message: message_of(
                    "brick-model-"@ + fresh,
                    sender_id,
                    reply_target,
                    thread_ts,
                    "/model "@ + model,
                    now,
                ),
                reply: Some(OutboundView::ModelSetOk { sender_id, reply_target, model }),
            }
        },
        InboundView::ModelGet { sender_id, reply_target, thread_ts } => ActionView::Reply {
            frame: OutboundView::ModelGetOk {
                sender_id,
                reply_target,
                thread_ts,
                model: model_hint(v, sender_id, reply_target, thread_ts),
            },
        },
        InboundView::ApprovalResponse { request_id, decision, .. } => {
            if v.pending_approvals.contains_key(request_id) {
                ActionView::Resolve { waiter: v.pending_approvals[request_id], decision }
            } else {
                ActionView::Continue
            }
        },
        InboundView::HistoryRequest { sender_id, reply_target, thread_ts, limit } => {
            ActionView::LoadHistory {
                query: QueryView {
                    key: history_key_text(sender_id, reply_target, thread_ts),
                    sender_id,
                    reply_target,
                    limit,
                },
            }
        },
        InboundView::Ping => ActionView::Reply { frame: OutboundView::Pong },
    }
}

/// The action taken on `frame` by a session.
pub open spec fn response(
    v: ChannelView,
    session: SessionView,
    frame: InboundView,
    now: u64,
    fresh: Seq<char>,
) -> ActionView {
    if is_heard(session, frame) {
        action_for(v, frame, now, fresh)
    } else {
        ActionView::Continue
    }
}

/// The channel after a session sent `frame`.
pub open spec fn channel_next(
    v: ChannelView,
    session: SessionView,
    frame: InboundView,
) -> ChannelView {
    if is_heard(session, frame) {
        channel_after(v, session.conn_id, frame)
    } else {
        v
    }
}

/// The session after it sent `frame`.
pub open spec fn session_next(
    v: ChannelView,
    session: SessionView,
    frame: InboundView,
) -> SessionView {
    if is_heard(session, frame) {
        session_after(v, session, frame)
    } else {
        session
    }
}

/// A message of this channel.
fn new_message(
    id: String,
    sender: String,
    reply_target: String,
    thread_ts: Option<String>,
    content: String,
    now: u64,
) -> (message: ChannelMessage)
    ensures
        message@ == message_of(id@, sender@, reply_target@, opt_text(thread_ts), content@, now),
{
    let message = ChannelMessage {
        id,
        sender,
        reply_target,
        content,
        channel: CHANNEL_NAME.to_owned(),
        timestamp: now,
        thread_ts,
        interruption_scope_id: None,
        attachments: Vec::new(),
    };
    assert(message@.attachments =~= seq![]);
    message
}

/// Whether `frame` is heard before a connection has presented the token.
fn handshake(frame: &InboundFrame) -> (yes: bool)
    ensures
        yes == is_handshake(frame@),
{
    match frame {
        InboundFrame::Hello { .. } | InboundFrame::HelloAuth { .. } | InboundFrame::Ping => true,
        _ => false,
    }
}

impl BrickChannel {
    /// Takes one frame of a session, at the time `now`. `fresh` sets apart the id of a message
    /// that the bridge makes of its own.
    pub fn handle_frame_at(
        &mut self,
        session: &mut ReadSession,
        frame: InboundFrame,
        now: u64,
        fresh: String,
    ) -> (action: FrameAction)
        ensures
            action@ == response(old(self)@, old(session)@, frame@, now, fresh@),
            final(self)@ == channel_next(old(self)@, old(session)@, frame@),
            final(session)@ == session_next(old(self)@, old(session)@, frame@),
    {
        if !session.is_authed() && !handshake(&frame) {
            return FrameAction::Continue;
        }
        match frame {
            InboundFrame::Hello { client: _, version: _ } => FrameAction::Reply {
                frame: OutboundFrame::HelloOk { daemon_version: self.daemon_version().clone() },
            },
            InboundFrame::HelloAuth { token } => {
                let accepted = match self.auth_token() {
                    Some(expected) => *expected == token,
                    None => true,
                };
                if accepted {
                    session.grant();
                    FrameAction::Continue
                } else {
                    FrameAction::Close
                }
            },
            InboundFrame::Message { sender_id, reply_target, thread_ts, content, message_id } => {
                self.associate(session.conn_id(), sender_id.clone());
                FrameAction::Forward {
                    message: new_message(
                        message_id,
                        sender_id,
                        reply_target,
                        thread_ts,
                        content,
                        now,
                    ),
                    reply: None,
                }
            },
            InboundFrame::Cancel { sender_id, reply_target, thread_ts, message_id } => {
                FrameAction::Forward {
                    message: new_message(
                        message_id,
                        sender_id,
                        reply_target,
                        thread_ts,
                        "/stop".to_owned(),
                        now,
                    ),
                    reply: None,
                }
            },
            InboundFrame::ModelSet { sender_id, reply_target, thread_ts, model } => {
                self.associate(session.conn_id(), sender_id.clone());
                let key = session_key(
                    sender_id.as_str(),
                    reply_target.as_str(),
                    as_slice(&thread_ts),
                );
                self.set_session_model(key, model.clone());
                let mut id = "brick-model-".to_owned();
                id.append(fresh.as_str());
                let mut command = "/model ".to_owned();
                command.append(model.as_str());
                FrameAction::Forward {
                    message: new_message(
                        id,
                        sender_id.clone(),
                        reply_target.clone(),
                        thread_ts,
                        command,
                        now,
                    ),
                    reply: Some(OutboundFrame::ModelSetOk { sender_id, reply_target, model }),
                }
            },
            InboundFrame::ModelGet { sender_id, reply_target, thread_ts } => {
                let key = session_key(
                    sender_id.as_str(),
                    reply_target.as_str(),
                    as_slice(&thread_ts),
                );
                let model = self.session_model(key.as_str());
                FrameAction::Reply {
                    frame: OutboundFrame::ModelGetOk { sender_id, reply_target, thread_ts, model },
                }
            },
            InboundFrame::ApprovalResponse { sender_id: _, request_id, decision } => {
                match self.take_waiter(&request_id) {
                    Some(waiter) => FrameAction::Resolve { waiter, decision },
                    None => FrameAction::Continue,
                }
            },
            InboundFrame::HistoryRequest { sender_id, reply_target, thread_ts, limit } => {
                let key = history_key(
                    sender_id.as_str(),
                    reply_target.as_str(),
                    as_slice(&thread_ts),
                );
                FrameAction::LoadHistory {
                    query: HistoryQuery { key, sender_id, reply_target, limit },
                }
            },
            InboundFrame::Ping => FrameAction::Reply { frame: OutboundFrame::Pong },
        }
    }

    /// Takes one frame of a session. `None` stands for a text that is no frame, which closes the
    /// connection.
    ///
    /// The clock and the random id of a model command are read here; `response` says what comes
    /// of each reading.
    pub fn handle_frame(
        &mut self,
        session: &mut ReadSession,
        frame: Option<InboundFrame>,
    ) -> (action: FrameAction)
        ensures
            match frame {
                Some(frame) => {
                    &&& exists|now: u64, fresh: Seq<char>|
                        (frame@ is ModelSet && is_heard(old(session)@, frame@) ==> is_uuid_v4(
                            fresh,
                        )) && action@ == #[trigger] response(
                            old(self)@,
                            old(session)@,
                            frame@,
                            now,
                            fresh,
                        )
                    &&& final(self)@ == channel_next(old(self)@, old(session)@, frame@)
                    &&& final(session)@ == session_next(old(self)@, old(session)@, frame@)
                },
                None => {
                    &&& action@ == ActionView::Close
                    &&& final(self)@ == old(self)@
                    &&& final(session)@ == old(session)@
                },
            },
    {
        match frame {
            Some(frame) => {
                let sets_model = match &frame {
                    InboundFrame::ModelSet { .. } => true,
                    _ => false,
                };
                let fresh = if sets_model && session.is_authed() {
                    new_uuid_text()
                } else {
                    String::new()
                };
                self.handle_frame_at(session, frame, now_secs(), fresh)
            },
            None => FrameAction::Close,
        }
    }
}

/// An action shows what is to be done, and with what.
pub proof fn law_actions_show_what_they_hold(action: FrameAction)
    ensures
        match action {
            FrameAction::Continue => action@ == ActionView::Continue,
            FrameAction::Close => action@ == ActionView::Close,
            FrameAction::Reply { frame } => action@ == (ActionView::Reply { frame: frame@ }),
            FrameAction::Forward { message, reply: Some(frame) } => {
                action@ == (ActionView::Forward { message: message@, reply: Some(frame@) })
            },
            FrameAction::Forward { message, reply: None } => {
                action@ == (ActionView::Forward { message: message@, reply: None })
            },
            FrameAction::Resolve { waiter, decision } => {
                action@ == (ActionView::Resolve { waiter, decision })
            },
            FrameAction::LoadHistory { query } => {
                action@ == (ActionView::LoadHistory { query: query@ })
            },
        },
{
}

} // verus!
