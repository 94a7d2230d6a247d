//! What holds of the channel as a whole, over any frames of any sessions.
use crate::approvals::Waiter;
use crate::channel::ChannelView;
use crate::frames::{ApprovalDecision, InboundView, OutboundFrame, OutboundView};
use crate::inbound::{channel_next, is_heard, model_hint, response, session_next, ActionView};
use crate::keys::{law_session_keys_isolate, session_key_text};
use crate::messages::MessageView;
use crate::outbound::{asked, settled, ApprovalOutcome};
use crate::router::{
    associated_all, law_associate_keeps_consistent, law_connection_leaves_no_trace,
    law_drop_keeps_consistent, law_register_keeps_consistent, ConnId, RouterView,
};
use crate::session::SessionView;
use tokio::sync::mpsc;
use vstd::prelude::*;

verus! {

/// A channel and one of its sessions after the session sent `frames`, one after the other.
pub open spec fn run(v: ChannelView, session: SessionView, frames: Seq<InboundView>) -> (
    ChannelView,
    SessionView,
)
    decreases frames.len(),
{
    if frames.len() == 0 {
        (v, session)
    } else {
        let (w, s) = run(v, session, frames.drop_last());
        (channel_next(w, s, frames.last()), session_next(w, s, frames.last()))
    }
}

/// A channel after any sessions sent frames, in this order. Each step says in which state the
/// session was that sent the frame.
pub open spec fn replay(v: ChannelView, steps: Seq<(SessionView, InboundView)>) -> ChannelView
    decreases steps.len(),
{
    if steps.len() == 0 {
        v
    } else {
        channel_next(replay(v, steps.drop_last()), steps.last().0, steps.last().1)
    }
}

/// Before a session has presented the token, a frame other than `Hello`, `HelloAuth` and `Ping`
/// is dropped: nothing changes and nothing is sent anywhere.
pub proof fn law_unheard_frames_do_nothing(
    v: ChannelView,
    session: SessionView,
    frame: InboundView,
    now: u64,
    fresh: Seq<char>,
)
    requires
        !session.authed,
        !(frame is Hello),
        !(frame is HelloAuth),
        !(frame is Ping),
    ensures
        response(v, session, frame, now, fresh) == ActionView::Continue,
        channel_next(v, session, frame) == v,
        session_next(v, session, frame) == session,
{
}

/// Before a session has presented the token, nothing that it sends, the handshake included,
/// changes the channel, reaches the orchestrator, wakes an asker or reads a history: the only
/// answers are those to the handshake itself.
pub proof fn law_nothing_passes_before_the_token(
    v: ChannelView,
    session: SessionView,
    frame: InboundView,
    now: u64,
    fresh: Seq<char>,
)
    requires
        !session.authed,
    ensures
        channel_next(v, session, frame) == v,
        ({
            let action = response(v, session, frame, now, fresh);
            ||| action == ActionView::Continue
            ||| action == ActionView::Close
            ||| action == (ActionView::Reply {
                frame: OutboundView::HelloOk { daemon_version: v.daemon_version },
            })
            ||| action == (ActionView::Reply { frame: OutboundView::Pong })
        }),
{
}

/// However many frames a session sends, as long as none of them presents the token, it is not
/// heard and the channel stays as it was.
pub proof fn law_no_entry_without_the_token(
    v: ChannelView,
    session: SessionView,
    frames: Seq<InboundView>,
)
    requires
        !session.authed,
        v.auth_token is Some,
        forall|i: int|
            0 <= i < frames.len() ==> (#[trigger] frames[i] matches InboundView::HelloAuth { token }
                ==> v.auth_token != Some(token)),
    ensures
        run(v, session, frames) == (v, session),
    decreases frames.len(),
{
    if frames.len() > 0 {
        let init = frames.drop_last();
        assert forall|i: int| 0 <= i < init.len() implies (
        #[trigger] init[i] matches InboundView::HelloAuth { token } ==> v.auth_token != Some(
            token,
        )) by {
            assert(init[i] == frames[i]);
        }
        law_no_entry_without_the_token(v, session, init);
        assert(frames.last() == frames[frames.len() - 1]);
    }
}

/// The right token opens the session for good, whatever it sends afterwards. A wrong token closes
/// the connection and opens nothing, even where the session was open. Where the channel has no
/// token, any is right.
pub proof fn law_only_the_right_token_opens(
    v: ChannelView,
    session: SessionView,
    token: Seq<char>,
    later: Seq<InboundView>,
    now: u64,
    fresh: Seq<char>,
)
    ensures
        ({
            let frame = InboundView::HelloAuth { token };
            let right = v.auth_token is None || v.auth_token == Some(token);
            let next = session_next(v, session, frame);
            &&& channel_next(v, session, frame) == v
            &&& right ==> response(v, session, frame, now, fresh) == ActionView::Continue
            &&& right ==> next.authed && run(v, next, later).1.authed
            &&& !right ==> response(v, session, frame, now, fresh) == ActionView::Close
            &&& !right ==> next == session
        }),
{
    let frame = InboundView::HelloAuth { token };
    let next = session_next(v, session, frame);
    if next.authed {
        lemma_stays_open(v, next, later);
    }
}

/// An open session stays open and stays on its connection.
proof fn lemma_stays_open(v: ChannelView, session: SessionView, frames: Seq<InboundView>)
    ensures
        session.authed ==> run(v, session, frames).1.authed,
        run(v, session, frames).1.conn_id == session.conn_id,
    decreases frames.len(),
{
    if frames.len() > 0 {
        lemma_stays_open(v, session, frames.drop_last());
    }
}

/// No frame changes how the channel is set up, nor the ids of connections to come.
pub proof fn law_frames_keep_the_setup(v: ChannelView, session: SessionView, frame: InboundView)
    ensures
        ({
            let w = channel_next(v, session, frame);
            &&& w.socket_path == v.socket_path
            &&& w.workspace_dir == v.workspace_dir
            &&& w.max_connections == v.max_connections
            &&& w.daemon_version == v.daemon_version
            &&& w.auth_token == v.auth_token
            &&& w.listening == v.listening
            &&& w.router.next_id == v.router.next_id
            &&& w.router.connections.dom() == v.router.connections.dom()
        }),
{
    let w = channel_next(v, session, frame);
    assert(w.router.connections.dom() =~= v.router.connections.dom());
}

/// Whether `step` is heard and sets the hint of the session `key`.
pub open spec fn sets_hint(step: (SessionView, InboundView), key: Seq<char>) -> bool {
    is_heard(step.0, step.1) && (step.1 matches InboundView::ModelSet {
        sender_id,
        reply_target,
        thread_ts,
        ..
    } && session_key_text(sender_id, reply_target, thread_ts) == key)
}

/// Whether `step` is heard and answers the request `request_id`.
pub open spec fn answers(step: (SessionView, InboundView), request_id: Seq<char>) -> bool {
    is_heard(step.0, step.1) && (step.1 matches InboundView::ApprovalResponse {
        request_id: id,
        ..
    } && id == request_id)
}

/// Reading a hint gives back the one last set: after a `ModelSet`, whatever frames any sessions
/// send that do not set the hint of the same session again, a `ModelGet` is answered with it.
pub proof fn law_model_get_reads_the_last_set(
    v: ChannelView,
    setter: SessionView,
    sender_id: Seq<char>,
    reply_target: Seq<char>,
    thread_ts: Option<Seq<char>>,
    model: Seq<char>,
    steps: Seq<(SessionView, InboundView)>,
    reader: SessionView,
    now: u64,
    fresh: Seq<char>,
)
    requires
        setter.authed,
        reader.authed,
        forall|i: int|
            0 <= i < steps.len() ==> !sets_hint(
                #[trigger] steps[i],
                session_key_text(sender_id, reply_target, thread_ts),
            ),
    ensures
        ({
            let set = InboundView::ModelSet { sender_id, reply_target, thread_ts, model };
            let get = InboundView::ModelGet { sender_id, reply_target, thread_ts };
            let later = replay(channel_next(v, setter, set), steps);
            response(later, reader, get, now, fresh) == (ActionView::Reply {
                frame: OutboundView::ModelGetOk {
                    sender_id,
                    reply_target,
                    thread_ts,
                    model: Some(model),
                },
            })
        }),
{
    let set = InboundView::ModelSet { sender_id, reply_target, thread_ts, model };
    let key = session_key_text(sender_id, reply_target, thread_ts);
    lemma_hint_kept(channel_next(v, setter, set), steps, key);
}

/// A hint that was never set reads as `None`: whatever frames any sessions send that do not set
/// it, a `ModelGet` is answered without a model.
pub proof fn law_unset_hint_reads_as_none(
    v: ChannelView,
    sender_id: Seq<char>,
    reply_target: Seq<char>,
    thread_ts: Option<Seq<char>>,
    steps: Seq<(SessionView, InboundView)>,
    reader: SessionView,
    now: u64,
    fresh: Seq<char>,
)
    requires
        model_hint(v, sender_id, reply_target, thread_ts) is None,
        reader.authed,
        forall|i: int|
            0 <= i < steps.len() ==> !sets_hint(
                #[trigger] steps[i],
                session_key_text(sender_id, reply_target, thread_ts),
            ),
    ensures
        ({
            let get = InboundView::ModelGet { sender_id, reply_target, thread_ts };
            response(replay(v, steps), reader, get, now, fresh) == (ActionView::Reply {
                frame: OutboundView::ModelGetOk {
                    sender_id,
                    reply_target,
                    thread_ts,
                    model: None,
                },
            })
        }),
{
    lemma_hint_kept(v, steps, session_key_text(sender_id, reply_target, thread_ts));
}

/// Frames that do not set the hint of `key` leave it as it is.
proof fn lemma_hint_kept(
    v: ChannelView,
    steps: Seq<(SessionView, InboundView)>,
    key: Seq<char>,
)
    requires
        forall|i: int| 0 <= i < steps.len() ==> !sets_hint(#[trigger] steps[i], key),
    ensures
        ({
            let w = replay(v, steps);
            &&& w.session_models.contains_key(key) == v.session_models.contains_key(key)
            &&& w.session_models[key] == v.session_models[key]
        }),
    decreases steps.len(),
{
    if steps.len() > 0 {
        let init = steps.drop_last();
        assert forall|i: int| 0 <= i < init.len() implies !sets_hint(#[trigger] init[i], key) by {
            assert(init[i] == steps[i]);
        }
        lemma_hint_kept(v, init, key);
        assert(!sets_hint(steps[steps.len() - 1], key));
    }
}

/// Sessions do not bleed into each other: setting the hint of one session leaves the hint of
/// every other session as it was.
pub proof fn law_model_hints_are_isolated(
    v: ChannelView,
    setter: SessionView,
    sender1: Seq<char>,
    target1: Seq<char>,
    thread1: Option<Seq<char>>,
    model: Seq<char>,
    sender2: Seq<char>,
    target2: Seq<char>,
    thread2: Option<Seq<char>>,
)
    requires
        sender1 != sender2 || target1 != target2 || thread1 != thread2,
    ensures
        ({
            let set = InboundView::ModelSet {
                sender_id: sender1,
                reply_target: target1,
                thread_ts: thread1,
                model,
            };
            model_hint(channel_next(v, setter, set), sender2, target2, thread2) == model_hint(
                v,
                sender2,
                target2,
                thread2,
            )
        }),
{
    law_session_keys_isolate(sender1, target1, thread1, sender2, target2, thread2);
}

/// An answer wakes the asker that asked under its id, with the user's decision, whatever other
/// frames any sessions sent in between, unheard answers among them; and it does so once: a second
/// answer to the same request is passed over.
pub proof fn law_answer_wakes_the_asker_once(
    v: ChannelView,
    request_id: Seq<char>,
    waiter: Waiter,
    steps: Seq<(SessionView, InboundView)>,
    session: SessionView,
    sender1: Seq<char>,
    decision1: ApprovalDecision,
    again: SessionView,
    sender2: Seq<char>,
    decision2: ApprovalDecision,
    now: u64,
    fresh: Seq<char>,
)
    requires
        session.authed,
        forall|i: int| 0 <= i < steps.len() ==> !answers(#[trigger] steps[i], request_id),
    ensures
        ({
            let first = InboundView::ApprovalResponse {
                sender_id: sender1,
                request_id,
                decision: decision1,
            };
            let second = InboundView::ApprovalResponse {
                sender_id: sender2,
                request_id,
                decision: decision2,
            };
            let w = replay(asked(v, request_id, waiter), steps);
            &&& response(w, session, first, now, fresh) == (ActionView::Resolve {
                waiter,
                decision: decision1,
            })
            &&& !channel_next(w, session, first).pending_approvals.contains_key(request_id)
            &&& response(channel_next(w, session, first), again, second, now, fresh)
                == ActionView::Continue
        }),
{
    lemma_waiter_kept(asked(v, request_id, waiter), steps, request_id);
}

/// Frames other than an answer to `request_id` that is heard leave its waiter in place.
proof fn lemma_waiter_kept(
    v: ChannelView,
    steps: Seq<(SessionView, InboundView)>,
    request_id: Seq<char>,
)
    requires
        v.pending_approvals.contains_key(request_id),
        forall|i: int| 0 <= i < steps.len() ==> !answers(#[trigger] steps[i], request_id),
    ensures
        replay(v, steps).pending_approvals.contains_key(request_id),
        replay(v, steps).pending_approvals[request_id] == v.pending_approvals[request_id],
    decreases steps.len(),
{
    if steps.len() > 0 {
        let init = steps.drop_last();
        assert forall|i: int| 0 <= i < init.len() implies !answers(
            #[trigger] init[i],
            request_id,
        ) by {
            assert(init[i] == steps[i]);
        }
        lemma_waiter_kept(v, init, request_id);
        assert(!answers(steps[steps.len() - 1], request_id));
    }
}

/// An answer to a request that is not open is passed over and changes nothing.
pub proof fn law_answer_to_no_request_is_ignored(
    v: ChannelView,
    session: SessionView,
    sender_id: Seq<char>,
    request_id: Seq<char>,
    decision: ApprovalDecision,
    now: u64,
    fresh: Seq<char>,
)
    requires
        !v.pending_approvals.contains_key(request_id),
    ensures
        ({
            let answer = InboundView::ApprovalResponse { sender_id, request_id, decision };
            &&& response(v, session, answer, now, fresh) == ActionView::Continue
            &&& channel_next(v, session, answer) == v
        }),
{
    assert(v.pending_approvals.remove(request_id) =~= v.pending_approvals);
}

/// An answer that comes after its request timed out is passed over and changes nothing.
pub proof fn law_late_answer_is_ignored(
    v: ChannelView,
    session: SessionView,
    sender_id: Seq<char>,
    request_id: Seq<char>,
    decision: ApprovalDecision,
    now: u64,
    fresh: Seq<char>,
)
    ensures
        ({
            let closed_request = settled(v, request_id, ApprovalOutcome::TimedOut);
            let answer = InboundView::ApprovalResponse { sender_id, request_id, decision };
            &&& response(closed_request, session, answer, now, fresh) == ActionView::Continue
            &&& channel_next(closed_request, session, answer) == closed_request
        }),
{
    law_answer_to_no_request_is_ignored(
        settled(v, request_id, ApprovalOutcome::TimedOut),
        session,
        sender_id,
        request_id,
        decision,
        now,
        fresh,
    );
}

/// A `Cancel` reaches the orchestrator as `/stop` in the very scope of the message it is to stop:
/// the same channel, sender, reply target and thread.
pub proof fn law_cancel_has_the_scope_of_its_message(
    v: ChannelView,
    session: SessionView,
    sender_id: Seq<char>,
    reply_target: Seq<char>,
    thread_ts: Option<Seq<char>>,
    content: Seq<char>,
    message_id: Seq<char>,
    cancel_id: Seq<char>,
    now1: u64,
    now2: u64,
    fresh: Seq<char>,
)
    requires
        session.authed,
    ensures
        ({
            let message = InboundView::Message {
                sender_id,
                reply_target,
                thread_ts,
                content,
                message_id,
            };
            let cancel = InboundView::Cancel {
                sender_id,
                reply_target,
                thread_ts,
                message_id: cancel_id,
            };
            &&& response(v, session, message, now1, fresh) matches ActionView::Forward {
                message: m,
                reply: None,
            }
            &&& response(v, session, cancel, now2, fresh) == (ActionView::Forward {
                message: MessageView {
                    id: cancel_id,
                    content: "/stop"@,
                    timestamp: now2,
                    ..m
                },
                reply: None,
            })
        }),
{
}

/// What a session does to the routing table is to speak for some senders.
proof fn lemma_run_associates(v: ChannelView, session: SessionView, frames: Seq<InboundView>)
    ensures
        exists|senders: Seq<Seq<char>>|
            run(v, session, frames).0.router == #[trigger] associated_all(
                v.router,
                session.conn_id,
                senders,
            ),
    decreases frames.len(),
{
    if frames.len() == 0 {
        assert(associated_all(v.router, session.conn_id, seq![]) == v.router);
    } else {
        let init = frames.drop_last();
        lemma_run_associates(v, session, init);
        lemma_stays_open(v, session, init);
        let (w, s) = run(v, session, init);
        let senders = choose|senders: Seq<Seq<char>>|
            w.router == #[trigger] associated_all(v.router, session.conn_id, senders);
        let last = frames.last();
        let next = channel_next(w, s, last);
        if next.router != w.router {
            let sender = match last {
                InboundView::Message { sender_id, .. } => sender_id,
                InboundView::ModelSet { sender_id, .. } => sender_id,
                _ => seq![],
            };
            let more = senders.push(sender);
            assert(more.drop_last() =~= senders);
            assert(next.router == associated_all(v.router, session.conn_id, more));
        } else {
            assert(next.router == associated_all(v.router, session.conn_id, senders));
        }
    }
}

/// A client that connects, sends any frames and goes leaves the routing table as it was, but for
/// the id that is now taken: no list keeps a dead connection.
pub proof fn law_session_leaves_no_trace_in_the_router(
    v: ChannelView,
    tx: mpsc::Sender<OutboundFrame>,
    frames: Seq<InboundView>,
)
    requires
        v.router.next_id_unknown(),
    ensures
        ({
            let connected = ChannelView { router: v.router.registered(tx), ..v };
            let session = SessionView {
                conn_id: v.router.next_id,
                authed: v.auth_token is None,
            };
            let gone = run(connected, session, frames).0.router.dropped(session.conn_id);
            gone == (RouterView { next_id: connected.router.next_id, ..v.router })
        }),
{
    let connected = ChannelView { router: v.router.registered(tx), ..v };
    let session = SessionView { conn_id: v.router.next_id, authed: v.auth_token is None };
    lemma_run_associates(connected, session, frames);
    let senders = choose|senders: Seq<Seq<char>>|
        run(connected, session, frames).0.router == #[trigger] associated_all(
            connected.router,
            session.conn_id,
            senders,
        );
    law_connection_leaves_no_trace(v.router, tx, senders);
}

/// The routing table is in order: its two indexes agree, and the next id is free.
pub open spec fn in_order(v: ChannelView) -> bool {
    v.router.consistent() && v.router.ids_given_out()
}

/// From the start on, whatever clients come, send and go, the routing table is in order. Only once
/// every id has been given out do the ids start over.
pub proof fn law_routing_stays_in_order(
    v: ChannelView,
    tx: mpsc::Sender<OutboundFrame>,
    session: SessionView,
    frame: InboundView,
    gone: ConnId,
)
    requires
        in_order(v),
    ensures
        in_order(ChannelView { router: RouterView::empty(), ..v }),
        v.router.next_id_unknown(),
        v.router.next_id < u64::MAX ==> in_order(
            ChannelView { router: v.router.registered(tx), ..v },
        ),
        v.router.connections.contains_key(session.conn_id) ==> in_order(
            channel_next(v, session, frame),
        ),
        in_order(ChannelView { router: v.router.dropped(gone), ..v }),
{
    assert forall|s: Seq<char>| !(#[trigger] v.router.listed(s)).contains(v.router.next_id) by {
        assert(v.router.speaks_for(v.router.next_id, s) <==> v.router.listed(s).contains(
            v.router.next_id,
        ));
    }
    law_register_keeps_consistent(v.router, tx);
    law_drop_keeps_consistent(v.router, gone);
    if v.router.connections.contains_key(session.conn_id) {
        match frame {
            InboundView::Message { sender_id, .. } => {
                law_associate_keeps_consistent(v.router, session.conn_id, sender_id);
            },
            InboundView::ModelSet { sender_id, .. } => {
                law_associate_keeps_consistent(v.router, session.conn_id, sender_id);
            },
            _ => {},
        }
    }
}

/// A chat message reaches the orchestrator as it was sent: under its own id, from its sender, in
/// its conversation and thread, with its text. From then on its connection speaks for the sender,
/// and the client gets no answer yet.
pub proof fn law_message_is_handed_on_as_sent(
    v: ChannelView,
    session: SessionView,
    sender_id: Seq<char>,
    reply_target: Seq<char>,
    thread_ts: Option<Seq<char>>,
    content: Seq<char>,
    message_id: Seq<char>,
    now: u64,
    fresh: Seq<char>,
)
    requires
        session.authed,
    ensures
        ({
            let frame = InboundView::Message {
                sender_id,
                reply_target,
                thread_ts,
                content,
                message_id,
            };
            let w = channel_next(v, session, frame);
            &&& response(v, session, frame, now, fresh) == (ActionView::Forward {
                message: MessageView {
                    id: message_id,
                    sender: sender_id,
                    reply_target,
                    content,
                    channel: "brick"@,
                    timestamp: now,
                    thread_ts,
                    interruption_scope_id: None,
                    attachments: Seq::<Seq<char>>::empty(),
                },
                reply: None,
            })
            &&& v.router.connections.contains_key(session.conn_id) ==> {
                &&& w.router.connections.contains_key(session.conn_id)
                &&& w.router.connections[session.conn_id].senders.contains(sender_id)
                &&& w.router.by_sender.contains_key(sender_id)
                &&& w.router.by_sender[sender_id].contains(session.conn_id)
            }
            &&& w.session_models == v.session_models
            &&& w.pending_approvals == v.pending_approvals
        }),
{
    lemma_associated_shows(v.router, session.conn_id, sender_id);
}

/// Speaking for a sender shows in both indexes.
proof fn lemma_associated_shows(v: RouterView, conn: ConnId, sender: Seq<char>)
    ensures
        v.associated(conn, sender).by_sender.contains_key(sender),
        v.associated(conn, sender).by_sender[sender].contains(conn),
        v.connections.contains_key(conn) ==> v.associated(conn, sender).connections.contains_key(
            conn,
        ) && v.associated(conn, sender).connections[conn].senders.contains(sender),
{
    let w = v.associated(conn, sender);
    assert(w.by_sender[sender].last() == conn);
    if v.connections.contains_key(conn) && !v.speaks_for(conn, sender) {
        assert(w.connections[conn].senders.last() == sender);
    }
}

/// A cancel reaches the orchestrator as `/stop` under its own id, from its sender, in its
/// conversation and thread, and changes nothing in the channel.
pub proof fn law_cancel_is_handed_on_as_stop(
    v: ChannelView,
    session: SessionView,
    sender_id: Seq<char>,
    reply_target: Seq<char>,
    thread_ts: Option<Seq<char>>,
    message_id: Seq<char>,
    now: u64,
    fresh: Seq<char>,
)
    requires
        session.authed,
    ensures
        ({
            let frame = InboundView::Cancel { sender_id, reply_target, thread_ts, message_id };
            &&& response(v, session, frame, now, fresh) == (ActionView::Forward {
                message: MessageView {
                    id: message_id,
                    sender: sender_id,
                    reply_target,
                    content: "/stop"@,
                    channel: "brick"@,
                    timestamp: now,
                    thread_ts,
                    interruption_scope_id: None,
                    attachments: Seq::<Seq<char>>::empty(),
                },
                reply: None,
            })
            &&& channel_next(v, session, frame) == v
        }),
{
}

/// Setting a model sends `/model` with its name to the orchestrator, from the sender, in the
/// conversation and thread, and acknowledges that sender, that conversation and that model to the
/// client. The hint is kept at once, the connection speaks for the sender from then on.
pub proof fn law_model_set_is_handed_on_and_acknowledged(
    v: ChannelView,
    session: SessionView,
    sender_id: Seq<char>,
    reply_target: Seq<char>,
    thread_ts: Option<Seq<char>>,
    model: Seq<char>,
    now: u64,
    fresh: Seq<char>,
)
    requires
        session.authed,
    ensures
        ({
            let frame = InboundView::ModelSet { sender_id, reply_target, thread_ts, model };
            let get = InboundView::ModelGet { sender_id, reply_target, thread_ts };
            let w = channel_next(v, session, frame);
            &&& response(v, session, frame, now, fresh) == (ActionView::Forward {
                message: MessageView {
                    id: "brick-model-"@ + fresh,
                    sender: sender_id,
                    reply_target,
                    content: "/model "@ + model,
                    channel: "brick"@,
                    timestamp: now,
                    thread_ts,
                    interruption_scope_id: None,
                    attachments: Seq::<Seq<char>>::empty(),
                },
                reply: Some(OutboundView::ModelSetOk { sender_id, reply_target, model }),
            })
            &&& response(w, session, get, now, fresh) == (ActionView::Reply {
                frame: OutboundView::ModelGetOk {
                    sender_id,
                    reply_target,
                    thread_ts,
                    model: Some(model),
                },
            })
            &&& v.router.connections.contains_key(session.conn_id) ==> {
                &&& w.router.connections.contains_key(session.conn_id)
                &&& w.router.connections[session.conn_id].senders.contains(sender_id)
                &&& w.router.by_sender.contains_key(sender_id)
                &&& w.router.by_sender[sender_id].contains(session.conn_id)
            }
            &&& w.pending_approvals == v.pending_approvals
        }),
{
    lemma_associated_shows(v.router, session.conn_id, sender_id);
}

/// Asking for a model names the sender, the conversation and the thread that were asked for in
/// the answer, and changes nothing in the channel.
pub proof fn law_model_get_echoes_the_request(
    v: ChannelView,
    session: SessionView,
    sender_id: Seq<char>,
    reply_target: Seq<char>,
    thread_ts: Option<Seq<char>>,
    now: u64,
    fresh: Seq<char>,
)
    requires
        session.authed,
    ensures
        ({
            let frame = InboundView::ModelGet { sender_id, reply_target, thread_ts };
            &&& response(v, session, frame, now, fresh) matches ActionView::Reply {
                frame: OutboundView::ModelGetOk {
                    sender_id: sender,
                    reply_target: target,
                    thread_ts: thread,
                    model,
                },
            }
            &&& sender == sender_id
            &&& target == reply_target
            &&& thread == thread_ts
            &&& channel_next(v, session, frame) == v
        }),
{
}

/// A history request loads the conversation that it names: under the target, the thread if there
/// is one, and the sender, each its own. The answer goes to that sender and target, within the
/// limit asked for, and nothing changes in the channel.
pub proof fn law_history_request_loads_its_own_conversation(
    v: ChannelView,
    session: SessionView,
    sender_id: Seq<char>,
    reply_target: Seq<char>,
    thread_ts: Option<Seq<char>>,
    limit: Option<usize>,
    now: u64,
    fresh: Seq<char>,
)
    requires
        session.authed,
    ensures
        ({
            let frame = InboundView::HistoryRequest { sender_id, reply_target, thread_ts, limit };
            &&& response(v, session, frame, now, fresh) matches ActionView::LoadHistory { query }
            &&& query.sender_id == sender_id
            &&& query.reply_target == reply_target
            &&& query.limit == limit
            &&& thread_ts matches Some(t) ==> query.key == "brick_"@ + reply_target + "_"@ + t
                + "_"@ + sender_id
            &&& thread_ts is None ==> query.key == "brick_"@ + reply_target + "_"@ + sender_id
            &&& channel_next(v, session, frame) == v
        }),
{
}

/// A hello is answered with the daemon's version and a ping with a pong, whether the session is
/// heard on more or not, and neither changes anything.
pub proof fn law_hello_and_ping_are_always_answered(
    v: ChannelView,
    session: SessionView,
    client: Seq<char>,
    version: Option<Seq<char>>,
    now: u64,
    fresh: Seq<char>,
)
    ensures
        ({
            let hello = InboundView::Hello { client, version };
            let ping = InboundView::Ping;
            &&& response(v, session, hello, now, fresh) == (ActionView::Reply {
                frame: OutboundView::HelloOk { daemon_version: v.daemon_version },
            })
            &&& response(v, session, ping, now, fresh) == (ActionView::Reply {
                frame: OutboundView::Pong,
            })
            &&& channel_next(v, session, hello) == v
            &&& channel_next(v, session, ping) == v
        }),
{
}

/// An answer to one request leaves the askers of all others waiting, and the rest of the channel
/// as it is.
pub proof fn law_answer_concerns_its_own_request(
    v: ChannelView,
    session: SessionView,
    sender_id: Seq<char>,
    request_id: Seq<char>,
    decision: ApprovalDecision,
    other: Seq<char>,
)
    requires
        other != request_id,
    ensures
        ({
            let answer = InboundView::ApprovalResponse { sender_id, request_id, decision };
            let w = channel_next(v, session, answer);
            &&& w.pending_approvals.contains_key(other) == v.pending_approvals.contains_key(other)
            &&& v.pending_approvals.contains_key(other) ==> w.pending_approvals[other]
                == v.pending_approvals[other]
            &&& w.router == v.router
            &&& w.session_models == v.session_models
        }),
{
}

/// No frame moves a session to another connection, and none but a token changes whether it is
/// heard.
pub proof fn law_only_a_token_changes_the_session(
    v: ChannelView,
    session: SessionView,
    frame: InboundView,
)
    ensures
        session_next(v, session, frame).conn_id == session.conn_id,
        !(frame is HelloAuth) ==> session_next(v, session, frame) == session,
{
}

} // verus!
