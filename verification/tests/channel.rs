//! The channel with clients that are connected to it.
use brick_channel::channel::{BrickChannel, Delivery, DAEMON_VERSION};
use brick_channel::connection::{
    after_encode, after_write, connection_is_over, ConnectionEvent, Door, DoorEvent, WriteOutcome,
    WriterAction, WriterEnd,
};
use brick_channel::frames::{ApprovalDecision, InboundFrame, OutboundFrame};
use brick_channel::history::{HistoryQuery, StoredTurn};
use brick_channel::inbound::{after_forward, take_in, FrameAction, Intake, SocketItem};
use brick_channel::listen::{
    after_step, cleanup_socket, set_socket_perms, Place, SetupStep, StepOutcome, StepVerdict,
};
use brick_channel::messages::{
    ChannelApprovalRequest, ChannelApprovalResponse, ChannelMessage, SendMessage,
};
use brick_channel::outbound::{ApprovalOutcome, APPROVAL_TIMEOUT_SECS};
use brick_channel::session::ReadSession;
use brick_channel::wire::EncodeError;
use serde_json::Value;
use std::path::PathBuf;
use tokio::sync::{mpsc, oneshot};

/// A client: its session and the frames that reach it.
struct Client {
    session: ReadSession,
    rx: mpsc::Receiver<OutboundFrame>,
}

fn connect(bc: &mut BrickChannel) -> Client {
    let (tx, rx) = mpsc::channel(64);
    Client { session: bc.connect(tx), rx }
}

/// Performs `action` as far as the client sees it, and returns the message for the orchestrator.
fn perform(bc: &BrickChannel, session: &ReadSession, action: FrameAction) -> Option<ChannelMessage> {
    match action {
        FrameAction::Reply { frame } => {
            bc.outlet(session).unwrap().try_send(frame).unwrap();
            None
        }
        FrameAction::Forward { message, reply } => {
            assert!(perform(bc, session, after_forward(true, reply)).is_none());
            Some(message)
        }
        FrameAction::Continue => None,
        FrameAction::Close => panic!("closed"),
        FrameAction::Resolve { .. } => panic!("resolved"),
        FrameAction::LoadHistory { .. } => panic!("history"),
    }
}

fn say(bc: &mut BrickChannel, client: &mut Client, frame: InboundFrame) -> Option<ChannelMessage> {
    let action = bc.handle_frame(&mut client.session, Some(frame));
    perform(bc, &client.session, action)
}

fn post(deliveries: Vec<Delivery>) {
    for d in deliveries {
        d.tx.try_send(d.frame).unwrap();
    }
}

fn heard(client: &mut Client) -> Value {
    let frame = client.rx.try_recv().expect("a frame");
    serde_json::from_str(&frame.to_json().unwrap()).unwrap()
}

fn nothing_heard(client: &mut Client) -> bool {
    client.rx.try_recv().is_err()
}

fn plain() -> BrickChannel {
    BrickChannel::new("/tmp/zeroclaw.sock", 2, "/tmp")
}

fn model_get(sender: &str, target: &str, thread: Option<&str>) -> InboundFrame {
    InboundFrame::ModelGet {
        sender_id: sender.into(),
        reply_target: target.into(),
        thread_ts: thread.map(str::to_string),
    }
}

fn model_set(sender: &str, target: &str, thread: Option<&str>, model: &str) -> InboundFrame {
    InboundFrame::ModelSet {
        sender_id: sender.into(),
        reply_target: target.into(),
        thread_ts: thread.map(str::to_string),
        model: model.into(),
    }
}

fn message(sender: &str, target: &str, content: &str, id: &str) -> InboundFrame {
    InboundFrame::Message {
        sender_id: sender.into(),
        reply_target: target.into(),
        thread_ts: None,
        content: content.into(),
        message_id: id.into(),
    }
}

fn cancel(sender: &str, target: &str, id: &str) -> InboundFrame {
    InboundFrame::Cancel {
        sender_id: sender.into(),
        reply_target: target.into(),
        thread_ts: None,
        message_id: id.into(),
    }
}

fn history(sender: &str, target: &str, limit: Option<usize>) -> InboundFrame {
    InboundFrame::HistoryRequest {
        sender_id: sender.into(),
        reply_target: target.into(),
        thread_ts: None,
        limit,
    }
}

fn query(bc: &mut BrickChannel, client: &mut Client, frame: InboundFrame) -> HistoryQuery {
    match bc.handle_frame(&mut client.session, Some(frame)) {
        FrameAction::LoadHistory { query } => query,
        _ => panic!("expected a history query"),
    }
}

fn turn(role: &str, content: &str) -> StoredTurn {
    StoredTurn { role: role.into(), content: content.into() }
}

fn shell(summary: &str) -> ChannelApprovalRequest {
    ChannelApprovalRequest { tool_name: "shell".to_string(), arguments_summary: summary.to_string() }
}

fn answer(request_id: &str, decision: ApprovalDecision) -> InboundFrame {
    InboundFrame::ApprovalResponse {
        sender_id: "user1:dev1".into(),
        request_id: request_id.into(),
        decision,
    }
}

#[test]
fn brick_channel_name() {
    let bc = BrickChannel::new("/tmp/brick-test.sock", 4, "/tmp");
    assert_eq!(bc.name(), "brick");
}

#[test]
fn health_check_false_before_listen() {
    let bc = BrickChannel::new("/tmp/brick-not-bound.sock", 4, "/tmp");
    assert!(!bc.health_check());
}

#[test]
fn listen_binds_socket_with_correct_perms() {
    let sock = PathBuf::from("/run/brick/zeroclaw.sock");
    let mut bc = BrickChannel::new(&sock, 2, "/work");
    let mut bound = false;
    let mut mode = 0;
    for step in bc.listen() {
        match step {
            SetupStep::Bind { place: Place::At(path) } => {
                assert_eq!(path, &sock);
                bound = true;
            }
            SetupStep::SetPermissions { place: Place::At(path), mode: bits } => {
                assert!(bound);
                assert_eq!(path, &sock);
                mode = bits;
            }
            SetupStep::MarkListening => assert_eq!(mode, 0o660, "socket perms must be 0660"),
            SetupStep::RemoveStale { .. } | SetupStep::CreateParent { .. } => assert!(!bound),
            SetupStep::Write { .. } => panic!("no token to write"),
            SetupStep::SetPermissions { .. } | SetupStep::Bind { .. } => panic!("wrong place"),
        }
    }
    assert!(bound, "BrickChannel did not bind socket");
    assert!(!bc.health_check());
    bc.mark_listening();
    assert!(bc.health_check());
}

#[test]
fn ping_pong_round_trip() {
    let mut bc = plain();
    let mut client = connect(&mut bc);
    say(&mut bc, &mut client, InboundFrame::Ping);
    let pong = client.rx.try_recv().unwrap().to_json().unwrap();
    assert!(pong.contains("pong"), "expected pong, got {pong}");
}

#[test]
fn malformed_json_closes_connection() {
    let mut bc = plain();
    let mut client = connect(&mut bc);
    // "not-json" is no frame.
    match bc.handle_frame(&mut client.session, None) {
        FrameAction::Close => {}
        _ => panic!("expected close after malformed frame"),
    }
    assert!(nothing_heard(&mut client));
}

#[test]
fn approval_decision_maps_to_channel_response() {
    assert_eq!(
        ChannelApprovalResponse::from(ApprovalDecision::Approve),
        ChannelApprovalResponse::Approve
    );
    assert_eq!(
        ChannelApprovalResponse::from(ApprovalDecision::Deny),
        ChannelApprovalResponse::Deny
    );
    assert_eq!(
        ChannelApprovalResponse::from(ApprovalDecision::Always),
        ChannelApprovalResponse::AlwaysApprove
    );
}

#[test]
fn cancel_frame_injects_synthetic_stop_message() {
    let mut bc = plain();
    let mut client = connect(&mut bc);
    let cm = say(&mut bc, &mut client, cancel("user1:dev1", "conv-42", "msg-cancel-1"))
        .expect("a message");
    assert_eq!(cm.channel, "brick");
    assert_eq!(cm.content, "/stop");
    assert_eq!(cm.sender, "user1:dev1");
    assert_eq!(cm.reply_target, "conv-42");
    assert!(cm.thread_ts.is_none());
    assert_eq!(cm.id, "msg-cancel-1");
    assert!(cm.interruption_scope_id.is_none());
    assert!(cm.attachments.is_empty());
    assert!(nothing_heard(&mut client));
}

#[test]
fn history_request_returns_persisted_jsonl_messages() {
    let mut bc = plain();
    let mut client = connect(&mut bc);
    let query = query(&mut bc, &mut client, history("user1:dev1", "conv-42", None));
    assert_eq!(query.key, "brick_conv-42_user1:dev1");
    let frame = query.answer(Some(vec![turn("user", "hello"), turn("assistant", "hi back")]));
    perform(&bc, &client.session, FrameAction::Reply { frame });
    let parsed = heard(&mut client);
    assert_eq!(parsed["type"], "history_response");
    assert_eq!(parsed["sender_id"], "user1:dev1");
    assert_eq!(parsed["reply_target"], "conv-42");
    let messages = parsed["messages"].as_array().expect("messages array");
    assert_eq!(messages.len(), 2, "expected two persisted turns");
    assert_eq!(messages[0]["role"], "user");
    assert_eq!(messages[0]["content"], "hello");
    assert_eq!(messages[1]["role"], "assistant");
    assert_eq!(messages[1]["content"], "hi back");
    assert_eq!(messages[1]["ts"], 0);
}

#[test]
fn history_request_respects_limit() {
    let mut bc = plain();
    let mut client = connect(&mut bc);
    let query = query(&mut bc, &mut client, history("alice:dev1", "room1", Some(2)));
    assert_eq!(query.key, "brick_room1_alice:dev1");
    let turns = (0..5).map(|i| turn("user", &format!("m{i}"))).collect();
    let frame = query.answer(Some(turns));
    perform(&bc, &client.session, FrameAction::Reply { frame });
    let parsed = heard(&mut client);
    let messages = parsed["messages"].as_array().expect("messages array");
    assert_eq!(messages.len(), 2, "limit=2 should drop oldest 3 of 5");
    // Limit keeps the most recent — m3 and m4.
    assert_eq!(messages[0]["content"], "m3");
    assert_eq!(messages[1]["content"], "m4");
}

#[test]
fn history_limits_at_the_edges() {
    let ask = |limit: Option<usize>, turns: Option<Vec<StoredTurn>>| {
        let query = HistoryQuery {
            key: "k".into(),
            sender_id: "s".into(),
            reply_target: "r".into(),
            limit,
        };
        match query.answer(turns) {
            OutboundFrame::HistoryResponse { messages, .. } => messages.len(),
            _ => panic!("expected a history response"),
        }
    };
    let three = || Some(vec![turn("a", "1"), turn("b", "2"), turn("c", "3")]);
    assert_eq!(ask(None, three()), 3);
    assert_eq!(ask(Some(0), three()), 0);
    assert_eq!(ask(Some(1), three()), 1);
    assert_eq!(ask(Some(3), three()), 3);
    assert_eq!(ask(Some(usize::MAX), three()), 3);
    assert_eq!(ask(Some(2), Some(vec![])), 0);
    assert_eq!(ask(None, None), 0);
}

#[test]
fn approval_round_trip_resolves_with_user_decision() {
    let mut bc = plain();
    let mut client = connect(&mut bc);
    say(&mut bc, &mut client, message("user1:dev1", "conv-approval", "kick", "m-1"));

    let (tx, mut rx) = oneshot::channel();
    let ticket = bc.request_approval("user1:dev1", &shell("ls /tmp"), tx);
    post(ticket.deliveries);
    let request = heard(&mut client);
    assert_eq!(request["type"], "approval_request");
    assert_eq!(request["sender_id"], "user1:dev1");
    assert_eq!(request["tool_name"], "shell");
    assert_eq!(request["arguments_summary"], "ls /tmp");
    let request_id = request["request_id"].as_str().unwrap().to_string();
    assert_eq!(request_id, ticket.request_id);

    let frame = answer(&request_id, ApprovalDecision::Approve);
    match bc.handle_frame(&mut client.session, Some(frame)) {
        FrameAction::Resolve { waiter, decision } => waiter.send(decision).unwrap(),
        _ => panic!("approval still blocked"),
    }
    let decision = rx.try_recv().expect("approval still blocked");
    let response = bc
        .settle_approval(&ticket.request_id, ApprovalOutcome::Answered(decision))
        .expect("approval returned None");
    assert_eq!(response, ChannelApprovalResponse::Approve);
}

#[test]
fn approval_defaults_to_deny_on_timeout() {
    let mut bc = plain();
    let mut client = connect(&mut bc);
    assert_eq!(APPROVAL_TIMEOUT_SECS, 30);

    let (tx, _rx) = oneshot::channel();
    let ticket = bc.request_approval("user-noconnect:dev", &shell("rm -rf"), tx);
    let dropped = bc.settle_approval(&ticket.request_id, ApprovalOutcome::WaiterDropped).unwrap();
    assert_eq!(dropped, ChannelApprovalResponse::Deny);
    let late = bc.settle_approval(&ticket.request_id, ApprovalOutcome::TimedOut).unwrap();
    assert_eq!(late, ChannelApprovalResponse::Deny);

    // The request is closed: an answer that comes now finds no waiter.
    let frame = answer(&ticket.request_id, ApprovalDecision::Approve);
    match bc.handle_frame(&mut client.session, Some(frame)) {
        FrameAction::Continue => {}
        _ => panic!("a late answer must be passed over"),
    }
}

#[test]
fn answers_wake_their_own_asker_once() {
    let mut bc = plain();
    let mut client = connect(&mut bc);
    let (tx1, mut rx1) = oneshot::channel();
    let (tx2, mut rx2) = oneshot::channel();
    let first = bc.request_approval("u", &shell("a"), tx1);
    let second = bc.request_approval("u", &shell("b"), tx2);
    assert_ne!(first.request_id, second.request_id);

    let frame = answer(&second.request_id, ApprovalDecision::Always);
    match bc.handle_frame(&mut client.session, Some(frame)) {
        FrameAction::Resolve { waiter, decision } => waiter.send(decision).unwrap(),
        _ => panic!("expected an asker"),
    }
    assert_eq!(rx2.try_recv().unwrap(), ApprovalDecision::Always);
    assert!(rx1.try_recv().is_err());

    let again = answer(&second.request_id, ApprovalDecision::Deny);
    assert!(matches!(
        bc.handle_frame(&mut client.session, Some(again)),
        FrameAction::Continue
    ));
    let unknown = answer("no-such-request", ApprovalDecision::Deny);
    assert!(matches!(
        bc.handle_frame(&mut client.session, Some(unknown)),
        FrameAction::Continue
    ));
    let other = answer(&first.request_id, ApprovalDecision::Deny);
    assert!(matches!(
        bc.handle_frame(&mut client.session, Some(other)),
        FrameAction::Resolve { decision: ApprovalDecision::Deny, .. }
    ));
}

#[test]
fn asking_again_under_an_id_replaces_the_waiter() {
    let mut bc = plain();
    let mut client = connect(&mut bc);
    let (tx1, mut rx1) = oneshot::channel();
    let (tx2, mut rx2) = oneshot::channel();
    bc.request_approval_as("r1".to_string(), "u", &shell("a"), tx1);
    let ticket = bc.request_approval_as("r1".to_string(), "u", &shell("b"), tx2);
    assert_eq!(ticket.request_id, "r1");
    post(ticket.deliveries);
    assert_eq!(heard(&mut client)["arguments_summary"], "b");
    match bc.handle_frame(&mut client.session, Some(answer("r1", ApprovalDecision::Approve))) {
        FrameAction::Resolve { waiter, decision } => waiter.send(decision).unwrap(),
        _ => panic!("expected an asker"),
    }
    assert_eq!(rx2.try_recv().unwrap(), ApprovalDecision::Approve);
    assert!(rx1.try_recv().is_err());
}

#[test]
fn request_ids_are_random_uuids() {
    let mut bc = plain();
    let (tx, _rx) = oneshot::channel();
    let id = bc.request_approval("u", &shell("a"), tx).request_id;
    assert_eq!(id.len(), 36);
    assert_eq!(uuid::Uuid::parse_str(&id).unwrap().get_version_num(), 4);
    assert_eq!(uuid::Uuid::parse_str(&id).unwrap().to_string(), id);
}

#[test]
fn tool_call_frames_round_trip_through_brick_channel() {
    let mut bc = plain();
    let mut client = connect(&mut bc);
    say(&mut bc, &mut client, message("user1:dev1", "conv-tool", "go", "m-tool-assoc"));

    post(bc.tool_call_start(
        "user1:dev1",
        "draft-tool",
        Some("toolu_abc"),
        "shell",
        r#"{"cmd":"ls /tmp"}"#,
    ));
    post(bc.tool_call_result("user1:dev1", "draft-tool", Some("toolu_abc"), "shell", true, "ok"));

    let t = client.rx.try_recv().unwrap().to_json().unwrap();
    assert!(t.contains("\"type\":\"tool_call_start\""));
    assert!(t.contains("\"tool_name\":\"shell\""));
    assert!(t.contains("\"draft_id\":\"draft-tool\""));
    let start: Value = serde_json::from_str(&t).unwrap();
    assert_eq!(start["arguments_json"], r#"{"cmd":"ls /tmp"}"#);
    assert_eq!(start["tool_id"], "toolu_abc");
    let t = client.rx.try_recv().unwrap().to_json().unwrap();
    assert!(t.contains("\"type\":\"tool_call_result\""));
    assert!(t.contains("\"success\":true"));
}

#[test]
fn hello_auth_required_when_token_set() {
    let dir = PathBuf::from("/work");
    let mut bc = BrickChannel::new("/work/zeroclaw.sock", 2, &dir).with_auth_token("test-token");

    // The token file is to be written, for the owner alone.
    let mut written = false;
    let mut mode = 0;
    for step in bc.listen() {
        match step {
            SetupStep::Write { place: Place::InDir { dir: d, name }, contents } => {
                assert_eq!(d.join(name), dir.join("brick-channel.token"));
                assert_eq!(contents, "test-token");
                written = true;
            }
            SetupStep::SetPermissions { place: Place::InDir { dir: d, name }, mode: bits } => {
                assert_eq!(d.join(name), dir.join("brick-channel.token"));
                assert!(written);
                mode = bits;
            }
            SetupStep::MarkListening => assert_eq!(mode, 0o600, "token file perms must be 0600"),
            _ => {}
        }
    }
    assert!(written);

    // Send Cancel without HelloAuth — should be dropped silently.
    let mut client = connect(&mut bc);
    let cm = say(&mut bc, &mut client, cancel("u:d", "c", "m-cancel"));
    assert!(cm.is_none(), "pre-auth Cancel must not produce a ChannelMessage");
    assert!(nothing_heard(&mut client));
    assert!(!client.session.is_authed());
}

#[test]
fn hello_auth_unblocks_after_correct_token() {
    let mut bc = plain().with_auth_token("good-token");
    let mut client = connect(&mut bc);
    let auth = InboundFrame::HelloAuth { token: "good-token".into() };
    assert!(say(&mut bc, &mut client, auth).is_none());
    let cm = say(&mut bc, &mut client, cancel("u:d", "c", "m-after-auth"))
        .expect("post-auth Cancel");
    assert_eq!(cm.content, "/stop");
    assert_eq!(cm.id, "m-after-auth");
}

#[test]
fn a_wrong_token_closes_the_connection() {
    let mut bc = plain().with_auth_token("good-token");
    for wrong in ["", "good-toke", "good-token ", "Good-token"] {
        let mut client = connect(&mut bc);
        let auth = InboundFrame::HelloAuth { token: wrong.into() };
        assert!(matches!(
            bc.handle_frame(&mut client.session, Some(auth)),
            FrameAction::Close
        ));
        assert!(!client.session.is_authed());
    }
    // A session that is open stays open, but a wrong token still ends the connection.
    let mut client = connect(&mut bc);
    say(&mut bc, &mut client, InboundFrame::HelloAuth { token: "good-token".into() });
    let auth = InboundFrame::HelloAuth { token: "bad".into() };
    assert!(matches!(bc.handle_frame(&mut client.session, Some(auth)), FrameAction::Close));
    assert!(client.session.is_authed());
}

#[test]
fn without_a_token_everyone_is_heard() {
    let mut bc = plain();
    let mut client = connect(&mut bc);
    assert!(client.session.is_authed());
    say(&mut bc, &mut client, InboundFrame::HelloAuth { token: "anything".into() });
    assert!(say(&mut bc, &mut client, cancel("u", "c", "m")).is_some());
}

#[test]
fn handshake_frames_are_answered_before_the_token() {
    let mut bc = plain().with_auth_token("t");
    let mut client = connect(&mut bc);
    say(&mut bc, &mut client, InboundFrame::Hello { client: "os".into(), version: None });
    let hello = heard(&mut client);
    assert_eq!(hello["type"], "hello_ok");
    assert_eq!(hello["daemon_version"], DAEMON_VERSION);
    say(&mut bc, &mut client, InboundFrame::Ping);
    assert_eq!(heard(&mut client)["type"], "pong");
    assert!(!client.session.is_authed());
}

#[test]
fn nothing_unheard_leaves_a_trace() {
    let mut bc = plain().with_auth_token("t");
    let mut stranger = connect(&mut bc);
    let (tx, mut rx) = oneshot::channel();
    let ticket = bc.request_approval("u", &shell("a"), tx);
    for frame in [
        model_set("u", "c", None, "hint:x"),
        model_get("u", "c", None),
        message("u", "c", "hi", "m"),
        history("u", "c", None),
        answer(&ticket.request_id, ApprovalDecision::Approve),
    ] {
        assert!(matches!(
            bc.handle_frame(&mut stranger.session, Some(frame)),
            FrameAction::Continue
        ));
    }
    assert!(rx.try_recv().is_err());
    assert!(nothing_heard(&mut stranger));

    // The hint was not set, and the request is still open.
    let mut friend = connect(&mut bc);
    say(&mut bc, &mut friend, InboundFrame::HelloAuth { token: "t".into() });
    say(&mut bc, &mut friend, model_get("u", "c", None));
    assert!(heard(&mut friend)["model"].is_null());
    assert!(matches!(
        bc.handle_frame(
            &mut friend.session,
            Some(answer(&ticket.request_id, ApprovalDecision::Deny))
        ),
        FrameAction::Resolve { .. }
    ));
}

#[test]
fn model_get_returns_none_until_model_set_then_returns_hint() {
    let mut bc = plain();
    let mut client = connect(&mut bc);

    // 1. ModelGet on a fresh session returns model: null.
    say(&mut bc, &mut client, model_get("user1:dev1", "conv-1", None));
    let parsed = heard(&mut client);
    assert_eq!(parsed["type"], "model_get_ok");
    assert_eq!(parsed["sender_id"], "user1:dev1");
    assert_eq!(parsed["reply_target"], "conv-1");
    assert!(parsed["model"].is_null(), "fresh session must return null, got {parsed}");

    // 2. ModelSet writes the cache and emits ModelSetOk.
    let cm = say(&mut bc, &mut client, model_set("user1:dev1", "conv-1", None, "hint:sonnet"))
        .expect("synthetic /model");
    assert_eq!(cm.content, "/model hint:sonnet");
    assert_eq!(cm.sender, "user1:dev1");
    assert_eq!(cm.reply_target, "conv-1");
    let id = cm.id.strip_prefix("brick-model-").expect("id of a model command");
    assert_eq!(uuid::Uuid::parse_str(id).unwrap().get_version_num(), 4);
    let set_ok = heard(&mut client);
    assert_eq!(set_ok["type"], "model_set_ok");
    assert_eq!(set_ok["model"], "hint:sonnet");

    // 3. ModelGet on the same session returns the just-set hint.
    say(&mut bc, &mut client, model_get("user1:dev1", "conv-1", None));
    assert_eq!(heard(&mut client)["model"], "hint:sonnet");

    // 4. ModelGet for a different (sender, target) returns null —
    //    sessions don't bleed across the cache key.
    say(&mut bc, &mut client, model_get("user1:dev1", "conv-OTHER", None));
    let parsed3 = heard(&mut client);
    assert!(parsed3["model"].is_null(), "isolated session must stay null, got {parsed3}");
}

#[test]
fn model_hints_do_not_bleed_through_bars() {
    let mut bc = plain();
    let mut client = connect(&mut bc);
    say(&mut bc, &mut client, model_set("a|b", "c", None, "m"));
    heard(&mut client);
    say(&mut bc, &mut client, model_get("a", "b|c", None));
    assert!(heard(&mut client)["model"].is_null());
    say(&mut bc, &mut client, model_get("a|b", "c", None));
    assert_eq!(heard(&mut client)["model"], "m");
}

#[test]
fn model_hints_are_kept_by_thread_and_read_by_any_client() {
    let mut bc = plain();
    let mut client = connect(&mut bc);
    let mut other = connect(&mut bc);
    say(&mut bc, &mut client, model_set("u", "c", None, "a"));
    say(&mut bc, &mut client, model_set("u", "c", Some(""), "b"));
    say(&mut bc, &mut client, model_set("u", "c", Some("t"), "c"));
    say(&mut bc, &mut client, model_set("u", "c", Some("t"), "d"));
    say(&mut bc, &mut other, InboundFrame::Ping);
    assert_eq!(heard(&mut other)["type"], "pong");
    for (thread, model) in [(None, "a"), (Some(""), "b"), (Some("t"), "d")] {
        say(&mut bc, &mut other, model_get("u", "c", thread));
        let got = heard(&mut other);
        assert_eq!(got["model"], model);
        assert_eq!(got["thread_ts"], thread.map_or(Value::Null, |t| Value::String(t.into())));
    }
    // The hints outlive the client that set them.
    bc.disconnect(&client.session);
    say(&mut bc, &mut other, model_get("u", "c", None));
    assert_eq!(heard(&mut other)["model"], "a");
}

#[test]
fn a_frame_is_taken_at_a_given_time() {
    let mut bc = plain();
    let mut client = connect(&mut bc);
    let frame = model_set("u", "c", Some("t"), "m");
    match bc.handle_frame_at(&mut client.session, frame, 1234, "f00".to_string()) {
        FrameAction::Forward { message, reply: Some(OutboundFrame::ModelSetOk { model, .. }) } => {
            assert_eq!(message.id, "brick-model-f00");
            assert_eq!(message.timestamp, 1234);
            assert_eq!(message.thread_ts.as_deref(), Some("t"));
            assert_eq!(model, "m");
        }
        _ => panic!("expected a model command"),
    }
    let frame = message("u", "c", "hello", "m-7");
    match bc.handle_frame_at(&mut client.session, frame, 99, String::new()) {
        FrameAction::Forward { message, reply: None } => {
            assert_eq!(message.id, "m-7");
            assert_eq!(message.content, "hello");
            assert_eq!(message.timestamp, 99);
            assert_eq!(message.channel, "brick");
        }
        _ => panic!("expected a message"),
    }
}

#[test]
fn every_frame_goes_to_every_client() {
    let mut bc = plain();
    let mut a = connect(&mut bc);
    let mut b = connect(&mut bc);
    let mut c = connect(&mut bc);
    say(&mut bc, &mut a, message("u:a", "conv", "hi", "m"));
    bc.disconnect(&b.session);
    let deliveries = bc.start_typing("nobody-in-particular");
    assert_eq!(deliveries.len(), 2);
    post(deliveries);
    assert_eq!(heard(&mut a)["sender_id"], "nobody-in-particular");
    assert_eq!(heard(&mut c)["type"], "typing_start");
    assert!(nothing_heard(&mut b));
    assert!(nothing_heard(&mut a));
    post(bc.dispatch(OutboundFrame::Pong, "x"));
    assert_eq!(heard(&mut a)["type"], "pong");
    assert_eq!(heard(&mut c)["type"], "pong");
    assert!(bc.outlet(&b.session).is_none());
    assert!(bc.outlet(&a.session).is_some());
}

#[test]
fn drafts_open_grow_and_close_under_one_id() {
    let mut bc = plain();
    let mut client = connect(&mut bc);
    assert!(bc.supports_draft_updates());
    let reply = SendMessage {
        content: "Hello".into(),
        recipient: "conv-1".into(),
        thread_ts: Some("9".into()),
    };
    let opening = bc.send_draft(&reply);
    assert_eq!(opening.draft_id, "brick-conv-1-9");
    post(opening.start);
    let start = heard(&mut client);
    assert_eq!(start["type"], "draft_start");
    assert_eq!(start["sender_id"], "conv-1");
    assert_eq!(start["draft_id"], "brick-conv-1-9");
    assert_eq!(start["conversation_id"], "conv-1");
    post(bc.dispatch(opening.delta.expect("first text"), "conv-1"));
    let delta = heard(&mut client);
    assert_eq!(delta["type"], "draft_delta");
    assert_eq!(delta["text"], "Hello");
    post(bc.update_draft("conv-1", &opening.draft_id, "Hello w"));
    assert_eq!(heard(&mut client)["text"], "Hello w");
    post(bc.update_draft_progress("conv-1", &opening.draft_id, "ls"));
    let progress = heard(&mut client);
    assert_eq!(progress["type"], "tool_progress");
    assert_eq!(progress["draft_id"], "brick-conv-1-9");
    post(bc.send(&reply));
    let end = heard(&mut client);
    assert_eq!(end["type"], "draft_finalize");
    assert_eq!(end["draft_id"], "brick-conv-1-9");
    assert_eq!(end["text"], "Hello");

    let empty =
        SendMessage { content: "".into(), recipient: "conv-2".into(), thread_ts: None };
    let opening = bc.send_draft(&empty);
    assert_eq!(opening.draft_id, "brick-conv-2");
    assert!(opening.delta.is_none());
}

#[test]
fn the_other_notices() {
    let mut bc = plain();
    let mut client = connect(&mut bc);
    post(bc.finalize_draft("r", "d1", "done"));
    let f = heard(&mut client);
    assert_eq!((f["type"].as_str(), f["text"].as_str()), (Some("draft_finalize"), Some("done")));
    post(bc.cancel_draft("r", "d1"));
    let f = heard(&mut client);
    assert_eq!((f["type"].as_str(), f["draft_id"].as_str()), (Some("draft_cancel"), Some("d1")));
    post(bc.stop_typing("r"));
    let f = heard(&mut client);
    assert_eq!((f["type"].as_str(), f["sender_id"].as_str()), (Some("typing_stop"), Some("r")));
    post(bc.notify_no_reply("r", "u:d", "m1", "informational", None, 42, "No reply"));
    let f = heard(&mut client);
    assert_eq!(f["type"], "no_reply");
    assert_eq!(f["sender_id"], "u:d");
    assert_eq!(f["message_id"], "m1");
    assert_eq!(f["elapsed_ms"], 42);
    assert!(f.get("reason").is_none());
}

#[test]
fn what_comes_off_the_socket() {
    assert!(matches!(take_in(SocketItem::Text("{}".into())), Intake::Parse(t) if t == "{}"));
    assert!(matches!(take_in(SocketItem::Ping), Intake::Skip));
    assert!(matches!(take_in(SocketItem::Pong), Intake::Skip));
    assert!(matches!(take_in(SocketItem::Close), Intake::Close));
    assert!(matches!(take_in(SocketItem::Binary), Intake::Close));
    assert!(matches!(take_in(SocketItem::Raw), Intake::Close));
    assert!(matches!(take_in(SocketItem::Failed), Intake::Close));
}

#[test]
fn an_orchestrator_that_is_gone_ends_the_connection() {
    assert!(matches!(after_forward(false, None), FrameAction::Close));
    assert!(matches!(after_forward(false, Some(OutboundFrame::Pong)), FrameAction::Close));
    assert!(matches!(after_forward(true, None), FrameAction::Continue));
    assert!(matches!(
        after_forward(true, Some(OutboundFrame::Pong)),
        FrameAction::Reply { frame: OutboundFrame::Pong }
    ));
}

#[test]
fn no_more_clients_are_served_than_may_be() {
    let mut door = Door::new(2);
    assert!(door.accepts());
    assert!(door.step(DoorEvent::Accepted));
    assert!(!door.step(DoorEvent::AcceptFailed));
    assert!(door.step(DoorEvent::Accepted));
    assert_eq!(door.live(), 2);
    // The third waits, and nobody else is accepted meanwhile.
    assert!(!door.step(DoorEvent::Accepted));
    assert!(!door.accepts());
    assert_eq!(door.live(), 2);
    // Once one has gone, it is served.
    assert!(door.step(DoorEvent::Ended));
    assert!(door.accepts());
    assert_eq!(door.live(), 2);
    assert!(!door.step(DoorEvent::Ended));
    assert!(!door.step(DoorEvent::Ended));
    assert_eq!(door.live(), 0);
    assert!(!door.step(DoorEvent::Ended));
    assert_eq!(door.live(), 0);
    assert!(door.step(DoorEvent::Accepted));
}

#[test]
fn a_door_for_nobody_serves_nobody() {
    let mut door = Door::new(0);
    assert!(!door.step(DoorEvent::Accepted));
    assert!(!door.accepts());
    assert!(!door.step(DoorEvent::Ended));
    assert_eq!(door.live(), 0);
}

#[test]
fn frames_are_written_until_one_fails() {
    assert!(matches!(after_encode(Ok("x".into())), WriterAction::Write(t) if t == "x"));
    assert!(matches!(after_encode(Err(EncodeError::Json)), WriterAction::Skip));
    assert_eq!(after_write(WriteOutcome::Written), None);
    assert_eq!(after_write(WriteOutcome::Failed), Some(WriterEnd::Failed));
    assert_eq!(after_write(WriteOutcome::TimedOut), Some(WriterEnd::TimedOut));
}

#[test]
fn a_write_that_takes_too_long_drops_the_connection() {
    let end = after_write(WriteOutcome::TimedOut).unwrap();
    assert!(connection_is_over(ConnectionEvent::WritingEnded(end)));
    assert!(connection_is_over(ConnectionEvent::ReadingEnded));
    assert!(!connection_is_over(ConnectionEvent::WritingEnded(WriterEnd::Failed)));
    assert!(!connection_is_over(ConnectionEvent::WritingEnded(WriterEnd::QueueClosed)));

    let mut bc = plain();
    let client = connect(&mut bc);
    bc.disconnect(&client.session);
    assert!(bc.outlet(&client.session).is_none());
    assert!(bc.start_typing("r").is_empty());
}

#[test]
fn a_stale_socket_is_no_obstacle() {
    let path = PathBuf::from("/run/brick/zeroclaw.sock");
    let cleanup = cleanup_socket(&path);
    assert_eq!(after_step(&cleanup, StepOutcome::Done), StepVerdict::Proceed);
    assert_eq!(after_step(&cleanup, StepOutcome::NotFound), StepVerdict::Proceed);
    assert_eq!(after_step(&cleanup, StepOutcome::Failed), StepVerdict::Warn);
    let perms = set_socket_perms(&path);
    assert_eq!(after_step(&perms, StepOutcome::Done), StepVerdict::Proceed);
    assert_eq!(after_step(&perms, StepOutcome::NotFound), StepVerdict::GiveUp);
    assert_eq!(after_step(&perms, StepOutcome::Failed), StepVerdict::GiveUp);
}

#[test]
fn ready_comes_last() {
    for bc in [plain(), plain().with_auth_token("t")] {
        let steps = bc.listen();
        let n = steps.len();
        assert!(matches!(steps[n - 1], SetupStep::MarkListening));
        assert!(!steps[..n - 1].iter().any(|s| matches!(s, SetupStep::MarkListening)));
        assert!(matches!(steps[0], SetupStep::RemoveStale { .. }));
        assert!(matches!(steps[1], SetupStep::CreateParent { .. }));
        assert!(matches!(steps[2], SetupStep::Bind { .. }));
        assert!(matches!(steps[3], SetupStep::SetPermissions { mode: 0o660, .. }));
        for step in &steps {
            let fatal = after_step(step, StepOutcome::Failed) == StepVerdict::GiveUp;
            assert_eq!(fatal, !matches!(step, SetupStep::RemoveStale { .. }));
        }
    }
    assert_eq!(plain().listen().len(), 5);
    assert_eq!(plain().with_auth_token("t").listen().len(), 8);
}

#[test]
fn socket_steps_name_the_socket() {
    let path = PathBuf::from("/run/brick/zeroclaw.sock");
    assert!(matches!(
        cleanup_socket(&path),
        SetupStep::RemoveStale { place: Place::At(p) } if p == &path
    ));
    assert!(matches!(
        set_socket_perms(&path),
        SetupStep::SetPermissions { place: Place::At(p), mode: 0o660 } if p == &path
    ));
}

#[test]
fn the_setup_can_be_read_back() {
    let bc = BrickChannel::new("/a/b.sock", 7, "/w");
    assert_eq!(bc.socket_path(), &PathBuf::from("/a/b.sock"));
    assert_eq!(bc.workspace_dir(), &PathBuf::from("/w"));
    assert_eq!(bc.max_connections(), 7);
}
