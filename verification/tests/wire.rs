//! The frames as they go over the wire.
use brick_channel::frames::{HistoryMessage, OutboundFrame};
use serde_json::Value;

fn written(frame: &OutboundFrame) -> String {
    frame.to_json().unwrap()
}

fn parsed(frame: &OutboundFrame) -> Value {
    serde_json::from_str(&written(frame)).unwrap()
}

fn message(role: &str, content: &str, ts: u64) -> HistoryMessage {
    HistoryMessage { role: role.into(), content: content.into(), ts }
}

fn one_of_each() -> Vec<OutboundFrame> {
    vec![
        OutboundFrame::HelloOk { daemon_version: "v".into() },
        OutboundFrame::DraftStart {
            sender_id: "s".into(),
            draft_id: "d".into(),
            conversation_id: "c".into(),
        },
        OutboundFrame::DraftDelta { draft_id: "d".into(), text: "t".into() },
        OutboundFrame::ToolProgress { draft_id: "d".into(), text: "t".into() },
        OutboundFrame::ToolCallStart {
            draft_id: "d".into(),
            tool_id: None,
            tool_name: "n".into(),
            arguments_json: "{}".into(),
        },
        OutboundFrame::ToolCallResult {
            draft_id: "d".into(),
            tool_id: None,
            tool_name: "n".into(),
            success: false,
            output: "o".into(),
        },
        OutboundFrame::DraftFinalize { draft_id: "d".into(), text: "t".into() },
        OutboundFrame::DraftCancel { draft_id: "d".into() },
        OutboundFrame::ApprovalRequest {
            sender_id: "s".into(),
            request_id: "r".into(),
            tool_name: "n".into(),
            arguments_summary: "a".into(),
        },
        OutboundFrame::TypingStart { sender_id: "s".into() },
        OutboundFrame::TypingStop { sender_id: "s".into() },
        OutboundFrame::HistoryResponse {
            sender_id: "s".into(),
            reply_target: "r".into(),
            messages: vec![],
        },
        OutboundFrame::ModelSetOk {
            sender_id: "s".into(),
            reply_target: "r".into(),
            model: "m".into(),
        },
        OutboundFrame::ModelGetOk {
            sender_id: "s".into(),
            reply_target: "r".into(),
            thread_ts: None,
            model: None,
        },
        OutboundFrame::NoReply {
            sender_id: "s".into(),
            message_id: "m".into(),
            kind: "k".into(),
            reason: None,
            elapsed_ms: 0,
            display_text: "t".into(),
        },
        OutboundFrame::Pong,
    ]
}

#[test]
fn outbound_frame_serializes_with_snake_case_tag() {
    let frame = OutboundFrame::Pong;
    let json = written(&frame);
    assert_eq!(json, "{\"type\":\"pong\"}");

    let draft = OutboundFrame::DraftDelta { draft_id: "d1".into(), text: "hi".into() };
    let json = written(&draft);
    assert!(json.contains("\"type\":\"draft_delta\""), "got {json}");
    assert!(json.contains("\"draft_id\":\"d1\""), "got {json}");
}

#[test]
fn draft_lifecycle_frames_round_trip() {
    let start = OutboundFrame::DraftStart {
        sender_id: "u:d".into(),
        draft_id: "draft-1".into(),
        conversation_id: "u:d".into(),
    };
    let s = written(&start);
    assert!(s.contains("\"type\":\"draft_start\""));
    assert!(s.contains("\"sender_id\":\"u:d\""));
    assert!(s.contains("\"draft_id\":\"draft-1\""));

    let final_ = OutboundFrame::DraftFinalize { draft_id: "draft-1".into(), text: "done".into() };
    let s = written(&final_);
    assert!(s.contains("\"type\":\"draft_finalize\""));
    assert!(s.contains("\"text\":\"done\""));

    let cancel = OutboundFrame::DraftCancel { draft_id: "draft-1".into() };
    let s = written(&cancel);
    assert!(s.contains("\"type\":\"draft_cancel\""));
    assert!(s.contains("\"draft_id\":\"draft-1\""));

    let progress = OutboundFrame::ToolProgress {
        draft_id: "draft-1".into(),
        text: "running tool".into(),
    };
    let s = written(&progress);
    assert!(s.contains("\"type\":\"tool_progress\""));

    let no_reply = OutboundFrame::NoReply {
        sender_id: "u:d".into(),
        message_id: "m1".into(),
        kind: "informational".into(),
        reason: Some("because".into()),
        elapsed_ms: 42,
        display_text: "  🤖 No reply [Informational] (42ms): because".into(),
    };
    let s = written(&no_reply);
    assert!(s.contains("\"type\":\"no_reply\""));
    assert!(s.contains("\"message_id\":\"m1\""));
    assert!(s.contains("\"kind\":\"informational\""));
    assert!(s.contains("\"elapsed_ms\":42"));

    let history = OutboundFrame::HistoryResponse {
        sender_id: "u:d".into(),
        reply_target: "conv1".into(),
        messages: vec![HistoryMessage { role: "user".into(), content: "hi".into(), ts: 0 }],
    };
    let s = written(&history);
    assert!(s.contains("\"type\":\"history_response\""));
    assert!(s.contains("\"reply_target\":\"conv1\""));
    assert!(s.contains("\"role\":\"user\""));
}

#[test]
fn fields_are_written_in_their_order() {
    assert_eq!(
        written(&OutboundFrame::HelloOk { daemon_version: "1.2".into() }),
        "{\"type\":\"hello_ok\",\"daemon_version\":\"1.2\"}"
    );
    assert_eq!(
        written(&OutboundFrame::ToolCallResult {
            draft_id: "d".into(),
            tool_id: Some("t1".into()),
            tool_name: "shell".into(),
            success: true,
            output: "ok".into(),
        }),
        "{\"type\":\"tool_call_result\",\"draft_id\":\"d\",\"tool_id\":\"t1\",\
         \"tool_name\":\"shell\",\"success\":true,\"output\":\"ok\"}"
    );
    assert_eq!(
        written(&OutboundFrame::ApprovalRequest {
            sender_id: "u".into(),
            request_id: "r".into(),
            tool_name: "shell".into(),
            arguments_summary: "ls".into(),
        }),
        "{\"type\":\"approval_request\",\"sender_id\":\"u\",\"request_id\":\"r\",\
         \"tool_name\":\"shell\",\"arguments_summary\":\"ls\"}"
    );
}

#[test]
fn missing_options_are_null_but_a_missing_reason_is_left_out() {
    assert_eq!(
        written(&OutboundFrame::ModelGetOk {
            sender_id: "u".into(),
            reply_target: "c".into(),
            thread_ts: None,
            model: None,
        }),
        "{\"type\":\"model_get_ok\",\"sender_id\":\"u\",\"reply_target\":\"c\",\
         \"thread_ts\":null,\"model\":null}"
    );
    assert_eq!(
        written(&OutboundFrame::ToolCallStart {
            draft_id: "d".into(),
            tool_id: None,
            tool_name: "n".into(),
            arguments_json: "{}".into(),
        }),
        "{\"type\":\"tool_call_start\",\"draft_id\":\"d\",\"tool_id\":null,\"tool_name\":\"n\",\
         \"arguments_json\":\"{}\"}"
    );
    assert_eq!(
        written(&OutboundFrame::NoReply {
            sender_id: "u".into(),
            message_id: "m".into(),
            kind: "k".into(),
            reason: None,
            elapsed_ms: 7,
            display_text: "t".into(),
        }),
        "{\"type\":\"no_reply\",\"sender_id\":\"u\",\"message_id\":\"m\",\"kind\":\"k\",\
         \"elapsed_ms\":7,\"display_text\":\"t\"}"
    );
    assert_eq!(
        written(&OutboundFrame::NoReply {
            sender_id: "u".into(),
            message_id: "m".into(),
            kind: "k".into(),
            reason: Some("".into()),
            elapsed_ms: 7,
            display_text: "t".into(),
        }),
        "{\"type\":\"no_reply\",\"sender_id\":\"u\",\"message_id\":\"m\",\"kind\":\"k\",\
         \"reason\":\"\",\"elapsed_ms\":7,\"display_text\":\"t\"}"
    );
}

#[test]
fn strings_are_escaped() {
    let frame = OutboundFrame::TypingStart {
        sender_id: "\"\\\u{8}\t\n\u{c}\r\u{0}\u{1}\u{1f} \u{7f}é🤖/".into(),
    };
    assert_eq!(
        written(&frame),
        "{\"type\":\"typing_start\",\"sender_id\":\"\\\"\\\\\\b\\t\\n\\f\\r\\u0000\\u0001\\u001f \
         \u{7f}é🤖/\"}"
    );
}

#[test]
fn every_control_character_reads_back() {
    for code in 0u32..0x80 {
        let text = format!("a{}b", char::from_u32(code).unwrap());
        let frame = OutboundFrame::DraftDelta { draft_id: "d".into(), text: text.clone() };
        assert_eq!(parsed(&frame)["text"], Value::String(text));
    }
}

#[test]
fn numbers_are_written_in_decimal() {
    for n in [0, 9, 10, 99, 100, 1234567890, u64::MAX] {
        let frame = OutboundFrame::NoReply {
            sender_id: "u".into(),
            message_id: "m".into(),
            kind: "k".into(),
            reason: None,
            elapsed_ms: n,
            display_text: "t".into(),
        };
        assert!(written(&frame).contains(&format!("\"elapsed_ms\":{n},")));
    }
}

#[test]
fn histories_are_written_as_arrays() {
    let empty = OutboundFrame::HistoryResponse {
        sender_id: "u".into(),
        reply_target: "c".into(),
        messages: vec![],
    };
    assert_eq!(
        written(&empty),
        "{\"type\":\"history_response\",\"sender_id\":\"u\",\"reply_target\":\"c\",\"messages\":[]}"
    );
    let three = OutboundFrame::HistoryResponse {
        sender_id: "u".into(),
        reply_target: "c".into(),
        messages: vec![message("user", "a", 0), message("assistant", "b", 5), message("x", "", 10)],
    };
    assert_eq!(
        written(&three),
        "{\"type\":\"history_response\",\"sender_id\":\"u\",\"reply_target\":\"c\",\"messages\":[\
         {\"role\":\"user\",\"content\":\"a\",\"ts\":0},\
         {\"role\":\"assistant\",\"content\":\"b\",\"ts\":5},\
         {\"role\":\"x\",\"content\":\"\",\"ts\":10}]}"
    );
}

#[test]
fn each_kind_has_a_tag_of_its_own() {
    let tags = [
        "hello_ok",
        "draft_start",
        "draft_delta",
        "tool_progress",
        "tool_call_start",
        "tool_call_result",
        "draft_finalize",
        "draft_cancel",
        "approval_request",
        "typing_start",
        "typing_stop",
        "history_response",
        "model_set_ok",
        "model_get_ok",
        "no_reply",
        "pong",
    ];
    let frames = one_of_each();
    assert_eq!(frames.len(), tags.len());
    for (frame, tag) in frames.iter().zip(tags) {
        assert_eq!(parsed(frame)["type"], tag);
        assert!(written(frame).starts_with(&format!("{{\"type\":\"{tag}\"")));
    }
}

#[test]
fn no_two_frames_are_written_alike() {
    let mut frames = one_of_each();
    frames.push(OutboundFrame::DraftDelta { draft_id: "d\",\"text\":\"x".into(), text: "t".into() });
    frames.push(OutboundFrame::DraftDelta { draft_id: "d".into(), text: "x\",\"text\":\"t".into() });
    frames.push(OutboundFrame::ModelGetOk {
        sender_id: "s".into(),
        reply_target: "r".into(),
        thread_ts: None,
        model: Some("null".into()),
    });
    frames.push(OutboundFrame::ModelGetOk {
        sender_id: "s".into(),
        reply_target: "r".into(),
        thread_ts: Some("".into()),
        model: None,
    });
    for (i, a) in frames.iter().enumerate() {
        for (j, b) in frames.iter().enumerate() {
            assert_eq!(i == j, written(a) == written(b));
        }
    }
}

#[test]
fn a_clone_is_written_alike() {
    for frame in one_of_each() {
        assert_eq!(written(&frame.clone()), written(&frame));
    }
}
