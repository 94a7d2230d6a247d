//! How frames are written for the wire: one JSON object each, tagged by its `type`.
use crate::frames::{history_view, HistoryMessage, HistoryView, OutboundFrame, OutboundView};
use crate::keys::opt_text;
use crate::outside::{json_string, json_string_text};
use vstd::prelude::*;
use vstd::string::*;

verus! {

/// Why a frame could not be written.
#[derive(Debug, Clone, Copy, PartialEq, Eq, Structural)]
pub enum EncodeError {
    /// A string could not be written as JSON.
    Json,
}

/// What a field of a frame holds.
#[verifier::ext_equal]
pub enum WireValue {
    Text(Seq<char>),
    OptionalText(Option<Seq<char>>),
    Flag(bool),
    Number(u64),
    Messages(Seq<HistoryView>),
}

/// A field of a frame: its name and what it holds.
pub type Field = (Seq<char>, WireValue);

/// The `type` of a frame on the wire.
pub open spec fn wire_tag(frame: OutboundView) -> Seq<char> {
    match frame {
        OutboundView::HelloOk { .. } => "hello_ok"@,
        OutboundView::DraftStart { .. } => "draft_start"@,
        OutboundView::DraftDelta { .. } => "draft_delta"@,
        OutboundView::ToolProgress { .. } => "tool_progress"@,
        OutboundView::ToolCallStart { .. } => "tool_call_start"@,
        OutboundView::ToolCallResult { .. } => "tool_call_result"@,
        OutboundView::DraftFinalize { .. } => "draft_finalize"@,
        OutboundView::DraftCancel { .. } => "draft_cancel"@,
        OutboundView::ApprovalRequest { .. } => "approval_request"@,
        OutboundView::TypingStart { .. } => "typing_start"@,
        OutboundView::TypingStop { .. } => "typing_stop"@,
        OutboundView::HistoryResponse { .. } => "history_response"@,
        OutboundView::ModelSetOk { .. } => "model_set_ok"@,
        OutboundView::ModelGetOk { .. } => "model_get_ok"@,
        OutboundView::NoReply { .. } => "no_reply"@,
        OutboundView::Pong => "pong"@,
    }
}

/// The fields of a frame on the wire, in their order. Only a reason that is not there is left out.
pub open spec fn wire_fields(frame: OutboundView) -> Seq<Field> {
    match frame {
        OutboundView::HelloOk { daemon_version } => {
            seq![
                ("daemon_version"@, WireValue::Text(daemon_version)),
            ]
        },
        OutboundView::DraftStart { sender_id, draft_id, conversation_id } => {
            seq![
                ("sender_id"@, WireValue::Text(sender_id)),
                ("draft_id"@, WireValue::Text(draft_id)),
                ("conversation_id"@, WireValue::Text(conversation_id)),
            ]
        },
        OutboundView::DraftDelta { draft_id, text } => {
            seq![
                ("draft_id"@, WireValue::Text(draft_id)),
                ("text"@, WireValue::Text(text)),
            ]
        },
        OutboundView::ToolProgress { draft_id, text } => {
            seq![
                ("draft_id"@, WireValue::Text(draft_id)),
                ("text"@, WireValue::Text(text)),
            ]
        },
        OutboundView::ToolCallStart { draft_id, tool_id, tool_name, arguments_json } => {
            seq![
                ("draft_id"@, WireValue::Text(draft_id)),
                ("tool_id"@, WireValue::OptionalText(tool_id)),
                ("tool_name"@, WireValue::Text(tool_name)),
                ("arguments_json"@, WireValue::Text(arguments_json)),
            ]
        },
        OutboundView::ToolCallResult { draft_id, tool_id, tool_name, success, output } => {
            seq![
                ("draft_id"@, WireValue::Text(draft_id)),
                ("tool_id"@, WireValue::OptionalText(tool_id)),
                ("tool_name"@, WireValue::Text(tool_name)),
                ("success"@, WireValue::Flag(success)),
                ("output"@, WireValue::Text(output)),
            ]
        },
        OutboundView::DraftFinalize { draft_id, text } => {
            seq![
                ("draft_id"@, WireValue::Text(draft_id)),
                ("text"@, WireValue::Text(text)),
            ]
        },
        OutboundView::DraftCancel { draft_id } => {
            seq![
                ("draft_id"@, WireValue::Text(draft_id)),
            ]
        },
        OutboundView::ApprovalRequest { sender_id, request_id, tool_name, arguments_summary } => {
            seq![
                ("sender_id"@, WireValue::Text(sender_id)),
                ("request_id"@, WireValue::Text(request_id)),
                ("tool_name"@, WireValue::Text(tool_name)),
                ("arguments_summary"@, WireValue::Text(arguments_summary)),
            ]
        },
        OutboundView::TypingStart { sender_id } => {
            seq![
                ("sender_id"@, WireValue::Text(sender_id)),
            ]
        },
        OutboundView::TypingStop { sender_id } => {
            seq![
                ("sender_id"@, WireValue::Text(sender_id)),
            ]
        },
        OutboundView::HistoryResponse { sender_id, reply_target, messages } => {
            seq![
                ("sender_id"@, WireValue::Text(sender_id)),
                ("reply_target"@, WireValue::Text(reply_target)),
                ("messages"@, WireValue::Messages(messages)),
            ]
        },
        OutboundView::ModelSetOk { sender_id, reply_target, model } => {
            seq![
                ("sender_id"@, WireValue::Text(sender_id)),
                ("reply_target"@, WireValue::Text(reply_target)),
                ("model"@, WireValue::Text(model)),
            ]
        },
        OutboundView::ModelGetOk { sender_id, reply_target, thread_ts, model } => {
            seq![
                ("sender_id"@, WireValue::Text(sender_id)),
                ("reply_target"@, WireValue::Text(reply_target)),
                ("thread_ts"@, WireValue::OptionalText(thread_ts)),
                ("model"@, WireValue::OptionalText(model)),
            ]
        },
        OutboundView::NoReply { sender_id, message_id, kind, reason, elapsed_ms, display_text } => {
            seq![
                ("sender_id"@, WireValue::Text(sender_id)),
                ("message_id"@, WireValue::Text(message_id)),
                ("kind"@, WireValue::Text(kind)),
            ] + (match reason {
                Some(reason) => seq![("reason"@, WireValue::Text(reason))],
                None => seq![],
            }) + seq![
                ("elapsed_ms"@, WireValue::Number(elapsed_ms)),
                ("display_text"@, WireValue::Text(display_text)),
            ]
        },
        OutboundView::Pong => seq![],
    }
}

/// The decimal digits of `n`.
pub open spec fn decimal(n: nat) -> Seq<char>
    decreases n,
{
    if n < 10 {
        seq![(48 + n) as char]
    } else {
        decimal(n / 10).push((48 + n % 10) as char)
    }
}

/// A message of a history as a JSON object.
pub open spec fn message_json(message: HistoryView) -> Seq<char> {
    "{\"role\":"@ + json_string(message.role) + ",\"content\":"@ + json_string(message.content)
        + ",\"ts\":"@ + decimal(message.ts as nat) + "}"@
}

/// Messages as the items of a JSON array.
pub open spec fn items_json(messages: Seq<HistoryView>) -> Seq<char>
    decreases messages.len(),
{
    if messages.len() == 0 {
        seq![]
    } else if messages.len() == 1 {
        message_json(messages[0])
    } else {
        items_json(messages.drop_last()) + ","@ + message_json(messages.last())
    }
}

/// A value as JSON.
pub open spec fn value_json(value: WireValue) -> Seq<char> {
    match value {
        WireValue::Text(text) => json_string(text),
        WireValue::OptionalText(Some(text)) => json_string(text),
        WireValue::OptionalText(None) => "null"@,
        WireValue::Flag(flag) => if flag {
            "true"@
        } else {
            "false"@
        },
        WireValue::Number(n) => decimal(n as nat),
        WireValue::Messages(messages) => "["@ + items_json(messages) + "]"@,
    }
}

/// A field as it follows others in a JSON object.
pub open spec fn field_json(field: Field) -> Seq<char> {
    ",\""@ + field.0 + "\":"@ + value_json(field.1)
}

/// Fields as they follow others in a JSON object.
pub open spec fn fields_json(fields: Seq<Field>) -> Seq<char>
    decreases fields.len(),
{
    if fields.len() == 0 {
        seq![]
    } else {
        fields_json(fields.drop_last()) + field_json(fields.last())
    }
}

/// A frame as it goes over the wire: a JSON object that starts with the type.
pub open spec fn wire_text(frame: OutboundView) -> Seq<char> {
    "{\"type\":\""@ + wire_tag(frame) + "\""@ + fields_json(wire_fields(frame)) + "}"@
}

/// A frame that is being written.
struct FrameWriter {
    text: String,
    tag: Ghost<Seq<char>>,
    fields: Ghost<Seq<Field>>,
}

/// Appends the decimal digits of `n`.
fn append_decimal(out: &mut String, n: u64)
    ensures
        final(out)@ == old(out)@ + decimal(n as nat),
    decreases n,
{
    if n >= 10 {
        append_decimal(out, n / 10);
    }
    let digit: u8 = (n % 10) as u8;
    append_digit(out, digit);
    assert(out@ =~= old(out)@ + decimal(n as nat));
}

/// Appends one decimal digit.
fn append_digit(out: &mut String, digit: u8)
    requires
        digit < 10,
    ensures
        final(out)@ == old(out)@.push((48 + digit) as char),
{
    let text = match digit {
        0 => "0",
        1 => "1",
        2 => "2",
        3 => "3",
        4 => "4",
        5 => "5",
        6 => "6",
        7 => "7",
        8 => "8",
        _ => "9",
    };
    proof {
        reveal_strlit("0");
        reveal_strlit("1");
        reveal_strlit("2");
        reveal_strlit("3");
        reveal_strlit("4");
        reveal_strlit("5");
        reveal_strlit("6");
        reveal_strlit("7");
        reveal_strlit("8");
        reveal_strlit("9");
        assert(text@ =~= seq![(48 + digit) as char]);
    }
    out.append(text);
    assert(out@ =~= old(out)@.push((48 + digit) as char));
}

/// Appends `text` as a JSON string.
fn append_string(out: &mut String, text: &str) -> (done: Result<(), EncodeError>)
    ensures
        done is Ok,
        final(out)@ == old(out)@ + json_string(text@),
{
    match json_string_text(text) {
        Ok(json) => {
            out.append(json.as_str());
            Ok(())
        },
        Err(_) => Err(EncodeError::Json),
    }
}

/// Appends the comma, the name and the colon of a field.
fn append_name(out: &mut String, name: &str)
    ensures
        final(out)@ == old(out)@ + (",\""@ + name@ + "\":"@),
{
    out.append(",\"");
    out.append(name);
    out.append("\":");
    assert(out@ =~= old(out)@ + (",\""@ + name@ + "\":"@));
}

/// Appends a message of a history as a JSON object.
fn append_message(out: &mut String, message: &HistoryMessage) -> (done: Result<(), EncodeError>)
    ensures
        done is Ok,
        final(out)@ == old(out)@ + message_json(message@),
{
    out.append("{\"role\":");
    append_string(out, message.role.as_str())?;
    out.append(",\"content\":");
    append_string(out, message.content.as_str())?;
    out.append(",\"ts\":");
    append_decimal(out, message.ts);
    out.append("}");
    assert(out@ =~= old(out)@ + message_json(message@));
    Ok(())
}

/// Appends messages as a JSON array.
fn append_messages(out: &mut String, messages: &Vec<HistoryMessage>) -> (done: Result<
    (),
    EncodeError,
>)
    ensures
        done is Ok,
        final(out)@ == old(out)@ + value_json(WireValue::Messages(history_view(messages@))),
{
    out.append("[");
    let ghost all = history_view(messages@);
    let ghost head = out@;
    assert(head + items_json(all.take(0)) =~= head);
    let mut i: usize = 0;
    while i < messages.len()
        invariant
            i <= messages.len(),
            all == history_view(messages@),
            out@ == head + items_json(all.take(i as int)),
        decreases messages.len() - i,
    {
        assert(all.take(i + 1).drop_last() =~= all.take(i as int));
        if i > 0 {
            out.append(",");
        }
        append_message(out, &messages[i])?;
        assert(out@ =~= head + items_json(all.take(i + 1)));
        i += 1;
    }
    assert(all.take(i as int) =~= all);
    out.append("]");
    assert(out@ =~= old(out)@ + ("["@ + items_json(all) + "]"@));
    Ok(())
}

impl FrameWriter {
    /// The text holds the type and the fields so far.
    spec fn well_formed(self) -> bool {
        self.text@ == "{\"type\":\""@ + self.tag@ + "\""@ + fields_json(self.fields@)
    }

    /// `self` has the field `(name, value)` more than `before`.
    spec fn adds(self, before: FrameWriter, name: Seq<char>, value: WireValue) -> bool {
        &&& self.well_formed()
        &&& self.tag@ == before.tag@
        &&& self.fields@ == before.fields@.push((name, value))
    }

    /// Starts a frame of the type `tag`.
    fn new(tag: &str) -> (writer: FrameWriter)
        ensures
            writer.well_formed(),
            writer.tag@ == tag@,
            writer.fields@ == Seq::<Field>::empty(),
    {
        let mut text = "{\"type\":\"".to_owned();
        text.append(tag);
        text.append("\"");
        let ghost fields = Seq::<Field>::empty();
        assert(text@ =~= "{\"type\":\""@ + tag@ + "\""@ + fields_json(fields));
        FrameWriter { text, tag: Ghost(tag@), fields: Ghost(fields) }
    }

    /// Notes that the field `(name, value)` was written to the end of the text.
    proof fn lemma_added(self, before: FrameWriter, name: Seq<char>, value: WireValue)
        requires
            before.well_formed(),
            self.text@ == before.text@ + (",\""@ + name + "\":"@) + value_json(value),
            self.tag@ == before.tag@,
            self.fields@ == before.fields@.push((name, value)),
        ensures
            self.adds(before, name, value),
    {
        assert(self.fields@.drop_last() =~= before.fields@);
        assert(self.text@ =~= "{\"type\":\""@ + self.tag@ + "\""@ + fields_json(self.fields@));
    }

    /// Adds a string.
    fn text(&mut self, name: &str, value: &str) -> (done: Result<(), EncodeError>)
        requires
            old(self).well_formed(),
        ensures
            done is Ok,
            final(self).adds(*old(self), name@, WireValue::Text(value@)),
    {
        append_name(&mut self.text, name);
        append_string(&mut self.text, value)?;
        proof {
            self.fields@ = self.fields@.push((name@, WireValue::Text(value@)));
            self.lemma_added(*old(self), name@, WireValue::Text(value@));
        }
        Ok(())
    }

    /// Adds a string or null.
    fn optional_text(&mut self, name: &str, value: &Option<String>) -> (done: Result<
        (),
        EncodeError,
    >)
        requires
            old(self).well_formed(),
        ensures
            done is Ok,
            final(self).adds(*old(self), name@, WireValue::OptionalText(opt_text(*value))),
    {
        append_name(&mut self.text, name);
        match value {
            Some(text) => append_string(&mut self.text, text.as_str())?,
            None => self.text.append("null"),
        }
        proof {
            self.fields@ = self.fields@.push((name@, WireValue::OptionalText(opt_text(*value))));
            self.lemma_added(*old(self), name@, WireValue::OptionalText(opt_text(*value)));
        }
        Ok(())
    }

    /// Adds a truth value.
    fn flag(&mut self, name: &str, value: bool)
        requires
            old(self).well_formed(),
        ensures
            final(self).adds(*old(self), name@, WireValue::Flag(value)),
    {
        append_name(&mut self.text, name);
        if value {
            self.text.append("true");
        } else {
            self.text.append("false");
        }
        proof {
            self.fields@ = self.fields@.push((name@, WireValue::Flag(value)));
            self.lemma_added(*old(self), name@, WireValue::Flag(value));
        }
    }

    /// Adds a number.
    fn number(&mut self, name: &str, value: u64)
        requires
            old(self).well_formed(),
        ensures
            final(self).adds(*old(self), name@, WireValue::Number(value)),
    {
        append_name(&mut self.text, name);
        append_decimal(&mut self.text, value);
        proof {
            self.fields@ = self.fields@.push((name@, WireValue::Number(value)));
            self.lemma_added(*old(self), name@, WireValue::Number(value));
        }
    }

    /// Adds a list of messages.
    fn messages(&mut self, name: &str, value: &Vec<HistoryMessage>) -> (done: Result<
        (),
        EncodeError,
    >)
        requires
            old(self).well_formed(),
        ensures
            done is Ok,
            final(self).adds(*old(self), name@, WireValue::Messages(history_view(value@))),
    {
        append_name(&mut self.text, name);
        append_messages(&mut self.text, value)?;
        proof {
            self.fields@ = self.fields@.push((name@, WireValue::Messages(history_view(value@))));
            self.lemma_added(*old(self), name@, WireValue::Messages(history_view(value@)));
        }
        Ok(())
    }
}

impl OutboundFrame {
    /// The frame as it goes over the wire.
    pub fn to_json(&self) -> (text: Result<String, EncodeError>)
        ensures
            text is Ok,
            text->Ok_0@ == wire_text(self@),
    {
        let writer = match self {
            OutboundFrame::HelloOk { daemon_version } => {
                let mut out = FrameWriter::new("hello_ok");
                out.text("daemon_version", daemon_version.as_str())?;
                out
            },
            OutboundFrame::DraftStart { sender_id, draft_id, conversation_id } => {
                let mut out = FrameWriter::new("draft_start");
                out.text("sender_id", sender_id.as_str())?;
                out.text("draft_id", draft_id.as_str())?;
                out.text("conversation_id", conversation_id.as_str())?;
                out
            },
            OutboundFrame::DraftDelta { draft_id, text } => {
                let mut out = FrameWriter::new("draft_delta");
                out.text("draft_id", draft_id.as_str())?;
                out.text("text", text.as_str())?;
                out
            },
            OutboundFrame::ToolProgress { draft_id, text } => {
                let mut out = FrameWriter::new("tool_progress");
                out.text("draft_id", draft_id.as_str())?;
                out.text("text", text.as_str())?;
                out
            },
            OutboundFrame::ToolCallStart { draft_id, tool_id, tool_name, arguments_json } => {
                let mut out = FrameWriter::new("tool_call_start");
                out.text("draft_id", draft_id.as_str())?;
                out.optional_text("tool_id", tool_id)?;
                out.text("tool_name", tool_name.as_str())?;
                out.text("arguments_json", arguments_json.as_str())?;
                out
            },
            OutboundFrame::ToolCallResult { draft_id, tool_id, tool_name, success, output } => {
                let mut out = FrameWriter::new("tool_call_result");
                out.text("draft_id", draft_id.as_str())?;
                out.optional_text("tool_id", tool_id)?;
                out.text("tool_name", tool_name.as_str())?;
                out.flag("success", *success);
                out.text("output", output.as_str())?;
                out
            },
            OutboundFrame::DraftFinalize { draft_id, text } => {
                let mut out = FrameWriter::new("draft_finalize");
                out.text("draft_id", draft_id.as_str())?;
                out.text("text", text.as_str())?;
                out
            },
            OutboundFrame::DraftCancel { draft_id } => {
                let mut out = FrameWriter::new("draft_cancel");
                out.text("draft_id", draft_id.as_str())?;
                out
            },
            OutboundFrame::ApprovalRequest {
                sender_id,
                request_id,
                tool_name,
                arguments_summary,
            } => {
                let mut out = FrameWriter::new("approval_request");
                out.text("sender_id", sender_id.as_str())?;
                out.text("request_id", request_id.as_str())?;
                out.text("tool_name", tool_name.as_str())?;
                out.text("arguments_summary", arguments_summary.as_str())?;
                out
            },
            OutboundFrame::TypingStart { sender_id } => {
                let mut out = FrameWriter::new("typing_start");
                out.text("sender_id", sender_id.as_str())?;
                out
            },
            OutboundFrame::TypingStop { sender_id } => {
                let mut out = FrameWriter::new("typing_stop");
                out.text("sender_id", sender_id.as_str())?;
                out
            },
            OutboundFrame::HistoryResponse { sender_id, reply_target, messages } => {
                let mut out = FrameWriter::new("history_response");
                out.text("sender_id", sender_id.as_str())?;
                out.text("reply_target", reply_target.as_str())?;
                out.messages("messages", messages)?;
                out
            },
            OutboundFrame::ModelSetOk { sender_id, reply_target, model } => {
                let mut out = FrameWriter::new("model_set_ok");
                out.text("sender_id", sender_id.as_str())?;
                out.text("reply_target", reply_target.as_str())?;
                out.text("model", model.as_str())?;
                out
            },
            OutboundFrame::ModelGetOk { sender_id, reply_target, thread_ts, model } => {
                let mut out = FrameWriter::new("model_get_ok");
                out.text("sender_id", sender_id.as_str())?;
                out.text("reply_target", reply_target.as_str())?;
                out.optional_text("thread_ts", thread_ts)?;
                out.optional_text("model", model)?;
                out
            },
            OutboundFrame::NoReply {
                sender_id,
                message_id,
                kind,
                reason,
                elapsed_ms,
                display_text,
            } => {
                let mut out = FrameWriter::new("no_reply");
                out.text("sender_id", sender_id.as_str())?;
                out.text("message_id", message_id.as_str())?;
                out.text("kind", kind.as_str())?;
                if let Some(reason) = reason {
                    out.text("reason", reason.as_str())?;
                }
                out.number("elapsed_ms", *elapsed_ms);
                out.text("display_text", display_text.as_str())?;
                out
            },
            OutboundFrame::Pong => {
                let out = FrameWriter::new("pong");
                out
            },
        };
        assert(writer.fields@ =~= wire_fields(self@));
        let mut text = writer.text;
        text.append("}");
        Ok(text)
    }
}

} // verus!
