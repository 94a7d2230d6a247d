//! What the bridge and the orchestrator say to each other.
use crate::frames::ApprovalDecision;
use crate::keys::opt_text;
use vstd::prelude::*;

verus! {

/// A message of a user, as the orchestrator takes it in.
#[derive(Debug)]
pub struct ChannelMessage {
    pub id: String,
    pub sender: String,
    pub reply_target: String,
    pub content: String,
    pub channel: String,
    /// Seconds since 1970.
    pub timestamp: u64,
    pub thread_ts: Option<String>,
    pub interruption_scope_id: Option<String>,
    pub attachments: Vec<String>,
}

/// What a [`ChannelMessage`] says.
#[verifier::ext_equal]
pub struct MessageView {
    pub id: Seq<char>,
    pub sender: Seq<char>,
    pub reply_target: Seq<char>,
    pub content: Seq<char>,
    pub channel: Seq<char>,
    pub timestamp: u64,
    pub thread_ts: Option<Seq<char>>,
    pub interruption_scope_id: Option<Seq<char>>,
    pub attachments: Seq<Seq<char>>,
}

impl View for ChannelMessage {
    type V = MessageView;

    open spec fn view(&self) -> MessageView {
        MessageView {
            id: self.id@,
            sender: self.sender@,
            reply_target: self.reply_target@,
            content: self.content@,
            channel: self.channel@,
            timestamp: self.timestamp,
            thread_ts: opt_text(self.thread_ts),
            interruption_scope_id: opt_text(self.interruption_scope_id),
            attachments: Seq::new(self.attachments@.len(), |i: int| self.attachments@[i]@),
        }
    }
}

/// A reply of the agent.
#[derive(Debug)]
pub struct SendMessage {
    pub content: String,
    pub recipient: String,
    pub thread_ts: Option<String>,
}

/// A tool call that the agent wants approved.
#[derive(Debug)]
pub struct ChannelApprovalRequest {
    pub tool_name: String,
    pub arguments_summary: String,
}

/// What became of an approval request.
#[derive(Debug, Clone, Copy, PartialEq, Eq, Structural)]
pub enum ChannelApprovalResponse {
    Approve,
    Deny,
    AlwaysApprove,
}

/// The orchestrator's word for `decision`.
pub open spec fn response_to(decision: ApprovalDecision) -> ChannelApprovalResponse {
    match decision {
        ApprovalDecision::Approve => ChannelApprovalResponse::Approve,
        ApprovalDecision::Deny => ChannelApprovalResponse::Deny,
        ApprovalDecision::Always => ChannelApprovalResponse::AlwaysApprove,
    }
}

impl From<ApprovalDecision> for ChannelApprovalResponse {
    fn from(value: ApprovalDecision) -> (response: Self) {
        match value {
            ApprovalDecision::Approve => ChannelApprovalResponse::Approve,
            ApprovalDecision::Deny => ChannelApprovalResponse::Deny,
            ApprovalDecision::Always => ChannelApprovalResponse::AlwaysApprove,
        }
    }
}

impl vstd::std_specs::convert::FromSpecImpl<ApprovalDecision> for ChannelApprovalResponse {
    open spec fn obeys_from_spec() -> bool {
        true
    }

    open spec fn from_spec(value: ApprovalDecision) -> ChannelApprovalResponse {
        response_to(value)
    }
}

/// A message shows each of its fields under its own name.
pub proof fn law_messages_show_what_they_hold(message: ChannelMessage)
    ensures
        message@.id == message.id@,
        message@.sender == message.sender@,
        message@.reply_target == message.reply_target@,
        message@.content == message.content@,
        message@.channel == message.channel@,
        message@.timestamp == message.timestamp,
        message@.thread_ts == opt_text(message.thread_ts),
        message@.interruption_scope_id == opt_text(message.interruption_scope_id),
        message@.attachments.len() == message.attachments@.len(),
        forall|i: int|
            0 <= i < message.attachments@.len() ==> #[trigger] message@.attachments[i]
                == message.attachments@[i]@,
{
}

/// The orchestrator's words are the user's: to approve, to deny, and to approve for good.
pub proof fn law_each_decision_has_its_own_word()
    ensures
        response_to(ApprovalDecision::Approve) == ChannelApprovalResponse::Approve,
        response_to(ApprovalDecision::Deny) == ChannelApprovalResponse::Deny,
        response_to(ApprovalDecision::Always) == ChannelApprovalResponse::AlwaysApprove,
{
}

} // verus!
