//! What the agent's side asks the channel to send.
use crate::approvals::Waiter;
use crate::channel::{broadcasts, BrickChannel, ChannelView, Delivery, CHANNEL_NAME};
use crate::frames::{ApprovalDecision, OutboundFrame, OutboundView};
use crate::keys::{as_slice, derive_draft_id, draft_id_text, opt_str, opt_text};
use crate::messages::{
    response_to, ChannelApprovalRequest, ChannelApprovalResponse, SendMessage,
};
use crate::outside::{is_uuid_v4, new_uuid_text};
use vstd::prelude::*;

verus! {

/// How many seconds an approval request waits for an answer before it counts as denied.
pub const APPROVAL_TIMEOUT_SECS: u64 = 30;

/// A copy of `text`.
fn to_owned_opt(text: Option<&str>) -> (owned: Option<String>)
    ensures
        opt_text(owned) == opt_str(text),
{
    match text {
        Some(t) => Some(t.to_owned()),
        None => None,
    }
}

/// The start of a draft: its id, its opening on the way to the clients, and the frame with its
/// first text, which is to be dispatched after the opening was sent.
pub struct DraftOpening {
    pub draft_id: String,
    pub start: Vec<Delivery>,
    pub delta: Option<OutboundFrame>,
}

/// An approval request on its way to the clients, and the id that its answer will carry.
pub struct ApprovalTicket {
    pub request_id: String,
    pub deliveries: Vec<Delivery>,
}

/// How the wait for an approval ended.
#[derive(Debug, Clone, Copy, PartialEq, Eq, Structural)]
pub enum ApprovalOutcome {
    /// The user answered.
    Answered(ApprovalDecision),
    /// The waiter was let go without an answer.
    WaiterDropped,
    /// No answer came in time.
    TimedOut,
}

/// The frame that opens the draft of a recipient and thread.
pub open spec fn opening_frame(recipient: Seq<char>, thread: Option<Seq<char>>) -> OutboundView {
    OutboundView::DraftStart {
        sender_id: recipient,
        draft_id: draft_id_text(recipient, thread),
        conversation_id: recipient,
    }
}

/// The frame that carries a whole reply: it finalizes the draft of its recipient and thread.
pub open spec fn reply_frame(
    recipient: Seq<char>,
    thread: Option<Seq<char>>,
    content: Seq<char>,
) -> OutboundView {
    OutboundView::DraftFinalize { draft_id: draft_id_text(recipient, thread), text: content }
}

/// What an approval comes to. Without an answer it is denied, so the agent never hangs on a
/// client that is away.
pub open spec fn decision_of(outcome: ApprovalOutcome) -> ApprovalDecision {
    match outcome {
        ApprovalOutcome::Answered(decision) => decision,
        ApprovalOutcome::WaiterDropped => ApprovalDecision::Deny,
        ApprovalOutcome::TimedOut => ApprovalDecision::Deny,
    }
}

/// The frame that asks for an approval.
pub open spec fn approval_frame(
    recipient: Seq<char>,
    request_id: Seq<char>,
    request: ChannelApprovalRequest,
) -> OutboundView {
    OutboundView::ApprovalRequest {
        sender_id: recipient,
        request_id,
        tool_name: request.tool_name@,
        arguments_summary: request.arguments_summary@,
    }
}

/// The channel once `waiter` has been filed for the answer to `request_id`.
pub open spec fn asked(v: ChannelView, request_id: Seq<char>, waiter: Waiter) -> ChannelView {
    ChannelView { pending_approvals: v.pending_approvals.insert(request_id, waiter), ..v }
}

/// The channel once the wait for the answer to `request_id` has ended. A request that timed out
/// is closed.
pub open spec fn settled(
    v: ChannelView,
    request_id: Seq<char>,
    outcome: ApprovalOutcome,
) -> ChannelView {
    if outcome == ApprovalOutcome::TimedOut {
        ChannelView { pending_approvals: v.pending_approvals.remove(request_id), ..v }
    } else {
        v
    }
}

impl BrickChannel {
    /// The name of the channel.
    pub fn name(&self) -> (name: &'static str)
        ensures
            name@ == "brick"@,
    {
        CHANNEL_NAME
    }

    /// Drafts can be updated while they grow.
    pub fn supports_draft_updates(&self) -> (supported: bool)
        ensures
            supported,
    {
        true
    }

    /// Sends a whole reply: the draft of its recipient and thread, finalized.
    pub fn send(&self, message: &SendMessage) -> (deliveries: Vec<Delivery>)
        ensures
            broadcasts(
                self@.router.connections,
                reply_frame(message.recipient@, opt_text(message.thread_ts), message.content@),
                deliveries@,
            ),
    {
        let frame = OutboundFrame::DraftFinalize {
            draft_id: derive_draft_id(message.recipient.as_str(), as_slice(&message.thread_ts)),
            text: message.content.clone(),
        };
        self.dispatch(frame, message.recipient.as_str())
    }

    /// Opens the draft of a recipient and thread. The first text follows only if there is any.
    pub fn send_draft(&self, message: &SendMessage) -> (opening: DraftOpening)
        ensures
            opening.draft_id@ == draft_id_text(message.recipient@, opt_text(message.thread_ts)),
            broadcasts(
                self@.router.connections,
                opening_frame(message.recipient@, opt_text(message.thread_ts)),
                opening.start@,
            ),
            match opening.delta {
                Some(frame) => message.content@.len() > 0 && frame@ == (OutboundView::DraftDelta {
                    draft_id: opening.draft_id@,
                    text: message.content@,
                }),
                None => message.content@.len() == 0,
            },
    {
        let draft_id = derive_draft_id(message.recipient.as_str(), as_slice(&message.thread_ts));
        let start = self.dispatch(
            OutboundFrame::DraftStart {
                sender_id: message.recipient.clone(),
                draft_id: draft_id.clone(),
                conversation_id: message.recipient.clone(),
            },
            message.recipient.as_str(),
        );
        let delta = if !message.content.as_str().is_empty() {
            Some(
                OutboundFrame::DraftDelta {
                    draft_id: draft_id.clone(),
                    text: message.content.clone(),
                },
            )
        } else {
            None
        };
        DraftOpening { draft_id, start, delta }
    }

    /// Sends new text of an open draft.
    pub fn update_draft(&self, recipient: &str, message_id: &str, text: &str) -> (deliveries: Vec<
        Delivery,
    >)
        ensures
            broadcasts(
                self@.router.connections,
                OutboundView::DraftDelta { draft_id: message_id@, text: text@ },
                deliveries@,
            ),
    {
        self.dispatch(
            OutboundFrame::DraftDelta { draft_id: message_id.to_owned(), text: text.to_owned() },
            recipient,
        )
    }

    /// Sends a line of progress of a tool that runs for a draft.
    pub fn update_draft_progress(
        &self,
        recipient: &str,
        message_id: &str,
        text: &str,
    ) -> (deliveries: Vec<Delivery>)
        ensures
            broadcasts(
                self@.router.connections,
                OutboundView::ToolProgress { draft_id: message_id@, text: text@ },
                deliveries@,
            ),
    {
        self.dispatch(
            OutboundFrame::ToolProgress { draft_id: message_id.to_owned(), text: text.to_owned() },
            recipient,
        )
    }

    /// Tells that a tool call starts.
    pub fn tool_call_start(
        &self,
        recipient: &str,
        message_id: &str,
        tool_id: Option<&str>,
        tool_name: &str,
        arguments_json: &str,
    ) -> (deliveries: Vec<Delivery>)
        ensures
            broadcasts(
                self@.router.connections,
                OutboundView::ToolCallStart {
                    draft_id: message_id@,
                    tool_id: opt_str(tool_id),
                    tool_name: tool_name@,
                    arguments_json: arguments_json@,
                },
                deliveries@,
            ),
    {
        self.dispatch(
            OutboundFrame::ToolCallStart {
                draft_id: message_id.to_owned(),
                tool_id: to_owned_opt(tool_id),
                tool_name: tool_name.to_owned(),
                arguments_json: arguments_json.to_owned(),
            },
            recipient,
        )
    }

    /// Tells how a tool call ended.
    pub fn tool_call_result(
        &self,
        recipient: &str,
        message_id: &str,
        tool_id: Option<&str>,
        tool_name: &str,
        success: bool,
        output: &str,
    ) -> (deliveries: Vec<Delivery>)
        ensures
            broadcasts(
                self@.router.connections,
                OutboundView::ToolCallResult {
                    draft_id: message_id@,
                    tool_id: opt_str(tool_id),
                    tool_name: tool_name@,
                    success,
                    output: output@,
                },
                deliveries@,
            ),
    {
        self.dispatch(
            OutboundFrame::ToolCallResult {
                draft_id: message_id.to_owned(),
                tool_id: to_owned_opt(tool_id),
                tool_name: tool_name.to_owned(),
                success,
                output: output.to_owned(),
            },
            recipient,
        )
    }

    /// Sends the final text of a draft.
    pub fn finalize_draft(&self, recipient: &str, message_id: &str, text: &str) -> (deliveries: Vec<
        Delivery,
    >)
        ensures
            broadcasts(
                self@.router.connections,
                OutboundView::DraftFinalize { draft_id: message_id@, text: text@ },
                deliveries@,
            ),
    {
        self.dispatch(
            OutboundFrame::DraftFinalize { draft_id: message_id.to_owned(), text: text.to_owned() },
            recipient,
        )
    }

    /// Tells that a draft was given up.
    pub fn cancel_draft(&self, recipient: &str, message_id: &str) -> (deliveries: Vec<Delivery>)
        ensures
            broadcasts(
                self@.router.connections,
                OutboundView::DraftCancel { draft_id: message_id@ },
                deliveries@,
            ),
    {
        self.dispatch(OutboundFrame::DraftCancel { draft_id: message_id.to_owned() }, recipient)
    }

    /// Tells that a message of the user gets no reply.
    pub fn notify_no_reply(
        &self,
        recipient: &str,
        sender_id: &str,
        user_message_id: &str,
        kind: &str,
        reason: Option<&str>,
        elapsed_ms: u64,
        display_text: &str,
    ) -> (deliveries: Vec<Delivery>)
        ensures
            broadcasts(
                self@.router.connections,
                OutboundView::NoReply {
                    sender_id: sender_id@,
                    message_id: user_message_id@,
                    kind: kind@,
                    reason: opt_str(reason),
                    elapsed_ms,
                    display_text: display_text@,
                },
                deliveries@,
            ),
    {
        self.dispatch(
            OutboundFrame::NoReply {
                sender_id: sender_id.to_owned(),
                message_id: user_message_id.to_owned(),
                kind: kind.to_owned(),
                reason: to_owned_opt(reason),
                elapsed_ms,
                display_text: display_text.to_owned(),
            },
            recipient,
        )
    }

    /// Tells that the agent starts to type.
    pub fn start_typing(&self, recipient: &str) -> (deliveries: Vec<Delivery>)
        ensures
            broadcasts(
                self@.router.connections,
                OutboundView::TypingStart { sender_id: recipient@ },
                deliveries@,
            ),
    {
        self.dispatch(OutboundFrame::TypingStart { sender_id: recipient.to_owned() }, recipient)
    }

    /// Tells that the agent stopped typing.
    pub fn stop_typing(&self, recipient: &str) -> (deliveries: Vec<Delivery>)
        ensures
            broadcasts(
                self@.router.connections,
                OutboundView::TypingStop { sender_id: recipient@ },
                deliveries@,
            ),
    {
        self.dispatch(OutboundFrame::TypingStop { sender_id: recipient.to_owned() }, recipient)
    }

    /// Asks for an approval under the id `request_id`: files `waiter` for the answer, then sends
    /// the request.
    pub fn request_approval_as(
        &mut self,
        request_id: String,
        recipient: &str,
        request: &ChannelApprovalRequest,
        waiter: Waiter,
    ) -> (ticket: ApprovalTicket)
        ensures
            ticket.request_id@ == request_id@,
            final(self)@ == asked(old(self)@, request_id@, waiter),
            broadcasts(
                old(self)@.router.connections,
                approval_frame(recipient@, request_id@, *request),
                ticket.deliveries@,
            ),
    {
        self.add_waiter(request_id.clone(), waiter);
        let deliveries = self.dispatch(
            OutboundFrame::ApprovalRequest {
                sender_id: recipient.to_owned(),
                request_id: request_id.clone(),
                tool_name: request.tool_name.clone(),
                arguments_summary: request.arguments_summary.clone(),
            },
            recipient,
        );
        ApprovalTicket { request_id, deliveries }
    }

    /// Asks for an approval under a new random id.
    pub fn request_approval(
        &mut self,
        recipient: &str,
        request: &ChannelApprovalRequest,
        waiter: Waiter,
    ) -> (ticket: ApprovalTicket)
        ensures
            is_uuid_v4(ticket.request_id@),
            final(self)@ == asked(old(self)@, ticket.request_id@, waiter),
            broadcasts(
                old(self)@.router.connections,
                approval_frame(recipient@, ticket.request_id@, *request),
                ticket.deliveries@,
            ),
    {
        self.request_approval_as(new_uuid_text(), recipient, request, waiter)
    }

    /// Ends the wait for the answer to `request_id`. A request that timed out is closed, so a late
    /// answer finds no waiter.
    pub fn settle_approval(&mut self, request_id: &String, outcome: ApprovalOutcome) -> (response:
        Option<ChannelApprovalResponse>)
        ensures
            response == Some(response_to(decision_of(outcome))),
            outcome == ApprovalOutcome::Answered(ApprovalDecision::Approve) ==> response == Some(
                ChannelApprovalResponse::Approve,
            ),
            outcome == ApprovalOutcome::Answered(ApprovalDecision::Deny) ==> response == Some(
                ChannelApprovalResponse::Deny,
            ),
            outcome == ApprovalOutcome::Answered(ApprovalDecision::Always) ==> response == Some(
                ChannelApprovalResponse::AlwaysApprove,
            ),
            !(outcome is Answered) ==> response == Some(ChannelApprovalResponse::Deny),
            final(self)@ == settled(old(self)@, request_id@, outcome),
    {
        let decision = match outcome {
            ApprovalOutcome::Answered(decision) => decision,
            ApprovalOutcome::WaiterDropped => ApprovalDecision::Deny,
            ApprovalOutcome::TimedOut => {
                let _ = self.take_waiter(request_id);
                ApprovalDecision::Deny
            },
        };
        Some(ChannelApprovalResponse::from(decision))
    }
}

/// A reply always finalizes the draft that was opened for the same recipient and thread.
pub proof fn law_reply_finalizes_its_draft(
    recipient: Seq<char>,
    thread: Option<Seq<char>>,
    content: Seq<char>,
)
    ensures
        opening_frame(recipient, thread) matches OutboundView::DraftStart { draft_id, .. }
            && reply_frame(recipient, thread, content) == (OutboundView::DraftFinalize {
            draft_id,
            text: content,
        }),
{
}

/// The user's word is what the orchestrator hears: an approval comes out as one, a denial as one,
/// and a lasting approval as a lasting one. Without an answer, for whatever reason, it is a
/// denial.
pub proof fn law_decisions_come_out_as_made(outcome: ApprovalOutcome)
    ensures
        match outcome {
            ApprovalOutcome::Answered(ApprovalDecision::Approve) => {
                response_to(decision_of(outcome)) == ChannelApprovalResponse::Approve
            },
            ApprovalOutcome::Answered(ApprovalDecision::Deny) => {
                response_to(decision_of(outcome)) == ChannelApprovalResponse::Deny
            },
            ApprovalOutcome::Answered(ApprovalDecision::Always) => {
                response_to(decision_of(outcome)) == ChannelApprovalResponse::AlwaysApprove
            },
            ApprovalOutcome::WaiterDropped | ApprovalOutcome::TimedOut => {
                response_to(decision_of(outcome)) == ChannelApprovalResponse::Deny
            },
        },
{
}

/// Asking files the asker under the id of the request, and leaves all other askers and the rest of
/// the channel as they are. The wait that timed out takes just this asker out again; any other end
/// changes nothing.
pub proof fn law_asking_and_settling_concern_one_request(
    v: ChannelView,
    request_id: Seq<char>,
    waiter: Waiter,
    outcome: ApprovalOutcome,
    other: Seq<char>,
)
    ensures
        ({
            let w = asked(v, request_id, waiter);
            &&& w.pending_approvals.contains_key(request_id)
            &&& w.pending_approvals[request_id] == waiter
            &&& w == (ChannelView { pending_approvals: w.pending_approvals, ..v })
        }),
        ({
            let u = settled(v, request_id, outcome);
            &&& outcome is TimedOut ==> !u.pending_approvals.contains_key(request_id)
            &&& !(outcome is TimedOut) ==> u == v
            &&& u == (ChannelView { pending_approvals: u.pending_approvals, ..v })
        }),
        other != request_id ==> ({
            let w = asked(v, request_id, waiter);
            let u = settled(v, request_id, outcome);
            &&& w.pending_approvals.contains_key(other) == v.pending_approvals.contains_key(other)
            &&& u.pending_approvals.contains_key(other) == v.pending_approvals.contains_key(other)
            &&& v.pending_approvals.contains_key(other) ==> w.pending_approvals[other]
                == v.pending_approvals[other] && u.pending_approvals[other]
                == v.pending_approvals[other]
        }),
{
}

/// A request for approval shows the user which tool is to run and on what, under the id that the
/// answer has to carry, to the recipient it was made for.
pub proof fn law_request_shows_what_is_asked(
    recipient: Seq<char>,
    request_id: Seq<char>,
    request: ChannelApprovalRequest,
)
    ensures
        approval_frame(recipient, request_id, request) == (OutboundView::ApprovalRequest {
            sender_id: recipient,
            request_id,
            tool_name: request.tool_name@,
            arguments_summary: request.arguments_summary@,
        }),
{
}

/// A draft is opened for its recipient, who is also its conversation, under the id
/// `brick-<recipient>`, with `-<thread>` behind it where there is a thread; and the reply with its
/// whole text closes it under that very id.
pub proof fn law_drafts_are_known_by_recipient_and_thread(
    recipient: Seq<char>,
    thread: Option<Seq<char>>,
    content: Seq<char>,
)
    ensures
        ({
            let id = match thread {
                Some(t) => "brick-"@ + recipient + "-"@ + t,
                None => "brick-"@ + recipient,
            };
            &&& opening_frame(recipient, thread) == (OutboundView::DraftStart {
                sender_id: recipient,
                draft_id: id,
                conversation_id: recipient,
            })
            &&& reply_frame(recipient, thread, content) == (OutboundView::DraftFinalize {
                draft_id: id,
                text: content,
            })
        }),
{
}

/// How long an approval request waits for its answer.
pub proof fn law_limit_of_a_request()
    ensures
        APPROVAL_TIMEOUT_SECS == 30,
{
}

} // verus!
