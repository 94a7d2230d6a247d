//! Reading back the stored turns of a conversation.
use crate::frames::{history_view, HistoryMessage, HistoryView, OutboundFrame, OutboundView};
use vstd::prelude::*;

verus! {

/// One turn as the session store keeps it.
#[derive(Debug)]
pub struct StoredTurn {
    pub role: String,
    pub content: String,
}

/// What a client sees of a stored turn. The store keeps no times, so the time is 0 and clients go
/// by the order.
pub open spec fn turn_view(turn: StoredTurn) -> HistoryView {
    HistoryView { role: turn.role@, content: turn.content@, ts: 0 }
}

/// The last `limit` of `messages`, or all of them where there is no limit or fewer messages.
pub open spec fn most_recent(messages: Seq<HistoryView>, limit: Option<usize>) -> Seq<HistoryView> {
    match limit {
        Some(n) => if messages.len() > n {
            messages.skip(messages.len() - n)
        } else {
            messages
        },
        None => messages,
    }
}

/// What a client is shown of the turns that were found. A store that could not be opened shows
/// none.
pub open spec fn shown(turns: Option<Seq<StoredTurn>>, limit: Option<usize>) -> Seq<HistoryView> {
    match turns {
        Some(turns) => most_recent(turns.map_values(|t: StoredTurn| turn_view(t)), limit),
        None => seq![],
    }
}

/// A history request that waits for the session store: the turns stored under `key` are to be
/// loaded and handed to [`HistoryQuery::answer`].
#[derive(Debug)]
pub struct HistoryQuery {
    pub key: String,
    pub sender_id: String,
    pub reply_target: String,
    pub limit: Option<usize>,
}

/// What a [`HistoryQuery`] says.
#[verifier::ext_equal]
pub struct QueryView {
    pub key: Seq<char>,
    pub sender_id: Seq<char>,
    pub reply_target: Seq<char>,
    pub limit: Option<usize>,
}

impl View for HistoryQuery {
    type V = QueryView;

    open spec fn view(&self) -> QueryView {
        QueryView {
            key: self.key@,
            sender_id: self.sender_id@,
            reply_target: self.reply_target@,
            limit: self.limit,
        }
    }
}

/// The view of the turns that were found.
pub open spec fn opt_turns(turns: Option<Vec<StoredTurn>>) -> Option<Seq<StoredTurn>> {
    match turns {
        Some(t) => Some(t@),
        None => None,
    }
}

impl HistoryQuery {
    /// The answer to the request, from the turns in the store, oldest first. `None` stands for a
    /// store that could not be opened.
    pub fn answer(self, turns: Option<Vec<StoredTurn>>) -> (frame: OutboundFrame)
        ensures
            frame@ == (OutboundView::HistoryResponse {
                sender_id: self@.sender_id,
                reply_target: self@.reply_target,
                messages: shown(opt_turns(turns), self@.limit),
            }),
    {
        let mut messages: Vec<HistoryMessage> = Vec::new();
        if let Some(turns) = turns {
            let total = turns.len();
            let first: usize = match self.limit {
                Some(n) => if total > n {
                    total - n
                } else {
                    0
                },
                None => 0,
            };
            let mut i: usize = first;
            while i < total
                invariant
                    first <= i <= total,
                    total == turns.len(),
                    messages.len() == i - first,
                    forall|j: int|
                        0 <= j < i - first ==> (#[trigger] messages[j])@ == turn_view(
                            turns[first + j],
                        ),
                decreases total - i,
            {
                messages.push(
                    HistoryMessage {
                        role: turns[i].role.clone(),
                        content: turns[i].content.clone(),
                        ts: 0,
                    },
                );
                i += 1;
            }
            assert(history_view(messages@) =~= shown(Some(turns@), self@.limit));
        } else {
            assert(history_view(messages@) =~= shown(None, self@.limit));
        }
        OutboundFrame::HistoryResponse {
            sender_id: self.sender_id,
            reply_target: self.reply_target,
            messages,
        }
    }
}

/// A limit keeps the most recent turns: the answer is the end of what is stored, in order, and
/// has as many turns as the limit allows.
pub proof fn law_limit_keeps_most_recent(messages: Seq<HistoryView>, limit: Option<usize>)
    ensures
        ({
            let kept = most_recent(messages, limit);
            &&& kept.is_suffix_of(messages)
            &&& kept.len() == if limit is Some && limit->0 < messages.len() {
                limit->0 as nat
            } else {
                messages.len()
            }
        }),
{
}

/// A client is shown the newest of the stored turns, oldest first: as many as the limit allows, or
/// all of them without one, each with its own role and text and the time 0. A store that could not
/// be opened shows none.
pub proof fn law_history_shows_the_newest_turns(turns: Seq<StoredTurn>, limit: Option<usize>)
    ensures
        ({
            let messages = shown(Some(turns), limit);
            let dropped = turns.len() - messages.len();
            &&& limit is None ==> messages.len() == turns.len()
            &&& limit matches Some(n) ==> messages.len() == if n < turns.len() {
                n as nat
            } else {
                turns.len()
            }
            &&& forall|i: int|
                0 <= i < messages.len() ==> {
                    &&& (#[trigger] messages[i]).role == turns[dropped + i].role@
                    &&& messages[i].content == turns[dropped + i].content@
                    &&& messages[i].ts == 0
                }
        }),
        shown(None, limit).len() == 0,
{
}

/// A query, and the turns that were found for it, show what they hold.
pub proof fn law_queries_show_what_they_hold(query: HistoryQuery, turns: Vec<StoredTurn>)
    ensures
        query@.key == query.key@,
        query@.sender_id == query.sender_id@,
        query@.reply_target == query.reply_target@,
        query@.limit == query.limit,
        opt_turns(Some(turns)) == Some(turns@),
        opt_turns(None) is None,
{
}

} // verus!
