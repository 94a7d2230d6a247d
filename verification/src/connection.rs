//! Serving connections: who is let in, how queued frames are written, and when a connection is
//! over.
use crate::wire::EncodeError;
use vstd::prelude::*;

verus! {

/// How many frames may be queued for one connection.
pub const OUTBOUND_CAPACITY: usize = 64;

/// How many seconds one frame may take to be written before the connection is given up. A client
/// that hangs would otherwise hold its connection forever; once dropped, it comes back and reads
/// the history.
pub const SEND_TIMEOUT_SECS: u64 = 10;

/// Lets clients in, up to a number that are served at a time. A client for whom there is no room
/// waits, and nobody else is accepted meanwhile.
pub struct Door {
    max: u32,
    live: u32,
    waiting: bool,
}

/// What a [`Door`] knows: how many may be served at a time, how many are served now, and whether a
/// client waits for room.
#[verifier::ext_equal]
pub struct DoorView {
    pub max: nat,
    pub live: nat,
    pub waiting: bool,
}

impl View for Door {
    type V = DoorView;

    closed spec fn view(&self) -> DoorView {
        DoorView { max: self.max as nat, live: self.live as nat, waiting: self.waiting }
    }
}

/// What happened at the door.
#[derive(Debug, Clone, Copy, PartialEq, Eq, Structural)]
pub enum DoorEvent {
    /// A client connected.
    Accepted,
    /// Accepting a client failed.
    AcceptFailed,
    /// A client that was served is gone, in whichever way its connection ended.
    Ended,
}

impl DoorView {
    /// A door for `max` clients with nobody at it.
    pub open spec fn fresh(max: nat) -> DoorView {
        DoorView { max, live: 0, waiting: false }
    }

    /// No more clients are served than may be, and a client waits only while there is no room.
    pub open spec fn in_bounds(self) -> bool {
        self.live <= self.max && (self.waiting ==> self.live == self.max)
    }

    /// Whether `event` lets a client in: one that comes while there is room and nobody waits, or
    /// the one that waits, once another has gone.
    pub open spec fn lets_in(self, event: DoorEvent) -> bool {
        match event {
            DoorEvent::Accepted => !self.waiting && self.live < self.max,
            DoorEvent::AcceptFailed => false,
            DoorEvent::Ended => self.waiting && self.live > 0,
        }
    }

    /// The door after `event`. A place that comes free goes to the client that waits.
    pub open spec fn after(self, event: DoorEvent) -> DoorView {
        match event {
            DoorEvent::Accepted => if self.lets_in(event) {
                DoorView { live: self.live + 1, ..self }
            } else {
                DoorView { waiting: true, ..self }
            },
            DoorEvent::AcceptFailed => self,
            DoorEvent::Ended => if self.live == 0 {
                self
            } else if self.waiting {
                DoorView { waiting: false, ..self }
            } else {
                DoorView { live: (self.live - 1) as nat, ..self }
            },
        }
    }
}

impl Door {
    #[verifier::type_invariant]
    spec fn well_formed(self) -> bool {
        self@.in_bounds()
    }

    /// A door for `max` clients with nobody at it.
    pub fn new(max: u32) -> (door: Door)
        ensures
            door@ == DoorView::fresh(max as nat),
    {
        Door { max, live: 0, waiting: false }
    }

    /// Whether the next client may be accepted. While one waits for room, none is.
    pub fn accepts(&self) -> (yes: bool)
        ensures
            yes == !self@.waiting,
    {
        !self.waiting
    }

    /// How many clients are served, at most as many as may be.
    pub fn live(&self) -> (n: u32)
        ensures
            n == self@.live,
            n <= self@.max,
    {
        proof {
            use_type_invariant(self);
        }
        self.live
    }

    /// Takes note of `event`, and says whether the client at the door is to be served now.
    pub fn step(&mut self, event: DoorEvent) -> (serve: bool)
        ensures
            serve == old(self)@.lets_in(event),
            final(self)@ == old(self)@.after(event),
    {
        proof {
            use_type_invariant(&*self);
        }
        match event {
            DoorEvent::Accepted => {
                if !self.waiting && self.live < self.max {
                    self.live = self.live + 1;
                    true
                } else {
                    self.waiting = true;
                    false
                }
            },
            DoorEvent::AcceptFailed => false,
            DoorEvent::Ended => {
                if self.live == 0 {
                    false
                } else if self.waiting {
                    self.waiting = false;
                    true
                } else {
                    self.live = self.live - 1;
                    false
                }
            },
        }
    }
}

/// The door after `events`, one after the other.
pub open spec fn door_run(door: DoorView, events: Seq<DoorEvent>) -> DoorView
    decreases events.len(),
{
    if events.len() == 0 {
        door
    } else {
        door_run(door, events.drop_last()).after(events.last())
    }
}

/// How many clients were let in over `events`.
pub open spec fn let_in(door: DoorView, events: Seq<DoorEvent>) -> nat
    decreases events.len(),
{
    if events.len() == 0 {
        0
    } else {
        let before = events.drop_last();
        let_in(door, before) + if door_run(door, before).lets_in(events.last()) {
            1nat
        } else {
            0nat
        }
    }
}

/// How many clients went over `events`.
pub open spec fn ended(events: Seq<DoorEvent>) -> nat
    decreases events.len(),
{
    if events.len() == 0 {
        0
    } else {
        ended(events.drop_last()) + if events.last() == DoorEvent::Ended {
            1nat
        } else {
            0nat
        }
    }
}

/// At every moment, whatever happens at the door, at most as many clients are served as may be.
pub proof fn law_no_more_are_served_than_may_be(max: nat, events: Seq<DoorEvent>)
    ensures
        door_run(DoorView::fresh(max), events).live <= max,
        door_run(DoorView::fresh(max), events).in_bounds(),
    decreases events.len(),
{
    lemma_run_keeps_max(DoorView::fresh(max), events);
    if events.len() > 0 {
        law_no_more_are_served_than_may_be(max, events.drop_last());
    }
}

/// The clients that are served are those that were let in and have not gone: each one that goes,
/// in whichever way, gives its place back. Only clients that were let in can go, which is what is
/// asked of `events`.
pub proof fn law_places_are_given_back(max: nat, events: Seq<DoorEvent>)
    requires
        forall|n: int|
            0 <= n <= events.len() ==> ended(#[trigger] events.take(n)) <= let_in(
                DoorView::fresh(max),
                events.take(n),
            ),
    ensures
        door_run(DoorView::fresh(max), events).live == let_in(DoorView::fresh(max), events) - ended(
            events,
        ),
    decreases events.len(),
{
    let door = DoorView::fresh(max);
    if events.len() > 0 {
        let before = events.drop_last();
        assert forall|n: int| 0 <= n <= before.len() implies ended(#[trigger] before.take(n))
            <= let_in(door, before.take(n)) by {
            assert(before.take(n) =~= events.take(n));
        }
        law_places_are_given_back(max, before);
        assert(events.take(events.len() as int) =~= events);
        assert(ended(events) <= let_in(door, events));
    }
}

/// How many may be served never changes.
proof fn lemma_run_keeps_max(door: DoorView, events: Seq<DoorEvent>)
    ensures
        door_run(door, events).max == door.max,
    decreases events.len(),
{
    if events.len() > 0 {
        lemma_run_keeps_max(door, events.drop_last());
    }
}

/// A failed attempt to accept changes nothing, and a connection that ends takes no other with it:
/// only an end makes the clients that are served fewer, and by one at most.
pub proof fn law_failures_stay_their_own(door: DoorView, event: DoorEvent)
    ensures
        door.after(DoorEvent::AcceptFailed) == door,
        event != DoorEvent::Ended ==> door.after(event).live >= door.live,
        door.after(event).live + 1 >= door.live,
{
}

/// What to do about a queued frame.
#[derive(Debug)]
pub enum WriterAction {
    /// Write the text.
    Write(String),
    /// Leave the frame out and take the next.
    Skip,
}

/// A frame that could not be encoded is left out.
pub fn after_encode(encoded: Result<String, EncodeError>) -> (action: WriterAction)
    ensures
        action == match encoded {
            Ok(text) => WriterAction::Write(text),
            Err(_) => WriterAction::Skip,
        },
{
    match encoded {
        Ok(text) => WriterAction::Write(text),
        Err(_) => WriterAction::Skip,
    }
}

/// What became of writing a frame.
#[derive(Debug, Clone, Copy, PartialEq, Eq, Structural)]
pub enum WriteOutcome {
    Written,
    Failed,
    TimedOut,
}

/// Why no more frames are written to a connection.
#[derive(Debug, Clone, Copy, PartialEq, Eq, Structural)]
pub enum WriterEnd {
    /// The connection was forgotten, and all that was queued for it is written.
    QueueClosed,
    /// A frame could not be written.
    Failed,
    /// A frame could not be written in time.
    TimedOut,
}

/// Writing goes on with the next frame only after one was written: `None`.
pub fn after_write(outcome: WriteOutcome) -> (end: Option<WriterEnd>)
    ensures
        end == match outcome {
            WriteOutcome::Written => None,
            WriteOutcome::Failed => Some(WriterEnd::Failed),
            WriteOutcome::TimedOut => Some(WriterEnd::TimedOut),
        },
{
    match outcome {
        WriteOutcome::Written => None,
        WriteOutcome::Failed => Some(WriterEnd::Failed),
        WriteOutcome::TimedOut => Some(WriterEnd::TimedOut),
    }
}

/// What happened on a connection.
#[derive(Debug, Clone, Copy, PartialEq, Eq, Structural)]
pub enum ConnectionEvent {
    /// Nothing more is read from it.
    ReadingEnded,
    /// Nothing more is written to it.
    WritingEnded(WriterEnd),
}

/// Whether a connection is over, so that reading from it stops and it is forgotten with
/// [`BrickChannel::disconnect`](crate::channel::BrickChannel::disconnect). It is over once nothing
/// more is read from it, and once a frame could not be written in time: the client that hangs is
/// dropped and comes back. After a write that failed at once, reading finds out for itself whether
/// the client is gone.
pub fn connection_is_over(event: ConnectionEvent) -> (over: bool)
    ensures
        over == (event == ConnectionEvent::ReadingEnded || event == ConnectionEvent::WritingEnded(
            WriterEnd::TimedOut,
        )),
{
    match event {
        ConnectionEvent::ReadingEnded => true,
        ConnectionEvent::WritingEnded(WriterEnd::TimedOut) => true,
        ConnectionEvent::WritingEnded(WriterEnd::Failed)
        | ConnectionEvent::WritingEnded(WriterEnd::QueueClosed) => false,
    }
}

/// A client that comes while there is room and nobody waits is served at once. One that comes
/// while there is none waits, and is the next to be served when another goes. Without anyone
/// waiting, an end frees a place.
pub proof fn law_clients_are_served_as_soon_as_there_is_room(door: DoorView)
    requires
        door.in_bounds(),
    ensures
        !door.waiting && door.live < door.max ==> door.lets_in(DoorEvent::Accepted) && door.after(
            DoorEvent::Accepted,
        ) == (DoorView { max: door.max, live: door.live + 1, waiting: false }),
        !door.waiting && door.live == door.max ==> !door.lets_in(DoorEvent::Accepted)
            && door.after(DoorEvent::Accepted) == (DoorView {
            max: door.max,
            live: door.live,
            waiting: true,
        }),
        door.waiting && door.live > 0 ==> door.lets_in(DoorEvent::Ended) && door.after(
            DoorEvent::Ended,
        ) == (DoorView { max: door.max, live: door.live, waiting: false }),
        !door.waiting && door.live > 0 ==> !door.lets_in(DoorEvent::Ended) && door.after(
            DoorEvent::Ended,
        ) == (DoorView { max: door.max, live: (door.live - 1) as nat, waiting: false }),
        !door.lets_in(DoorEvent::AcceptFailed),
{
}

/// At the start nobody is served and nobody waits.
pub proof fn law_a_door_starts_empty(max: nat)
    ensures
        DoorView::fresh(max).max == max,
        DoorView::fresh(max).live == 0,
        !DoorView::fresh(max).waiting,
{
}

/// How much may be queued for a client, and how long a write may take.
pub proof fn law_limits_of_a_connection()
    ensures
        OUTBOUND_CAPACITY == 64,
        SEND_TIMEOUT_SECS == 10,
{
}

} // verus!
