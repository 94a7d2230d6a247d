//! The channel itself: its configuration, its state, and what it sends.
use crate::approvals::{PendingApprovals, Waiter};
use crate::frames::{OutboundFrame, OutboundView};
use crate::keys::opt_text;
use crate::router::{
    law_one_handle_each_misses_nobody, leads_to_one_of, one_handle_each, ConnId, ConnectionView,
    Router, RouterView,
};
use crate::session::{ReadSession, SessionView};
use std::path::PathBuf;
use tokio::sync::mpsc;
use vstd::hash_map::StringHashMap;
use vstd::prelude::*;

verus! {

/// The name of the channel.
pub const CHANNEL_NAME: &'static str = "brick";

/// The version that the daemon reports to its clients: that of this package.
pub const DAEMON_VERSION: &'static str = "0.7.4";

/// The bridge to the client process of the device.
pub struct BrickChannel {
    socket_path: PathBuf,
    workspace_dir: PathBuf,
    max_connections: u32,
    daemon_version: String,
    /// Where there is one, every connection has to present it.
    auth_token: Option<String>,
    router: Router,
    listening: bool,
    pending_approvals: PendingApprovals,
    /// The model hint last set for each session. The orchestrator decides which model runs; this
    /// is what the user picked, ready to be read back. It is lost on restart.
    session_models: StringHashMap<String>,
}

/// What a [`BrickChannel`] knows.
#[verifier::ext_equal]
pub struct ChannelView {
    pub socket_path: PathBuf,
    pub workspace_dir: PathBuf,
    pub max_connections: u32,
    pub daemon_version: Seq<char>,
    pub auth_token: Option<Seq<char>>,
    pub router: RouterView,
    pub listening: bool,
    pub pending_approvals: Map<Seq<char>, Waiter>,
    pub session_models: Map<Seq<char>, Seq<char>>,
}

impl View for BrickChannel {
    type V = ChannelView;

    closed spec fn view(&self) -> ChannelView {
        ChannelView {
            socket_path: self.socket_path,
            workspace_dir: self.workspace_dir,
            max_connections: self.max_connections,
            daemon_version: self.daemon_version@,
            auth_token: opt_text(self.auth_token),
            router: self.router@,
            listening: self.listening,
            pending_approvals: self.pending_approvals@,
            session_models: self.session_models@.map_values(|m: String| m@),
        }
    }
}

/// A frame on its way to one connection.
pub struct Delivery {
    pub tx: mpsc::Sender<OutboundFrame>,
    pub frame: OutboundFrame,
}

/// `deliveries` carries `frame` to each of `connections` once, and to no other, in some order.
pub open spec fn broadcasts(
    connections: Map<ConnId, ConnectionView>,
    frame: OutboundView,
    deliveries: Seq<Delivery>,
) -> bool {
    &&& one_handle_each(connections, deliveries.map_values(|d: Delivery| d.tx))
    &&& forall|i: int| 0 <= i < deliveries.len() ==> (#[trigger] deliveries[i]).frame@ == frame
}

impl BrickChannel {
    /// A channel on `socket_path` that serves at most `max_connections` clients at a time, with
    /// the sessions stored under `workspace_dir`.
    pub fn new<S: Into<PathBuf>, W: Into<PathBuf>>(
        socket_path: S,
        max_connections: u32,
        workspace_dir: W,
    ) -> (channel: BrickChannel)
        ensures
            call_ensures(S::into, (socket_path,), channel@.socket_path),
            call_ensures(W::into, (workspace_dir,), channel@.workspace_dir),
            channel@ == (ChannelView {
                socket_path: channel@.socket_path,
                workspace_dir: channel@.workspace_dir,
                max_connections,
                daemon_version: DAEMON_VERSION@,
                auth_token: None,
                router: RouterView::empty(),
                listening: false,
                pending_approvals: Map::empty(),
                session_models: Map::empty(),
            }),
    {
        let channel = BrickChannel {
            socket_path: socket_path.into(),
            workspace_dir: workspace_dir.into(),
            max_connections,
            daemon_version: DAEMON_VERSION.to_owned(),
            auth_token: None,
            router: Router::new(),
            listening: false,
            pending_approvals: PendingApprovals::new(),
            session_models: StringHashMap::new(),
        };
        assert(channel@.session_models =~= Map::empty());
        channel
    }

    /// Asks every connection to present `token` before it is heard.
    pub fn with_auth_token(self, token: &str) -> (channel: BrickChannel)
        ensures
            channel@ == (ChannelView { auth_token: Some(token@), ..self@ }),
    {
        let mut channel = self;
        channel.auth_token = Some(token.to_owned());
        channel
    }

    /// Sends `frame` to every live connection. `recipient` plays no part.
    pub fn dispatch(&self, frame: OutboundFrame, recipient: &str) -> (deliveries: Vec<Delivery>)
        ensures
            broadcasts(self@.router.connections, frame@, deliveries@),
    {
        let txs = self.router.senders_for(recipient);
        let ghost all = txs@;
        let mut deliveries: Vec<Delivery> = Vec::new();
        for tx in it: txs
            invariant
                it.seq() == all,
                deliveries.len() == it.index(),
                forall|i: int|
                    0 <= i < deliveries.len() ==> (#[trigger] deliveries[i]).tx == all[i],
                forall|i: int|
                    0 <= i < deliveries.len() ==> (#[trigger] deliveries[i]).frame@ == frame@,
        {
            deliveries.push(Delivery { tx, frame: frame.clone() });
        }
        assert(deliveries@.map_values(|d: Delivery| d.tx) =~= all);
        deliveries
    }

    /// Takes in a connection whose frames go to `tx`. Where the channel has no token, the
    /// connection is heard from the start.
    pub fn connect(&mut self, tx: mpsc::Sender<OutboundFrame>) -> (session: ReadSession)
        ensures
            final(self)@ == (ChannelView {
                router: old(self)@.router.registered(tx),
                ..old(self)@
            }),
            session@ == (SessionView {
                conn_id: old(self)@.router.next_id,
                authed: old(self)@.auth_token is None,
            }),
    {
        let conn_id = self.router.register(tx);
        ReadSession::new(conn_id, self.auth_token.is_none())
    }

    /// Forgets the connection of `session`.
    pub fn disconnect(&mut self, session: &ReadSession)
        ensures
            final(self)@ == (ChannelView {
                router: old(self)@.router.dropped(session@.conn_id),
                ..old(self)@
            }),
    {
        self.router.drop_conn(session.conn_id());
    }

    /// Where the answers to `session` go, while it is connected.
    pub fn outlet(&self, session: &ReadSession) -> (tx: Option<&mpsc::Sender<OutboundFrame>>)
        ensures
            match tx {
                Some(tx) => self@.router.connections.contains_key(session@.conn_id) && *tx
                    == self@.router.connections[session@.conn_id].tx,
                None => !self@.router.connections.contains_key(session@.conn_id),
            },
    {
        self.router.outlet(session.conn_id())
    }

    /// Notes that the connection `conn` speaks for `sender_id`.
    pub(crate) fn associate(&mut self, conn: ConnId, sender_id: String)
        ensures
            final(self)@ == (ChannelView {
                router: old(self)@.router.associated(conn, sender_id@),
                ..old(self)@
            }),
    {
        self.router.associate(conn, sender_id);
    }

    /// Keeps `model` as the hint of the session `key`.
    pub(crate) fn set_session_model(&mut self, key: String, model: String)
        ensures
            final(self)@ == (ChannelView {
                session_models: old(self)@.session_models.insert(key@, model@),
                ..old(self)@
            }),
    {
        self.session_models.insert(key, model);
        assert(self@.session_models =~= old(self)@.session_models.insert(key@, model@));
    }

    /// The hint last kept for the session `key`.
    pub(crate) fn session_model(&self, key: &str) -> (model: Option<String>)
        ensures
            opt_text(model) == if self@.session_models.contains_key(key@) {
                Some(self@.session_models[key@])
            } else {
                None
            },
    {
        match self.session_models.get(key) {
            Some(model) => Some(model.clone()),
            None => None,
        }
    }

    /// Files `waiter` for the answer to `request_id`.
    pub(crate) fn add_waiter(&mut self, request_id: String, waiter: Waiter)
        ensures
            final(self)@ == (ChannelView {
                pending_approvals: old(self)@.pending_approvals.insert(request_id@, waiter),
                ..old(self)@
            }),
    {
        self.pending_approvals.insert(request_id, waiter);
    }

    /// Takes out the waiter for the answer to `request_id`, if it still waits.
    pub(crate) fn take_waiter(&mut self, request_id: &String) -> (waiter: Option<Waiter>)
        ensures
            final(self)@ == (ChannelView {
                pending_approvals: old(self)@.pending_approvals.remove(request_id@),
                ..old(self)@
            }),
            match waiter {
                Some(w) => old(self)@.pending_approvals.contains_key(request_id@) && w
                    == old(self)@.pending_approvals[request_id@],
                None => !old(self)@.pending_approvals.contains_key(request_id@),
            },
    {
        self.pending_approvals.remove(request_id)
    }

    /// The token that connections have to present, if there is one.
    pub(crate) fn auth_token(&self) -> (token: Option<&String>)
        ensures
            match token {
                Some(t) => self@.auth_token == Some(t@),
                None => self@.auth_token is None,
            },
    {
        self.auth_token.as_ref()
    }

    /// The version that the daemon reports.
    pub(crate) fn daemon_version(&self) -> (version: &String)
        ensures
            version@ == self@.daemon_version,
    {
        &self.daemon_version
    }

    /// Where the socket is bound.
    pub fn socket_path(&self) -> (path: &PathBuf)
        ensures
            *path == self@.socket_path,
    {
        &self.socket_path
    }

    /// Where the sessions are stored.
    pub fn workspace_dir(&self) -> (path: &PathBuf)
        ensures
            *path == self@.workspace_dir,
    {
        &self.workspace_dir
    }

    /// How many clients are served at a time.
    pub fn max_connections(&self) -> (n: u32)
        ensures
            n == self@.max_connections,
    {
        self.max_connections
    }

    /// Notes that the socket is bound and ready.
    pub fn mark_listening(&mut self)
        ensures
            final(self)@ == (ChannelView { listening: true, ..old(self)@ }),
    {
        self.listening = true;
    }

    /// True once the socket is bound and ready.
    pub fn health_check(&self) -> (ready: bool)
        ensures
            ready == self@.listening,
    {
        self.listening
    }
}

/// A broadcast misses nobody and adds nobody: there are as many deliveries as connections, every
/// connection gets one, every one goes to a connection, and each carries the frame.
pub proof fn law_broadcast_reaches_everyone_once(
    connections: Map<ConnId, ConnectionView>,
    frame: OutboundView,
    deliveries: Seq<Delivery>,
)
    requires
        broadcasts(connections, frame, deliveries),
    ensures
        deliveries.len() == connections.dom().len(),
        forall|c: ConnId| #[trigger]
            connections.contains_key(c) ==> exists|i: int|
                0 <= i < deliveries.len() && cloned(
                    connections[c].tx,
                    (#[trigger] deliveries[i]).tx,
                ),
        forall|i: int|
            0 <= i < deliveries.len() ==> (#[trigger] deliveries[i]).frame@ == frame
                && leads_to_one_of(connections, deliveries[i].tx),
{
    let txs = deliveries.map_values(|d: Delivery| d.tx);
    law_one_handle_each_misses_nobody(connections, txs);
    assert forall|c: ConnId| #[trigger] connections.contains_key(c) implies exists|i: int|
        0 <= i < deliveries.len() && cloned(connections[c].tx, (#[trigger] deliveries[i]).tx) by {
        let i = choose|i: int| 0 <= i < txs.len() && cloned(connections[c].tx, #[trigger] txs[i]);
        assert(deliveries[i].tx == txs[i]);
    }
    assert forall|i: int| 0 <= i < deliveries.len() implies (#[trigger] deliveries[i]).frame@
        == frame && leads_to_one_of(connections, deliveries[i].tx) by {
        assert(txs[i] == deliveries[i].tx);
    }
}

/// What the channel calls itself, and the version that it reports.
pub proof fn law_names_of_the_channel()
    ensures
        CHANNEL_NAME@ == "brick"@,
        DAEMON_VERSION@ == "0.7.4"@,
{
}

} // verus!
