//! What the bridge remembers of one connection while it reads from it.
use crate::router::ConnId;
use vstd::prelude::*;

verus! {

/// One connection that is being read.
pub struct ReadSession {
    conn_id: ConnId,
    authed: bool,
}

/// What a [`ReadSession`] knows: its connection, and whether it is heard on more than the
/// handshake.
#[verifier::ext_equal]
pub struct SessionView {
    pub conn_id: ConnId,
    pub authed: bool,
}

impl View for ReadSession {
    type V = SessionView;

    closed spec fn view(&self) -> SessionView {
        SessionView { conn_id: self.conn_id, authed: self.authed }
    }
}

impl ReadSession {
    /// A session on the connection `conn_id`.
    pub(crate) fn new(conn_id: ConnId, authed: bool) -> (session: ReadSession)
        ensures
            session@ == (SessionView { conn_id, authed }),
    {
        ReadSession { conn_id, authed }
    }

    /// The connection.
    pub fn conn_id(&self) -> (id: ConnId)
        ensures
            id == self@.conn_id,
    {
        self.conn_id
    }

    /// Whether the session is heard on more than the handshake.
    pub fn is_authed(&self) -> (authed: bool)
        ensures
            authed == self@.authed,
    {
        self.authed
    }

    /// Has the session heard from now on.
    pub(crate) fn grant(&mut self)
        ensures
            final(self)@ == (SessionView { authed: true, ..old(self)@ }),
    {
        self.authed = true;
    }
}

} // verus!
