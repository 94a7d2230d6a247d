//! Which clients are connected, and which senders each of them speaks for.
use crate::frames::OutboundFrame;
use std::collections::HashMap;
use tokio::sync::mpsc;
use vstd::hash_map::StringHashMap;
use vstd::prelude::*;

verus! {

/// Names one connection for as long as it lives.
pub type ConnId = u64;

/// One connected client. A client may stream for several users, so it is known by every sender
/// (`<userId>:<deviceId>`) it has spoken for.
struct ConnectionEntry {
    tx: mpsc::Sender<OutboundFrame>,
    senders: Vec<String>,
}

/// What is known of one connection: where its frames go, and the senders it has spoken for, in
/// the order in which they first appeared.
#[verifier::ext_equal]
pub struct ConnectionView {
    pub tx: mpsc::Sender<OutboundFrame>,
    pub senders: Seq<Seq<char>>,
}

/// The views of a list of strings.
pub open spec fn texts(list: Seq<String>) -> Seq<Seq<char>> {
    Seq::new(list.len(), |i: int| list[i]@)
}

impl View for ConnectionEntry {
    type V = ConnectionView;

    closed spec fn view(&self) -> ConnectionView {
        ConnectionView { tx: self.tx, senders: texts(self.senders@) }
    }
}

/// Routing table. `connections` is the source of truth; `by_sender` lists, for each sender, the
/// connections that spoke for it, once for each time they did.
pub struct Router {
    connections: HashMap<ConnId, ConnectionEntry>,
    by_sender: StringHashMap<Vec<ConnId>>,
    next_id: ConnId,
}

/// What a [`Router`] knows.
#[verifier::ext_equal]
pub struct RouterView {
    pub connections: Map<ConnId, ConnectionView>,
    pub by_sender: Map<Seq<char>, Seq<ConnId>>,
    pub next_id: ConnId,
}

impl View for Router {
    type V = RouterView;

    closed spec fn view(&self) -> RouterView {
        RouterView {
            connections: self.connections@.map_values(|e: ConnectionEntry| e@),
            by_sender: self.by_sender@.map_values(|l: Vec<ConnId>| l@),
            next_id: self.next_id,
        }
    }
}

/// `list` without `conn`, the others in their order.
pub open spec fn without(list: Seq<ConnId>, conn: ConnId) -> Seq<ConnId> {
    list.filter(|c: ConnId| c != conn)
}

impl RouterView {
    /// A table without connections.
    pub open spec fn empty() -> RouterView {
        RouterView { connections: Map::empty(), by_sender: Map::empty(), next_id: 0 }
    }

    /// The connections that are listed under `sender`.
    pub open spec fn listed(self, sender: Seq<char>) -> Seq<ConnId> {
        if self.by_sender.contains_key(sender) {
            self.by_sender[sender]
        } else {
            seq![]
        }
    }

    /// `conn` is connected and has spoken for `sender`.
    pub open spec fn speaks_for(self, conn: ConnId, sender: Seq<char>) -> bool {
        self.connections.contains_key(conn) && self.connections[conn].senders.contains(sender)
    }

    /// The table once `tx` has been registered, under the next id. Ids start over after the last.
    pub open spec fn registered(self, tx: mpsc::Sender<OutboundFrame>) -> RouterView {
        RouterView {
            connections: self.connections.insert(
                self.next_id,
                ConnectionView { tx, senders: seq![] },
            ),
            by_sender: self.by_sender,
            next_id: if self.next_id == u64::MAX {
                0
            } else {
                (self.next_id + 1) as u64
            },
        }
    }

    /// The table once `conn` has spoken for `sender`.
    pub open spec fn associated(self, conn: ConnId, sender: Seq<char>) -> RouterView {
        RouterView {
            connections: if self.connections.contains_key(conn) && !self.speaks_for(conn, sender) {
                self.connections.insert(
                    conn,
                    ConnectionView {
                        senders: self.connections[conn].senders.push(sender),
                        ..self.connections[conn]
                    },
                )
            } else {
                self.connections
            },
            by_sender: self.by_sender.insert(sender, self.listed(sender).push(conn)),
            next_id: self.next_id,
        }
    }

    /// The table once `conn` is gone: from the lists of the senders it spoke for too, and a list
    /// that is left empty goes with it.
    pub open spec fn dropped(self, conn: ConnId) -> RouterView {
        RouterView {
            connections: self.connections.remove(conn),
            by_sender: Map::new(
                |s: Seq<char>|
                    {
                        &&& self.by_sender.contains_key(s)
                        &&& self.speaks_for(conn, s) ==> without(self.by_sender[s], conn).len() > 0
                    },
                |s: Seq<char>|
                    if self.speaks_for(conn, s) {
                        without(self.by_sender[s], conn)
                    } else {
                        self.by_sender[s]
                    },
            ),
            next_id: self.next_id,
        }
    }

    /// The two indexes agree: a connection is listed under exactly the senders it spoke for, it
    /// knows each of them once, and no list is kept empty.
    pub open spec fn consistent(self) -> bool {
        &&& forall|c: ConnId, s: Seq<char>| #[trigger]
            self.speaks_for(c, s) <==> self.listed(s).contains(c)
        &&& forall|s: Seq<char>| #[trigger]
            self.by_sender.contains_key(s) ==> self.by_sender[s].len() > 0
        &&& forall|c: ConnId| #[trigger]
            self.connections.contains_key(c) ==> self.connections[c].senders.no_duplicates()
    }

    /// The next id is unknown to both indexes, and no list is kept empty.
    pub open spec fn next_id_unknown(self) -> bool {
        &&& !self.connections.contains_key(self.next_id)
        &&& forall|s: Seq<char>| !(#[trigger] self.listed(s)).contains(self.next_id)
        &&& forall|s: Seq<char>| #[trigger]
            self.by_sender.contains_key(s) ==> self.by_sender[s].len() > 0
    }

    /// Every connection has an id that was given out, so the next one is free.
    pub open spec fn ids_given_out(self) -> bool {
        forall|c: ConnId| #[trigger] self.connections.contains_key(c) ==> c < self.next_id
    }
}

/// `txs` holds one handle of each connection of `connections`, and no other, in some order.
pub open spec fn one_handle_each(
    connections: Map<ConnId, ConnectionView>,
    txs: Seq<mpsc::Sender<OutboundFrame>>,
) -> bool {
    exists|ids: Seq<ConnId>|
        {
            &&& #[trigger] ids.no_duplicates()
            &&& ids.to_set() == connections.dom()
            &&& ids.len() == txs.len()
            &&& forall|i: int|
                0 <= i < ids.len() ==> cloned(connections[#[trigger] ids[i]].tx, txs[i])
        }
}

/// A copy of `handle`.
fn clone_handle<T: Clone>(handle: &T) -> (copy: T)
    ensures
        cloned(*handle, copy),
{
    handle.clone()
}

/// Whether `sender` is in `senders`.
fn has_sender(senders: &Vec<String>, sender: &String) -> (found: bool)
    ensures
        found == texts(senders@).contains(sender@),
{
    let mut i: usize = 0;
    while i < senders.len()
        invariant
            i <= senders.len(),
            forall|j: int| 0 <= j < i ==> (#[trigger] senders[j])@ != sender@,
        decreases senders.len() - i,
    {
        if senders[i] == *sender {
            assert(texts(senders@)[i as int] == sender@);
            return true;
        }
        i += 1;
    }
    false
}

/// `list` without `conn`, the others in their order.
fn retain_others(list: &Vec<ConnId>, conn: ConnId) -> (kept: Vec<ConnId>)
    ensures
        kept@ == without(list@, conn),
{
    let mut kept: Vec<ConnId> = Vec::new();
    let mut i: usize = 0;
    proof {
        reveal(Seq::filter);
    }
    while i < list.len()
        invariant
            i <= list.len(),
            kept@ == without(list@.take(i as int), conn),
        decreases list.len() - i,
    {
        reveal(Seq::filter);
        assert(list@.take(i + 1).drop_last() =~= list@.take(i as int));
        if list[i] != conn {
            kept.push(list[i]);
        }
        i += 1;
    }
    assert(list@.take(i as int) =~= list@);
    kept
}

impl Router {
    /// A table without connections.
    pub fn new() -> (router: Router)
        ensures
            router@ == RouterView::empty(),
    {
        let router = Router {
            connections: HashMap::new(),
            by_sender: StringHashMap::new(),
            next_id: 0,
        };
        assert(router@ =~= RouterView::empty());
        router
    }

    /// Adds a connection whose frames go to `tx` and returns its id.
    pub fn register(&mut self, tx: mpsc::Sender<OutboundFrame>) -> (id: ConnId)
        ensures
            id == old(self)@.next_id,
            final(self)@ == old(self)@.registered(tx),
    {
        let id = self.next_id;
        self.next_id = self.next_id.wrapping_add(1);
        let entry = ConnectionEntry { tx, senders: Vec::new() };
        assert(entry@ =~= ConnectionView { tx, senders: seq![] });
        self.connections.insert(id, entry);
        assert(self@ =~= old(self)@.registered(tx));
        id
    }

    /// Notes that `conn` speaks for `sender_id`.
    pub fn associate(&mut self, conn: ConnId, sender_id: String)
        ensures
            final(self)@ == old(self)@.associated(conn, sender_id@),
    {
        let ghost before = self@;
        if let Some(entry) = self.connections.remove(&conn) {
            let mut entry = entry;
            let ghost senders = texts(entry.senders@);
            if !has_sender(&entry.senders, &sender_id) {
                entry.senders.push(sender_id.clone());
                assert(texts(entry.senders@) =~= senders.push(sender_id@));
            }
            self.connections.insert(conn, entry);
        }
        assert(self@.connections =~= before.associated(conn, sender_id@).connections);
        let mut list: Vec<ConnId> = match self.by_sender.get(sender_id.as_str()) {
            Some(list) => list.clone(),
            None => Vec::new(),
        };
        list.push(conn);
        let ghost sender = sender_id@;
        self.by_sender.insert(sender_id, list);
        assert(self@.by_sender =~= before.associated(conn, sender).by_sender);
    }

    /// Forgets `conn` and everything listed for it.
    pub fn drop_conn(&mut self, conn: ConnId)
        ensures
            final(self)@ == old(self)@.dropped(conn),
    {
        let ghost before = self@;
        if let Some(entry) = self.connections.remove(&conn) {
            assert(self@.connections =~= before.connections.remove(conn));
            let ghost senders = texts(entry.senders@);
            assert(before.connections[conn].senders == senders);
            let mut i: usize = 0;
            while i < entry.senders.len()
                invariant
                    i <= entry.senders.len(),
                    senders == texts(entry.senders@),
                    before.connections.contains_key(conn),
                    before.connections[conn].senders == senders,
                    self@.connections == before.connections.remove(conn),
                    self@.next_id == before.next_id,
                    self@.by_sender == listed_after(before, conn, senders.take(i as int)),
                decreases entry.senders.len() - i,
            {
                let ghost seen = senders.take(i as int);
                let ghost lists = self@.by_sender;
                let ghost sender = senders[i as int];
                assert(senders.take(i + 1) =~= seen.push(sender));
                proof {
                    lemma_push_contains(seen, sender);
                    lemma_without(before.listed(sender), conn);
                }
                let kept: Option<Vec<ConnId>> = match self.by_sender.get(
                    entry.senders[i].as_str(),
                ) {
                    Some(list) => Some(retain_others(list, conn)),
                    None => None,
                };
                if let Some(kept) = kept {
                    if kept.len() == 0 {
                        self.by_sender.remove(entry.senders[i].as_str());
                    } else {
                        self.by_sender.insert(entry.senders[i].clone(), kept);
                    }
                }
                proof {
                    let after = listed_after(before, conn, seen.push(sender));
                    assert(lists.contains_key(sender) ==> before.listed(sender)
                        == before.by_sender[sender]);
                    assert(self@.by_sender =~= if !lists.contains_key(sender) {
                        lists
                    } else if without(lists[sender], conn).len() == 0 {
                        lists.remove(sender)
                    } else {
                        lists.insert(sender, without(lists[sender], conn))
                    });
                    assert(self@.by_sender =~= after);
                }
                i += 1;
            }
            assert(senders.take(i as int) =~= senders);
        }
        assert(self@ =~= before.dropped(conn));
    }

    /// Where the frames of `conn` go, while it is connected.
    pub fn outlet(&self, conn: ConnId) -> (tx: Option<&mpsc::Sender<OutboundFrame>>)
        ensures
            match tx {
                Some(tx) => self@.connections.contains_key(conn) && *tx
                    == self@.connections[conn].tx,
                None => !self@.connections.contains_key(conn),
            },
    {
        match self.connections.get(&conn) {
            Some(entry) => Some(&entry.tx),
            None => None,
        }
    }

    /// The handles that a frame for `recipient` goes to: those of all live connections.
    ///
    /// All connections belong to the one client process of the device, and they are known by
    /// sender, not by conversation. A lookup by recipient would lose replies, so every frame goes
    /// to everyone and `recipient` plays no part.
    #[allow(unused_variables)]
    pub fn senders_for(&self, recipient: &str) -> (txs: Vec<mpsc::Sender<OutboundFrame>>)
        ensures
            one_handle_each(self@.connections, txs@),
    {
        let mut txs: Vec<mpsc::Sender<OutboundFrame>> = Vec::new();
        let ghost mut ids: Seq<ConnId> = Seq::empty();
        for id in it: self.connections.keys()
            invariant
                ids.len() == it.index(),
                ids =~= it.seq().unref().take(it.index() as int),
                it.seq().unref().to_set() == self.connections@.dom(),
                it.seq().no_duplicates(),
                it.index() == it.seq().len() ==> ids.to_set() == self.connections@.dom(),
                txs.len() == ids.len(),
                forall|i: int|
                    0 <= i < ids.len() ==> cloned(
                        self@.connections[#[trigger] ids[i]].tx,
                        txs[i],
                    ),
        {
            let ghost all = it.seq().unref();
            assert(all[it.index() as int] == *id);
            assert(all.to_set().contains(*id));
            if let Some(entry) = self.connections.get(id) {
                txs.push(clone_handle(&entry.tx));
            }
            proof {
                ids = ids.push(*id);
                assert(ids.len() == all.len() ==> ids =~= all);
            }
        }
        assert(self@.connections.dom() =~= self.connections@.dom());
        assert(ids.no_duplicates());
        txs
    }
}

/// What a sequence holds after a push.
proof fn lemma_push_contains(seen: Seq<Seq<char>>, sender: Seq<char>)
    ensures
        forall|s: Seq<char>| #[trigger]
            seen.push(sender).contains(s) <==> seen.contains(s) || s == sender,
{
    assert forall|s: Seq<char>| seen.contains(s) || s == sender implies #[trigger] seen.push(
        sender,
    ).contains(s) by {
        if s == sender {
            assert(seen.push(sender)[seen.len() as int] == s);
        } else {
            let i = choose|i: int| 0 <= i < seen.len() && seen[i] == s;
            assert(seen.push(sender)[i] == s);
        }
    }
}

/// `without` leaves out `conn`, keeps all else, and has nothing left to do a second time.
proof fn lemma_without(list: Seq<ConnId>, conn: ConnId)
    ensures
        forall|c: ConnId| #[trigger]
            without(list, conn).contains(c) <==> list.contains(c) && c != conn,
        without(without(list, conn), conn) == without(list, conn),
        !list.contains(conn) ==> without(list, conn) == list,
    decreases list.len(),
{
    reveal(Seq::filter);
    if list.len() > 0 {
        let init = list.drop_last();
        lemma_without(init, conn);
        assert forall|c: ConnId| #[trigger] list.contains(c) <==> init.contains(c) || c
            == list.last() by {
            if init.contains(c) {
                let i = choose|i: int| 0 <= i < init.len() && init[i] == c;
                assert(list[i] == c);
            }
            if list.contains(c) && c != list.last() {
                let i = choose|i: int| 0 <= i < list.len() && list[i] == c;
                assert(init[i] == c);
            }
        }
        let rest = without(init, conn);
        if list.last() != conn {
            assert(without(list, conn) == rest.push(list.last()));
            assert(rest.push(list.last()).drop_last() =~= rest);
            assert forall|c: ConnId| #[trigger] rest.push(list.last()).contains(c) <==> rest.contains(
                c,
            ) || c == list.last() by {
                if rest.contains(c) {
                    let i = choose|i: int| 0 <= i < rest.len() && rest[i] == c;
                    assert(rest.push(list.last())[i] == c);
                }
                assert(rest.push(list.last())[rest.len() as int] == list.last());
            }
        } else {
            assert(list[list.len() - 1] == conn);
        }
        if !list.contains(conn) {
            assert(without(list, conn) =~= list);
        }
    }
}

/// The lists by sender once `conn` has been taken out of those of `seen`.
spec fn listed_after(v: RouterView, conn: ConnId, seen: Seq<Seq<char>>) -> Map<
    Seq<char>,
    Seq<ConnId>,
> {
    Map::new(
        |s: Seq<char>|
            {
                &&& v.by_sender.contains_key(s)
                &&& seen.contains(s) ==> without(v.by_sender[s], conn).len() > 0
            },
        |s: Seq<char>|
            if seen.contains(s) {
                without(v.by_sender[s], conn)
            } else {
                v.by_sender[s]
            },
    )
}

/// Registering a connection under an id that is free keeps the two indexes in agreement, and so
/// it is from the empty table on.
pub proof fn law_register_keeps_consistent(v: RouterView, tx: mpsc::Sender<OutboundFrame>)
    requires
        v.consistent(),
        !v.connections.contains_key(v.next_id),
    ensures
        RouterView::empty().consistent(),
        v.registered(tx).consistent(),
{
    let w = v.registered(tx);
    assert forall|c: ConnId, s: Seq<char>| #[trigger]
        w.speaks_for(c, s) <==> w.listed(s).contains(c) by {
        assert(w.listed(s) == v.listed(s));
        assert(v.speaks_for(c, s) <==> v.listed(s).contains(c));
    }
}

/// A live connection that speaks for a sender keeps the two indexes in agreement.
pub proof fn law_associate_keeps_consistent(v: RouterView, conn: ConnId, sender: Seq<char>)
    requires
        v.consistent(),
        v.connections.contains_key(conn),
    ensures
        v.associated(conn, sender).consistent(),
        v.associated(conn, sender).speaks_for(conn, sender),
{
    let w = v.associated(conn, sender);
    lemma_push_contains(v.connections[conn].senders, sender);
    let list = v.listed(sender);
    assert forall|c: ConnId, s: Seq<char>| #[trigger]
        w.speaks_for(c, s) <==> w.listed(s).contains(c) by {
        assert(v.speaks_for(c, s) <==> v.listed(s).contains(c));
        if s == sender {
            assert(list.push(conn)[list.len() as int] == conn);
            if list.contains(c) {
                let i = choose|i: int| 0 <= i < list.len() && list[i] == c;
                assert(list.push(conn)[i] == c);
            }
        }
    }
}

/// Dropping a connection keeps the two indexes in agreement, and afterwards neither of them knows
/// the connection.
pub proof fn law_drop_keeps_consistent(v: RouterView, conn: ConnId)
    requires
        v.consistent(),
    ensures
        v.dropped(conn).consistent(),
        !v.dropped(conn).connections.contains_key(conn),
        forall|s: Seq<char>| !(#[trigger] v.dropped(conn).listed(s)).contains(conn),
{
    let w = v.dropped(conn);
    assert forall|c: ConnId, s: Seq<char>| #[trigger]
        w.speaks_for(c, s) <==> w.listed(s).contains(c) by {
        assert(v.speaks_for(c, s) <==> v.listed(s).contains(c));
        assert(v.speaks_for(conn, s) <==> v.listed(s).contains(conn));
        lemma_without(v.listed(s), conn);
        assert(without(v.listed(s), conn).contains(c) <==> v.listed(s).contains(c) && c != conn);
    }
    assert forall|s: Seq<char>| !(#[trigger] w.listed(s)).contains(conn) by {
        assert(w.speaks_for(conn, s) <==> w.listed(s).contains(conn));
    }
    assert forall|s: Seq<char>| #[trigger] w.by_sender.contains_key(s) implies w.by_sender[s].len()
        > 0 by {
        assert(v.by_sender.contains_key(s));
    }
}

/// The table once `conn` has spoken for each of `senders` in turn.
pub open spec fn associated_all(v: RouterView, conn: ConnId, senders: Seq<Seq<char>>) -> RouterView
    decreases senders.len(),
{
    if senders.len() == 0 {
        v
    } else {
        associated_all(v, conn, senders.drop_last()).associated(conn, senders.last())
    }
}

/// `conn` is connected, is listed under exactly the senders it spoke for, and no list is empty.
spec fn own_lists_agree(v: RouterView, conn: ConnId) -> bool {
    &&& v.connections.contains_key(conn)
    &&& forall|s: Seq<char>| #[trigger] v.speaks_for(conn, s) <==> v.listed(s).contains(conn)
    &&& forall|s: Seq<char>| #[trigger] v.by_sender.contains_key(s) ==> v.by_sender[s].len() > 0
}

/// Speaking for a sender keeps a connection in agreement with the lists.
proof fn lemma_associate_own_lists(v: RouterView, conn: ConnId, sender: Seq<char>)
    requires
        own_lists_agree(v, conn),
    ensures
        own_lists_agree(v.associated(conn, sender), conn),
{
    let w = v.associated(conn, sender);
    lemma_push_contains(v.connections[conn].senders, sender);
    assert forall|s: Seq<char>| #[trigger] w.speaks_for(conn, s) <==> w.listed(s).contains(conn) by {
        assert(v.speaks_for(conn, s) <==> v.listed(s).contains(conn));
        if s == sender {
            assert(w.listed(s)[v.listed(s).len() as int] == conn);
        }
    }
}

/// Speaking for senders adds to the table only what concerns `conn`.
proof fn lemma_associated_all(v: RouterView, conn: ConnId, senders: Seq<Seq<char>>)
    requires
        own_lists_agree(v, conn),
        v.connections[conn].senders.len() == 0,
    ensures
        own_lists_agree(associated_all(v, conn, senders), conn),
        associated_all(v, conn, senders).connections.remove(conn) == v.connections.remove(conn),
        associated_all(v, conn, senders).next_id == v.next_id,
        forall|s: Seq<char>|
            without(#[trigger] associated_all(v, conn, senders).listed(s), conn) == v.listed(s),
    decreases senders.len(),
{
    let w = associated_all(v, conn, senders);
    if senders.len() == 0 {
        assert forall|s: Seq<char>| without(#[trigger] w.listed(s), conn) == v.listed(s) by {
            assert(v.speaks_for(conn, s) <==> v.listed(s).contains(conn));
            lemma_without(v.listed(s), conn);
        }
    } else {
        let u = associated_all(v, conn, senders.drop_last());
        let last = senders.last();
        lemma_associated_all(v, conn, senders.drop_last());
        lemma_associate_own_lists(u, conn, last);
        assert(w.connections.remove(conn) =~= u.connections.remove(conn));
        assert forall|s: Seq<char>| without(#[trigger] w.listed(s), conn) == v.listed(s) by {
            assert(without(u.listed(s), conn) == v.listed(s));
            if s == last {
                reveal(Seq::filter);
                assert(u.listed(s).push(conn).drop_last() =~= u.listed(s));
            }
        }
    }
}

/// A connection that comes, speaks for any senders and goes leaves the table as it was, but for
/// the id that is now taken.
pub proof fn law_connection_leaves_no_trace(
    v: RouterView,
    tx: mpsc::Sender<OutboundFrame>,
    senders: Seq<Seq<char>>,
)
    requires
        v.next_id_unknown(),
    ensures
        ({
            let gone = associated_all(v.registered(tx), v.next_id, senders).dropped(v.next_id);
            &&& gone.connections == v.connections
            &&& gone.by_sender == v.by_sender
            &&& gone.next_id == v.registered(tx).next_id
        }),
{
    let conn = v.next_id;
    let r = v.registered(tx);
    assert forall|s: Seq<char>| #[trigger] r.speaks_for(conn, s) <==> r.listed(s).contains(conn) by {
        assert(r.listed(s) == v.listed(s));
    }
    lemma_associated_all(r, conn, senders);
    let w = associated_all(r, conn, senders);
    let gone = w.dropped(conn);
    assert(gone.connections =~= r.connections.remove(conn));
    assert(gone.connections =~= v.connections);
    assert forall|s: Seq<char>|
        gone.by_sender.contains_key(s) == v.by_sender.contains_key(s) && (
        v.by_sender.contains_key(s) ==> gone.by_sender[s] == v.by_sender[s]) by {
        assert(r.listed(s) == v.listed(s));
        assert(without(w.listed(s), conn) == v.listed(s));
        assert(w.speaks_for(conn, s) <==> w.listed(s).contains(conn));
        lemma_without(w.listed(s), conn);
    }
    assert(gone.by_sender =~= v.by_sender);
}

/// Registering adds one connection, under the next id, with its own handle and no senders. All
/// other connections and all lists stay, and the next id moves on by one.
pub proof fn law_register_adds_one_connection(
    v: RouterView,
    tx: mpsc::Sender<OutboundFrame>,
    other: ConnId,
)
    ensures
        ({
            let w = v.registered(tx);
            &&& w.connections.contains_key(v.next_id)
            &&& w.connections[v.next_id].tx == tx
            &&& w.connections[v.next_id].senders.len() == 0
            &&& other != v.next_id ==> {
                &&& w.connections.contains_key(other) == v.connections.contains_key(other)
                &&& w.connections[other] == v.connections[other]
            }
            &&& w.by_sender == v.by_sender
            &&& v.next_id < u64::MAX ==> w.next_id == v.next_id + 1
            &&& v.next_id == u64::MAX ==> w.next_id == 0
        }),
{
}

/// Speaking for a sender concerns that connection and that sender alone: no connection comes, goes
/// or changes its handle, what others spoke for stays, and so do the lists of other senders. The
/// sender's list gets the connection at its end.
pub proof fn law_associate_concerns_one_connection(
    v: RouterView,
    conn: ConnId,
    sender: Seq<char>,
    other: ConnId,
    elsewhere: Seq<char>,
)
    ensures
        ({
            let w = v.associated(conn, sender);
            &&& w.connections.contains_key(other) == v.connections.contains_key(other)
            &&& v.connections.contains_key(other) ==> w.connections[other].tx
                == v.connections[other].tx
            &&& other != conn ==> w.connections[other] == v.connections[other]
            &&& v.connections.contains_key(conn) ==> {
                &&& w.connections[conn].senders.contains(sender)
                &&& v.connections[conn].senders.is_prefix_of(w.connections[conn].senders)
                &&& w.connections[conn].senders.len() <= v.connections[conn].senders.len() + 1
                &&& v.connections[conn].senders.contains(sender) ==> w.connections[conn]
                    == v.connections[conn]
            }
            &&& elsewhere != sender ==> {
                &&& w.by_sender.contains_key(elsewhere) == v.by_sender.contains_key(elsewhere)
                &&& w.by_sender[elsewhere] == v.by_sender[elsewhere]
            }
            &&& w.by_sender.contains_key(sender)
            &&& v.by_sender.contains_key(sender) ==> w.by_sender[sender]
                == v.by_sender[sender].push(conn)
            &&& !v.by_sender.contains_key(sender) ==> w.by_sender[sender] == seq![conn]
            &&& w.next_id == v.next_id
        }),
{
    let w = v.associated(conn, sender);
    if v.connections.contains_key(conn) && !v.speaks_for(conn, sender) {
        assert(w.connections[conn].senders.last() == sender);
    }
    assert(!v.by_sender.contains_key(sender) ==> w.by_sender[sender] =~= seq![conn]);
}

/// Dropping a connection takes that connection out and nothing else: all other connections stay as
/// they are, and every list keeps all others that it held.
pub proof fn law_drop_concerns_one_connection(
    v: RouterView,
    conn: ConnId,
    other: ConnId,
    sender: Seq<char>,
)
    ensures
        ({
            let w = v.dropped(conn);
            &&& !w.connections.contains_key(conn)
            &&& other != conn ==> {
                &&& w.connections.contains_key(other) == v.connections.contains_key(other)
                &&& w.connections[other] == v.connections[other]
                &&& w.listed(sender).contains(other) == v.listed(sender).contains(other)
            }
            &&& w.next_id == v.next_id
        }),
{
    lemma_without(v.listed(sender), conn);
    let w = v.dropped(conn);
    if other != conn && v.listed(sender).contains(other) {
        assert(without(v.listed(sender), conn).contains(other));
    }
}

/// A connection that is listed is found by what is listed, and one speaks for a sender if it is
/// connected and has that sender among its own.
pub proof fn law_lists_show_what_they_hold(v: RouterView, conn: ConnId, sender: Seq<char>)
    ensures
        v.by_sender.contains_key(sender) ==> v.listed(sender) == v.by_sender[sender],
        !v.by_sender.contains_key(sender) ==> v.listed(sender).len() == 0,
        v.speaks_for(conn, sender) <==> v.connections.contains_key(conn)
            && v.connections[conn].senders.contains(sender),
        RouterView::empty().connections.dom().is_empty(),
        RouterView::empty().by_sender.dom().is_empty(),
        RouterView::empty().next_id == 0,
{
}

/// `tx` is a handle of one of `connections`.
pub open spec fn leads_to_one_of(
    connections: Map<ConnId, ConnectionView>,
    tx: mpsc::Sender<OutboundFrame>,
) -> bool {
    exists|c: ConnId| #[trigger] connections.contains_key(c) && cloned(connections[c].tx, tx)
}

/// Handles of which there is one for each connection are as many as the connections; every
/// connection has one, and every one is of a connection.
pub proof fn law_one_handle_each_misses_nobody(
    connections: Map<ConnId, ConnectionView>,
    txs: Seq<mpsc::Sender<OutboundFrame>>,
)
    requires
        one_handle_each(connections, txs),
    ensures
        txs.len() == connections.dom().len(),
        forall|c: ConnId| #[trigger]
            connections.contains_key(c) ==> exists|i: int|
                0 <= i < txs.len() && cloned(connections[c].tx, #[trigger] txs[i]),
        forall|i: int| 0 <= i < txs.len() ==> leads_to_one_of(connections, #[trigger] txs[i]),
{
    let ids = choose|ids: Seq<ConnId>|
        {
            &&& #[trigger] ids.no_duplicates()
            &&& ids.to_set() == connections.dom()
            &&& ids.len() == txs.len()
            &&& forall|i: int|
                0 <= i < ids.len() ==> cloned(connections[#[trigger] ids[i]].tx, txs[i])
        };
    ids.unique_seq_to_set();
    assert forall|c: ConnId| #[trigger] connections.contains_key(c) implies exists|i: int|
        0 <= i < txs.len() && cloned(connections[c].tx, #[trigger] txs[i]) by {
        assert(ids.to_set().contains(c));
        let i = choose|i: int| 0 <= i < ids.len() && ids[i] == c;
        assert(cloned(connections[ids[i]].tx, txs[i]));
    }
    assert forall|i: int| 0 <= i < txs.len() implies leads_to_one_of(
        connections,
        #[trigger] txs[i],
    ) by {
        assert(ids.to_set().contains(ids[i]));
        assert(connections.contains_key(ids[i]));
    }
}

} // verus!
