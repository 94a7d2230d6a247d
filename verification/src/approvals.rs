//! The approval requests that wait for the user's answer.
use crate::frames::ApprovalDecision;
use tokio::sync::oneshot;
use vstd::prelude::*;

verus! {

/// What an asker hands in to be woken with the decision.
pub type Waiter = oneshot::Sender<ApprovalDecision>;

/// The waiters of the open approval requests, by request id. No id occurs twice.
pub struct PendingApprovals {
    waiters: Vec<(String, Waiter)>,
}

/// `id` is the id of the entry `i`.
spec fn is_at(waiters: Seq<(String, Waiter)>, i: int, id: Seq<char>) -> bool {
    0 <= i < waiters.len() && waiters[i].0@ == id
}

/// No id occurs twice.
spec fn distinct(waiters: Seq<(String, Waiter)>) -> bool {
    forall|i: int, j: int, id: Seq<char>| #[trigger]
        is_at(waiters, i, id) && #[trigger] is_at(waiters, j, id) ==> i == j
}

/// The waiters by id.
spec fn by_id(waiters: Seq<(String, Waiter)>) -> Map<Seq<char>, Waiter> {
    Map::new(
        |id: Seq<char>| exists|i: int| is_at(waiters, i, id),
        |id: Seq<char>| waiters[choose|i: int| is_at(waiters, i, id)].1,
    )
}

impl View for PendingApprovals {
    type V = Map<Seq<char>, Waiter>;

    closed spec fn view(&self) -> Map<Seq<char>, Waiter> {
        by_id(self.waiters@)
    }
}

/// Taking out the only entry of `id` takes `id` out of the map.
proof fn lemma_take_out(waiters: Seq<(String, Waiter)>, at: int, id: Seq<char>)
    requires
        distinct(waiters),
        is_at(waiters, at, id),
    ensures
        distinct(waiters.remove(at)),
        by_id(waiters.remove(at)) == by_id(waiters).remove(id),
        by_id(waiters).contains_key(id),
        by_id(waiters)[id] == waiters[at].1,
{
    let rest = waiters.remove(at);
    assert forall|i: int, x: Seq<char>| #[trigger] is_at(rest, i, x) implies is_at(
        waiters,
        if i < at {
            i
        } else {
            i + 1
        },
        x,
    ) && x != id by {
        let k = if i < at {
            i
        } else {
            i + 1
        };
        assert(is_at(waiters, k, x));
    }
    assert forall|k: int, x: Seq<char>| #[trigger]
        is_at(waiters, k, x) && x != id implies is_at(
        rest,
        if k < at {
            k
        } else {
            k - 1
        },
        x,
    ) by {}
    assert forall|x: Seq<char>|
        by_id(rest).contains_key(x) == by_id(waiters).remove(id).contains_key(x) && (by_id(
            rest,
        ).contains_key(x) ==> by_id(rest)[x] == by_id(waiters).remove(id)[x]) by {
        if by_id(rest).contains_key(x) {
            let i = choose|i: int| is_at(rest, i, x);
            let k = if i < at {
                i
            } else {
                i + 1
            };
            assert(is_at(waiters, k, x));
            let c = choose|c: int| is_at(waiters, c, x);
            assert(c == k);
        }
        if by_id(waiters).contains_key(x) && x != id {
            let k = choose|k: int| is_at(waiters, k, x);
            assert(is_at(
                rest,
                if k < at {
                    k
                } else {
                    k - 1
                },
                x,
            ));
        }
    }
    assert(by_id(rest) =~= by_id(waiters).remove(id));
}

/// Adding an entry under a new id adds it to the map.
proof fn lemma_add(waiters: Seq<(String, Waiter)>, entry: (String, Waiter))
    requires
        distinct(waiters),
        !by_id(waiters).contains_key(entry.0@),
    ensures
        distinct(waiters.push(entry)),
        by_id(waiters.push(entry)) == by_id(waiters).insert(entry.0@, entry.1),
{
    let more = waiters.push(entry);
    let n = waiters.len() as int;
    assert(is_at(more, n, entry.0@));
    assert forall|i: int, x: Seq<char>| #[trigger] is_at(more, i, x) implies (if i == n {
        x == entry.0@
    } else {
        is_at(waiters, i, x) && x != entry.0@
    }) by {
        if i != n {
            assert(is_at(waiters, i, x));
        }
    }
    assert forall|x: Seq<char>| #[trigger] by_id(waiters).contains_key(x) implies by_id(
        more,
    ).contains_key(x) by {
        let k = choose|k: int| is_at(waiters, k, x);
        assert(is_at(more, k, x));
    }
    let all = by_id(waiters).insert(entry.0@, entry.1);
    assert(by_id(more).dom() =~= all.dom());
    assert forall|x: Seq<char>| by_id(more).contains_key(x) implies #[trigger] by_id(more)[x]
        == all[x] by {
        let i = choose|i: int| is_at(more, i, x);
        assert(is_at(more, i, x));
        if i != n {
            let k = choose|k: int| is_at(waiters, k, x);
            assert(is_at(waiters, i, x) && is_at(waiters, k, x));
        }
    }
    assert(by_id(more) =~= all);
}

impl PendingApprovals {
    #[verifier::type_invariant]
    spec fn well_formed(self) -> bool {
        distinct(self.waiters@)
    }

    /// No open requests.
    pub fn new() -> (pending: PendingApprovals)
        ensures
            pending@ == Map::<Seq<char>, Waiter>::empty(),
    {
        let pending = PendingApprovals { waiters: Vec::new() };
        assert(pending@ =~= Map::<Seq<char>, Waiter>::empty());
        pending
    }

    /// Takes the waiter of `id` out, if there is one.
    pub fn remove(&mut self, id: &String) -> (waiter: Option<Waiter>)
        ensures
            final(self)@ == old(self)@.remove(id@),
            match waiter {
                Some(w) => old(self)@.contains_key(id@) && w == old(self)@[id@],
                None => !old(self)@.contains_key(id@),
            },
    {
        proof {
            use_type_invariant(&*self);
        }
        let mut i: usize = 0;
        while i < self.waiters.len()
            invariant
                i <= self.waiters.len(),
                *self == *old(self),
                distinct(self.waiters@),
                forall|j: int| 0 <= j < i ==> (#[trigger] self.waiters[j]).0@ != id@,
            decreases self.waiters.len() - i,
        {
            if self.waiters[i].0 == *id {
                proof {
                    lemma_take_out(self.waiters@, i as int, id@);
                }
                let mut waiters: Vec<(String, Waiter)> = Vec::new();
                std::mem::swap(&mut waiters, &mut self.waiters);
                let (_, waiter) = waiters.remove(i);
                self.waiters = waiters;
                return Some(waiter);
            }
            i += 1;
        }
        assert(!self@.contains_key(id@));
        assert(self@.remove(id@) =~= self@);
        None
    }

    /// Files `waiter` under `id`, in place of one that was filed under it before.
    pub fn insert(&mut self, id: String, waiter: Waiter)
        ensures
            final(self)@ == old(self)@.insert(id@, waiter),
    {
        let _ = self.remove(&id);
        proof {
            use_type_invariant(&*self);
            lemma_add(self.waiters@, (id, waiter));
        }
        let mut waiters: Vec<(String, Waiter)> = Vec::new();
        std::mem::swap(&mut waiters, &mut self.waiters);
        waiters.push((id, waiter));
        self.waiters = waiters;
        assert(self@ =~= old(self)@.insert(id@, waiter));
    }
}

} // verus!
