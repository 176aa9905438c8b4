//! The request/response correlation layer.
//!
//! One connection carries many logically independent requests over one
//! ordered byte stream.  Each request registers an application-chosen
//! 32-bit correlation id in a `PendingRequestTable` immediately before it
//! is written; the single read loop delivers each response to the entry
//! whose id it echoes, and connection teardown fails every entry still
//! pending with a disconnection outcome.
//!
//! An entry is a one-shot waiter: it is registered at most once, resolved
//! at most once (either by its response or by teardown), and removed when
//! its owner collects the outcome.  A response whose id matches no pending
//! entry is discarded best-effort — that is this library's chosen policy —
//! and delivery reports whether a waiter was hit.

use vstd::prelude::*;

verus! {

/// The state of one waiter: still waiting, resolved with a value, or
/// resolved with a disconnection outcome.
#[derive(Debug)]
pub enum Waiter<V> {
    /// The request is outstanding; no response has arrived.
    Pending,
    /// The matching response arrived and carried this value.
    Delivered(V),
    /// The connection was torn down before the response arrived.
    Disconnected,
}

/// Table of outstanding requests on one connection, keyed by correlation
/// id.  An id occurs at most once.
pub struct PendingRequestTable<V> {
    entries: Vec<(u32, Waiter<V>)>,
}

impl<V> PendingRequestTable<V> {
    /// Every id occurs at most once.
    pub closed spec fn wf(self) -> bool {
        forall|i: int, j: int|
            0 <= i < j < self.entries@.len() ==> (#[trigger] self.entries@[i]).0 != (
            #[trigger] self.entries@[j]).0
    }

    /// Whether an entry with this id exists, pending or resolved.
    pub closed spec fn spec_contains(self, id: u32) -> bool {
        exists|i: int| 0 <= i < self.entries@.len() && (#[trigger] self.entries@[i]).0 == id
    }

    /// The state of the entry with this id.
    pub closed spec fn spec_state(self, id: u32) -> Waiter<V>
        recommends
            self.spec_contains(id),
    {
        let i = choose|i: int|
            0 <= i < self.entries@.len() && (#[trigger] self.entries@[i]).0 == id;
        self.entries@[i].1
    }

    /// Whether the entry with this id exists and still waits.
    pub open spec fn is_pending(self, id: u32) -> bool {
        self.spec_contains(id) && self.spec_state(id) is Pending
    }

    /// The entry at a valid index gives the state of its id.
    proof fn lemma_state_at(self, i: int)
        requires
            self.wf(),
            0 <= i < self.entries@.len(),
        ensures
            self.spec_contains(self.entries@[i].0),
            self.spec_state(self.entries@[i].0) == self.entries@[i].1,
    {
        let id = self.entries@[i].0;
        assert(self.spec_contains(id));
        let j = choose|j: int|
            0 <= j < self.entries@.len() && (#[trigger] self.entries@[j]).0 == id;
        if i < j {
            assert(self.entries@[i].0 != self.entries@[j].0);
        } else if j < i {
            assert(self.entries@[j].0 != self.entries@[i].0);
        }
    }

    /// An empty table: nothing is outstanding.
    pub fn new() -> (r: Self)
        ensures
            r.wf(),
            forall|k: u32| !r.spec_contains(k),
    {
        PendingRequestTable { entries: Vec::new() }
    }

    /// Find the index of an id, scanning left to right.
    fn find(&self, id: u32) -> (r: Option<usize>)
        ensures
            match r {
                Some(i) => i < self.entries@.len() && self.entries@[i as int].0 == id,
                None => !self.spec_contains(id),
            },
    {
        let mut i: usize = 0;
        while i < self.entries.len()
            invariant
                i <= self.entries@.len(),
                forall|j: int| 0 <= j < i ==> (#[trigger] self.entries@[j]).0 != id,
            decreases self.entries@.len() - i,
        {
            if self.entries[i].0 == id {
                return Some(i);
            }
            i += 1;
        }
        None
    }

    /// Create the waiter for a request about to be written.  Answers
    /// `false`, changing nothing, where the id is already taken: an id is
    /// inserted at most once before being resolved.
    pub fn register(&mut self, id: u32) -> (fresh: bool)
        requires
            old(self).wf(),
        ensures
            final(self).wf(),
            fresh == !old(self).spec_contains(id),
            fresh ==> final(self).spec_contains(id) && final(self).spec_state(id) is Pending
                && forall|k: u32| k != id ==> unchanged_at(*old(self), *final(self), k),
            !fresh ==> *final(self) == *old(self),
    {
        match self.find(id) {
            Some(_) => false,
            None => {
                let ghost pre = *self;
                self.entries.push((id, Waiter::Pending));
                proof {
                    let n = pre.entries@.len() as int;
                    assert(self.entries@ =~= pre.entries@.push((id, Waiter::Pending)));
                    assert(self.entries@[n].0 == id);
                    assert forall|k: u32| k != id implies unchanged_at(pre, *self, k) by {
                        assert(forall|i: int|
                            0 <= i < n ==> (#[trigger] self.entries@[i]) == pre.entries@[i]);
                        if pre.spec_contains(k) {
                            let i = choose|i: int|
                                0 <= i < n && (#[trigger] pre.entries@[i]).0 == k;
                            assert(self.entries@[i].0 == k);
                            pre.lemma_state_at(i);
                            self.lemma_state_at(i);
                        } else {
                            if self.spec_contains(k) {
                                let i = choose|i: int|
                                    0 <= i < self.entries@.len() && (
                                    #[trigger] self.entries@[i]).0 == k;
                                assert(i < n ==> pre.entries@[i].0 == k);
                            }
                        }
                    }
                    self.lemma_state_at(self.entries@.len() - 1);
                }
                true
            },
        }
    }

    /// Replace the entry at `i` with the same id in the given state.
    fn replace_at(&mut self, i: usize, w: Waiter<V>)
        requires
            old(self).wf(),
            i < old(self).entries@.len(),
        ensures
            final(self).wf(),
            final(self).entries@ == old(self).entries@.update(
                i as int,
                (old(self).entries@[i as int].0, w),
            ),
    {
        let id = self.entries[i].0;
        let ghost pre = *self;
        self.entries.remove(i);
        self.entries.insert(i, (id, w));
        proof {
            assert(self.entries@ =~= pre.entries@.update(i as int, (id, w)));
        }
    }

    /// Deliver the value a response carried to the waiter whose id it
    /// echoes.  Answers whether a pending waiter was hit; a response with
    /// no pending waiter is discarded and the table is unchanged.
    pub fn deliver(&mut self, id: u32, v: V) -> (hit: bool)
        requires
            old(self).wf(),
        ensures
            final(self).wf(),
            hit == old(self).is_pending(id),
            hit ==> deliver_transition(*old(self), *final(self), id, v),
            !hit ==> *final(self) == *old(self),
    {
        let found = self.find(id);
        match found {
            None => {
                proof {
                    if old(self).spec_contains(id) {
                        assert(false);
                    }
                }
                false
            },
            Some(i) => {
                proof {
                    self.lemma_state_at(i as int);
                }
                let pending = match &self.entries[i].1 {
                    Waiter::Pending => true,
                    _ => false,
                };
                if !pending {
                    return false;
                }
                let ghost pre = *self;
                self.replace_at(i, Waiter::Delivered(v));
                proof {
                    lemma_pointwise_update(pre, *self, i as int, id);
                }
                true
            },
        }
    }

    /// Collect the outcome of a resolved request, removing its entry.
    /// Answers `None`, changing nothing, while the request is still
    /// pending or the id is unknown (already collected, or cancelled and
    /// resolved earlier — an outcome that is never collected is simply
    /// never read).
    pub fn take(&mut self, id: u32) -> (r: Option<Waiter<V>>)
        requires
            old(self).wf(),
        ensures
            final(self).wf(),
            match r {
                Some(w) => {
                    &&& old(self).spec_contains(id)
                    &&& !(old(self).spec_state(id) is Pending)
                    &&& w == old(self).spec_state(id)
                    &&& !final(self).spec_contains(id)
                    &&& forall|k: u32| k != id ==> unchanged_at(*old(self), *final(self), k)
                },
                None => (!old(self).spec_contains(id) || old(self).spec_state(id) is Pending)
                    && *final(self) == *old(self),
            },
    {
        let found = self.find(id);
        match found {
            None => None,
            Some(i) => {
                proof {
                    self.lemma_state_at(i as int);
                }
                let pending = match &self.entries[i].1 {
                    Waiter::Pending => true,
                    _ => false,
                };
                if pending {
                    return None;
                }
                let ghost pre = *self;
                let (_id, w) = self.entries.remove(i);
                proof {
                    assert(self.entries@ =~= pre.entries@.remove(i as int));
                    assert forall|k: u32| k != id implies unchanged_at(pre, *self, k) by {
                        lemma_contains_after_remove(pre, *self, i as int, k);
                    }
                    if self.spec_contains(id) {
                        let j = choose|j: int|
                            0 <= j < self.entries@.len() && (#[trigger] self.entries@[j]).0 == id;
                        if j < i as int {
                            assert(pre.entries@[j].0 == id);
                        } else {
                            assert(pre.entries@[j + 1].0 == id);
                        }
                    }
                }
                Some(w)
            },
        }
    }

    /// Tear the table down: every waiter still pending is resolved with
    /// the disconnection outcome, exactly once; waiters already resolved
    /// keep their outcome.
    pub fn fail_all(&mut self)
        requires
            old(self).wf(),
        ensures
            teardown_transition(*old(self), *final(self)),
    {
        let ghost pre = *self;
        let mut i: usize = 0;
        while i < self.entries.len()
            invariant
                pre.wf(),
                self.entries@.len() == pre.entries@.len(),
                i <= self.entries@.len(),
                forall|j: int|
                    0 <= j < self.entries@.len() ==> (#[trigger] self.entries@[j]).0
                        == pre.entries@[j].0,
                forall|j: int|
                    0 <= j < i ==> (#[trigger] self.entries@[j]).1 == fail_one(pre.entries@[j].1),
                forall|j: int|
                    i <= j < self.entries@.len() ==> (#[trigger] self.entries@[j]).1
                        == pre.entries@[j].1,
            decreases self.entries@.len() - i,
        {
            proof {
                assert(self.wf()) by {
                    assert(forall|a: int, b: int|
                        0 <= a < b < self.entries@.len() ==> (#[trigger] self.entries@[a]).0 != (
                        #[trigger] self.entries@[b]).0);
                }
            }
            let pending = match &self.entries[i].1 {
                Waiter::Pending => true,
                _ => false,
            };
            if pending {
                self.replace_at(i, Waiter::Disconnected);
            }
            i += 1;
        }
        proof {
            assert(self.wf());
            assert forall|k: u32| #[trigger]
                final(self).spec_contains(k) == pre.spec_contains(k) by {
                lemma_contains_same_ids(pre, *self, k);
            }
            assert forall|k: u32| pre.spec_contains(k) implies #[trigger] final(self).spec_state(k)
                == fail_one(pre.spec_state(k)) by {
                let j = choose|j: int|
                    0 <= j < pre.entries@.len() && (#[trigger] pre.entries@[j]).0 == k;
                pre.lemma_state_at(j);
                self.lemma_state_at(j);
            }
        }
    }
}

/// A resolved waiter keeps its outcome at teardown; a pending one is
/// resolved with the disconnection outcome.
pub open spec fn fail_one<V>(w: Waiter<V>) -> Waiter<V> {
    match w {
        Waiter::Pending => Waiter::Disconnected,
        _ => w,
    }
}

/// The entry for `k` — existence and state — is the same in both tables.
pub open spec fn unchanged_at<V>(
    pre: PendingRequestTable<V>,
    post: PendingRequestTable<V>,
    k: u32,
) -> bool {
    &&& post.spec_contains(k) == pre.spec_contains(k)
    &&& pre.spec_contains(k) ==> post.spec_state(k) == pre.spec_state(k)
}

/// How `deliver` changes the table when it hits a pending waiter: that one
/// waiter is resolved with the delivered value, and no other entry moves.
pub open spec fn deliver_transition<V>(
    pre: PendingRequestTable<V>,
    post: PendingRequestTable<V>,
    id: u32,
    v: V,
) -> bool {
    &&& pre.wf()
    &&& post.wf()
    &&& pre.is_pending(id)
    &&& post.spec_contains(id)
    &&& post.spec_state(id) == Waiter::Delivered(v)
    &&& forall|k: u32| k != id ==> unchanged_at(pre, post, k)
}

/// How teardown changes the table: the same ids exist, every pending
/// waiter is resolved with the disconnection outcome, and every resolved
/// waiter keeps the outcome it had.
pub open spec fn teardown_transition<V>(
    pre: PendingRequestTable<V>,
    post: PendingRequestTable<V>,
) -> bool {
    &&& pre.wf()
    &&& post.wf()
    &&& forall|k: u32| #[trigger] post.spec_contains(k) == pre.spec_contains(k)
    &&& forall|k: u32|
        pre.spec_contains(k) ==> #[trigger] post.spec_state(k) == fail_one(pre.spec_state(k))
}

/// After removing index `i` (whose id is `id`), any other id is present
/// with the same state as before.
proof fn lemma_contains_after_remove<V>(
    pre: PendingRequestTable<V>,
    post: PendingRequestTable<V>,
    i: int,
    k: u32,
)
    requires
        pre.wf(),
        0 <= i < pre.entries@.len(),
        post.entries@ == pre.entries@.remove(i),
        k != pre.entries@[i].0,
    ensures
        unchanged_at(pre, post, k),
{
    assert(post.wf()) by {
        assert(forall|a: int, b: int|
            0 <= a < b < post.entries@.len() ==> (#[trigger] post.entries@[a]).0 != (
            #[trigger] post.entries@[b]).0);
    }
    if pre.spec_contains(k) {
        let j = choose|j: int| 0 <= j < pre.entries@.len() && (#[trigger] pre.entries@[j]).0 == k;
        pre.lemma_state_at(j);
        if j < i {
            assert(post.entries@[j].0 == k);
            post.lemma_state_at(j);
        } else {
            assert(pre.entries@[j].0 != pre.entries@[i].0);
            assert(post.entries@[j - 1] == pre.entries@[j]);
            post.lemma_state_at(j - 1);
        }
    } else {
        if post.spec_contains(k) {
            let j = choose|j: int|
                0 <= j < post.entries@.len() && (#[trigger] post.entries@[j]).0 == k;
            if j < i {
                assert(pre.entries@[j].0 == k);
            } else {
                assert(pre.entries@[j + 1].0 == k);
            }
        }
    }
}

/// Updating the state at one index changes exactly that id's state.
proof fn lemma_pointwise_update<V>(
    pre: PendingRequestTable<V>,
    post: PendingRequestTable<V>,
    i: int,
    id: u32,
)
    requires
        pre.wf(),
        0 <= i < pre.entries@.len(),
        pre.entries@[i].0 == id,
        post.entries@.len() == pre.entries@.len(),
        post.entries@ == pre.entries@.update(i, (id, post.entries@[i].1)),
    ensures
        post.wf(),
        post.spec_contains(id),
        post.spec_state(id) == post.entries@[i].1,
        forall|k: u32| k != id ==> unchanged_at(pre, post, k),
{
    assert(post.wf()) by {
        assert(forall|a: int, b: int|
            0 <= a < b < post.entries@.len() ==> (#[trigger] post.entries@[a]).0 != (
            #[trigger] post.entries@[b]).0);
    }
    post.lemma_state_at(i);
    assert forall|k: u32| k != id implies unchanged_at(pre, post, k) by {
        if pre.spec_contains(k) {
            let j = choose|j: int|
                0 <= j < pre.entries@.len() && (#[trigger] pre.entries@[j]).0 == k;
            pre.lemma_state_at(j);
            assert(post.entries@[j].0 == k && post.entries@[j].1 == pre.entries@[j].1);
            post.lemma_state_at(j);
        } else {
            if post.spec_contains(k) {
                let j = choose|j: int|
                    0 <= j < post.entries@.len() && (#[trigger] post.entries@[j]).0 == k;
                assert(pre.entries@[j].0 == k);
            }
        }
    }
}

/// Both tables list the same ids index by index, so an id is present in
/// one exactly when it is present in the other.
proof fn lemma_contains_same_ids<V>(
    pre: PendingRequestTable<V>,
    post: PendingRequestTable<V>,
    k: u32,
)
    requires
        post.entries@.len() == pre.entries@.len(),
        forall|j: int|
            0 <= j < post.entries@.len() ==> (#[trigger] post.entries@[j]).0 == pre.entries@[j].0,
    ensures
        post.spec_contains(k) == pre.spec_contains(k),
{
    if pre.spec_contains(k) {
        let j = choose|j: int| 0 <= j < pre.entries@.len() && (#[trigger] pre.entries@[j]).0 == k;
        assert(post.entries@[j].0 == k);
    }
    if post.spec_contains(k) {
        let j = choose|j: int|
            0 <= j < post.entries@.len() && (#[trigger] post.entries@[j]).0 == k;
        assert(pre.entries@[j].0 == k);
    }
}

/// The read-loop state of a connection's multiplexer.
#[derive(Copy, Clone, Debug, PartialEq, Eq, Structural)]
pub enum MuxState {
    /// No physical read is outstanding.
    Idle,
    /// One physical read is outstanding; no second read may be issued.
    AwaitingRead,
    /// The connection failed; no further operation is accepted.
    Broken,
}

/// The per-connection multiplexer: the pending-request table together
/// with the read-loop state.  Reads are chained — `begin_read` grants at
/// most one outstanding read — and any read error resolves every pending
/// waiter with the disconnection outcome and makes the state terminal.
pub struct Multiplexer<V> {
    state: MuxState,
    table: PendingRequestTable<V>,
}

impl<V> Multiplexer<V> {
    /// The table of outstanding requests.
    pub closed spec fn spec_table(self) -> PendingRequestTable<V> {
        self.table
    }

    /// The read-loop state.
    pub closed spec fn spec_state(self) -> MuxState {
        self.state
    }

    /// The table is well formed.
    pub open spec fn wf(self) -> bool {
        self.spec_table().wf()
    }

    /// A fresh multiplexer: idle, nothing outstanding.
    pub fn new() -> (r: Self)
        ensures
            r.wf(),
            r.spec_state() == MuxState::Idle,
            forall|k: u32| !r.spec_table().spec_contains(k),
    {
        Multiplexer { state: MuxState::Idle, table: PendingRequestTable::new() }
    }

    /// Whether the connection has failed.
    pub fn is_broken(&self) -> (r: bool)
        ensures
            r == (self.spec_state() == MuxState::Broken),
    {
        match self.state {
            MuxState::Broken => true,
            _ => false,
        }
    }

    /// Register a waiter before its request is written.  Refused — with
    /// nothing changed — on a broken connection or a taken id.
    pub fn register(&mut self, id: u32) -> (fresh: bool)
        requires
            old(self).wf(),
        ensures
            final(self).wf(),
            final(self).spec_state() == old(self).spec_state(),
            fresh == (old(self).spec_state() != MuxState::Broken
                && !old(self).spec_table().spec_contains(id)),
            fresh ==> final(self).spec_table().spec_contains(id)
                && final(self).spec_table().spec_state(id) is Pending && forall|k: u32|
                k != id ==> unchanged_at(old(self).spec_table(), final(self).spec_table(), k),
            !fresh ==> *final(self) == *old(self),
    {
        match self.state {
            MuxState::Broken => false,
            _ => self.table.register(id),
        }
    }

    /// Ask to issue the one physical read.  Granted only when no read is
    /// outstanding; a second logical request must wait for the first
    /// read to complete — reads are chained, never concurrent.
    pub fn begin_read(&mut self) -> (granted: bool)
        requires
            old(self).wf(),
        ensures
            final(self).wf(),
            final(self).spec_table() == old(self).spec_table(),
            granted == (old(self).spec_state() == MuxState::Idle),
            granted ==> final(self).spec_state() == MuxState::AwaitingRead,
            !granted ==> *final(self) == *old(self),
    {
        match self.state {
            MuxState::Idle => {
                self.state = MuxState::AwaitingRead;
                true
            },
            _ => false,
        }
    }

    /// The outstanding read completed with a message carrying the
    /// correlation id `id` and the parsed value `v`: deliver it and go
    /// back to idle.  A message with no pending waiter is discarded.
    pub fn on_message(&mut self, id: u32, v: V) -> (hit: bool)
        requires
            old(self).wf(),
            old(self).spec_state() == MuxState::AwaitingRead,
        ensures
            final(self).wf(),
            final(self).spec_state() == MuxState::Idle,
            hit == old(self).spec_table().is_pending(id),
            hit ==> deliver_transition(old(self).spec_table(), final(self).spec_table(), id, v),
            !hit ==> final(self).spec_table() == old(self).spec_table(),
    {
        self.state = MuxState::Idle;
        self.table.deliver(id, v)
    }

    /// The outstanding read completed with a message that is delivered
    /// to no waiter — one the protocol says to discard: go back to idle
    /// with every entry untouched.
    pub fn on_discarded_message(&mut self)
        requires
            old(self).wf(),
            old(self).spec_state() == MuxState::AwaitingRead,
        ensures
            final(self).wf(),
            final(self).spec_state() == MuxState::Idle,
            final(self).spec_table() == old(self).spec_table(),
    {
        self.state = MuxState::Idle;
    }

    /// The outstanding read failed: the connection is broken, every
    /// waiter still pending resolves with the disconnection outcome, and
    /// no further operation is accepted.
    pub fn on_read_error(&mut self)
        requires
            old(self).wf(),
        ensures
            final(self).wf(),
            final(self).spec_state() == MuxState::Broken,
            teardown_transition(old(self).spec_table(), final(self).spec_table()),
    {
        self.state = MuxState::Broken;
        self.table.fail_all();
    }

    /// Collect the outcome of a resolved request, removing its entry.
    pub fn take(&mut self, id: u32) -> (r: Option<Waiter<V>>)
        requires
            old(self).wf(),
        ensures
            final(self).wf(),
            final(self).spec_state() == old(self).spec_state(),
            match r {
                Some(w) => {
                    &&& old(self).spec_table().spec_contains(id)
                    &&& !(old(self).spec_table().spec_state(id) is Pending)
                    &&& w == old(self).spec_table().spec_state(id)
                    &&& !final(self).spec_table().spec_contains(id)
                    &&& forall|k: u32|
                        k != id ==> unchanged_at(
                            old(self).spec_table(),
                            final(self).spec_table(),
                            k,
                        )
                },
                None => (!old(self).spec_table().spec_contains(id)
                    || old(self).spec_table().spec_state(id) is Pending) && *final(self)
                    == *old(self),
            },
    {
        self.table.take(id)
    }
}

/// Two requests with distinct ids issued on one connection, their
/// responses arriving in the opposite order: each waiter still receives
/// exactly its own result.  Delivery is by id, not by arrival order.
pub proof fn lemma_out_of_order_delivery<V>(
    t0: PendingRequestTable<V>,
    t1: PendingRequestTable<V>,
    t2: PendingRequestTable<V>,
    a: u32,
    b: u32,
    va: V,
    vb: V,
)
    requires
        a != b,
        deliver_transition(t0, t1, b, vb),
        deliver_transition(t1, t2, a, va),
    ensures
        t2.spec_contains(a),
        t2.spec_state(a) == Waiter::Delivered(va),
        t2.spec_contains(b),
        t2.spec_state(b) == Waiter::Delivered(vb),
{
    assert(unchanged_at(t1, t2, b));
}

/// Teardown with any number of pending waiters resolves every one of them
/// with the disconnection outcome.
pub proof fn lemma_teardown_fails_every_pending<V>(
    pre: PendingRequestTable<V>,
    post: PendingRequestTable<V>,
    id: u32,
)
    requires
        teardown_transition(pre, post),
        pre.is_pending(id),
    ensures
        post.spec_contains(id),
        post.spec_state(id) == Waiter::<V>::Disconnected,
{
}

/// After teardown no waiter is pending any more, so no delivery — and no
/// second teardown — can resolve any waiter again: each waiter resolves
/// exactly once.
pub proof fn lemma_no_resolution_after_teardown<V>(
    pre: PendingRequestTable<V>,
    post: PendingRequestTable<V>,
    later: PendingRequestTable<V>,
    id: u32,
    v: V,
)
    requires
        teardown_transition(pre, post),
    ensures
        !post.is_pending(id),
        !deliver_transition(post, later, id, v),
        teardown_transition(post, later) ==> post.spec_contains(id) ==> later.spec_state(id)
            == post.spec_state(id),
{
    if post.spec_contains(id) {
        assert(post.spec_state(id) == fail_one(pre.spec_state(id)));
    }
}

} // verus!
