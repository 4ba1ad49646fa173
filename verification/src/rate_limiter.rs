//! Sliding-window rate limiting per caller identity.
//!
//! A [`RateLimiter`] keeps, per client, the timestamps of that client's
//! admitted-or-checked calls.  On every check the window is pruned to the
//! trailing interval before counting; denial is a normal outcome, never an
//! error.  The proof functions at the end state the two sides of the
//! sliding-window law: a full window denies the next call, and a window in
//! which some timestamp has aged out admits again.

use vstd::prelude::*;

verus! {

/// Whether a recorded timestamp still lies inside the trailing window
/// `[now - window_ms, now]`.  Timestamps older than `now - window_ms` are
/// pruned before counting.
pub open spec fn in_window(stamp: u64, window_ms: u64, now: u64) -> bool {
    stamp as int + window_ms as int >= now as int
}

/// The timestamps of `stamps` that still lie inside the window, in order.
pub open spec fn prune(stamps: Seq<u64>, window_ms: u64, now: u64) -> Seq<u64>
    decreases stamps.len(),
{
    if stamps.len() == 0 {
        Seq::empty()
    } else if in_window(stamps[0], window_ms, now) {
        seq![stamps[0]] + prune(stamps.drop_first(), window_ms, now)
    } else {
        prune(stamps.drop_first(), window_ms, now)
    }
}

/// Appending a timestamp and pruning commute: the new timestamp survives
/// exactly when it is in the window.
proof fn lemma_prune_push(stamps: Seq<u64>, window_ms: u64, now: u64, stamp: u64)
    ensures
        prune(stamps.push(stamp), window_ms, now) == if in_window(stamp, window_ms, now) {
            prune(stamps, window_ms, now).push(stamp)
        } else {
            prune(stamps, window_ms, now)
        },
    decreases stamps.len(),
{
    let pushed = stamps.push(stamp);
    assert(pushed[0] == if stamps.len() == 0 {
        stamp
    } else {
        stamps[0]
    });
    if stamps.len() == 0 {
        assert(pushed.drop_first() =~= Seq::<u64>::empty());
        assert(prune(Seq::<u64>::empty(), window_ms, now) =~= Seq::<u64>::empty());
        assert(prune(stamps, window_ms, now) =~= Seq::<u64>::empty());
        if in_window(stamp, window_ms, now) {
            assert(prune(pushed, window_ms, now) =~= seq![stamp]);
            assert(prune(stamps, window_ms, now).push(stamp) =~= seq![stamp]);
        } else {
            assert(prune(pushed, window_ms, now) =~= Seq::<u64>::empty());
        }
    } else {
        assert(pushed.drop_first() =~= stamps.drop_first().push(stamp));
        lemma_prune_push(stamps.drop_first(), window_ms, now, stamp);
        if in_window(stamp, window_ms, now) {
            assert(prune(pushed, window_ms, now) =~= prune(
                stamps,
                window_ms,
                now,
            ).push(stamp));
        } else {
            assert(prune(pushed, window_ms, now) =~= prune(stamps, window_ms, now));
        }
    }
}

/// Pruning never grows the window.
pub proof fn lemma_prune_len(stamps: Seq<u64>, window_ms: u64, now: u64)
    ensures
        prune(stamps, window_ms, now).len() <= stamps.len(),
    decreases stamps.len(),
{
    if stamps.len() > 0 {
        lemma_prune_len(stamps.drop_first(), window_ms, now);
    }
}

/// Pruning keeps a window whose every timestamp is still current.
pub proof fn lemma_prune_all_in_window(stamps: Seq<u64>, window_ms: u64, now: u64)
    requires
        forall|i: int| 0 <= i < stamps.len() ==> in_window(stamps[i], window_ms, now),
    ensures
        prune(stamps, window_ms, now) == stamps,
    decreases stamps.len(),
{
    if stamps.len() > 0 {
        assert(forall|i: int|
            0 <= i < stamps.drop_first().len() ==> in_window(
                #[trigger] stamps.drop_first()[i],
                window_ms,
                now,
            ));
        lemma_prune_all_in_window(stamps.drop_first(), window_ms, now);
        assert(prune(stamps, window_ms, now) =~= stamps);
    }
}

/// Pruning a window with an aged-out timestamp strictly shrinks it.
pub proof fn lemma_prune_drops_aged(stamps: Seq<u64>, window_ms: u64, now: u64)
    requires
        exists|i: int| 0 <= i < stamps.len() && !in_window(stamps[i], window_ms, now),
    ensures
        prune(stamps, window_ms, now).len() < stamps.len(),
    decreases stamps.len(),
{
    let i = choose|i: int| 0 <= i < stamps.len() && !in_window(stamps[i], window_ms, now);
    if i == 0 {
        lemma_prune_len(stamps.drop_first(), window_ms, now);
    } else {
        assert(stamps.drop_first()[i - 1] == stamps[i]);
        lemma_prune_drops_aged(stamps.drop_first(), window_ms, now);
    }
}

struct ClientWindow {
    id: String,
    stamps: Vec<u64>,
}

/// Admission control by sliding time window, with independent state per
/// client and no cross-client interaction.
pub struct RateLimiter {
    max_requests: u64,
    window_ms: u64,
    clients: Vec<ClientWindow>,
}

impl RateLimiter {
    /// Calls admitted per client inside one window.
    pub closed spec fn max_requests(self) -> u64 {
        self.max_requests
    }

    /// Window duration in milliseconds.
    pub closed spec fn window_ms(self) -> u64 {
        self.window_ms
    }

    spec fn has_client(self, id: Seq<char>) -> bool {
        exists|i: int| 0 <= i < self.clients.len() && self.clients[i].id@ == id
    }

    spec fn client_idx(self, id: Seq<char>) -> int {
        choose|i: int| 0 <= i < self.clients.len() && self.clients[i].id@ == id
    }

    /// The recorded timestamps of one client; empty while the client has
    /// never been seen.
    pub closed spec fn window_of(self, id: Seq<char>) -> Seq<u64> {
        if self.has_client(id) {
            self.clients[self.client_idx(id)].stamps@
        } else {
            Seq::empty()
        }
    }

    /// Positive configuration, and one window per client identity.
    pub closed spec fn wf(self) -> bool {
        &&& self.max_requests >= 1
        &&& self.window_ms >= 1
        &&& forall|i: int, j: int|
            0 <= i < j < self.clients.len() ==> self.clients[i].id@ != self.clients[j].id@
    }

    /// A limiter that admits at most `max_requests` calls per client inside
    /// any trailing `window_ms` interval.
    pub fn new(max_requests: u64, window_ms: u64) -> (r: RateLimiter)
        requires
            max_requests >= 1,
            window_ms >= 1,
        ensures
            r.wf(),
            r.max_requests() == max_requests,
            r.window_ms() == window_ms,
            forall|id: Seq<char>| r.window_of(id) == Seq::<u64>::empty(),
    {
        RateLimiter { max_requests, window_ms, clients: Vec::new() }
    }

    /// Prune one client's window to the timestamps still inside the trailing
    /// interval ending at `now`.
    fn pruned_window(&self, stamps: &Vec<u64>, now: u64) -> (kept: Vec<u64>)
        ensures
            kept@ == prune(stamps@, self.window_ms(), now),
    {
        let mut kept: Vec<u64> = Vec::new();
        let mut i: usize = 0;
        proof {
            assert(stamps@.take(0) =~= Seq::<u64>::empty());
        }
        while i < stamps.len()
            invariant
                i <= stamps.len(),
                kept@ == prune(stamps@.take(i as int), self.window_ms(), now),
            decreases stamps.len() - i,
        {
            let stamp = stamps[i];
            proof {
                lemma_prune_push(stamps@.take(i as int), self.window_ms(), now, stamp);
                assert(stamps@.take(i as int).push(stamp) =~= stamps@.take(i as int + 1));
            }
            if stamp as u128 + self.window_ms as u128 >= now as u128 {
                kept.push(stamp);
            }
            i = i + 1;
        }
        proof {
            assert(stamps@.take(stamps@.len() as int) =~= stamps@);
        }
        kept
    }

    /// Check-and-record admission for one client at time `now`.
    ///
    /// The client's window is pruned on every check, denials included; the
    /// call is admitted exactly when fewer than `max_requests` timestamps
    /// remain, and `now` is recorded only on admission.  Other clients'
    /// windows are untouched.
    pub fn allow(&mut self, client_id: &String, now: u64) -> (admitted: bool)
        requires
            old(self).wf(),
        ensures
            final(self).wf(),
            final(self).max_requests() == old(self).max_requests(),
            final(self).window_ms() == old(self).window_ms(),
            admitted == (prune(old(self).window_of(client_id@), old(self).window_ms(), now).len()
                < old(self).max_requests()),
            final(self).window_of(client_id@) == if admitted {
                prune(old(self).window_of(client_id@), old(self).window_ms(), now).push(now)
            } else {
                prune(old(self).window_of(client_id@), old(self).window_ms(), now)
            },
            forall|other: Seq<char>|
                other != client_id@ ==> final(self).window_of(other) == old(self).window_of(
                    other,
                ),
    {
        let mut found: Option<usize> = None;
        let mut i: usize = 0;
        while i < self.clients.len()
            invariant
                i <= self.clients.len(),
                *self == *old(self),
                match found {
                    Some(k) => k < self.clients.len() && self.clients[k as int].id@ == client_id@,
                    None => forall|j: int| 0 <= j < i ==> self.clients[j].id@ != client_id@,
                },
            decreases self.clients.len() - i,
        {
            if found.is_none() && self.clients[i].id == *client_id {
                found = Some(i);
            }
            i = i + 1;
        }
        match found {
            Some(idx) => {
                proof {
                    assert(old(self).has_client(client_id@));
                    let w = old(self).client_idx(client_id@);
                    assert(old(self).clients[w].id@ == client_id@);
                    assert(w == idx as int);
                }
                let pruned = self.pruned_window(&self.clients[idx].stamps, now);
                let remaining = pruned.len();
                let slot = &mut self.clients[idx];
                slot.stamps = pruned;
                let admitted = (remaining as u64) < self.max_requests;
                if admitted {
                    let slot = &mut self.clients[idx];
                    slot.stamps.push(now);
                }
                proof {
                    let post = *self;
                    assert(post.clients[idx as int].id@ == client_id@);
                    assert(post.has_client(client_id@));
                    let w = post.client_idx(client_id@);
                    assert(post.clients[w].id@ == client_id@);
                    assert(w == idx as int);
                    assert forall|other: Seq<char>| other != client_id@ implies
                        post.window_of(other) == old(self).window_of(other) by {
                        if old(self).has_client(other) {
                            let k = old(self).client_idx(other);
                            assert(post.clients[k].id@ == other);
                            assert(post.has_client(other));
                            let k2 = post.client_idx(other);
                            assert(post.clients[k2].id@ == other);
                            assert(k2 == k);
                        } else {
                            if post.has_client(other) {
                                let k2 = post.client_idx(other);
                                assert(old(self).clients[k2].id@ == other);
                            }
                        }
                    }
                }
                admitted
            },
            None => {
                proof {
                    if old(self).has_client(client_id@) {
                        let k = old(self).client_idx(client_id@);
                        assert(old(self).clients[k].id@ == client_id@);
                    }
                    assert(!old(self).has_client(client_id@));
                    assert(prune(Seq::<u64>::empty(), old(self).window_ms(), now)
                        =~= Seq::<u64>::empty());
                }
                let mut stamps: Vec<u64> = Vec::new();
                stamps.push(now);
                let entry = ClientWindow { id: client_id.clone(), stamps };
                self.clients.push(entry);
                proof {
                    let post = *self;
                    let n = old(self).clients.len() as int;
                    assert(post.clients[n].id@ == client_id@);
                    assert(post.has_client(client_id@));
                    let w = post.client_idx(client_id@);
                    assert(post.clients[w].id@ == client_id@);
                    assert(w == n);
                    assert(post.window_of(client_id@) =~= prune(
                        old(self).window_of(client_id@),
                        old(self).window_ms(),
                        now,
                    ).push(now));
                    assert forall|other: Seq<char>| other != client_id@ implies
                        post.window_of(other) == old(self).window_of(other) by {
                        if old(self).has_client(other) {
                            let k = old(self).client_idx(other);
                            assert(post.clients[k].id@ == other);
                            assert(post.has_client(other));
                            let k2 = post.client_idx(other);
                            assert(post.clients[k2].id@ == other);
                            assert(k2 == k);
                        } else {
                            if post.has_client(other) {
                                let k2 = post.client_idx(other);
                                assert(k2 < n);
                                assert(old(self).clients[k2].id@ == other);
                            }
                        }
                    }
                }
                true
            },
        }
    }
}

/// One side of the sliding-window law: when `max_requests` calls were
/// recorded and all of them still lie inside the window at `now`, the next
/// check at `now` finds a full window and is denied.
pub proof fn lemma_full_window_denies(stamps: Seq<u64>, window_ms: u64, now: u64, max_requests: u64)
    requires
        stamps.len() >= max_requests,
        forall|i: int| 0 <= i < stamps.len() ==> in_window(stamps[i], window_ms, now),
    ensures
        !(prune(stamps, window_ms, now).len() < max_requests),
{
    lemma_prune_all_in_window(stamps, window_ms, now);
}

/// The other side: once any one of exactly `max_requests` recorded calls has
/// aged past the window, the next check at `now` is admitted again.
pub proof fn lemma_aged_window_readmits(stamps: Seq<u64>, window_ms: u64, now: u64, max_requests: u64)
    requires
        stamps.len() == max_requests,
        exists|i: int| 0 <= i < stamps.len() && !in_window(stamps[i], window_ms, now),
    ensures
        prune(stamps, window_ms, now).len() < max_requests,
{
    lemma_prune_drops_aged(stamps, window_ms, now);
}

} // verus!
