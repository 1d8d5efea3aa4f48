//! The snapshot polling and deduplication protocol.
//!
//! The external interface offers no subscription or notification: the only
//! operation is "give me whatever the latest snapshot is", which may hand
//! back the same snapshot over and over, or nothing at all before a match
//! has started. A [`Poller`] turns that into "deliver each new snapshot
//! exactly once": it compares a novelty key read from every fetched
//! snapshot against the key of the last snapshot it delivered, delivers on
//! a change, and otherwise keeps quiet.
//!
//! [`Poller::next`] wraps the same decision in a blocking retry loop: each
//! round first passes the rate limiter (polling too fast destabilises the
//! host process), then fetches and screens a snapshot, and gives up with
//! [`PollError::Timeout`] once a configured ceiling of wall-clock time has
//! passed without progress — a frozen host is assumed gone, not slow.

use vstd::prelude::*;

use crate::error::RLBotError;
use crate::limiter::RateLimiter;
use crate::limiter::Stopwatch;

verus! {

/// Initial value of a poller's novelty key: chosen so that the key of any
/// real snapshot compares unequal to it, which makes the very first fetched
/// snapshot count as new.
pub const SENTINEL_KEY: u64 = 0;

/// Minimum milliseconds between polls for full game-state snapshots.
pub const STATE_POLL_INTERVAL_MILLIS: u64 = 3;

/// Minimum milliseconds between polls for high-frequency physics snapshots.
pub const PHYSICS_POLL_INTERVAL_MILLIS: u64 = 1;

/// Milliseconds of no progress after which a blocking poll gives up.
pub const DEFAULT_TIMEOUT_MILLIS: u64 = 10_000;

/// One observation of the external world: an opaque payload together with
/// the novelty key read from it. The key of two genuinely distinct
/// snapshots differs; fetching the same snapshot twice yields the same key.
#[derive(Clone, Copy, Debug)]
pub struct Snapshot<P> {
    /// The novelty key: game-clock bits for state snapshots, a frame
    /// counter for physics snapshots.
    pub key: u64,
    /// The snapshot itself, forwarded to the caller unchanged.
    pub payload: P,
}

/// The adapter boundary: a non-blocking fetch that returns immediately with
/// the most recent snapshot, nothing if the external source has none yet,
/// or an error if the fetch itself is structurally broken.
///
/// No contract is placed on the fetch; the poller states what it does for
/// every possible outcome.
pub trait SnapshotSource {
    /// What a fetched snapshot carries besides its key.
    type Payload;

    /// Asks the external interface for whatever the latest snapshot is.
    fn fetch_snapshot(&mut self) -> Result<Option<Snapshot<Self::Payload>>, RLBotError>;
}

/// The tunables of one polling cadence.
#[derive(Clone, Copy, Debug, PartialEq, Eq, Structural)]
pub struct PollConfig {
    /// Minimum milliseconds between polls. Must be positive.
    pub interval_millis: u64,
    /// Milliseconds of no progress after which `next` fails.
    pub timeout_millis: u64,
}

impl PollConfig {
    /// The cadence for full game-state snapshots (game-tick rate).
    pub fn state_cadence() -> (r: PollConfig)
        ensures
            r.interval_millis == STATE_POLL_INTERVAL_MILLIS,
            r.timeout_millis == DEFAULT_TIMEOUT_MILLIS,
    {
        PollConfig {
            interval_millis: STATE_POLL_INTERVAL_MILLIS,
            timeout_millis: DEFAULT_TIMEOUT_MILLIS,
        }
    }

    /// The cadence for high-frequency physics snapshots.
    pub fn physics_cadence() -> (r: PollConfig)
        ensures
            r.interval_millis == PHYSICS_POLL_INTERVAL_MILLIS,
            r.timeout_millis == DEFAULT_TIMEOUT_MILLIS,
    {
        PollConfig {
            interval_millis: PHYSICS_POLL_INTERVAL_MILLIS,
            timeout_millis: DEFAULT_TIMEOUT_MILLIS,
        }
    }
}

/// Why a blocking poll failed.
#[derive(Clone, Copy, Debug, PartialEq, Eq, Structural)]
pub enum PollError {
    /// The timeout ceiling passed without a new snapshot: the host is
    /// assumed frozen or gone, and waiting longer will not help.
    Timeout,
    /// The fetch itself reported an error; surfaced immediately, without
    /// retry.
    Adapter(RLBotError),
}

/// The novelty key of a fetch outcome, if it carried a snapshot.
pub open spec fn key_of<P>(fetched: Option<Snapshot<P>>) -> Option<u64> {
    match fetched {
        Some(s) => Some(s.key),
        None => None,
    }
}

/// Whether a fetch outcome counts as new against the last seen key: it
/// carries a snapshot whose key differs.
pub open spec fn fresh_key(last: u64, fetched: Option<u64>) -> bool {
    match fetched {
        Some(k) => k != last,
        None => false,
    }
}

/// The last seen key after screening one fetch outcome: the fetched key if
/// it was new, the old key otherwise.
pub open spec fn step_key(last: u64, fetched: Option<u64>) -> u64 {
    match fetched {
        Some(k) => if k != last {
            k
        } else {
            last
        },
        None => last,
    }
}

/// Polls an external snapshot source and delivers exactly each new
/// snapshot, once.
pub struct Poller<A: SnapshotSource> {
    source: A,
    limiter: RateLimiter,
    last_seen_key: u64,
    timeout_millis: u64,
}

impl<A: SnapshotSource> Poller<A> {
    /// The key of the last snapshot this poller delivered, or
    /// [`SENTINEL_KEY`] if it has not delivered any yet.
    pub closed spec fn last_key(&self) -> u64 {
        self.last_seen_key
    }

    /// The configured timeout ceiling in milliseconds.
    pub closed spec fn timeout(&self) -> u64 {
        self.timeout_millis
    }

    /// Builds a poller over `source`. Its first fetched snapshot will count
    /// as new, whatever its key, because no real key equals the sentinel.
    pub fn new(source: A, config: PollConfig) -> (r: Poller<A>)
        requires
            config.interval_millis > 0,
        ensures
            r.last_key() == SENTINEL_KEY,
            r.timeout() == config.timeout_millis,
    {
        Poller {
            source,
            limiter: RateLimiter::new(config.interval_millis),
            last_seen_key: SENTINEL_KEY,
            timeout_millis: config.timeout_millis,
        }
    }

    /// The source this poller fetches from.
    pub fn source(&self) -> &A {
        &self.source
    }

    /// Screens one fetch outcome: if it carries a snapshot whose key
    /// differs from the last seen key, remembers that key and hands the
    /// snapshot through; otherwise hands back nothing and changes nothing.
    ///
    /// This is the single decision point of the protocol.
    pub fn offer(&mut self, fetched: Option<Snapshot<A::Payload>>) -> (r: Option<
        Snapshot<A::Payload>,
    >)
        ensures
            final(self).last_key() == step_key(old(self).last_key(), key_of(fetched)),
            final(self).timeout() == old(self).timeout(),
            r == (if fresh_key(old(self).last_key(), key_of(fetched)) {
                fetched
            } else {
                None::<Snapshot<A::Payload>>
            }),
    {
        match fetched {
            Some(snap) => {
                if snap.key != self.last_seen_key {
                    self.last_seen_key = snap.key;
                    Some(snap)
                } else {
                    None
                }
            },
            None => None,
        }
    }

    /// Polls once, without blocking: fetches whatever the source has right
    /// now and screens it through [`Poller::offer`]. A snapshot comes back
    /// exactly when the fetch produced one with a new key; a fetch error is
    /// surfaced unchanged and leaves the poller as it was.
    pub fn try_next(&mut self) -> (r: Result<Option<Snapshot<A::Payload>>, RLBotError>)
        ensures
            final(self).timeout() == old(self).timeout(),
            match r {
                Ok(delivered) => {
                    &&& final(self).last_key() == step_key(old(self).last_key(), key_of(delivered))
                    &&& (delivered matches Some(s) ==> s.key != old(self).last_key()
                        && final(self).last_key() == s.key)
                    &&& (delivered is None ==> final(self).last_key() == old(self).last_key())
                },
                Err(_) => final(self).last_key() == old(self).last_key(),
            },
    {
        match self.source.fetch_snapshot() {
            Ok(fetched) => Ok(self.offer(fetched)),
            Err(e) => Err(e),
        }
    }

    /// Polls repeatedly, blocking the calling thread, until a new snapshot
    /// arrives; every round first waits for the rate limiter, so the source
    /// is never fetched faster than the configured interval. Fails with
    /// [`PollError::Timeout`] once more than the configured ceiling of
    /// wall-clock time has passed without a new snapshot, and with
    /// [`PollError::Adapter`] as soon as any fetch reports an error.
    ///
    /// On success the delivered snapshot's key differs from the key of
    /// whatever was delivered before and becomes the new last seen key; on
    /// any failure the poller is left exactly as it was.
    pub fn next(&mut self) -> (r: Result<Snapshot<A::Payload>, PollError>)
        ensures
            final(self).timeout() == old(self).timeout(),
            match r {
                Ok(s) => s.key != old(self).last_key() && final(self).last_key() == s.key,
                Err(_) => final(self).last_key() == old(self).last_key(),
            },
    {
        let timer = Stopwatch::start();
        let mut polls: u64 = 0;
        while polls < u64::MAX
            invariant
                self.last_key() == old(self).last_key(),
                self.timeout() == old(self).timeout(),
            decreases u64::MAX - polls,
        {
            self.limiter.wait();
            match self.try_next() {
                Ok(Some(snap)) => {
                    return Ok(snap);
                },
                Ok(None) => {},
                Err(e) => {
                    return Err(PollError::Adapter(e));
                },
            }
            if timer.elapsed_millis() > self.timeout_millis {
                return Err(PollError::Timeout);
            }
            polls = polls + 1;
        }
        Err(PollError::Timeout)
    }
}

// What the protocol guarantees over whole runs.
//
// `delivered_keys` replays the screening decision of `Poller::offer` over a
// sequence of fetch outcomes (each the key of a fetched snapshot, or `None`
// where the source had nothing), starting from a given last seen key, and
// collects the keys of the snapshots that would have been delivered. The
// proof functions below state the protocol's laws over that model; the
// contracts of `offer`, `try_next` and `next` tie each executable step to
// the same `step_key` / `fresh_key` functions the model folds.

/// The keys delivered by a run of the protocol over `fetches`, starting
/// with `last` as the last seen key.
pub open spec fn delivered_keys(last: u64, fetches: Seq<Option<u64>>) -> Seq<u64>
    decreases fetches.len(),
{
    if fetches.len() == 0 {
        Seq::empty()
    } else if fresh_key(last, fetches.first()) {
        seq![fetches.first().unwrap()] + delivered_keys(
            step_key(last, fetches.first()),
            fetches.drop_first(),
        )
    } else {
        delivered_keys(last, fetches.drop_first())
    }
}

/// The last seen key after a whole run of the protocol over `fetches`.
pub open spec fn run_key(last: u64, fetches: Seq<Option<u64>>) -> u64
    decreases fetches.len(),
{
    if fetches.len() == 0 {
        last
    } else {
        run_key(step_key(last, fetches.first()), fetches.drop_first())
    }
}

/// A run leaves the poller remembering exactly the key it delivered last —
/// or still the starting key, when it delivered nothing. A later run
/// therefore measures novelty against the last delivery, never against
/// anything older or newer.
pub proof fn lemma_run_key_is_last_delivery(last: u64, fetches: Seq<Option<u64>>)
    ensures
        delivered_keys(last, fetches).len() == 0 ==> run_key(last, fetches) == last,
        delivered_keys(last, fetches).len() > 0 ==> run_key(last, fetches) == delivered_keys(
            last,
            fetches,
        ).last(),
    decreases fetches.len(),
{
    if fetches.len() > 0 {
        let rest = fetches.drop_first();
        if fresh_key(last, fetches.first()) {
            let k = fetches.first().unwrap();
            lemma_run_key_is_last_delivery(k, rest);
            if delivered_keys(k, rest).len() > 0 {
                assert((seq![k] + delivered_keys(k, rest)).last() == delivered_keys(k, rest).last());
            } else {
                assert((seq![k] + delivered_keys(k, rest)).last() == k);
            }
        } else {
            lemma_run_key_is_last_delivery(last, rest);
        }
    }
}

/// Every fetched key is at least every earlier fetched key.
pub open spec fn keys_nondecreasing(fetches: Seq<Option<u64>>) -> bool {
    forall|i: int, j: int|
        0 <= i <= j < fetches.len() && #[trigger] fetches[i] is Some && #[trigger] fetches[j] is Some
            ==> fetches[i].unwrap() <= fetches[j].unwrap()
}

/// Every fetched key is at least `b`.
pub open spec fn keys_at_least(fetches: Seq<Option<u64>>, b: u64) -> bool {
    forall|i: int| 0 <= i < fetches.len() && #[trigger] fetches[i] is Some
        ==> fetches[i].unwrap() >= b
}

pub open spec fn strictly_increasing(keys: Seq<u64>) -> bool {
    forall|i: int, j: int| 0 <= i < j < keys.len() ==> #[trigger] keys[i] < #[trigger] keys[j]
}

/// If every fetched key is at least the last seen key, the first delivered
/// key exceeds the last seen key (it is a fetched key that differs from it).
proof fn lemma_first_delivery_exceeds(last: u64, fetches: Seq<Option<u64>>)
    requires
        keys_at_least(fetches, last),
    ensures
        delivered_keys(last, fetches).len() > 0 ==> delivered_keys(last, fetches).first() > last,
    decreases fetches.len(),
{
    if fetches.len() > 0 {
        if fresh_key(last, fetches.first()) {
            assert(fetches[0].unwrap() >= last);
        } else {
            assert(keys_at_least(fetches.drop_first(), last)) by {
                assert forall|i: int|
                    0 <= i < fetches.drop_first().len() && #[trigger] fetches.drop_first()[i]
                        is Some implies fetches.drop_first()[i].unwrap() >= last by {
                    assert(fetches.drop_first()[i] == fetches[i + 1]);
                }
            }
            lemma_first_delivery_exceeds(last, fetches.drop_first());
        }
    }
}

/// Monotonic delivery: as long as the external source's keys never
/// decrease, a run of the protocol delivers strictly increasing keys — no
/// repeat delivery, no reordering, whatever the starting key was.
pub proof fn lemma_monotonic_delivery(last: u64, fetches: Seq<Option<u64>>)
    requires
        keys_nondecreasing(fetches),
    ensures
        strictly_increasing(delivered_keys(last, fetches)),
    decreases fetches.len(),
{
    if fetches.len() > 0 {
        let rest = fetches.drop_first();
        assert(keys_nondecreasing(rest)) by {
            assert forall|i: int, j: int|
                0 <= i <= j < rest.len() && #[trigger] rest[i] is Some && #[trigger] rest[j]
                    is Some implies rest[i].unwrap() <= rest[j].unwrap() by {
                assert(rest[i] == fetches[i + 1]);
                assert(rest[j] == fetches[j + 1]);
            }
        }
        if fresh_key(last, fetches.first()) {
            let k = fetches.first().unwrap();
            lemma_monotonic_delivery(k, rest);
            assert(keys_at_least(rest, k)) by {
                assert forall|i: int| 0 <= i < rest.len() && #[trigger] rest[i] is Some
                    implies rest[i].unwrap() >= k by {
                    assert(rest[i] == fetches[i + 1]);
                    assert(fetches[0] is Some);
                }
            }
            lemma_first_delivery_exceeds(k, rest);
            let tail = delivered_keys(k, rest);
            let whole = delivered_keys(last, fetches);
            assert(whole == seq![k] + tail);
            assert forall|i: int, j: int| 0 <= i < j < whole.len() implies whole[i]
                < whole[j] by {
                if i == 0 {
                    assert(whole[j] == tail[j - 1]);
                    if j - 1 > 0 {
                        assert(tail[0] < tail[j - 1]);
                    }
                } else {
                    assert(whole[i] == tail[i - 1]);
                    assert(whole[j] == tail[j - 1]);
                }
            }
        } else {
            lemma_monotonic_delivery(last, rest);
        }
    }
}

/// No event means no return: if the source keeps handing back the same
/// snapshot (one constant key), a run delivers it at most once — exactly
/// once when its key differs from the starting key, and never otherwise.
pub proof fn lemma_constant_key_delivers_once(last: u64, fetches: Seq<Option<u64>>, c: u64)
    requires
        forall|i: int| 0 <= i < fetches.len() ==> #[trigger] fetches[i] == Some(c),
    ensures
        delivered_keys(last, fetches) == if c != last && fetches.len() > 0 {
            seq![c]
        } else {
            Seq::<u64>::empty()
        },
    decreases fetches.len(),
{
    if fetches.len() > 0 {
        let rest = fetches.drop_first();
        assert(forall|i: int| 0 <= i < rest.len() ==> #[trigger] rest[i] == fetches[i + 1]);
        assert(fetches[0] == Some(c));
        if c != last {
            lemma_constant_key_delivers_once(c, rest, c);
            assert(delivered_keys(last, fetches) =~= seq![c]);
        } else {
            lemma_constant_key_delivers_once(last, rest, c);
            assert(delivered_keys(last, fetches) =~= Seq::<u64>::empty());
        }
    } else {
        assert(delivered_keys(last, fetches) =~= Seq::<u64>::empty());
    }
}

/// First call delivers: starting from the sentinel, a run whose first fetch
/// carries any real snapshot (key unequal to the sentinel) delivers that
/// snapshot's key first — the sentinel never suppresses a real snapshot.
pub proof fn lemma_first_call_delivers(fetches: Seq<Option<u64>>, k: u64)
    requires
        fetches.len() > 0,
        fetches.first() == Some(k),
        k != SENTINEL_KEY,
    ensures
        delivered_keys(SENTINEL_KEY, fetches).len() > 0,
        delivered_keys(SENTINEL_KEY, fetches).first() == k,
{
    assert(fresh_key(SENTINEL_KEY, fetches.first()));
}

} // verus!
