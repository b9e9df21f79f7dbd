//! BlockhashCache: the holder of the most recent usable reference hash.
//!
//! The cache itself is a plain value with an exact update policy; the
//! surrounding process shares it behind a reader-writer lock and refreshes it
//! from a background task. `read` copies the committed snapshot and performs
//! no I/O of any kind; `apply_refresh` commits a freshly fetched snapshot and
//! keeps the previous one when the fetch failed, so a stale-but-valid hash is
//! always preferred over none. The whole history of refresh outcomes is
//! carried as ghost state, which ties the served snapshot to the most recent
//! successful fetch over any run of the refresher.
use vstd::prelude::*;

verus! {

/// A reference hash (32 raw bytes) plus the instant it was obtained,
/// in milliseconds of process time.
pub struct BlockhashSnapshot {
    pub blockhash: Vec<u8>,
    pub obtained_at_ms: u64,
}

impl BlockhashSnapshot {
    /// A well-formed snapshot holds exactly 32 hash bytes.
    pub open spec fn wf(&self) -> bool {
        self.blockhash@.len() == 32
    }

    /// A copy of this snapshot holding the same hash bytes and instant.
    pub fn duplicate(&self) -> (r: BlockhashSnapshot)
        ensures
            r.blockhash@ == self.blockhash@,
            r.obtained_at_ms == self.obtained_at_ms,
    {
        BlockhashSnapshot {
            blockhash: vstd::slice::slice_to_vec(self.blockhash.as_slice()),
            obtained_at_ms: self.obtained_at_ms,
        }
    }
}

/// What a cache seeded with `seed` serves after the given sequence of
/// refresh outcomes (`Some` for a successful fetch, `None` for a failed one).
pub open spec fn refreshed(
    seed: BlockhashSnapshot,
    outcomes: Seq<Option<BlockhashSnapshot>>,
) -> BlockhashSnapshot
    decreases outcomes.len(),
{
    if outcomes.len() == 0 {
        seed
    } else {
        match outcomes.last() {
            Option::Some(s) => s,
            Option::None => refreshed(seed, outcomes.drop_last()),
        }
    }
}

/// The most recent successful outcome of the sequence, if any succeeded.
pub open spec fn last_success(outcomes: Seq<Option<BlockhashSnapshot>>) -> Option<
    BlockhashSnapshot,
>
    decreases outcomes.len(),
{
    if outcomes.len() == 0 {
        Option::None
    } else if outcomes.last() is Some {
        outcomes.last()
    } else {
        last_success(outcomes.drop_last())
    }
}

/// Law: after any sequence of refresh outcomes, the cache serves the most
/// recently successfully fetched snapshot, and the seed when no refresh ever
/// succeeded; failed refreshes never change what is served.
pub proof fn lemma_cache_serves_last_success(
    seed: BlockhashSnapshot,
    outcomes: Seq<Option<BlockhashSnapshot>>,
)
    ensures
        refreshed(seed, outcomes) == (match last_success(outcomes) {
            Option::Some(s) => s,
            Option::None => seed,
        }),
    decreases outcomes.len(),
{
    if outcomes.len() > 0 && outcomes.last() is None {
        lemma_cache_serves_last_success(seed, outcomes.drop_last());
    }
}

/// The cache value: the most recently committed snapshot, plus the seed and
/// the refresh outcomes that led to it (ghost).
pub struct BlockhashCache {
    current: BlockhashSnapshot,
    seed: Ghost<BlockhashSnapshot>,
    history: Ghost<Seq<Option<BlockhashSnapshot>>>,
}

impl BlockhashCache {
    /// The snapshot the cache currently serves.
    pub closed spec fn snapshot(&self) -> BlockhashSnapshot {
        self.current
    }

    /// The snapshot the cache was seeded with at startup.
    pub closed spec fn seed_snapshot(&self) -> BlockhashSnapshot {
        self.seed@
    }

    /// Every refresh outcome committed so far, in order.
    pub closed spec fn refresh_history(&self) -> Seq<Option<BlockhashSnapshot>> {
        self.history@
    }

    /// The served snapshot is well formed and is exactly what the refresh
    /// history dictates.
    pub open spec fn wf(&self) -> bool {
        &&& self.snapshot().wf()
        &&& self.snapshot() == refreshed(self.seed_snapshot(), self.refresh_history())
    }

    /// Seed the cache with the snapshot fetched at startup.
    pub fn new(initial: BlockhashSnapshot) -> (c: BlockhashCache)
        requires
            initial.wf(),
        ensures
            c.snapshot() == initial,
            c.seed_snapshot() == initial,
            c.refresh_history() == Seq::<Option<BlockhashSnapshot>>::empty(),
            c.wf(),
    {
        let ghost g = initial;
        BlockhashCache { current: initial, seed: Ghost(g), history: Ghost(Seq::empty()) }
    }

    /// Copy out the most recently committed snapshot. Nothing here performs
    /// I/O or waits on the refresher: the caller gets the committed value,
    /// however stale it may be.
    pub fn read(&self) -> (s: BlockhashSnapshot)
        ensures
            s.blockhash@ == self.snapshot().blockhash@,
            s.obtained_at_ms == self.snapshot().obtained_at_ms,
    {
        self.current.duplicate()
    }

    /// Commit the outcome of one refresh tick: a successful fetch replaces
    /// the snapshot; a failed fetch (`None`) leaves the last good snapshot
    /// in place, so readers keep getting the most recent successful value.
    pub fn apply_refresh(&mut self, fetched: Option<BlockhashSnapshot>)
        requires
            old(self).wf(),
            (fetched matches Some(s) ==> s.wf()),
        ensures
            (fetched matches Some(s) ==> final(self).snapshot() == s),
            fetched is None ==> final(self).snapshot() == old(self).snapshot(),
            final(self).seed_snapshot() == old(self).seed_snapshot(),
            final(self).refresh_history() == old(self).refresh_history().push(fetched),
            final(self).wf(),
    {
        let ghost outcome = fetched;
        match fetched {
            Option::Some(s) => {
                self.current = s;
            },
            Option::None => {},
        }
        proof {
            self.history@ = self.history@.push(outcome);
            assert(self.history@.last() == outcome);
            assert(self.history@.drop_last() =~= old(self).history@);
        }
    }
}

} // verus!
