use vstd::prelude::*;
use crate::candidate::{
    address_of_public_key, generate, public_key_of, Candidate, SECRET_KEY_BYTES,
};
use crate::hex::hex_of;
use crate::patterns::{any_matches, RegexPatterns};
use crate::report::{is_rate_line, rate_segments, Segment};

verus! {

/// Relies on num_cpus::get: the number of logical processors this process
/// may use, which its documentation says is always at least 1.
#[verifier::external_body]
fn available_processors() -> (r: usize)
    ensures
        r >= 1,
{
    num_cpus::get()
}

/// The number of workers of a round: one per available logical processor.
pub fn worker_pool_size() -> (r: usize)
    ensures
        r >= 1,
{
    available_processors()
}

/// Why a search cannot start.
#[derive(Clone, Copy, Debug, PartialEq, Eq, Structural)]
pub enum SearchError {
    /// No pattern compiled, so nothing could ever match.
    NoValidPattern,
}

impl SearchError {
    /// The process exit status for this error.
    pub fn exit_code(&self) -> (r: i32)
        ensures
            r == 1,
    {
        match self {
            SearchError::NoValidPattern => 1,
        }
    }
}

/// Whether a search may start: it may exactly when some pattern was retained.
pub fn check_patterns(patterns: &RegexPatterns) -> (r: Result<(), SearchError>)
    ensures
        r is Ok <==> patterns@.len() > 0,
        r is Err ==> r == Err::<(), SearchError>(SearchError::NoValidPattern),
{
    if patterns.len() == 0 {
        Err(SearchError::NoValidPattern)
    } else {
        Ok(())
    }
}

/// The candidate back when its address matches some rule, else nothing.
pub fn evaluate(patterns: &RegexPatterns, candidate: Candidate) -> (r: Option<Candidate>)
    ensures
        r is Some <==> any_matches(patterns@, candidate.address_view()),
        r matches Some(c) ==> c == candidate,
{
    if patterns.contains(candidate.address().as_str()) {
        Some(candidate)
    } else {
        None
    }
}

/// What one iteration of a worker's loop came to.
pub enum WorkerStep {
    /// A result was already found: the worker leaves.
    Stop,
    /// The generated candidate matches.
    Matched(Candidate),
    /// The generated candidate matches no rule.
    Missed,
}

/// One iteration of a worker: stop when a result is already `found`;
/// otherwise generate a candidate and test it against the rules.
pub fn worker_step(patterns: &RegexPatterns, found: bool) -> (r: WorkerStep)
    ensures
        found <==> r is Stop,
        !found ==> exists|secret_key: Seq<u8>|
            {
                &&& secret_key.len() == SECRET_KEY_BYTES
                &&& (r is Missed <==> !any_matches(
                    patterns@,
                    #[trigger] address_of_public_key(public_key_of(secret_key)),
                ))
                &&& (r matches WorkerStep::Matched(c) ==> {
                    &&& c.is_well_formed()
                    &&& c.private_key_view() == hex_of(secret_key)
                    &&& c.address_view() == address_of_public_key(public_key_of(secret_key))
                })
            },
{
    if found {
        return WorkerStep::Stop;
    }
    let candidate = generate();
    let ghost secret_key = choose|secret_key: Seq<u8>|
        secret_key.len() == SECRET_KEY_BYTES && #[trigger] hex_of(secret_key)
            == candidate.private_key_view() && candidate.address_view() == address_of_public_key(
            public_key_of(secret_key),
        );
    let ghost c0 = candidate;
    let r = match evaluate(patterns, candidate) {
        Some(c) => WorkerStep::Matched(c),
        None => WorkerStep::Missed,
    };
    assert(r matches WorkerStep::Matched(c) ==> c == c0);
    assert(secret_key.len() == SECRET_KEY_BYTES && (r is Missed <==> !any_matches(
        patterns@,
        address_of_public_key(public_key_of(secret_key)),
    )));
    r
}

/// What the coordinator does after one poll of the round's state.
#[derive(Debug)]
pub enum CoordinatorPoll {
    /// Every worker has left: the round is complete.
    Complete,
    /// Workers are still running; the throughput line to print, if one was
    /// stashed since the last poll.
    Running(Option<Vec<Segment>>),
}

/// The state that the workers, the rate reporter and the coordinator of one
/// round share.
pub struct SearchState {
    found: Option<Candidate>,
    per_second_counter: u64,
    active_workers: usize,
    worker_count: usize,
    pending_line: Option<Vec<Segment>>,
}

impl SearchState {
    pub closed spec fn found(&self) -> Option<Candidate> {
        self.found
    }

    pub closed spec fn counter(&self) -> nat {
        self.per_second_counter as nat
    }

    pub closed spec fn active(&self) -> nat {
        self.active_workers as nat
    }

    pub closed spec fn workers(&self) -> nat {
        self.worker_count as nat
    }

    /// The round has at least one worker, never more active than started,
    /// and a worker has left only once a result was found.
    pub open spec fn holds_round_invariant(&self) -> bool {
        &&& self.workers() >= 1
        &&& self.active() <= self.workers()
        &&& self.active() < self.workers() ==> self.found() is Some
    }

    pub closed spec fn pending(&self) -> Option<Seq<Segment>> {
        match self.pending_line {
            Some(v) => Some(v@),
            None => None,
        }
    }

    /// The state at the start of a round with `worker_count` workers.
    pub fn new(worker_count: usize) -> (r: Self)
        requires
            worker_count >= 1,
        ensures
            r.holds_round_invariant(),
            r.workers() == worker_count,
            r.found() is None,
            r.counter() == 0,
            r.active() == worker_count,
            r.pending() is None,
    {
        SearchState { found: None, per_second_counter: 0, active_workers: worker_count, worker_count, pending_line: None }
    }

    /// Whether a result has been found.
    pub fn is_found(&self) -> (r: bool)
        ensures
            r == self.found() is Some,
    {
        self.found.is_some()
    }

    /// Whether every worker has left.
    pub fn is_complete(&self) -> (r: bool)
        ensures
            r == (self.active() == 0),
    {
        self.active_workers == 0
    }

    /// Records a worker's step: a stop, which a worker makes only once it
    /// has seen a result, takes the worker off the active count,
    /// a match becomes the result (a later match replaces it), and a miss
    /// counts one more evaluated candidate (the counter stays at its maximum).
    pub fn apply(&mut self, step: WorkerStep)
        requires
            old(self).holds_round_invariant(),
            step is Stop ==> old(self).active() > 0 && old(self).found() is Some,
        ensures
            final(self).holds_round_invariant(),
            final(self).pending() == old(self).pending(),
            final(self).workers() == old(self).workers(),
            final(self).counter() >= old(self).counter(),
            step is Stop ==> {
                &&& final(self).active() == old(self).active() - 1
                &&& final(self).found() == old(self).found()
                &&& final(self).counter() == old(self).counter()
            },
            step matches WorkerStep::Matched(c) ==> {
                &&& final(self).found() == Some(c)
                &&& final(self).active() == old(self).active()
                &&& final(self).counter() == old(self).counter()
            },
            step is Missed ==> {
                &&& final(self).found() == old(self).found()
                &&& final(self).active() == old(self).active()
                &&& final(self).counter() == if old(self).counter() < u64::MAX {
                    old(self).counter() + 1
                } else {
                    old(self).counter()
                }
            },
    {
        match step {
            WorkerStep::Stop => {
                self.active_workers = self.active_workers - 1;
            },
            WorkerStep::Matched(c) => {
                self.found = Some(c);
            },
            WorkerStep::Missed => {
                self.per_second_counter = self.per_second_counter.saturating_add(1);
            },
        }
    }

    /// One tick of the rate reporter. Once a result is found it changes
    /// nothing and returns `false`: the reporter stops. Otherwise it stashes
    /// the throughput line for the count so far, replacing any line not yet
    /// taken, resets the counter to zero and returns `true`.
    pub fn reporter_tick(&mut self, quiet: bool) -> (r: bool)
        ensures
            r == old(self).found() is None,
            final(self).found() == old(self).found(),
            final(self).active() == old(self).active(),
            final(self).workers() == old(self).workers(),
            !r ==> final(self).counter() == old(self).counter() && final(self).pending() == old(
                self,
            ).pending(),
            r ==> final(self).counter() == 0,
            r ==> (final(self).pending() matches Some(line) && is_rate_line(
                line,
                old(self).counter(),
                quiet,
            )),
    {
        if self.found.is_some() {
            return false;
        }
        let line = rate_segments(self.per_second_counter, quiet);
        self.per_second_counter = 0;
        self.pending_line = Some(line);
        true
    }

    /// Takes the stashed throughput line, if any, leaving the stash empty.
    pub fn take_pending_line(&mut self) -> (r: Option<Vec<Segment>>)
        ensures
            match r {
                Some(v) => old(self).pending() == Some(v@),
                None => old(self).pending() is None,
            },
            final(self).pending() is None,
            final(self).found() == old(self).found(),
            final(self).counter() == old(self).counter(),
            final(self).active() == old(self).active(),
            final(self).workers() == old(self).workers(),
    {
        let r = self.pending_line.take();
        r
    }

    /// One poll by the coordinator: the round is complete once every worker
    /// has left; until then each poll drains the stashed throughput line.
    pub fn poll(&mut self) -> (r: CoordinatorPoll)
        ensures
            r is Complete <==> old(self).active() == 0,
            r is Complete ==> final(self).pending() == old(self).pending(),
            old(self).holds_round_invariant() && r is Complete ==> old(self).found() is Some,
            r matches CoordinatorPoll::Running(line) ==> {
                &&& match line {
                    Some(v) => old(self).pending() == Some(v@),
                    None => old(self).pending() is None,
                }
                &&& final(self).pending() is None
            },
            final(self).found() == old(self).found(),
            final(self).counter() == old(self).counter(),
            final(self).active() == old(self).active(),
            final(self).workers() == old(self).workers(),
    {
        if self.active_workers == 0 {
            CoordinatorPoll::Complete
        } else {
            CoordinatorPoll::Running(self.take_pending_line())
        }
    }

    /// Takes the round's result, leaving none behind.
    pub fn take_result(&mut self) -> (r: Option<Candidate>)
        ensures
            r == old(self).found(),
            old(self).holds_round_invariant() && old(self).active() == 0 ==> r is Some,
            final(self).found() is None,
            final(self).counter() == old(self).counter(),
            final(self).active() == old(self).active(),
            final(self).workers() == old(self).workers(),
            final(self).pending() == old(self).pending(),
    {
        self.found.take()
    }
}

} // verus!
