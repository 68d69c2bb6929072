//! The search coordinator: one search at a time moves through the phases
//! idle, running, matched, cancelled. While running, attempts are counted
//! monotonically; at most one matching candidate is ever accepted, and once
//! accepted it is what every later poll returns.

use vstd::prelude::*;
use crate::keys::{Candidate, lower_of, wif_of, wif_ok, spec_hex, encode_wif, hex_string, fresh_candidate, lowercase};
use crate::matcher::contains_substring;

verus! {

/// The phases of a search, in order of travel; matched and cancelled are
/// terminal until the next start.
#[derive(Clone, Copy, PartialEq, Eq, Structural, Debug)]
pub enum Phase {
    Idle,
    Running,
    Matched,
    Cancelled,
}

/// What can go wrong at the interface: a request with an empty prefix or no
/// workers, a start while a search is already running, or a key that the
/// crypto layer refuses.
#[derive(Clone, Copy, PartialEq, Eq, Structural, Debug)]
pub enum SearchError {
    InvalidRequest,
    AlreadyRunning,
    FatalCryptoFailure,
}

/// The delivered find: the address and the two key encodings, immutable
/// once constructed.
pub struct MatchResult {
    pub address: String,
    pub private_key_encoded: String,
    pub public_key_encoded: String,
}

/// Progress figures computed on demand.
#[derive(Clone, Copy, PartialEq, Eq, Structural, Debug)]
pub struct Stats {
    pub attempts_per_second: u64,
    pub elapsed_seconds: u64,
    pub total_attempts: u64,
}

impl Default for Stats {
    fn default() -> (s: Stats)
        ensures
            s.attempts_per_second == 0,
            s.elapsed_seconds == 0,
            s.total_attempts == 0,
    {
        Stats { attempts_per_second: 0, elapsed_seconds: 0, total_attempts: 0 }
    }
}

/// The attempt rate per second: zero when no time has passed, otherwise the
/// counter divided by the elapsed seconds.
pub open spec fn rate_of(attempts: u64, elapsed: u64) -> u64 {
    if elapsed == 0 {
        0
    } else {
        attempts / elapsed
    }
}

/// Progress figures from a counter reading and elapsed whole seconds; no
/// division by zero, the rate is simply zero then.
pub fn compute_stats(total_attempts: u64, elapsed_seconds: u64) -> (s: Stats)
    ensures
        s.total_attempts == total_attempts,
        s.elapsed_seconds == elapsed_seconds,
        s.attempts_per_second == rate_of(total_attempts, elapsed_seconds),
{
    let rate: u64 = if elapsed_seconds == 0 {
        0
    } else {
        total_attempts / elapsed_seconds
    };
    Stats { attempts_per_second: rate, elapsed_seconds, total_attempts }
}

#[verifier::external_type_specification]
#[verifier::external_body]
pub struct ExInstant(std::time::Instant);

/// Relies on std::time::Instant::now: an opaque reading of the monotonic
/// clock, taken when a search starts.
#[verifier::external_body]
fn clock_now() -> (t: std::time::Instant) {
    std::time::Instant::now()
}

/// Relies on std::time::Instant::elapsed, narrowed to whole seconds by
/// Duration::as_secs. The value depends on the clock, so nothing is
/// promised of it.
#[verifier::external_body]
fn seconds_since(t: &std::time::Instant) -> (s: u64) {
    t.elapsed().as_secs()
}

/// The condition under which a candidate with this address may be accepted:
/// the search is running and the address contains the target. Nothing else
/// about the coordinator enters into it.
pub open spec fn accepts(c: SearchCoordinator, addr: Seq<char>) -> bool {
    c.phase == Phase::Running && contains_substring(addr, c.target@)
}

/// Owns the state of one search: the phase, the case-normalized target, the
/// attempt counter, the one-shot result slot and the start instant.
pub struct SearchCoordinator {
    pub phase: Phase,
    pub target: String,
    pub thread_count: usize,
    pub attempts: u64,
    pub result: Option<MatchResult>,
    pub started: Option<std::time::Instant>,
}

impl SearchCoordinator {
    /// A result is held exactly in the matched phase, any held result's
    /// address contains the target, and the counter is zero while idle.
    pub open spec fn wf(&self) -> bool {
        &&& (self.result is Some <==> self.phase == Phase::Matched)
        &&& (self.result matches Some(m) ==> contains_substring(m.address@, self.target@))
        &&& (self.phase == Phase::Idle ==> self.attempts == 0)
    }

    /// A fresh coordinator: idle, nothing counted, nothing held, an empty
    /// target and a single-worker default.
    pub fn new() -> (c: SearchCoordinator)
        ensures
            c.wf(),
            c.phase == Phase::Idle,
            c.attempts == 0,
            c.result is None,
            c.started is None,
            c.target@ == Seq::<char>::empty(),
            c.thread_count == 1,
    {
        SearchCoordinator {
            phase: Phase::Idle,
            target: String::new(),
            thread_count: 1,
            attempts: 0,
            result: None,
            started: None,
        }
    }

    /// Begins a search. Rejected while one is running; rejected without any
    /// other effect when the prefix is empty or the thread count is not
    /// positive. On success the counter is reset, the target is the
    /// lowercased prefix, the clock is read, and the search is running.
    pub fn start(&mut self, prefix: &str, thread_count: usize) -> (r: Result<(), SearchError>)
        requires
            old(self).wf(),
        ensures
            final(self).wf(),
            old(self).phase == Phase::Running ==> r == Err::<(), SearchError>(
                SearchError::AlreadyRunning,
            ) && *final(self) == *old(self),
            old(self).phase != Phase::Running && (prefix@.len() == 0 || thread_count < 1) ==> r
                == Err::<(), SearchError>(SearchError::InvalidRequest) && *final(self) == *old(self),
            old(self).phase != Phase::Running && prefix@.len() > 0 && thread_count >= 1 ==> {
                &&& r == Ok::<(), SearchError>(())
                &&& final(self).phase == Phase::Running
                &&& final(self).attempts == 0
                &&& final(self).result is None
                &&& final(self).target@ == lower_of(prefix@)
                &&& final(self).thread_count == thread_count
                &&& final(self).started is Some
            },
    {
        match self.phase {
            Phase::Running => {
                return Err(SearchError::AlreadyRunning);
            },
            _ => {},
        }
        if prefix.is_empty() || thread_count < 1 {
            return Err(SearchError::InvalidRequest);
        }
        self.target = lowercase(prefix);
        self.thread_count = thread_count;
        self.attempts = 0;
        self.result = None;
        self.started = Some(clock_now());
        self.phase = Phase::Running;
        Ok(())
    }

    /// Cancels a running search; idempotent, safe in any phase, and touches
    /// nothing but the phase.
    pub fn cancel(&mut self)
        requires
            old(self).wf(),
        ensures
            final(self).wf(),
            final(self).phase == (if old(self).phase == Phase::Running {
                Phase::Cancelled
            } else {
                old(self).phase
            }),
            final(self).attempts == old(self).attempts,
            final(self).result == old(self).result,
            final(self).target == old(self).target,
            final(self).thread_count == old(self).thread_count,
            final(self).started == old(self).started,
    {
        match self.phase {
            Phase::Running => {
                self.phase = Phase::Cancelled;
            },
            _ => {},
        }
    }

    /// The one-shot handoff. A candidate is accepted only while running and
    /// only when its address contains the target; acceptance stores the
    /// encoded result and ends the search, so at most one result is ever
    /// accepted and a later call can never overwrite it. Exactly the keys
    /// the wallet-import-format encoder refuses are the fatal crypto
    /// condition, surfaced with the coordinator untouched; generated keys
    /// are never refused.
    pub fn deliver(&mut self, cand: Candidate) -> (r: Result<bool, SearchError>)
        requires
            old(self).wf(),
        ensures
            final(self).wf(),
            final(self).attempts == old(self).attempts,
            final(self).target == old(self).target,
            final(self).thread_count == old(self).thread_count,
            final(self).started == old(self).started,
            !accepts(*old(self), cand.address@) ==> r == Ok::<bool, SearchError>(false) && *final(self) == *old(self),
            accepts(*old(self), cand.address@) && wif_ok(cand.secret_key@) ==> {
                &&& r == Ok::<bool, SearchError>(true)
                &&& final(self).phase == Phase::Matched
                &&& final(self).result matches Some(m) && m.address@ == cand.address@
                    && m.private_key_encoded@ == wif_of(cand.secret_key@)
                    && m.public_key_encoded@ == spec_hex(cand.public_key@)
            },
            accepts(*old(self), cand.address@) && !wif_ok(cand.secret_key@) ==> r == Err::<
                bool,
                SearchError,
            >(SearchError::FatalCryptoFailure) && *final(self) == *old(self),
    {
        match self.phase {
            Phase::Running => {},
            _ => {
                return Ok(false);
            },
        }
        if !crate::matcher::matches(cand.address.as_str(), self.target.as_str()) {
            return Ok(false);
        }
        let wif = match encode_wif(&cand.secret_key) {
            Some(w) => w,
            None => {
                return Err(SearchError::FatalCryptoFailure);
            },
        };
        let pk_hex = hex_string(&cand.public_key);
        self.result = Some(
            MatchResult {
                address: cand.address,
                private_key_encoded: wif,
                public_key_encoded: pk_hex,
            },
        );
        self.phase = Phase::Matched;
        Ok(true)
    }

    /// One attempt's outcome enters the coordinator. A worker that sees the
    /// search no longer running begins no attempt, so nothing is counted;
    /// otherwise the counter moves up by exactly one and the candidate is
    /// delivered when it matches. The counter never moves down. A matching
    /// candidate whose key the wallet-import-format encoder accepts is
    /// always delivered; exactly the refused keys are the fatal error.
    pub fn submit(&mut self, cand: Candidate) -> (r: Result<bool, SearchError>)
        requires
            old(self).wf(),
        ensures
            final(self).wf(),
            final(self).attempts >= old(self).attempts,
            final(self).target == old(self).target,
            final(self).thread_count == old(self).thread_count,
            final(self).started == old(self).started,
            old(self).phase != Phase::Running ==> r == Ok::<bool, SearchError>(false) && *final(self) == *old(self),
            old(self).phase == Phase::Running && old(self).attempts < u64::MAX
                ==> final(self).attempts == old(self).attempts + 1,
            old(self).phase == Phase::Running && old(self).attempts == u64::MAX
                ==> final(self).attempts == u64::MAX,
            old(self).phase == Phase::Running && !contains_substring(
                cand.address@,
                old(self).target@,
            ) ==> r == Ok::<bool, SearchError>(false) && final(self).phase == Phase::Running
                && final(self).result is None,
            old(self).phase == Phase::Running && contains_substring(
                cand.address@,
                old(self).target@,
            ) && wif_ok(cand.secret_key@) ==> {
                &&& r == Ok::<bool, SearchError>(true)
                &&& final(self).phase == Phase::Matched
                &&& final(self).result matches Some(m) && m.address@ == cand.address@
                    && m.private_key_encoded@ == wif_of(cand.secret_key@)
                    && m.public_key_encoded@ == spec_hex(cand.public_key@)
            },
            old(self).phase == Phase::Running && contains_substring(
                cand.address@,
                old(self).target@,
            ) && !wif_ok(cand.secret_key@) ==> r == Err::<bool, SearchError>(
                SearchError::FatalCryptoFailure,
            ) && final(self).phase == Phase::Running && final(self).result is None,
    {
        match self.phase {
            Phase::Running => {},
            _ => {
                return Ok(false);
            },
        }
        if self.attempts < u64::MAX {
            self.attempts = self.attempts + 1;
        }
        self.deliver(cand)
    }

    /// A counter reading reported from whatever drives the attempts. The
    /// counter only ever moves up, only while running, and a stale report
    /// can never move it down.
    pub fn observe_attempts(&mut self, total: u64)
        requires
            old(self).wf(),
        ensures
            final(self).wf(),
            final(self).attempts == (if old(self).phase == Phase::Running && total > old(self).attempts {
                total
            } else {
                old(self).attempts
            }),
            final(self).phase == old(self).phase,
            final(self).result == old(self).result,
            final(self).target == old(self).target,
            final(self).thread_count == old(self).thread_count,
            final(self).started == old(self).started,
    {
        match self.phase {
            Phase::Running => {
                if total > self.attempts {
                    self.attempts = total;
                }
            },
            _ => {},
        }
    }

    /// Non-blocking poll: a copy of the delivered result. Nothing before
    /// delivery or after cancellation; after delivery, the same value on
    /// every call.
    pub fn poll_result(&self) -> (r: Option<MatchResult>)
        ensures
            r is Some <==> self.result is Some,
            r matches Some(m) ==> self.result matches Some(held) && m.address@ == held.address@
                && m.private_key_encoded@ == held.private_key_encoded@ && m.public_key_encoded@
                == held.public_key_encoded@,
    {
        match &self.result {
            Some(m) => Some(
                MatchResult {
                    address: m.address.clone(),
                    private_key_encoded: m.private_key_encoded.clone(),
                    public_key_encoded: m.public_key_encoded.clone(),
                },
            ),
            None => None,
        }
    }

    /// Whether the search is in the running phase.
    pub fn is_running(&self) -> (r: bool)
        ensures
            r == (self.phase == Phase::Running),
    {
        matches!(self.phase, Phase::Running)
    }

    /// Progress on demand: the counter as it stands, the whole seconds since
    /// the search started (zero before any start), and the derived rate.
    pub fn poll_progress(&self) -> (s: Stats)
        ensures
            s.total_attempts == self.attempts,
            s.attempts_per_second == rate_of(self.attempts, s.elapsed_seconds),
            self.started is None ==> s.elapsed_seconds == 0,
    {
        let elapsed: u64 = match &self.started {
            Some(t) => seconds_since(t),
            None => 0,
        };
        compute_stats(self.attempts, elapsed)
    }

    /// Drives up to `batch_size` attempts, checking the phase at the start
    /// of every attempt and stopping short as soon as one is accepted.
    /// Returns whether a match was delivered during this batch. Every
    /// attempt begun counts exactly one: a batch that finds nothing counts
    /// the whole batch, one that finds a match counts the attempts up to
    /// and with the matching one. Generated keys are never refused, so the
    /// fatal crypto condition cannot arise here.
    pub fn run_batch(&mut self, batch_size: usize) -> (found: bool)
        requires
            old(self).wf(),
        ensures
            final(self).wf(),
            final(self).attempts >= old(self).attempts,
            final(self).target == old(self).target,
            final(self).thread_count == old(self).thread_count,
            final(self).started == old(self).started,
            old(self).phase != Phase::Running ==> !found && final(self).phase == old(self).phase
                && final(self).attempts == old(self).attempts && final(self).result == old(self).result,
            found <==> (old(self).phase == Phase::Running && final(self).phase == Phase::Matched),
            !found && old(self).phase == Phase::Running ==> final(self).phase == Phase::Running
                && final(self).result is None,
            old(self).phase == Phase::Running && old(self).attempts + batch_size <= u64::MAX
                ==> {
                &&& !found ==> final(self).attempts == old(self).attempts + batch_size
                &&& found ==> old(self).attempts < final(self).attempts <= old(self).attempts
                    + batch_size
            },
    {
        match self.phase {
            Phase::Running => {},
            _ => {
                return false;
            },
        }
        let mut k: usize = 0;
        let mut found = false;
        while k < batch_size && !found
            invariant
                old(self).phase == Phase::Running,
                self.wf(),
                self.attempts >= old(self).attempts,
                self.target == old(self).target,
                self.thread_count == old(self).thread_count,
                self.started == old(self).started,
                found ==> self.phase == Phase::Matched && k >= 1,
                !found ==> self.phase == Phase::Running && self.result == old(self).result,
                old(self).attempts + batch_size <= u64::MAX ==> self.attempts == old(self).attempts
                    + k,
                k <= batch_size,
            decreases batch_size - k,
        {
            let cand = fresh_candidate();
            let accepted = match self.submit(cand) {
                Ok(a) => a,
                Err(_) => vstd::pervasive::unreached(),
            };
            if accepted {
                found = true;
            }
            k = k + 1;
        }
        found
    }
}

/// Whether a candidate may be accepted depends only on its address and the
/// target of the search: two coordinators in the same phase with the same
/// target accept exactly the same addresses, whatever their thread counts
/// or attempt counters.
pub proof fn lemma_acceptance_independent_of_threads(
    a: SearchCoordinator,
    b: SearchCoordinator,
    addr: Seq<char>,
)
    requires
        a.phase == b.phase,
        a.target@ == b.target@,
    ensures
        accepts(a, addr) == accepts(b, addr),
{
}

/// A search cancelled before any match holds no result, so polling after
/// cancellation returns nothing, forever.
pub proof fn lemma_cancelled_holds_no_result(c: SearchCoordinator)
    requires
        c.wf(),
        c.phase == Phase::Cancelled,
    ensures
        c.result is None,
{
}

/// A matched search holds exactly one result, and its address contains the
/// target that was searched for.
pub proof fn lemma_matched_holds_result(c: SearchCoordinator)
    requires
        c.wf(),
        c.phase == Phase::Matched,
    ensures
        c.result matches Some(m) && contains_substring(m.address@, c.target@),
{
}

} // verus!
