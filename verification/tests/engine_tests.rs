use bitcoin_vanity::engine::{compute_stats, SearchCoordinator, SearchError, Stats};
use bitcoin_vanity::keys::Candidate;

fn candidate(address: &str) -> Candidate {
    Candidate {
        secret_key: vec![1u8; 32],
        public_key: vec![2u8; 33],
        address: address.to_string(),
    }
}

#[test]
fn scenario_deterministic_stream_finds_fifth() {
    let mut c = SearchCoordinator::new();
    assert!(c.start("qq", 1).is_ok());
    assert!(c.is_running());
    for miss in ["bc1zeroth", "bc1first", "bc1second", "bc1third"] {
        assert_eq!(c.submit(candidate(miss)).unwrap(), false);
        assert!(c.is_running());
        assert!(c.poll_result().is_none());
    }
    assert_eq!(c.submit(candidate("bc1qqfifth")).unwrap(), true);
    assert_eq!(c.poll_progress().total_attempts, 5);
    assert!(!c.is_running());
    let found = c.poll_result().expect("a match was delivered");
    assert!(found.address.contains("qq"));
}

#[test]
fn scenario_empty_prefix_rejected() {
    let mut c = SearchCoordinator::new();
    assert_eq!(c.start("", 4), Err(SearchError::InvalidRequest));
    assert_eq!(c.poll_progress().total_attempts, 0);
    assert!(!c.is_running());
    assert!(c.poll_result().is_none());
}

#[test]
fn scenario_nonpositive_thread_count_rejected() {
    let mut c = SearchCoordinator::new();
    assert_eq!(c.start("abc", 0), Err(SearchError::InvalidRequest));
    assert_eq!(c.poll_progress().total_attempts, 0);
    assert!(!c.is_running());
}

#[test]
fn scenario_cancel_before_match() {
    let mut c = SearchCoordinator::new();
    assert!(c.start("zzzz-impossible-for-test-harness", 2).is_ok());
    for miss in ["bc1qaaa", "bc1qbbb", "bc1qccc"] {
        assert_eq!(c.submit(candidate(miss)).unwrap(), false);
    }
    c.cancel();
    assert!(!c.is_running());
    assert!(c.poll_result().is_none());
    // A worker racing past the flag is refused and counts nothing.
    let before = c.poll_progress().total_attempts;
    assert_eq!(c.submit(candidate("bc1qddd")).unwrap(), false);
    assert_eq!(c.poll_progress().total_attempts, before);
    assert!(c.poll_result().is_none());
    // Cancelling is idempotent.
    c.cancel();
    assert!(!c.is_running());
    assert!(c.poll_result().is_none());
}

#[test]
fn exactly_once_delivery() {
    let mut c = SearchCoordinator::new();
    assert!(c.start("q", 1).is_ok());
    assert_eq!(c.submit(candidate("bc1qwinner")).unwrap(), true);
    assert!(!c.is_running());
    let first = c.poll_result().expect("delivered");
    let second = c.poll_result().expect("still delivered");
    assert_eq!(first.address, second.address);
    assert_eq!(first.private_key_encoded, second.private_key_encoded);
    assert_eq!(first.public_key_encoded, second.public_key_encoded);
    // A later racing match can never overwrite the accepted one.
    assert_eq!(c.submit(candidate("bc1qlater")).unwrap(), false);
    let third = c.poll_result().expect("unchanged");
    assert_eq!(third.address, "bc1qwinner");
}

#[test]
fn attempts_monotonic_and_reset_only_by_start() {
    let mut c = SearchCoordinator::new();
    assert!(c.start("nomatch", 1).is_ok());
    let mut last = 0;
    for i in 0..10 {
        assert_eq!(c.submit(candidate(&format!("bc1q{i}"))).unwrap(), false);
        let now = c.poll_progress().total_attempts;
        assert!(now >= last);
        last = now;
    }
    assert_eq!(last, 10);
    // Reports from the driving loop only ever move the counter up.
    c.observe_attempts(50);
    assert_eq!(c.poll_progress().total_attempts, 50);
    c.observe_attempts(10);
    assert_eq!(c.poll_progress().total_attempts, 50);
    c.cancel();
    assert_eq!(c.poll_progress().total_attempts, 50);
    // Only a fresh start resets to zero.
    assert!(c.start("again", 1).is_ok());
    assert_eq!(c.poll_progress().total_attempts, 0);
}

#[test]
fn start_while_running_rejected() {
    let mut c = SearchCoordinator::new();
    assert!(c.start("aaa", 1).is_ok());
    assert_eq!(c.start("bbb", 1), Err(SearchError::AlreadyRunning));
    // The running search still looks for the first target.
    assert_eq!(c.submit(candidate("xxbbbxx")).unwrap(), false);
    assert_eq!(c.submit(candidate("xxaaaxx")).unwrap(), true);
}

#[test]
fn restart_after_terminal_is_fresh() {
    let mut c = SearchCoordinator::new();
    assert!(c.start("q", 1).is_ok());
    assert_eq!(c.submit(candidate("bc1qdone")).unwrap(), true);
    assert!(c.start("zz", 3).is_ok());
    assert!(c.is_running());
    assert_eq!(c.poll_progress().total_attempts, 0);
    assert!(c.poll_result().is_none());
}

fn run_harness(thread_count: usize) -> String {
    let stream = ["bc1aaa", "bc1bbb", "bc1qqccc", "bc1ddd"];
    let mut c = SearchCoordinator::new();
    c.start("qq", thread_count).unwrap();
    for addr in stream {
        if c.submit(candidate(addr)).unwrap() {
            break;
        }
    }
    c.poll_result().expect("the stream holds a match").address
}

#[test]
fn throughput_independent_correctness() {
    // The same deterministic candidate stream finds the same address
    // whatever the thread count; only wall-clock time could differ.
    let one = run_harness(1);
    let many = run_harness(4);
    assert_eq!(one, "bc1qqccc");
    assert_eq!(one, many);
}

#[test]
fn prefix_is_lowercased_before_comparison() {
    let mut c = SearchCoordinator::new();
    assert!(c.start("AbC", 1).is_ok());
    assert_eq!(c.submit(candidate("xxabcxx")).unwrap(), true);
}

#[test]
fn cancel_after_match_keeps_result() {
    let mut c = SearchCoordinator::new();
    assert!(c.start("q", 1).is_ok());
    assert_eq!(c.submit(candidate("bc1qkeep")).unwrap(), true);
    c.cancel();
    assert!(!c.is_running());
    assert_eq!(c.poll_result().expect("kept").address, "bc1qkeep");
}

#[test]
fn stats_zero_rate_without_elapsed_time() {
    let s = compute_stats(100, 0);
    assert_eq!(s.attempts_per_second, 0);
    assert_eq!(s.elapsed_seconds, 0);
    assert_eq!(s.total_attempts, 100);
}

#[test]
fn stats_rate_is_attempts_per_second() {
    let s = compute_stats(100, 4);
    assert_eq!(s.attempts_per_second, 25);
    let s = compute_stats(7, 2);
    assert_eq!(s.attempts_per_second, 3);
}

#[test]
fn stats_default_is_all_zero() {
    let s = Stats::default();
    assert_eq!(s.attempts_per_second, 0);
    assert_eq!(s.elapsed_seconds, 0);
    assert_eq!(s.total_attempts, 0);
}

#[test]
fn progress_before_any_start_is_zero() {
    let c = SearchCoordinator::new();
    let s = c.poll_progress();
    assert_eq!(s.total_attempts, 0);
    assert_eq!(s.elapsed_seconds, 0);
    assert_eq!(s.attempts_per_second, 0);
}

#[test]
fn fatal_crypto_error_on_unencodable_key() {
    let mut c = SearchCoordinator::new();
    assert!(c.start("q", 1).is_ok());
    // An all-zero secret key is refused by the wallet-import-format
    // encoder, so a matching candidate carrying it is the fatal error.
    let bad = Candidate {
        secret_key: vec![0u8; 32],
        public_key: vec![2u8; 33],
        address: "bc1qbad".to_string(),
    };
    assert_eq!(c.submit(bad), Err(SearchError::FatalCryptoFailure));
    // The attempt was counted, nothing was delivered, the search goes on.
    assert_eq!(c.poll_progress().total_attempts, 1);
    assert!(c.is_running());
    assert!(c.poll_result().is_none());
    assert_eq!(c.submit(candidate("bc1qgood")).unwrap(), true);
    assert_eq!(c.poll_result().expect("delivered").address, "bc1qgood");
}
