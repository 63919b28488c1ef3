use overlord::agent::{EventAgent, TimeoutEvent, TimeoutInfo};
use overlord::cabinet::FetchedFullBlock;
use overlord::error::{ErrorInfo, ErrorKind, OverlordError};
use overlord::state::{Stage, Step};
use overlord::timeout::{apply_power, TimeConfig};

fn config() -> TimeConfig {
    TimeConfig::new(3000, 15, 10, 12, 7).unwrap()
}

#[test]
fn apply_power_doubles_up_to_the_cap() {
    assert_eq!(apply_power(100, 0), 100);
    assert_eq!(apply_power(100, 1), 200);
    assert_eq!(apply_power(100, 4), 1600);
    assert_eq!(apply_power(100, 5), 3200);
    assert_eq!(apply_power(100, 6), 3200);
    assert_eq!(apply_power(100, u32::MAX), 3200);
    assert_eq!(apply_power(0, 3), 0);
    assert_eq!(apply_power(u64::MAX, 5), u64::MAX as u128 * 32);
}

#[test]
fn step_timeouts_follow_the_formula() {
    let config = config();
    let at = |round, step| Stage::new(9, round, step);
    assert_eq!(config.compute_timeout(&at(0, Step::Propose), 0), Some(4500));
    assert_eq!(config.compute_timeout(&at(1, Step::Propose), 0), Some(9000));
    assert_eq!(config.compute_timeout(&at(5, Step::Propose), 0), Some(144_000));
    assert_eq!(config.compute_timeout(&at(6, Step::Propose), 0), Some(144_000));
    assert_eq!(
        config.compute_timeout(&at(u64::MAX, Step::Propose), 0),
        Some(144_000)
    );
    // 2^32 rounds is more than five rounds, not zero rounds.
    assert_eq!(
        config.compute_timeout(&at(1 << 32, Step::Propose), 0),
        Some(144_000)
    );
    assert_eq!(config.compute_timeout(&at(0, Step::PreVote), 0), Some(3000));
    assert_eq!(config.compute_timeout(&at(2, Step::PreVote), 0), Some(12_000));
    assert_eq!(config.compute_timeout(&at(0, Step::PreCommit), 0), Some(3600));
    assert_eq!(config.compute_timeout(&at(3, Step::PreCommit), 0), Some(28_800));
}

#[test]
fn brake_timeout_ignores_the_round() {
    let config = config();
    for round in [0u64, 1, 5, 100] {
        assert_eq!(
            config.compute_timeout(&Stage::new(1, round, Step::Brake), 12345),
            Some(2100)
        );
    }
}

#[test]
fn division_rounds_down() {
    let config = TimeConfig::new(7, 3, 1, 9, 15).unwrap();
    let at = |round, step| Stage::new(0, round, step);
    assert_eq!(config.compute_timeout(&at(0, Step::Propose), 0), Some(2));
    assert_eq!(config.compute_timeout(&at(2, Step::Propose), 0), Some(8));
    assert_eq!(config.compute_timeout(&at(0, Step::PreVote), 0), Some(0));
    assert_eq!(config.compute_timeout(&at(1, Step::PreCommit), 0), Some(12));
    assert_eq!(config.compute_timeout(&at(0, Step::Brake), 0), Some(10));
}

#[test]
fn commit_throttle_is_the_rest_of_the_interval() {
    let config = config();
    let commit = Stage::new(4, 2, Step::Commit);
    assert_eq!(config.compute_timeout(&commit, 0), Some(3000));
    assert_eq!(config.compute_timeout(&commit, 1000), Some(2000));
    assert_eq!(config.compute_timeout(&commit, 2999), Some(1));
    assert_eq!(config.compute_timeout(&commit, 3000), None);
    assert_eq!(config.compute_timeout(&commit, u64::MAX), None);
}

#[test]
fn products_that_overflow_are_refused() {
    assert!(TimeConfig::new(u64::MAX, 1, 1, 1, 1).is_some());
    assert!(TimeConfig::new(u64::MAX, 2, 1, 1, 1).is_none());
    assert!(TimeConfig::new(u64::MAX, 1, 2, 1, 1).is_none());
    assert!(TimeConfig::new(u64::MAX, 1, 1, 2, 1).is_none());
    assert!(TimeConfig::new(u64::MAX, 1, 1, 1, 2).is_none());
    assert!(TimeConfig::new(1 << 32, 1 << 31, 0, 0, 0).is_some());
    assert!(TimeConfig::new(1 << 32, 1 << 32, 0, 0, 0).is_none());
    let big = TimeConfig::new(u64::MAX, 1, 1, 1, 1).unwrap();
    assert_eq!(big.interval(), u64::MAX);
    assert_eq!(big.ratios(), (1, 1, 1, 1));
    assert_eq!(
        big.compute_timeout(&Stage::new(0, 9, Step::Propose), 0),
        Some((u64::MAX / 10) as u128 * 32)
    );
}

#[test]
fn timers_carry_their_stage() {
    let agent = EventAgent::new(config());
    let stage = Stage::new(4, 1, Step::PreVote);
    assert_eq!(
        agent.set_timeout(stage, 0),
        Some(TimeoutInfo {
            delay: 6000,
            event: TimeoutEvent::PreVoteTimeout(stage),
        })
    );
    assert_eq!(
        agent.set_timeout(Stage::new(4, 1, Step::Commit), 10),
        Some(TimeoutInfo {
            delay: 2990,
            event: TimeoutEvent::NextHeightTimeout(4),
        })
    );
    assert_eq!(agent.set_timeout(Stage::new(4, 1, Step::Commit), 3000), None);
    assert_eq!(
        TimeoutEvent::from_stage(Stage::new(1, 2, Step::Brake)),
        TimeoutEvent::BrakeTimeout(Stage::new(1, 2, Step::Brake))
    );
}

#[test]
fn blocks_are_requested_once_per_height() {
    let mut agent = EventAgent::new(config());
    let hash = vec![1u8, 2];
    assert!(!agent.is_requested(&hash));
    assert!(agent.request_full_block(&hash));
    assert!(!agent.request_full_block(&hash));
    assert!(agent.request_full_block(&vec![3]));
    assert!(agent.is_requested(&hash));

    let fetched = FetchedFullBlock {
        height: 1,
        block_hash: hash.clone(),
        full_block: vec![9],
    };
    assert_eq!(agent.handle_fetch(Ok(fetched.clone())), Ok(fetched));
    assert!(agent.is_requested(&hash));
    assert_eq!(
        agent.handle_fetch(Err(hash.clone())),
        Err(OverlordError {
            kind: ErrorKind::Net,
            info: ErrorInfo::Fetch
        })
    );
    assert!(!agent.is_requested(&hash));
    assert!(agent.is_requested(&vec![3]));
    assert!(agent.request_full_block(&hash));

    agent.next_height(config());
    assert!(!agent.is_requested(&hash));
    assert!(!agent.is_requested(&vec![3]));
}
