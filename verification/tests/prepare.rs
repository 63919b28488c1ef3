use overlord::auth::Node;
use overlord::error::{ErrorInfo, ErrorKind, OverlordError};
use overlord::prepare::{BlockState, ConsensusConfig, ExecResult, ProposePrepare};
use overlord::timeout::TimeConfig;
use overlord::types::{AggregatedSignature, AggregatedVote, VoteType};

fn result(height: u64, mark: u8) -> ExecResult<u8> {
    ExecResult {
        consensus_config: ConsensusConfig {
            auth_config: vec![Node {
                address: vec![mark],
                propose_weight: 1,
                vote_weight: 1,
            }],
            time_config: TimeConfig::new(100 + mark as u64, 1, 1, 1, 1).unwrap(),
        },
        block_states: BlockState {
            height,
            state: mark,
        },
    }
}

fn commit_proof(height: u64, hash: &[u8]) -> AggregatedVote {
    AggregatedVote {
        signature: AggregatedSignature {
            signature: vec![],
            address_bitmap: vec![],
        },
        vote_type: VoteType::Precommit,
        height,
        round: 0,
        block_hash: hash.to_vec(),
        leader: vec![],
    }
}

fn prepare() -> ProposePrepare<u8> {
    ProposePrepare::new(10, 5, vec![result(5, 50)], commit_proof(9, &[9]), vec![9])
}

fn heights(list: &[&ExecResult<u8>]) -> Vec<u64> {
    list.iter().map(|r| r.block_states.height).collect()
}

#[test]
fn exec_height_follows_contiguous_results() {
    let mut p = prepare();
    p.handle_exec_result(result(7, 70));
    assert_eq!(p.exec_height, 5);
    p.handle_exec_result(result(8, 80));
    assert_eq!(p.exec_height, 5);
    p.handle_exec_result(result(6, 60));
    assert_eq!(p.exec_height, 8);
    assert_eq!(p.exec_results.len(), 4);
}

#[test]
fn repeated_and_uncommitted_results_are_dropped() {
    let mut p = prepare();
    p.handle_exec_result(result(6, 60));
    p.handle_exec_result(result(6, 61));
    assert_eq!(p.exec_results.len(), 2);
    assert_eq!(p.exec_results[1].block_states.state, 60);
    p.handle_exec_result(result(10, 1));
    p.handle_exec_result(result(11, 1));
    assert_eq!(p.exec_results.len(), 2);
    assert_eq!(p.exec_height, 6);
}

#[test]
fn block_states_list_goes_down_to_the_cut() {
    let mut p = prepare();
    for h in [8u64, 6, 7] {
        p.handle_exec_result(result(h, h as u8));
    }
    assert_eq!(heights(&p.get_block_states_list(5)), vec![8, 7, 6]);
    assert_eq!(heights(&p.get_block_states_list(6)), vec![8, 7]);
    assert_eq!(heights(&p.get_block_states_list(4)), vec![8, 7, 6, 5]);
    assert_eq!(heights(&p.get_block_states_list(8)), Vec::<u64>::new());
    assert_eq!(heights(&p.get_block_states_list(100)), Vec::<u64>::new());
}

#[test]
fn commit_moves_the_chain_on_and_trims() {
    let mut p = prepare();
    for h in [6u64, 7, 8] {
        p.handle_exec_result(result(h, h as u8));
    }
    let config = p.handle_commit(vec![0xab], commit_proof(10, &[0xab]), 7, 11).unwrap();
    assert_eq!(config.auth_config[0].address, vec![7u8]);
    assert_eq!(config.time_config.interval(), 107);
    assert_eq!(p.pre_hash, vec![0xabu8]);
    assert_eq!(p.pre_proof, commit_proof(10, &[0xab]));
    assert_eq!(p.height, 11);
    assert_eq!(p.exec_height, 8);
    let left: Vec<u64> = p.exec_results.iter().map(|r| r.block_states.height).collect();
    assert_eq!(left, vec![7, 8]);
    // The next block may refer to the same execution again.
    assert!(p.handle_commit(vec![0xac], commit_proof(11, &[0xac]), 7, 12).is_ok());
}

#[test]
fn commit_without_the_result_changes_nothing() {
    let mut p = prepare();
    let e = p.handle_commit(vec![0xab], commit_proof(10, &[0xab]), 6, 11);
    assert_eq!(
        e.err(),
        Some(OverlordError {
            kind: ErrorKind::Local,
            info: ErrorInfo::Missing
        })
    );
    assert_eq!(p.pre_hash, vec![9u8]);
    assert_eq!(p.height, 10);
    assert_eq!(p.exec_results.len(), 1);
    assert!(p.config_at(6).is_none());
    assert!(p.config_at(5).is_some());
}
