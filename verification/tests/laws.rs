use overlord::auth::{AuthCell, AuthManage, Node};
use overlord::cabinet::Cabinet;
use overlord::error::{ErrorInfo, ErrorKind, OverlordError};
use overlord::prepare::{BlockState, ConsensusConfig, ExecResult, ProposePrepare};
use overlord::smr::action::Outcome;
use overlord::smr::{ProposalVerdicts, SMR};
use overlord::agent::TimeoutEvent;
use overlord::state::process::State;
use overlord::state::{Stage, StateInfo, Step};
use overlord::timeout::TimeConfig;
use overlord::types::{
    AggregatedSignature, AggregatedVote, BlockInfo, Proposal, SignedProposal, SignedVote, Vote,
    VoteType,
};

fn nodes(weights: &[u32]) -> Vec<Node> {
    weights
        .iter()
        .enumerate()
        .map(|(i, w)| Node {
            address: vec![i as u8 + 1],
            propose_weight: 1,
            vote_weight: *w,
        })
        .collect()
}

#[test]
fn any_two_quorums_share_a_validator() {
    for weights in [
        vec![1u32, 1, 1, 1],
        vec![1, 2, 3, 4, 5],
        vec![10, 1, 1, 1],
        vec![0, 0, 7, 7, 7],
        vec![3, 3, 3],
    ] {
        let cell = AuthCell::new(nodes(&weights)).unwrap();
        let n = weights.len();
        let total: u64 = weights.iter().map(|w| *w as u64).sum();
        let bitmap = |mask: u32| -> Vec<u8> {
            let voters: Vec<Vec<u8>> = (0..n)
                .filter(|i| mask & (1 << i) != 0)
                .map(|i| vec![i as u8 + 1])
                .collect();
            cell.bitmap_of(&voters)
        };
        let mut quorums = Vec::new();
        for mask in 0u32..(1 << n) {
            let b = bitmap(mask);
            let voters = cell.get_voters(&b).unwrap();
            assert_eq!(cell.bitmap_of(&voters), b);
            assert_eq!(
                cell.bitmap_weight(&b).unwrap(),
                cell.weight_of_voters(&voters)
            );
            if cell.is_above_threshold(&b).unwrap() {
                quorums.push(mask);
            }
        }
        assert!(!quorums.is_empty());
        for a in &quorums {
            for b in &quorums {
                let shared = a & b;
                assert!(shared != 0);
                let weight: u64 = (0..n)
                    .filter(|i| shared & (1 << i) != 0)
                    .map(|i| weights[i] as u64)
                    .sum();
                assert!(3 * weight > total);
            }
        }
    }
}

#[test]
fn a_new_vote_adds_the_weight_of_its_voter() {
    let weights = [5u32, 0, 9, 2];
    let cell = AuthCell::new(nodes(&weights)).unwrap();
    let mut cabinet: Cabinet<u8> = Cabinet::new();
    let vote = Vote {
        height: 1,
        round: 0,
        vote_type: VoteType::Prevote,
        block_hash: vec![7],
    };
    let mut expected = 0u64;
    for voter in [3u8, 1, 3, 2, 4, 1, 4] {
        let fresh = !cabinet.has_vote(&vote, &vec![voter]);
        let _ = cabinet.insert_vote(
            SignedVote {
                signature: vec![],
                vote: vote.clone(),
                voter: vec![voter],
            },
            &cell,
        );
        if fresh {
            expected += weights[voter as usize - 1] as u64;
        }
        let weight = cell.weight_of_voters(&cabinet.get_signers(&vote));
        assert_eq!(weight, expected);
        assert!(weight <= cell.total_weight());
    }
    assert_eq!(expected, 16);
}

fn qc(vote_type: VoteType, height: u64, hash: &[u8]) -> AggregatedVote {
    AggregatedVote {
        signature: AggregatedSignature {
            signature: vec![],
            address_bitmap: vec![0b1110_0000],
        },
        vote_type,
        height,
        round: 0,
        block_hash: hash.to_vec(),
        leader: vec![1],
    }
}

fn replica(me: u8, state: StateInfo, validators: Vec<Node>) -> SMR<u8, u8> {
    let time = TimeConfig::new(100, 15, 10, 10, 7).unwrap();
    let genesis = ExecResult {
        consensus_config: ConsensusConfig {
            auth_config: nodes(&[1, 1, 1, 1]),
            time_config: time,
        },
        block_states: BlockState {
            height: 0,
            state: 0u8,
        },
    };
    let prepare = ProposePrepare::new(
        state.stage.height,
        0,
        vec![genesis],
        qc(VoteType::Precommit, 0, &[]),
        vec![0xee],
    );
    let auth = AuthManage::new(vec![me], AuthCell::new(validators).unwrap(), None);
    SMR::new(state, prepare, auth, time)
}

#[test]
fn later_proposals_must_build_on_the_committed_block() {
    let hb = vec![0xb0u8];
    let mut state = StateInfo::from_height(0);
    state.stage = Stage::new(0, 0, Step::Commit);
    state.pre_commit_qc = Some(qc(VoteType::Precommit, 0, &hb));
    state.block = Some(BlockInfo {
        height: 0,
        exec_height: 0,
        pre_hash: vec![0xee],
        block_hash: hb.clone(),
    });
    let mut smr = replica(1, state, nodes(&[1, 1, 1, 1]));
    smr.cabinet.insert_full_block(overlord::cabinet::FetchedFullBlock {
        height: 0,
        block_hash: hb.clone(),
        full_block: vec![],
    });
    let out = smr.handle_commit(100, Outcome::new());
    assert_eq!(out.result, Ok(()));
    assert_eq!(smr.state.stage, Stage::new(1, 0, Step::Propose));
    assert_eq!(smr.prepare.pre_hash, hb);

    let p = |pre_hash: &[u8]| {
        (
            Proposal {
                height: 1,
                round: 0,
                content: 0u8,
                block_hash: vec![0xb1],
                lock: None,
                proposer: vec![2],
            },
            BlockInfo {
                height: 1,
                exec_height: 0,
                pre_hash: pre_hash.to_vec(),
                block_hash: vec![0xb1],
            },
        )
    };
    let (good, good_block) = p(&hb);
    let proof = Some(qc(VoteType::Precommit, 0, &hb));
    assert_eq!(smr.check_proposal(&good, &good_block, &proof, true, true), Ok(()));
    let (bad, bad_block) = p(&[0xee]);
    assert_eq!(
        smr.check_proposal(&bad, &bad_block, &proof, true, true),
        Err(OverlordError {
            kind: ErrorKind::Byzantine,
            info: ErrorInfo::Block
        })
    );
}

#[test]
fn a_replica_outside_the_validator_set_does_not_vote() {
    let mut smr = replica(9, StateInfo::from_height(0), nodes(&[1, 1, 1, 1]));
    let out = smr.handle_signed_proposal(
        SignedProposal {
            signature: vec![],
            proposal: Proposal {
                height: 0,
                round: 0,
                content: 0u8,
                block_hash: vec![5],
                lock: None,
                proposer: vec![1],
            },
        },
        BlockInfo {
            height: 0,
            exec_height: 0,
            pre_hash: vec![0xee],
            block_hash: vec![5],
        },
        None,
        ProposalVerdicts {
            signature_ok: true,
            proof_ok: true,
            lock_ok: true,
            block_ok: true,
        },
        0,
    );
    assert_eq!(
        out.result,
        Err(OverlordError {
            kind: ErrorKind::Debug,
            info: ErrorInfo::NotValidator
        })
    );
    assert_eq!(smr.state.stage, Stage::new(0, 0, Step::PreVote));
    assert_eq!(out.actions.len(), 3);
}

#[test]
fn the_last_height_cannot_be_left() {
    let mut state = StateInfo::from_height(u64::MAX);
    state.stage = Stage::new(u64::MAX, 0, Step::Commit);
    let mut smr = replica(1, state, nodes(&[1, 1, 1, 1]));
    smr.next_time = Some(TimeConfig::new(1, 1, 1, 1, 1).unwrap());
    let out = smr.handle_timeout(TimeoutEvent::NextHeightTimeout(u64::MAX), 0);
    assert_eq!(
        out.result,
        Err(OverlordError {
            kind: ErrorKind::Local,
            info: ErrorInfo::Exhausted
        })
    );
    assert_eq!(smr.state.stage.height, u64::MAX);
}

#[test]
fn a_certificate_for_no_block_is_refused_after_the_own_vote() {
    let mut s: State<u8> = State::new(vec![1], 3000, nodes(&[1, 1, 1, 1])).unwrap();
    s.set_qc(qc(VoteType::Prevote, 0, &[]));
    assert_eq!(
        s.vote_process(VoteType::Prevote, None).result,
        Err(overlord::error::ConsensusError::EmptyQC)
    );
}
