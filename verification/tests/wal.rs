use overlord::smr::smr_types::{Lock, Step};
use overlord::state::{Stage, StateInfo};
use overlord::types::{
    AggregatedSignature, AggregatedVote, BlockInfo, Choke, ChokeQC, PoLC, UpdateFrom, VoteType,
};
use overlord::wal::codec::{decode, encode};
use overlord::wal::wal_type::{SMRBase, WalInfo, WalLock};

fn mock_qc() -> AggregatedVote {
    let aggregated_signature = AggregatedSignature {
        signature: Vec::new(),
        address_bitmap: Vec::new(),
    };

    AggregatedVote {
        signature: aggregated_signature,
        vote_type: VoteType::Precommit,
        height: 0u64,
        round: 0u64,
        block_hash: Vec::new(),
        leader: Vec::new(),
    }
}

#[derive(Clone, Debug, PartialEq, Eq)]
struct Pill {
    inner: Vec<u8>,
}

impl Pill {
    fn new() -> Self {
        Pill {
            inner: (0..128u32).map(|i| (i * 7 % 251) as u8).collect::<Vec<_>>(),
        }
    }
}

#[test]
fn test_display() {
    let wal_lock = WalLock {
        lock_round: 0,
        lock_votes: mock_qc(),
        content: Pill::new(),
    };

    let wal_info = WalInfo {
        height: 0,
        round: 0,
        step: Step::Propose,
        lock: Some(wal_lock),
    };

    println!("{}", wal_info.to_string());
    assert_eq!(
        wal_info.to_string(),
        "wal info height 0, round 0, step Propose"
    );
}

#[test]
fn wal_lock_conversions() {
    let mut qc = mock_qc();
    qc.block_hash = vec![4, 5, 6];
    qc.round = 3;
    let wal_lock = WalLock {
        lock_round: 3,
        lock_votes: qc.clone(),
        content: Pill::new(),
    };
    assert_eq!(
        wal_lock.to_polc(),
        PoLC {
            lock_round: 3,
            lock_votes: qc
        }
    );
    assert_eq!(
        wal_lock.to_lock(),
        Lock {
            round: 3,
            hash: vec![4, 5, 6]
        }
    );
    let with_lock = WalInfo {
        height: 8,
        round: 4,
        step: Step::Precommit,
        lock: Some(wal_lock),
    };
    assert_eq!(
        with_lock.to_smr_base(),
        SMRBase {
            height: 8,
            round: 4,
            step: Step::Precommit,
            polc: Some(Lock {
                round: 3,
                hash: vec![4, 5, 6]
            }),
        }
    );
    let without: WalInfo<Pill> = WalInfo {
        height: 8,
        round: 4,
        step: Step::Prevote,
        lock: None,
    };
    assert_eq!(
        without.to_smr_base(),
        SMRBase {
            height: 8,
            round: 4,
            step: Step::Prevote,
            polc: None,
        }
    );
}

fn qc(vote_type: VoteType, seed: u8) -> AggregatedVote {
    AggregatedVote {
        signature: AggregatedSignature {
            signature: vec![seed; seed as usize],
            address_bitmap: vec![0xf0, seed],
        },
        vote_type,
        height: u64::MAX - seed as u64,
        round: seed as u64,
        block_hash: vec![seed, 0, 255],
        leader: vec![],
    }
}

fn states() -> Vec<StateInfo> {
    let full = StateInfo {
        stage: Stage::new(5, 2, overlord::state::Step::PreCommit),
        lock: Some(PoLC {
            lock_round: 2,
            lock_votes: qc(VoteType::Prevote, 3),
        }),
        pre_commit_qc: Some(qc(VoteType::Precommit, 4)),
        block: Some(BlockInfo {
            height: 5,
            exec_height: 3,
            pre_hash: vec![1; 32],
            block_hash: vec![2; 32],
        }),
        from: Some(UpdateFrom::ChokeQC(ChokeQC {
            choke: Choke {
                height: 5,
                round: 1,
            },
            signature: AggregatedSignature {
                signature: vec![9, 9],
                address_bitmap: vec![0x80],
            },
        })),
    };
    let mut prevote = full.clone();
    prevote.from = Some(UpdateFrom::PreVoteQC(qc(VoteType::Prevote, 7)));
    prevote.stage = Stage::new(u64::MAX, u64::MAX, overlord::state::Step::Brake);
    let mut precommit = full.clone();
    precommit.from = Some(UpdateFrom::PreCommitQC(qc(VoteType::Precommit, 8)));
    precommit.lock = None;
    precommit.stage = Stage::new(0, 0, overlord::state::Step::Commit);
    vec![StateInfo::from_height(0), StateInfo::from_height(77), full, prevote, precommit]
}

#[test]
fn state_round_trips_through_bytes() {
    for state in states() {
        let bytes = encode(&state);
        assert_eq!(decode(&bytes), Some(state));
    }
}

#[test]
fn byte_form_of_a_fresh_state() {
    let bytes = encode(&StateInfo::from_height(0x0102));
    let mut expect = vec![0x02u8, 0x01, 0, 0, 0, 0, 0, 0];
    expect.extend_from_slice(&[0u8; 8]);
    expect.push(0); // Propose
    expect.extend_from_slice(&[0, 0, 0, 0]); // no lock, proof, block, evidence
    assert_eq!(bytes, expect);
}

#[test]
fn damaged_bytes_are_refused() {
    let state = states().remove(2);
    let bytes = encode(&state);
    assert_eq!(decode(&Vec::new()), None);
    for cut in 0..bytes.len() {
        assert_eq!(decode(&bytes[..cut].to_vec()), None, "cut at {}", cut);
    }
    let mut longer = bytes.clone();
    longer.push(0);
    assert_eq!(decode(&longer), None);
    let mut bad_step = bytes.clone();
    bad_step[16] = 5;
    assert_eq!(decode(&bad_step), None);
    let mut bad_tag = bytes.clone();
    bad_tag[17] = 2;
    assert_eq!(decode(&bad_tag), None);
    let mut huge_length = encode(&StateInfo::from_height(1));
    huge_length[17] = 1;
    huge_length.extend_from_slice(&[0xff; 24]);
    assert_eq!(decode(&huge_length), None);
}

#[test]
fn the_log_line_shows_numbers_in_decimal() {
    let line = |height: u64, round: u64, step: Step| {
        WalInfo::<u8> {
            height,
            round,
            step,
            lock: None,
        }
        .to_string()
    };
    assert_eq!(
        line(9, 10, Step::Prevote),
        "wal info height 9, round 10, step Prevote"
    );
    assert_eq!(
        line(1_234_567_890, 100, Step::Precommit),
        "wal info height 1234567890, round 100, step Precommit"
    );
    assert_eq!(
        line(u64::MAX, 7, Step::Commit),
        "wal info height 18446744073709551615, round 7, step Commit"
    );
    for (height, round, step) in [
        (0, 0, Step::Propose),
        (10, 99, Step::Prevote),
        (1_000, 1_001, Step::Precommit),
        (u64::MAX - 1, 20_304, Step::Commit),
    ] {
        assert_eq!(
            line(height, round, step),
            format!("wal info height {}, round {}, step {:?}", height, round, step)
        );
    }
}
