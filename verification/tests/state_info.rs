use overlord::error::{ErrorInfo, ErrorKind, OverlordError};
use overlord::state::{Stage, StateInfo, Step};
use overlord::types::{
    AggregatedSignature, AggregatedVote, BlockInfo, Choke, ChokeQC, PoLC, UpdateFrom, VoteType,
};

fn qc(vote_type: VoteType, round: u64, hash: &[u8]) -> AggregatedVote {
    AggregatedVote {
        signature: AggregatedSignature {
            signature: vec![],
            address_bitmap: vec![0xe0],
        },
        vote_type,
        height: 0,
        round,
        block_hash: hash.to_vec(),
        leader: vec![1],
    }
}

fn block(hash: &[u8]) -> BlockInfo {
    BlockInfo {
        height: 0,
        exec_height: 0,
        pre_hash: vec![],
        block_hash: hash.to_vec(),
    }
}

fn lock(round: u64, hash: &[u8]) -> PoLC {
    PoLC {
        lock_round: round,
        lock_votes: qc(VoteType::Prevote, round, hash),
    }
}

fn choke_qc(round: u64) -> ChokeQC {
    ChokeQC {
        choke: Choke { height: 0, round },
        signature: AggregatedSignature {
            signature: vec![],
            address_bitmap: vec![0xe0],
        },
    }
}

fn outdated() -> OverlordError {
    OverlordError {
        kind: ErrorKind::Debug,
        info: ErrorInfo::Old,
    }
}

#[test]
fn step_order_and_codes() {
    let steps = [
        Step::Propose,
        Step::PreVote,
        Step::PreCommit,
        Step::Brake,
        Step::Commit,
    ];
    for (i, step) in steps.iter().enumerate() {
        assert_eq!(step.to_u8(), i as u8);
        assert_eq!(Step::from_u8(i as u8), Some(*step));
    }
    assert_eq!(Step::from_u8(5), None);
    assert!(Stage::new(0, 0, Step::Commit).is_before(&Stage::new(0, 1, Step::Propose)));
    assert!(Stage::new(0, 9, Step::Commit).is_before(&Stage::new(1, 0, Step::Propose)));
    assert!(Stage::new(0, 1, Step::PreVote).is_before(&Stage::new(0, 1, Step::PreCommit)));
    assert!(!Stage::new(0, 1, Step::PreVote).is_before(&Stage::new(0, 1, Step::PreVote)));
    assert!(!Stage::new(0, 1, Step::Brake).is_before(&Stage::new(0, 1, Step::PreCommit)));
}

#[test]
fn a_round_from_proposal_to_commit() {
    let mut state = StateInfo::from_height(0);
    assert_eq!(state.stage, Stage::new(0, 0, Step::Propose));
    assert_eq!(state.vote_hash(), None);

    assert_eq!(state.handle_signed_proposal(0, 0, &block(&[1]), &None), Ok(()));
    assert_eq!(state.stage, Stage::new(0, 0, Step::PreVote));
    assert_eq!(state.vote_hash(), Some(vec![1u8]));
    assert_eq!(state.lock, None);

    let prevotes = qc(VoteType::Prevote, 0, &[1]);
    assert_eq!(state.handle_pre_vote_qc(&prevotes, block(&[1])), Ok(()));
    assert_eq!(state.stage, Stage::new(0, 0, Step::PreCommit));
    assert_eq!(state.lock, Some(lock(0, &[1])));
    assert_eq!(state.from, Some(UpdateFrom::PreVoteQC(prevotes)));

    let precommits = qc(VoteType::Precommit, 0, &[1]);
    assert_eq!(state.handle_pre_commit_qc(&precommits, block(&[1])), Ok(()));
    assert_eq!(state.stage, Stage::new(0, 0, Step::Commit));
    assert_eq!(state.pre_commit_qc, Some(precommits.clone()));

    state.next_height();
    assert_eq!(state.stage, Stage::new(1, 0, Step::Propose));
    assert_eq!(state.lock, None);
    assert_eq!(state.block, None);
    assert_eq!(state.pre_commit_qc, None);
    assert_eq!(state.from, Some(UpdateFrom::PreCommitQC(precommits)));
}

#[test]
fn commit_is_final_for_the_height() {
    let mut state = StateInfo::from_height(0);
    state
        .handle_pre_commit_qc(&qc(VoteType::Precommit, 0, &[1]), block(&[1]))
        .unwrap();
    let committed = state.clone();
    assert_eq!(
        state.handle_signed_proposal(0, 5, &block(&[2]), &None),
        Err(outdated())
    );
    assert_eq!(
        state.handle_pre_vote_qc(&qc(VoteType::Prevote, 5, &[2]), block(&[2])),
        Err(outdated())
    );
    assert_eq!(
        state.handle_pre_commit_qc(&qc(VoteType::Precommit, 5, &[2]), block(&[2])),
        Err(outdated())
    );
    assert_eq!(state.handle_choke_qc(&choke_qc(5)), Err(outdated()));
    assert!(state.handle_timeout(&Stage::new(0, 0, Step::Commit)).is_err());
    assert_eq!(state, committed);
}

#[test]
fn lock_is_kept_across_rounds_and_never_moves_back() {
    let mut state = StateInfo::from_height(0);
    state.handle_signed_proposal(0, 0, &block(&[1]), &None).unwrap();
    state
        .handle_pre_vote_qc(&qc(VoteType::Prevote, 0, &[1]), block(&[1]))
        .unwrap();
    state.handle_choke_qc(&choke_qc(0)).unwrap();
    assert_eq!(state.stage, Stage::new(0, 1, Step::Propose));
    assert_eq!(state.lock, Some(lock(0, &[1])));

    state.handle_timeout(&Stage::new(0, 1, Step::Propose)).unwrap();
    assert_eq!(state.stage, Stage::new(0, 1, Step::Brake));
    assert_eq!(state.lock, Some(lock(0, &[1])));

    state.handle_choke_qc(&choke_qc(3)).unwrap();
    assert_eq!(state.stage, Stage::new(0, 4, Step::Propose));
    assert_eq!(state.lock, Some(lock(0, &[1])));

    // A later pre-vote quorum moves the lock forward.
    state
        .handle_pre_vote_qc(&qc(VoteType::Prevote, 4, &[2]), block(&[2]))
        .unwrap();
    assert_eq!(state.lock, Some(lock(4, &[2])));
    assert_eq!(state.stage, Stage::new(0, 4, Step::PreCommit));

    // Nothing moves it back.
    state.handle_choke_qc(&choke_qc(4)).unwrap();
    assert_eq!(
        state.handle_signed_proposal(0, 5, &block(&[1]), &Some(lock(0, &[1]))),
        Err(OverlordError {
            kind: ErrorKind::Debug,
            info: ErrorInfo::Locked
        })
    );
    assert_eq!(state.lock, Some(lock(4, &[2])));
    assert_eq!(state.stage, Stage::new(0, 5, Step::Propose));
}

#[test]
fn a_proposal_without_lock_does_not_unlock() {
    let mut state = StateInfo::from_height(0);
    state.handle_signed_proposal(0, 0, &block(&[1]), &None).unwrap();
    state
        .handle_pre_vote_qc(&qc(VoteType::Prevote, 0, &[1]), block(&[1]))
        .unwrap();
    state.handle_choke_qc(&choke_qc(0)).unwrap();
    assert_eq!(state.handle_signed_proposal(0, 1, &block(&[2]), &None), Ok(()));
    assert_eq!(state.stage, Stage::new(0, 1, Step::PreVote));
    assert_eq!(state.lock, Some(lock(0, &[1])));
    assert_eq!(state.vote_hash(), Some(vec![1u8]));
}

#[test]
fn unlock_on_higher_round_polc() {
    let mut state = StateInfo::from_height(0);
    state.handle_signed_proposal(0, 0, &block(&[1]), &None).unwrap();
    state
        .handle_pre_vote_qc(&qc(VoteType::Prevote, 0, &[1]), block(&[1]))
        .unwrap();
    // Two choke rounds pass; the replica stays locked at round 0.
    state.handle_choke_qc(&choke_qc(0)).unwrap();
    state.handle_choke_qc(&choke_qc(1)).unwrap();
    state.handle_choke_qc(&choke_qc(2)).unwrap();
    assert_eq!(state.stage, Stage::new(0, 3, Step::Propose));
    assert_eq!(state.lock, Some(lock(0, &[1])));
    // The leader of round 3 proposes another block with a pre-vote quorum of round 2.
    assert_eq!(
        state.handle_signed_proposal(0, 3, &block(&[2]), &Some(lock(2, &[2]))),
        Ok(())
    );
    assert_eq!(state.stage, Stage::new(0, 3, Step::PreVote));
    assert_eq!(state.lock, Some(lock(2, &[2])));
    assert_eq!(state.vote_hash(), Some(vec![2u8]));
}

#[test]
fn same_round_lock_for_another_block_is_a_fork() {
    let mut state = StateInfo::from_height(0);
    state
        .handle_pre_vote_qc(&qc(VoteType::Prevote, 0, &[1]), block(&[1]))
        .unwrap();
    state.handle_choke_qc(&choke_qc(0)).unwrap();
    assert_eq!(
        state.handle_signed_proposal(0, 1, &block(&[2]), &Some(lock(0, &[2]))),
        Err(OverlordError {
            kind: ErrorKind::Byzantine,
            info: ErrorInfo::Fork
        })
    );
    assert_eq!(
        state.handle_signed_proposal(0, 1, &block(&[1]), &Some(lock(0, &[1]))),
        Ok(())
    );
    assert_eq!(state.lock, Some(lock(0, &[1])));
}

#[test]
fn inputs_of_other_heights_and_stages_are_refused() {
    let mut state = StateInfo::from_height(3);
    let high = OverlordError {
        kind: ErrorKind::Debug,
        info: ErrorInfo::High,
    };
    assert_eq!(state.handle_signed_proposal(2, 0, &block(&[1]), &None), Err(outdated()));
    assert_eq!(state.handle_signed_proposal(4, 0, &block(&[1]), &None), Err(high));
    assert_eq!(
        state.handle_pre_vote_qc(&qc(VoteType::Prevote, 0, &[1]), block(&[1])),
        Err(outdated())
    );
    let mut later = choke_qc(0);
    later.choke.height = 9;
    assert_eq!(state.handle_choke_qc(&later), Err(high));
    let mut last = choke_qc(u64::MAX);
    last.choke.height = 3;
    assert_eq!(state.handle_choke_qc(&last), Err(outdated()));
    assert_eq!(
        state.handle_timeout(&Stage::new(3, 1, Step::Propose)),
        Err(OverlordError {
            kind: ErrorKind::Debug,
            info: ErrorInfo::WrongStage
        })
    );
    assert_eq!(state, StateInfo::from_height(3));

    state.handle_signed_proposal(3, 0, &block(&[1]), &None).unwrap();
    assert_eq!(state.handle_signed_proposal(3, 0, &block(&[2]), &None), Err(outdated()));
}
