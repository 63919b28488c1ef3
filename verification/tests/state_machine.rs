use overlord::error::ConsensusError;
use overlord::smr::smr_types::{Lock, SMREvent, SMRTrigger, Step, TriggerSource, TriggerType};
use overlord::smr::state_machine::StateMachine;
use overlord::wal::wal_type::SMRBase;

fn trigger(
    trigger_type: TriggerType,
    source: TriggerSource,
    hash: &[u8],
    round: Option<u64>,
    height: u64,
) -> SMRTrigger {
    SMRTrigger {
        trigger_type,
        source,
        hash: hash.to_vec(),
        round,
        height,
        wal_info: None,
    }
}

fn machine_at_height_one() -> StateMachine {
    let mut machine = StateMachine::new();
    let event = machine
        .trigger(trigger(
            TriggerType::NewEpoch(1),
            TriggerSource::State,
            &[],
            None,
            1,
        ))
        .unwrap();
    assert_eq!(
        event,
        Some(SMREvent::NewRoundInfo {
            height: 1,
            round: 0,
            lock_round: None,
            lock_proposal: None,
        })
    );
    machine
}

#[test]
fn fresh_machine_rests_in_commit() {
    let machine = StateMachine::new();
    assert_eq!(machine.height(), 0);
    assert_eq!(machine.round(), 0);
    assert_eq!(machine.step(), Step::Commit);
    assert_eq!(machine.block_hash(), Vec::<u8>::new());
    assert_eq!(machine.get_lock(), None);
}

#[test]
fn new_height_needs_state_source_and_higher_height() {
    let mut machine = machine_at_height_one();
    assert_eq!(
        machine.trigger(trigger(
            TriggerType::NewEpoch(2),
            TriggerSource::Timer,
            &[],
            None,
            2
        )),
        Err(ConsensusError::StatusSource)
    );
    assert_eq!(
        machine.trigger(trigger(
            TriggerType::NewEpoch(1),
            TriggerSource::State,
            &[],
            None,
            1
        )),
        Err(ConsensusError::DelayedStatus)
    );
    assert_eq!(machine.height(), 1);
    assert_eq!(machine.step(), Step::Propose);
}

#[test]
fn proposal_prevote_precommit_commit() {
    let mut machine = machine_at_height_one();
    let hash = vec![7u8; 4];
    let event = machine
        .trigger(trigger(
            TriggerType::Proposal,
            TriggerSource::State,
            &hash,
            None,
            1,
        ))
        .unwrap();
    assert_eq!(
        event,
        Some(SMREvent::PrevoteVote {
            height: 1,
            round: 0,
            block_hash: hash.clone(),
            lock_round: None,
        })
    );
    assert_eq!(machine.step(), Step::Prevote);

    let event = machine
        .trigger(trigger(
            TriggerType::PrevoteQC,
            TriggerSource::State,
            &hash,
            Some(0),
            1,
        ))
        .unwrap();
    assert_eq!(
        event,
        Some(SMREvent::PrecommitVote {
            height: 1,
            round: 0,
            block_hash: hash.clone(),
            lock_round: Some(0),
        })
    );
    assert_eq!(machine.step(), Step::Precommit);
    assert_eq!(
        machine.get_lock(),
        Some(Lock {
            round: 0,
            hash: hash.clone()
        })
    );

    let event = machine
        .trigger(trigger(
            TriggerType::PrecommitQC,
            TriggerSource::State,
            &hash,
            Some(0),
            1,
        ))
        .unwrap();
    assert_eq!(event, Some(SMREvent::Commit(hash.clone())));
    assert_eq!(machine.step(), Step::Commit);
}

#[test]
fn timeouts_walk_through_the_round_and_start_the_next() {
    let mut machine = machine_at_height_one();
    let event = machine
        .trigger(trigger(
            TriggerType::Proposal,
            TriggerSource::Timer,
            &[],
            None,
            1,
        ))
        .unwrap();
    assert_eq!(
        event,
        Some(SMREvent::PrevoteVote {
            height: 1,
            round: 0,
            block_hash: vec![],
            lock_round: None,
        })
    );
    let event = machine
        .trigger(trigger(
            TriggerType::PrevoteQC,
            TriggerSource::Timer,
            &[],
            Some(0),
            1,
        ))
        .unwrap();
    assert_eq!(
        event,
        Some(SMREvent::PrecommitVote {
            height: 1,
            round: 0,
            block_hash: vec![],
            lock_round: None,
        })
    );
    let event = machine
        .trigger(trigger(
            TriggerType::PrecommitQC,
            TriggerSource::Timer,
            &[],
            Some(0),
            1,
        ))
        .unwrap();
    assert_eq!(
        event,
        Some(SMREvent::NewRoundInfo {
            height: 1,
            round: 1,
            lock_round: None,
            lock_proposal: None,
        })
    );
    assert_eq!(machine.round(), 1);
    assert_eq!(machine.step(), Step::Propose);
}

#[test]
fn outdated_triggers_are_ignored() {
    let mut machine = machine_at_height_one();
    let hash = vec![1u8];
    assert_eq!(
        machine.trigger(trigger(
            TriggerType::Proposal,
            TriggerSource::State,
            &hash,
            None,
            0
        )),
        Ok(None)
    );
    machine.set_status(0, Step::Precommit, hash.clone(), None);
    assert_eq!(
        machine.trigger(trigger(
            TriggerType::Proposal,
            TriggerSource::State,
            &hash,
            None,
            1
        )),
        Ok(None)
    );
    assert_eq!(
        machine.trigger(trigger(
            TriggerType::PrevoteQC,
            TriggerSource::State,
            &hash,
            Some(0),
            1
        )),
        Ok(None)
    );
    assert_eq!(machine.step(), Step::Precommit);
}

#[test]
fn empty_inputs_are_refused() {
    let mut machine = machine_at_height_one();
    assert_eq!(
        machine.trigger(trigger(
            TriggerType::Proposal,
            TriggerSource::State,
            &[],
            None,
            1
        )),
        Err(ConsensusError::EmptyProposal)
    );
    assert_eq!(
        machine.trigger(trigger(
            TriggerType::PrevoteQC,
            TriggerSource::State,
            &[1],
            None,
            1
        )),
        Err(ConsensusError::NoVoteRound)
    );
    assert_eq!(
        machine.trigger(trigger(
            TriggerType::PrevoteQC,
            TriggerSource::State,
            &[],
            Some(0),
            1
        )),
        Err(ConsensusError::EmptyPrevoteQC)
    );
    assert_eq!(
        machine.trigger(trigger(
            TriggerType::PrecommitQC,
            TriggerSource::State,
            &[],
            Some(0),
            1
        )),
        Err(ConsensusError::EmptyPrecommitQC)
    );
}

#[test]
fn lock_survives_a_proposal_without_lock() {
    let mut machine = machine_at_height_one();
    let locked = vec![1u8, 1];
    let other = vec![2u8, 2];
    machine.set_status(
        1,
        Step::Propose,
        locked.clone(),
        Some(Lock {
            round: 0,
            hash: locked.clone(),
        }),
    );
    let event = machine
        .trigger(trigger(
            TriggerType::Proposal,
            TriggerSource::State,
            &other,
            None,
            1,
        ))
        .unwrap();
    assert_eq!(
        event,
        Some(SMREvent::PrevoteVote {
            height: 1,
            round: 1,
            block_hash: locked.clone(),
            lock_round: Some(0),
        })
    );
    assert_eq!(
        machine.get_lock(),
        Some(Lock {
            round: 0,
            hash: locked
        })
    );
}

#[test]
fn proposal_with_higher_lock_round_moves_the_lock() {
    let mut machine = machine_at_height_one();
    let locked = vec![1u8, 1];
    let other = vec![2u8, 2];
    machine.set_status(
        3,
        Step::Propose,
        locked.clone(),
        Some(Lock {
            round: 0,
            hash: locked,
        }),
    );
    let event = machine
        .trigger(trigger(
            TriggerType::Proposal,
            TriggerSource::State,
            &other,
            Some(2),
            1,
        ))
        .unwrap();
    assert_eq!(
        event,
        Some(SMREvent::PrevoteVote {
            height: 1,
            round: 3,
            block_hash: other.clone(),
            lock_round: Some(2),
        })
    );
    assert_eq!(
        machine.get_lock(),
        Some(Lock {
            round: 2,
            hash: other.clone()
        })
    );
    assert_eq!(machine.block_hash(), other);
    assert_eq!(machine.step(), Step::Prevote);
}

#[test]
fn proposal_with_a_lock_is_adopted_without_a_lock_held() {
    let mut machine = machine_at_height_one();
    let block = vec![7u8, 7];
    machine.set_status(2, Step::Propose, vec![], None);
    let event = machine
        .trigger(trigger(
            TriggerType::Proposal,
            TriggerSource::State,
            &block,
            Some(1),
            1,
        ))
        .unwrap();
    assert_eq!(
        event,
        Some(SMREvent::PrevoteVote {
            height: 1,
            round: 2,
            block_hash: block.clone(),
            lock_round: Some(1),
        })
    );
    assert_eq!(
        machine.get_lock(),
        Some(Lock {
            round: 1,
            hash: block
        })
    );
}

#[test]
fn proposal_of_round_zero_cannot_carry_a_lock() {
    let mut machine = machine_at_height_one();
    let block = vec![7u8, 7];
    let result = machine.trigger(trigger(
        TriggerType::Proposal,
        TriggerSource::State,
        &block,
        Some(0),
        1,
    ));
    assert_eq!(
        result,
        Err(ConsensusError::InvalidLock {
            height: 1,
            round: 0
        })
    );
    assert_eq!(machine.step(), Step::Propose);
    assert_eq!(machine.get_lock(), None);
    assert_eq!(machine.block_hash(), Vec::<u8>::new());
}

#[test]
fn certificate_of_an_earlier_round_keeps_the_later_lock() {
    let mut machine = machine_at_height_one();
    let locked = vec![1u8, 1];
    machine.set_status(
        4,
        Step::Precommit,
        locked.clone(),
        Some(Lock {
            round: 3,
            hash: locked.clone(),
        }),
    );
    let event = machine
        .trigger(trigger(
            TriggerType::PrecommitQC,
            TriggerSource::State,
            &locked,
            Some(2),
            1,
        ))
        .unwrap();
    assert_eq!(event, Some(SMREvent::Commit(locked.clone())));
    assert_eq!(machine.step(), Step::Commit);
    assert_eq!(machine.round(), 2);
    assert_eq!(
        machine.get_lock(),
        Some(Lock {
            round: 3,
            hash: locked
        })
    );
}

#[test]
fn a_certificate_is_taken_in_at_the_last_round() {
    let mut machine = machine_at_height_one();
    let block = vec![9u8];
    machine.set_status(u64::MAX, Step::Precommit, vec![], None);
    let event = machine
        .trigger(trigger(
            TriggerType::PrecommitQC,
            TriggerSource::State,
            &block,
            Some(u64::MAX),
            1,
        ))
        .unwrap();
    assert_eq!(event, Some(SMREvent::Commit(block)));
    assert_eq!(machine.step(), Step::Commit);
}

#[test]
fn same_lock_round_with_another_block_is_a_fork() {
    let mut machine = machine_at_height_one();
    let locked = vec![1u8, 1];
    machine.set_status(
        2,
        Step::Propose,
        locked.clone(),
        Some(Lock {
            round: 1,
            hash: locked,
        }),
    );
    assert_eq!(
        machine.trigger(trigger(
            TriggerType::Proposal,
            TriggerSource::State,
            &[9, 9],
            Some(1),
            1
        )),
        Err(ConsensusError::Fork)
    );
    assert_eq!(machine.step(), Step::Propose);
}

#[test]
fn precommit_certificate_for_another_block_is_a_fork() {
    let mut machine = machine_at_height_one();
    let locked = vec![1u8, 1];
    machine.set_status(
        1,
        Step::Precommit,
        locked.clone(),
        Some(Lock {
            round: 1,
            hash: locked,
        }),
    );
    assert_eq!(
        machine.trigger(trigger(
            TriggerType::PrecommitQC,
            TriggerSource::State,
            &[9, 9],
            Some(1),
            1
        )),
        Err(ConsensusError::Fork)
    );
}

#[test]
fn self_checks_refuse_inconsistent_states() {
    let mut machine = StateMachine::new();
    machine.set_status(
        1,
        Step::Propose,
        vec![1],
        Some(Lock {
            round: 0,
            hash: vec![2],
        }),
    );
    assert_eq!(
        machine.trigger(trigger(
            TriggerType::Proposal,
            TriggerSource::State,
            &[3],
            None,
            0
        )),
        Err(ConsensusError::LockMismatch)
    );

    let mut machine = machine_at_height_one();
    machine.set_status(
        0,
        Step::Propose,
        vec![1],
        Some(Lock {
            round: 0,
            hash: vec![1],
        }),
    );
    assert_eq!(
        machine.trigger(trigger(
            TriggerType::Proposal,
            TriggerSource::State,
            &[3],
            None,
            1
        )),
        Err(ConsensusError::InvalidLock {
            height: 1,
            round: 0
        })
    );

    let mut machine = machine_at_height_one();
    machine.set_status(2, Step::Precommit, vec![1], None);
    assert_eq!(
        machine.trigger(trigger(
            TriggerType::PrecommitQC,
            TriggerSource::State,
            &[1],
            Some(2),
            1
        )),
        Err(ConsensusError::InvalidPrecommitStatus {
            height: 1,
            round: 2
        })
    );
}

#[test]
fn recovered_record_restores_the_machine() {
    let mut machine = StateMachine::new();
    let hash = vec![5u8; 3];
    let base = SMRBase {
        height: 5,
        round: 2,
        step: Step::Precommit,
        polc: Some(Lock {
            round: 2,
            hash: hash.clone(),
        }),
    };
    let event = machine
        .trigger(SMRTrigger {
            trigger_type: TriggerType::WalInfo,
            source: TriggerSource::State,
            hash: vec![],
            round: None,
            height: 5,
            wal_info: Some(base),
        })
        .unwrap();
    assert_eq!(
        event,
        Some(SMREvent::PrecommitVote {
            height: 5,
            round: 2,
            block_hash: vec![],
            lock_round: Some(2),
        })
    );
    assert_eq!(machine.height(), 5);
    assert_eq!(machine.round(), 2);
    assert_eq!(machine.step(), Step::Precommit);
    assert_eq!(machine.block_hash(), hash.clone());
    assert_eq!(machine.get_lock(), Some(Lock { round: 2, hash }));
}
