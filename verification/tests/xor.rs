use std::ops::BitXor;

use bytes::Bytes;
use overlord::error::ConsensusError;
use overlord::smr::smr_types::{Lock, SMRTrigger, Step, TriggerSource, TriggerType};
use overlord::smr::state_machine::StateMachine;

#[test]
fn test_xor() {
    let left = Bytes::new();
    let right: Option<u64> = None;
    assert_eq!(left.is_empty().bitxor(&right.is_none()), false);
}

#[test]
fn empty_block_and_missing_lock_go_together_in_precommit() {
    // What the exclusive-or stands for in the machine's self check: in the
    // pre-commit step, a block without a lock or a lock without a block is
    // refused, the other two combinations pass.
    let precommit = |hash: Vec<u8>, lock: Option<Lock>| {
        let mut machine = StateMachine::new();
        machine.set_status(1, Step::Precommit, hash, lock);
        machine.trigger(SMRTrigger {
            trigger_type: TriggerType::PrecommitQC,
            source: TriggerSource::State,
            hash: vec![1],
            round: Some(1),
            height: 0,
            wal_info: None,
        })
    };
    let refused = Err(ConsensusError::InvalidPrecommitStatus {
        height: 0,
        round: 1,
    });
    assert_eq!(precommit(vec![1], None), refused);
    assert!(precommit(vec![], None).is_ok());
    assert!(precommit(
        vec![1],
        Some(Lock {
            round: 1,
            hash: vec![1]
        })
    )
    .is_ok());
}
