use overlord::auth::Node;
use overlord::cabinet::{Capsule, Item};
use overlord::error::ConsensusError;
use overlord::smr::smr_types::{Lock, SMREvent, SMRTrigger, Step, TriggerSource, TriggerType};
use overlord::smr::state_machine::StateMachine;
use overlord::state::effect::Effect;
use overlord::state::process::{OverlordMsg, Proof, State, Status, VerifyResp};
use overlord::types::{
    AggregatedSignature, AggregatedVote, PoLC, Proposal, SignedProposal, SignedVote, Vote,
    VoteType,
};
use overlord::wal::wal_type::{SMRBase, WalInfo, WalLock};

fn nodes() -> Vec<Node> {
    (1u8..=4)
        .map(|i| Node {
            address: vec![i],
            propose_weight: 1,
            vote_weight: 1,
        })
        .collect()
}

fn state(me: u8) -> State<u8> {
    State::new(vec![me], 3000, nodes()).unwrap()
}

fn state_at(me: u8, height: u64) -> State<u8> {
    let mut s = state(me);
    let reply = s.goto_new_height(
        Status {
            height,
            interval: None,
            authority_list: nodes(),
        },
        None,
    );
    assert_eq!(reply.result, Ok(()));
    s
}

fn vote(height: u64, round: u64, vote_type: VoteType, hash: &[u8], voter: u8) -> SignedVote {
    SignedVote {
        signature: vec![voter],
        vote: Vote {
            height,
            round,
            vote_type,
            block_hash: hash.to_vec(),
        },
        voter: vec![voter],
    }
}

fn qc(height: u64, round: u64, vote_type: VoteType, hash: &[u8]) -> AggregatedVote {
    AggregatedVote {
        signature: AggregatedSignature {
            signature: vec![0xa6],
            address_bitmap: vec![0b1110_0000],
        },
        vote_type,
        height,
        round,
        block_hash: hash.to_vec(),
        leader: vec![1],
    }
}

fn proposal(height: u64, round: u64, hash: &[u8], lock: Option<PoLC>, proposer: u8) -> SignedProposal<u8> {
    SignedProposal {
        signature: vec![],
        proposal: Proposal {
            height,
            round,
            content: 0,
            block_hash: hash.to_vec(),
            lock,
            proposer: vec![proposer],
        },
    }
}

fn trigger(t: TriggerType, hash: &[u8], round: Option<u64>, height: u64) -> Effect<u8> {
    Effect::Trigger(SMRTrigger {
        trigger_type: t,
        source: TriggerSource::State,
        hash: hash.to_vec(),
        round,
        height,
        wal_info: None,
    })
}

#[test]
fn invalid_validators_are_refused() {
    let s: Result<State<u8>, ConsensusError> = State::new(vec![1], 3000, vec![]);
    assert_eq!(s.err(), Some(ConsensusError::InvalidAuthority));
}

#[test]
fn proposals_are_classed_by_height_and_round() {
    let mut s = state_at(1, 10);
    s.round = 3;
    let classed = |s: &mut State<u8>, height: u64, round: u64| {
        let before = s.store.items.len();
        let passed = s
            .filter_signed_proposal(height, round, proposal(height, round, &[1], None, 1))
            .is_some();
        (passed, s.store.items.len() - before)
    };
    // outdated
    assert_eq!(classed(&mut s, 8, 0), (false, 0));
    assert_eq!(classed(&mut s, 10, 2), (false, 0));
    // much higher height
    assert_eq!(classed(&mut s, 16, 0), (false, 0));
    // much higher round
    assert_eq!(classed(&mut s, 10, 14), (false, 0));
    assert_eq!(classed(&mut s, 11, 11), (false, 0));
    // kept for later
    assert_eq!(classed(&mut s, 10, 4), (false, 1));
    assert_eq!(classed(&mut s, 10, 13), (false, 1));
    assert_eq!(classed(&mut s, 15, 10), (false, 1));
    // handled now
    assert_eq!(classed(&mut s, 10, 3), (true, 0));
    assert_eq!(classed(&mut s, 9, 0), (true, 0));
    assert_eq!(classed(&mut s, 9, 99), (true, 0));
}

#[test]
fn a_signed_proposal_triggers_the_machine() {
    let mut s = state_at(1, 10);
    // (10 + 0) mod 4 = 2: validator 3 proposes.
    let reply = s.handle_signed_proposal(proposal(10, 0, &[5], None, 3), true, true);
    assert_eq!(reply.result, Ok(()));
    assert_eq!(
        reply.effects,
        vec![
            trigger(TriggerType::Proposal, &[5], None, 10),
            Effect::CheckBlock {
                height: 10,
                block_hash: vec![5]
            },
        ]
    );
    assert_eq!(s.blocks, vec![vec![5u8]]);

    let mut s = state_at(1, 10);
    let reply = s.handle_signed_proposal(proposal(10, 0, &[5], None, 2), true, true);
    assert_eq!(reply.result, Err(ConsensusError::InvalidProposer));
    let reply = s.handle_signed_proposal(proposal(10, 0, &[5], None, 9), true, true);
    assert_eq!(reply.result, Err(ConsensusError::InvalidAddress));
    let reply = s.handle_signed_proposal(proposal(10, 0, &[5], None, 3), false, true);
    assert_eq!(reply.result, Err(ConsensusError::ProposalSignature));
    assert!(s.store.items.is_empty());

    let lock = |bitmap: u8| {
        let mut votes = qc(10, 0, VoteType::Prevote, &[5]);
        votes.signature.address_bitmap = vec![bitmap];
        Some(PoLC {
            lock_round: 0,
            lock_votes: votes,
        })
    };
    s.round = 1;
    // (10 + 1) mod 4 = 3: validator 4 proposes.
    let reply = s.handle_signed_proposal(proposal(10, 1, &[5], lock(0b1100_0000), 4), true, true);
    assert_eq!(reply.result, Err(ConsensusError::BelowThreshold));
    let reply = s.handle_signed_proposal(proposal(10, 1, &[5], lock(0b1110_0000), 4), true, false);
    assert_eq!(reply.result, Err(ConsensusError::AggregatedSignature));
    let reply = s.handle_signed_proposal(proposal(10, 1, &[5], lock(0b1110_0000), 4), true, true);
    assert_eq!(reply.result, Ok(()));
    assert_eq!(reply.effects[0], trigger(TriggerType::Proposal, &[5], Some(0), 10));
}

#[test]
fn lagging_validators_get_the_last_certificate() {
    // A validator that has never left a height knows no validators of the
    // height before.
    let mut fresh = state(1);
    fresh.height = 10;
    let reply = fresh.handle_signed_proposal(proposal(9, 0, &[5], None, 2), true, true);
    assert_eq!(reply.result, Err(ConsensusError::InvalidAddress));

    // (9 + 0) mod 4 = 1: validator 2 proposed at height 9.
    let mut s = state_at(1, 9);
    let reply = s.goto_new_height(
        Status {
            height: 10,
            interval: Some(500),
            authority_list: nodes(),
        },
        None,
    );
    assert_eq!(reply.result, Ok(()));
    assert_eq!(s.block_interval, 500);
    let reply = s.handle_signed_proposal(proposal(9, 0, &[5], None, 2), true, true);
    assert_eq!(reply.result, Ok(()));
    assert!(reply.effects.is_empty());
    s.last_commit_qc = Some(qc(9, 0, VoteType::Precommit, &[4]));
    let reply = s.handle_signed_proposal(proposal(9, 0, &[5], None, 2), true, true);
    assert_eq!(
        reply.effects,
        vec![Effect::RetransmitQC {
            to: vec![2],
            qc: qc(9, 0, VoteType::Precommit, &[4])
        }]
    );
    let reply = s.handle_signed_vote(vote(9, 0, VoteType::Prevote, &[5], 3), true);
    assert_eq!(
        reply.effects,
        vec![Effect::RetransmitQC {
            to: vec![3],
            qc: qc(9, 0, VoteType::Precommit, &[4])
        }]
    );
}

#[test]
fn the_leader_counts_votes_and_asks_for_the_certificate() {
    let mut s = state_at(1, 10);
    s.is_leader = true;
    let hb = [5u8];
    assert!(s
        .handle_signed_vote(vote(10, 0, VoteType::Prevote, &hb, 1), true)
        .effects
        .is_empty());
    assert_eq!(s.counting_vote(VoteType::Prevote), None);
    assert!(s
        .handle_signed_vote(vote(10, 0, VoteType::Prevote, &hb, 2), true)
        .effects
        .is_empty());
    // Another block, a repeated vote, an empty vote, a wrong signature and a
    // stranger change nothing.
    assert!(s
        .handle_signed_vote(vote(10, 0, VoteType::Prevote, &[6], 3), true)
        .effects
        .is_empty());
    assert!(s
        .handle_signed_vote(vote(10, 0, VoteType::Prevote, &hb, 2), true)
        .effects
        .is_empty());
    assert!(s
        .handle_signed_vote(vote(10, 0, VoteType::Prevote, &[], 4), true)
        .effects
        .is_empty());
    assert_eq!(
        s.handle_signed_vote(vote(10, 0, VoteType::Prevote, &hb, 4), false)
            .result,
        Err(ConsensusError::VoteSignature)
    );
    assert_eq!(
        s.handle_signed_vote(vote(10, 0, VoteType::Prevote, &hb, 9), true)
            .result,
        Err(ConsensusError::InvalidAddress)
    );
    assert_eq!(s.counting_vote(VoteType::Prevote), None);

    let reply = s.handle_signed_vote(vote(10, 0, VoteType::Prevote, &hb, 4), true);
    assert_eq!(reply.result, Ok(()));
    assert_eq!(
        reply.effects,
        vec![Effect::GenerateQC {
            block_hash: hb.to_vec(),
            vote_type: VoteType::Prevote,
            votes: vec![
                vote(10, 0, VoteType::Prevote, &hb, 1),
                vote(10, 0, VoteType::Prevote, &hb, 2),
                vote(10, 0, VoteType::Prevote, &hb, 4),
            ],
            bitmap: vec![0b1101_0000],
            lock_round: None,
        }]
    );
    assert_eq!(s.counting_vote(VoteType::Prevote), Some(hb.to_vec()));
    assert_eq!(s.counting_vote(VoteType::Precommit), None);

    let made = s.generate_qc(hb.to_vec(), VoteType::Prevote, vec![0xa6]);
    assert_eq!(
        made,
        AggregatedVote {
            signature: AggregatedSignature {
                signature: vec![0xa6],
                address_bitmap: vec![0b1101_0000],
            },
            vote_type: VoteType::Prevote,
            height: 10,
            round: 0,
            block_hash: hb.to_vec(),
            leader: vec![1],
        }
    );
    assert_eq!(
        s.verify_aggregated_signature(&made.signature.address_bitmap, 10, true),
        Ok(())
    );

    // The block has not passed the check yet: the certificate is sent, the
    // machine is not triggered.
    let reply = s.handle_generated_qc(made.clone(), None);
    assert_eq!(reply.effects, vec![Effect::BroadcastQC(made.clone())]);
    // Once a certificate exists, further votes are ignored.
    assert!(s
        .handle_signed_vote(vote(10, 0, VoteType::Prevote, &hb, 3), true)
        .effects
        .is_empty());

    let reply = s.handle_resp(VerifyResp {
        height: 10,
        block_hash: hb.to_vec(),
        is_pass: true,
    });
    assert_eq!(
        reply.effects,
        vec![trigger(TriggerType::PrevoteQC, &hb, Some(0), 10)]
    );
    assert!(s.try_get_full_txs(&hb.to_vec()));
    assert_eq!(s.check_full_txs(hb.to_vec()), Some(hb.to_vec()));
    assert_eq!(s.check_full_txs(vec![6]), None);
}

#[test]
fn others_ignore_votes() {
    let mut s = state_at(1, 10);
    for voter in 1u8..=4 {
        let reply = s.handle_signed_vote(vote(10, 0, VoteType::Prevote, &[5], voter), true);
        assert_eq!(reply.result, Ok(()));
        assert!(reply.effects.is_empty());
    }
    assert!(s.store.items.is_empty());
}

#[test]
fn certificates_are_classed_and_checked() {
    let mut s = state_at(1, 10);
    s.round = 2;
    let handled = |s: &mut State<u8>, c: AggregatedVote| {
        let reply = s.handle_aggregated_vote(c, true);
        assert_eq!(reply.result, Ok(()));
        reply.effects
    };
    assert!(handled(&mut s, qc(10, 2, VoteType::Prevote, &[])).is_empty());
    assert!(handled(&mut s, qc(9, 2, VoteType::Prevote, &[5])).is_empty());
    assert!(handled(&mut s, qc(10, 1, VoteType::Prevote, &[5])).is_empty());
    assert!(handled(&mut s, qc(15, 0, VoteType::Prevote, &[5])).is_empty());
    assert!(handled(&mut s, qc(11, 10, VoteType::Prevote, &[5])).is_empty());
    assert!(s.store.items.is_empty());
    assert!(handled(&mut s, qc(14, 9, VoteType::Prevote, &[5])).is_empty());
    assert_eq!(
        s.store.items,
        vec![Item::Pending(Capsule::AggregatedVote(qc(
            14,
            9,
            VoteType::Prevote,
            &[5]
        )))]
    );

    let mut weak = qc(10, 2, VoteType::Prevote, &[5]);
    weak.signature.address_bitmap = vec![0b0110_0000];
    assert_eq!(
        s.handle_aggregated_vote(weak, true).result,
        Err(ConsensusError::BelowThreshold)
    );
    assert_eq!(
        s.handle_aggregated_vote(qc(10, 2, VoteType::Prevote, &[5]), false)
            .result,
        Err(ConsensusError::AggregatedSignature)
    );
    // Stored, but the block has not passed the check yet.
    assert!(handled(&mut s, qc(10, 2, VoteType::Prevote, &[5])).is_empty());
    assert_eq!(s.store.items.len(), 2);
    s.set_full_txs(vec![5], false);
    assert!(handled(&mut s, qc(10, 1, VoteType::Precommit, &[5])).is_empty());
    s.set_full_txs(vec![5], true);
    assert_eq!(
        handled(&mut s, qc(10, 3, VoteType::Precommit, &[5])),
        vec![trigger(TriggerType::PrecommitQC, &[5], Some(3), 10)]
    );
}

#[test]
fn a_new_round_for_a_follower_and_for_the_leader() {
    // (10 + 1) mod 4 = 3: validator 4 leads round 1 of height 10.
    let mut follower = state_at(1, 10);
    let reply = follower.handle_new_round(1, None, None);
    assert_eq!(reply.result, Ok(()));
    assert_eq!(
        reply.effects,
        vec![Effect::SaveWal {
            height: 10,
            round: 1,
            step: Step::Propose,
            lock: None
        }]
    );
    assert_eq!(follower.round, 1);
    assert!(!follower.is_leader);
    assert_eq!(follower.leader_address, vec![4u8]);

    let mut leader = state_at(4, 10);
    let reply = leader.handle_new_round(1, None, None);
    assert_eq!(
        reply.effects,
        vec![
            Effect::SaveWal {
                height: 10,
                round: 1,
                step: Step::Propose,
                lock: None
            },
            Effect::GetBlock { height: 10 },
        ]
    );
    assert!(leader.is_leader);
    let reply = leader.handle_new_block(vec![7]);
    assert_eq!(
        reply.effects,
        vec![
            Effect::BroadcastProposal {
                height: 10,
                round: 1,
                block_hash: vec![7],
                lock: None
            },
            trigger(TriggerType::Proposal, &[7], None, 10),
            Effect::CheckBlock {
                height: 10,
                block_hash: vec![7]
            },
        ]
    );
    assert_eq!(leader.blocks, vec![vec![7u8]]);
}

#[test]
fn a_new_round_with_a_lock() {
    let mut leader = state_at(4, 10);
    assert_eq!(
        leader.handle_new_round(1, Some(0), None).result,
        Err(ConsensusError::InconsistentLock)
    );
    assert_eq!(
        leader.handle_new_round(1, None, Some(vec![5])).result,
        Err(ConsensusError::InconsistentLock)
    );
    assert_eq!(
        leader.handle_new_round(1, Some(0), Some(vec![5])).result,
        Err(ConsensusError::NoQC)
    );
    leader.set_qc(qc(10, 0, VoteType::Prevote, &[5]));
    assert_eq!(
        leader.handle_new_round(1, Some(0), Some(vec![5])).result,
        Err(ConsensusError::LoseBlock)
    );
    leader.add_block(&vec![5]);
    let reply = leader.handle_new_round(1, Some(0), Some(vec![5]));
    assert_eq!(reply.result, Ok(()));
    let lock = Some(PoLC {
        lock_round: 0,
        lock_votes: qc(10, 0, VoteType::Prevote, &[5]),
    });
    assert_eq!(
        reply.effects,
        vec![
            Effect::SaveWal {
                height: 10,
                round: 1,
                step: Step::Propose,
                lock: lock.clone()
            },
            Effect::BroadcastProposal {
                height: 10,
                round: 1,
                block_hash: vec![5],
                lock
            },
            trigger(TriggerType::Proposal, &[5], Some(0), 10),
            Effect::CheckBlock {
                height: 10,
                block_hash: vec![5]
            },
        ]
    );
}

#[test]
fn a_waiting_proposal_is_handed_in_at_its_round() {
    let mut s = state_at(1, 10);
    let sp = proposal(10, 1, &[5], None, 4);
    assert!(s
        .handle_signed_proposal(proposal(10, 1, &[5], None, 4), true, true)
        .effects
        .is_empty());
    let reply = s.handle_new_round(1, None, None);
    assert_eq!(reply.effects.len(), 2);
    assert_eq!(reply.effects[1], Effect::Handle(Capsule::SignedProposal(sp)));
    assert!(s.store.items.is_empty());
}

#[test]
fn vote_events() {
    // A follower sends its vote to the leader.
    let mut s = state_at(1, 10);
    s.handle_new_round(0, None, None);
    let reply = s.handle_vote_event(vec![5], VoteType::Prevote, None, vec![0x51]);
    assert_eq!(reply.result, Ok(()));
    let mine = SignedVote {
        signature: vec![0x51],
        vote: Vote {
            height: 10,
            round: 0,
            vote_type: VoteType::Prevote,
            block_hash: vec![5],
        },
        voter: vec![1],
    };
    assert_eq!(
        reply.effects,
        vec![Effect::TransmitVote {
            to: vec![3],
            vote: mine
        }]
    );

    // A vote for nothing only saves the step the machine has gone to.
    let reply = s.handle_vote_event(vec![], VoteType::Prevote, None, vec![]);
    assert_eq!(
        reply.effects,
        vec![Effect::SaveWal {
            height: 10,
            round: 0,
            step: Step::Precommit,
            lock: None
        }]
    );
    let reply = s.handle_vote_event(vec![], VoteType::Precommit, None, vec![]);
    assert_eq!(
        reply.effects,
        vec![Effect::SaveWal {
            height: 10,
            round: 0,
            step: Step::Propose,
            lock: None
        }]
    );
    assert_eq!(
        s.handle_vote_event(vec![], VoteType::Precommit, Some(0), vec![])
            .result,
        Err(ConsensusError::NoQC)
    );

    // With the certificate of the round at hand and the block checked, the
    // follower saves its lock and triggers the machine.
    s.set_qc(qc(10, 0, VoteType::Prevote, &[5]));
    s.add_block(&vec![5]);
    s.set_full_txs(vec![5], true);
    let reply = s.vote_process(VoteType::Prevote, None);
    assert_eq!(
        reply.effects,
        vec![
            Effect::SaveWal {
                height: 10,
                round: 0,
                step: Step::Prevote,
                lock: Some(PoLC {
                    lock_round: 0,
                    lock_votes: qc(10, 0, VoteType::Prevote, &[5])
                })
            },
            trigger(TriggerType::PrevoteQC, &[5], Some(0), 10),
        ]
    );
}

#[test]
fn commit_builds_the_proof() {
    let mut s = state_at(1, 10);
    s.round = 2;
    assert_eq!(
        s.handle_commit(vec![5]).result,
        Err(ConsensusError::LoseBlock)
    );
    s.add_block(&vec![5]);
    assert_eq!(
        s.handle_commit(vec![5]).result,
        Err(ConsensusError::LosePrecommitQC)
    );
    s.set_qc(qc(10, 2, VoteType::Prevote, &[5]));
    assert_eq!(
        s.handle_commit(vec![5]).result,
        Err(ConsensusError::LosePrecommitQC)
    );
    s.set_qc(qc(10, 2, VoteType::Precommit, &[5]));
    let reply = s.handle_commit(vec![5]);
    assert_eq!(reply.result, Ok(()));
    assert_eq!(
        reply.effects,
        vec![
            Effect::SaveWal {
                height: 10,
                round: 2,
                step: Step::Commit,
                lock: Some(PoLC {
                    lock_round: 2,
                    lock_votes: qc(10, 2, VoteType::Precommit, &[5])
                })
            },
            Effect::Commit {
                height: 10,
                block_hash: vec![5],
                proof: Proof {
                    height: 10,
                    round: 2,
                    block_hash: vec![5],
                    signature: qc(10, 2, VoteType::Precommit, &[5]).signature,
                }
            },
        ]
    );
    assert_eq!(s.last_commit_qc, Some(qc(10, 2, VoteType::Precommit, &[5])));
}

#[test]
fn the_next_proposer_waits_for_the_rest_of_the_interval() {
    let status = |height| Status {
        height,
        interval: None,
        authority_list: nodes(),
    };
    // (11 + 0) mod 4 = 3: validator 4 proposes first at height 11.
    let s = state_at(4, 10);
    assert_eq!(s.commit_delay(&status(11), 1000), Ok(Some(2000)));
    assert_eq!(s.commit_delay(&status(11), 3000), Ok(None));
    assert_eq!(s.commit_delay(&status(12), 1000), Ok(None));
    let other = state_at(1, 10);
    assert_eq!(other.commit_delay(&status(11), 1000), Ok(None));
    assert!(s.next_proposer(11, 0));
    assert!(!s.next_proposer(11, 1));
}

#[test]
fn a_new_height_clears_and_hands_in_what_waited() {
    let mut s = state_at(1, 10);
    s.add_block(&vec![5]);
    s.set_qc(qc(10, 0, VoteType::Prevote, &[5]));
    s.handle_aggregated_vote(qc(11, 0, VoteType::Prevote, &[6]), true);
    s.handle_aggregated_vote(qc(12, 0, VoteType::Prevote, &[7]), true);
    let reply = s.handle_msg(
        OverlordMsg::RichStatus(Status {
            height: 11,
            interval: None,
            authority_list: nodes(),
        }),
        true,
        true,
        None,
    );
    assert_eq!(reply.result, Ok(()));
    assert_eq!(
        reply.effects,
        vec![
            Effect::Trigger(SMRTrigger {
                trigger_type: TriggerType::NewEpoch(11),
                source: TriggerSource::State,
                hash: vec![],
                round: None,
                height: 11,
                wal_info: None,
            }),
            Effect::Handle(Capsule::AggregatedVote(qc(11, 0, VoteType::Prevote, &[6]))),
        ]
    );
    assert_eq!(s.height, 11);
    assert_eq!(s.round, 0);
    assert!(s.blocks.is_empty());
    assert_eq!(
        s.store.items,
        vec![Item::Pending(Capsule::AggregatedVote(qc(
            12,
            0,
            VoteType::Prevote,
            &[7]
        )))]
    );
    let mut zero = state(1);
    assert_eq!(
        zero.goto_new_height(
            Status {
                height: 0,
                interval: None,
                authority_list: nodes()
            },
            None
        )
        .result,
        Err(ConsensusError::NoPreviousHeight)
    );
    assert_eq!(
        zero.goto_new_height(
            Status {
                height: 1,
                interval: None,
                authority_list: vec![]
            },
            None
        )
        .result,
        Err(ConsensusError::InvalidAuthority)
    );
}

fn wal_info(step: Step, lock: Option<WalLock<u8>>) -> WalInfo<u8> {
    WalInfo {
        height: 10,
        round: 1,
        step,
        lock,
    }
}

fn wal_lock(vote_type: VoteType) -> WalLock<u8> {
    WalLock {
        lock_round: 0,
        lock_votes: qc(10, 0, vote_type, &[5]),
        content: 0,
    }
}

#[test]
fn recovery_from_the_log() {
    let mut s = state(1);
    let reply = s.start_with_wal(None, vec![]);
    assert_eq!(reply.result, Ok(()));
    assert!(reply.effects.is_empty());

    let resume = |info: &WalInfo<u8>| {
        Effect::Trigger(SMRTrigger {
            trigger_type: TriggerType::WalInfo,
            source: TriggerSource::State,
            hash: vec![],
            round: None,
            height: 10,
            wal_info: Some(info.to_smr_base()),
        })
    };

    let mut s = state(1);
    assert_eq!(
        s.start_with_wal(Some(wal_info(Step::Commit, None)), vec![])
            .result,
        Err(ConsensusError::NoLockInCommit)
    );
    let mut s = state(1);
    let info = wal_info(Step::Prevote, None);
    let expected = resume(&info);
    assert_eq!(s.start_with_wal(Some(info), vec![]).effects, vec![expected]);
    assert_eq!((s.height, s.round), (10, 1));

    // (10 + 1) mod 4 = 3: validator 4 leads. It proposes the locked block again.
    let mut leader = state(4);
    let info = wal_info(Step::Propose, Some(wal_lock(VoteType::Prevote)));
    let expected = resume(&info);
    let reply = leader.start_with_wal(Some(info), vec![]);
    assert_eq!(
        reply.effects,
        vec![
            expected,
            Effect::BroadcastProposal {
                height: 10,
                round: 1,
                block_hash: vec![5],
                lock: Some(PoLC {
                    lock_round: 0,
                    lock_votes: qc(10, 0, VoteType::Prevote, &[5])
                })
            },
            trigger(TriggerType::Proposal, &[5], Some(0), 10),
        ]
    );
    assert!(leader.is_leader);
    assert_eq!(leader.blocks, vec![vec![5u8]]);

    // A follower in the pre-commit step casts its pre-commit for the locked
    // block again.
    let mut follower = state(1);
    let info = wal_info(Step::Precommit, Some(wal_lock(VoteType::Prevote)));
    assert_eq!(
        info.vote_again(),
        Some(Vote {
            height: 10,
            round: 1,
            vote_type: VoteType::Precommit,
            block_hash: vec![5],
        })
    );
    let expected = resume(&info);
    let reply = follower.start_with_wal(Some(info), vec![0x51]);
    assert_eq!(
        reply.effects,
        vec![
            expected,
            Effect::TransmitVote {
                to: vec![4],
                vote: SignedVote {
                    signature: vec![0x51],
                    vote: Vote {
                        height: 10,
                        round: 1,
                        vote_type: VoteType::Precommit,
                        block_hash: vec![5],
                    },
                    voter: vec![1],
                }
            },
        ]
    );

    // A follower in the pre-vote step casts its pre-vote again.
    let mut follower = state(1);
    let info = wal_info(Step::Prevote, Some(wal_lock(VoteType::Prevote)));
    let expected = resume(&info);
    let reply = follower.start_with_wal(Some(info), vec![0x52]);
    assert_eq!(
        reply.effects,
        vec![
            expected,
            Effect::TransmitVote {
                to: vec![4],
                vote: SignedVote {
                    signature: vec![0x52],
                    vote: Vote {
                        height: 10,
                        round: 1,
                        vote_type: VoteType::Prevote,
                        block_hash: vec![5],
                    },
                    voter: vec![1],
                }
            },
        ]
    );

    // In the commit step the block is committed again.
    let mut committed = state(1);
    let info = wal_info(Step::Commit, Some(wal_lock(VoteType::Precommit)));
    let reply = committed.start_with_wal(Some(info), vec![]);
    assert_eq!(reply.result, Ok(()));
    assert_eq!(reply.effects.len(), 2);
    assert!(matches!(reply.effects[1], Effect::Commit { .. }));
}

#[test]
fn machine_and_state_module_work_a_round_together() {
    // Validator 3 leads round 0 of height 10.
    let mut leader = state_at(3, 9);
    let mut machine = StateMachine::new();
    let mut effects = leader
        .goto_new_height(
            Status {
                height: 10,
                interval: None,
                authority_list: nodes(),
            },
            None,
        )
        .effects;
    let mut log = Vec::new();
    let hb = vec![0xb1u8];
    let mut others_voted = false;
    let mut steps = 0;
    while !effects.is_empty() {
        steps += 1;
        assert!(steps < 100);
        let effect = effects.remove(0);
        log.push(format!("{:?}", effect).split(|c| c == ' ' || c == '(').next().unwrap().to_string());
        let more = match effect {
            Effect::Trigger(t) => match machine.trigger(t).unwrap() {
                Some(event) => {
                    if let SMREvent::PrevoteVote { .. } | SMREvent::PrecommitVote { .. } = event {
                        others_voted = false;
                    }
                    leader.handle_event(event, vec![0x51]).effects
                }
                None => vec![],
            },
            Effect::GetBlock { .. } => leader.handle_new_block(hb.clone()).effects,
            Effect::CheckBlock { height, block_hash } => leader
                .handle_resp(VerifyResp {
                    height,
                    block_hash,
                    is_pass: true,
                })
                .effects,
            Effect::GenerateQC {
                block_hash,
                vote_type,
                lock_round,
                ..
            } => {
                let made = leader.generate_qc(block_hash, vote_type, vec![0xa6]);
                leader.handle_generated_qc(made, lock_round).effects
            }
            Effect::Commit { height, block_hash, .. } => {
                assert_eq!((height, block_hash), (10, hb.clone()));
                vec![]
            }
            _ => vec![],
        };
        effects.extend(more);
        if effects.is_empty() && !others_voted && machine.step() != Step::Commit {
            // The votes of the other validators arrive.
            others_voted = true;
            let vote_type = if machine.step() == Step::Prevote {
                VoteType::Prevote
            } else {
                VoteType::Precommit
            };
            for voter in [1u8, 2] {
                let reply = leader.handle_signed_vote(vote(10, 0, vote_type, &hb, voter), true);
                assert_eq!(reply.result, Ok(()));
                effects.extend(reply.effects);
            }
        }
    }
    assert_eq!(machine.step(), Step::Commit);
    assert_eq!(machine.height(), 10);
    assert_eq!(leader.last_commit_qc.as_ref().unwrap().block_hash, hb);
    assert!(log.contains(&"Commit".to_string()));
}

#[test]
fn recovery_in_the_pre_commit_step_sends_the_pre_commit_again() {
    let hb = [0x0bu8, 0x0b];
    let certificate = qc(5, 2, VoteType::Prevote, &hb);
    let info = WalInfo {
        height: 5,
        round: 2,
        step: Step::Precommit,
        lock: Some(WalLock {
            lock_round: 2,
            lock_votes: certificate.clone(),
            content: 42u8,
        }),
    };
    // (5 + 2) mod 4 = 3: validator 4 leads round 2 of height 5.
    let mut s = state(1);
    let reply = s.start_with_wal(Some(info), vec![0x5e]);
    assert_eq!(reply.result, Ok(()));
    assert_eq!((s.height, s.round), (5, 2));
    assert!(!s.is_leader);
    assert_eq!(s.blocks, vec![hb.to_vec()]);
    assert_eq!(
        s.store.get_qc(5, 2, VoteType::Prevote),
        Some(certificate)
    );
    assert_eq!(
        reply.effects,
        vec![
            Effect::Trigger(SMRTrigger {
                trigger_type: TriggerType::WalInfo,
                source: TriggerSource::State,
                hash: vec![],
                round: None,
                height: 5,
                wal_info: Some(SMRBase {
                    height: 5,
                    round: 2,
                    step: Step::Precommit,
                    polc: Some(Lock {
                        round: 2,
                        hash: hb.to_vec()
                    }),
                }),
            }),
            Effect::TransmitVote {
                to: vec![4],
                vote: SignedVote {
                    signature: vec![0x5e],
                    vote: Vote {
                        height: 5,
                        round: 2,
                        vote_type: VoteType::Precommit,
                        block_hash: hb.to_vec(),
                    },
                    voter: vec![1],
                }
            },
        ]
    );
}

#[test]
fn votes_are_aggregated_in_the_order_of_their_voters() {
    let mut s = state_at(1, 10);
    s.is_leader = true;
    let hb = [5u8];
    for voter in [4u8, 2] {
        assert!(s
            .handle_signed_vote(vote(10, 0, VoteType::Precommit, &hb, voter), true)
            .effects
            .is_empty());
    }
    let reply = s.handle_signed_vote(vote(10, 0, VoteType::Precommit, &hb, 1), true);
    let sorted = vec![
        vote(10, 0, VoteType::Precommit, &hb, 1),
        vote(10, 0, VoteType::Precommit, &hb, 2),
        vote(10, 0, VoteType::Precommit, &hb, 4),
    ];
    assert_eq!(
        reply.effects,
        vec![Effect::GenerateQC {
            block_hash: hb.to_vec(),
            vote_type: VoteType::Precommit,
            votes: sorted.clone(),
            bitmap: vec![0b1101_0000],
            lock_round: None,
        }]
    );
    assert_eq!(s.qc_votes(&hb.to_vec(), VoteType::Precommit).0, sorted);
    // The order does not depend on the order of arrival.
    let arrived = vec![
        vote(10, 0, VoteType::Precommit, &hb, 3),
        vote(10, 0, VoteType::Precommit, &hb, 9),
        vote(10, 0, VoteType::Precommit, &hb, 1),
        vote(10, 0, VoteType::Precommit, &hb, 2),
    ];
    let voters: Vec<Vec<u8>> = s
        .authority
        .current_auth
        .order_votes(&arrived)
        .into_iter()
        .map(|v| v.voter)
        .collect();
    assert_eq!(voters, vec![vec![1u8], vec![2], vec![3]]);
}
