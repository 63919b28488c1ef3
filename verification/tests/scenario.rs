use std::collections::{HashMap, HashSet, VecDeque};

use overlord::agent::{TimeoutEvent, TimeoutInfo};
use overlord::auth::{AuthCell, AuthManage, Node};
use overlord::cabinet::{Capsule, FetchedFullBlock};
use overlord::error::{ErrorInfo, ErrorKind, OverlordError};
use overlord::prepare::{BlockState, ConsensusConfig, ExecResult, ProposePrepare};
use overlord::smr::action::{Action, Outcome};
use overlord::smr::{created_block, ProposalVerdicts, SMR};
use overlord::state::{Stage, StateInfo, Step};
use overlord::timeout::TimeConfig;
use overlord::types::{
    AggregatedSignature, AggregatedVote, BlockInfo, ChokeQC, PoLC, Proposal, SignedChoke,
    SignedProposal, SignedVote, VoteType,
};

type Content = Vec<u8>;

#[derive(Clone, Debug)]
enum Msg {
    Proposal(u64, u64, Vec<u8>, Option<PoLC>, Vec<u8>),
    Vote(SignedVote),
    Choke(SignedChoke),
    Qc(AggregatedVote),
    ChokeQc(ChokeQC),
    Fetched(u64, Vec<u8>),
}

struct Replica {
    address: Vec<u8>,
    smr: SMR<Content, u8>,
    wal: Vec<StateInfo>,
    timers: Vec<TimeoutInfo>,
    committed: Vec<(u64, Vec<u8>)>,
    errors: Vec<OverlordError>,
    silent: bool,
}

struct Net {
    replicas: Vec<Replica>,
    queue: VecDeque<(usize, Msg)>,
    blocks: HashMap<Vec<u8>, (BlockInfo, Option<AggregatedVote>)>,
    dropped: HashSet<(usize, &'static str)>,
    drop_all: HashSet<&'static str>,
    votes_sent: Vec<(usize, SignedVote)>,
}

fn nodes() -> Vec<Node> {
    (1u8..=4)
        .map(|i| Node {
            address: vec![i],
            propose_weight: 1,
            vote_weight: 1,
        })
        .collect()
}

fn time_config() -> TimeConfig {
    TimeConfig::new(100, 15, 10, 10, 7).unwrap()
}

fn genesis_proof() -> AggregatedVote {
    AggregatedVote {
        signature: AggregatedSignature {
            signature: vec![],
            address_bitmap: vec![],
        },
        vote_type: VoteType::Precommit,
        height: 0,
        round: 0,
        block_hash: vec![],
        leader: vec![],
    }
}

fn replica(address: Vec<u8>, state: StateInfo) -> Replica {
    let genesis = ExecResult {
        consensus_config: ConsensusConfig {
            auth_config: nodes(),
            time_config: time_config(),
        },
        block_states: BlockState {
            height: 0,
            state: 0u8,
        },
    };
    let height = state.stage.height;
    let prepare = ProposePrepare::new(height, 0, vec![genesis], genesis_proof(), vec![0xee]);
    let auth = AuthManage::new(address.clone(), AuthCell::new(nodes()).unwrap(), None);
    Replica {
        address,
        smr: SMR::new(state, prepare, auth, time_config()),
        wal: vec![],
        timers: vec![],
        committed: vec![],
        errors: vec![],
        silent: false,
    }
}

impl Net {
    fn new() -> Net {
        let replicas = (1u8..=4)
            .map(|i| replica(vec![i], StateInfo::from_height(0)))
            .collect();
        Net {
            replicas,
            queue: VecDeque::new(),
            blocks: HashMap::new(),
            dropped: HashSet::new(),
            drop_all: HashSet::new(),
            votes_sent: vec![],
        }
    }

    fn index_of(&self, address: &[u8]) -> usize {
        self.replicas
            .iter()
            .position(|r| r.address == address)
            .unwrap()
    }

    fn send(&mut self, to: usize, kind: &'static str, msg: Msg) {
        if self.drop_all.contains(kind) || self.dropped.contains(&(to, kind)) {
            return;
        }
        self.queue.push_back((to, msg));
    }

    fn broadcast(&mut self, kind: &'static str, msg: Msg) {
        for to in 0..self.replicas.len() {
            self.send(to, kind, msg.clone());
        }
    }

    fn start(&mut self) {
        for i in 0..self.replicas.len() {
            let out = self.replicas[i].smr.new_round(0, Outcome::new());
            self.perform(i, out);
        }
    }

    fn perform(&mut self, me: usize, out: Outcome<Content>) {
        if let Err(e) = out.result {
            self.replicas[me].errors.push(e);
        }
        for action in out.actions {
            match action {
                Action::FetchFullBlock { height, block_hash } => {
                    self.send(me, "fetched", Msg::Fetched(height, block_hash));
                }
                Action::SetTimeout(info) => self.replicas[me].timers.push(info),
                Action::SaveWal(state) => self.replicas[me].wal.push(state),
                Action::SaveFullBlock(_) => {}
                Action::TransmitVote { to, vote } => {
                    let sv = SignedVote {
                        signature: vec![0x51],
                        vote,
                        voter: self.replicas[me].address.clone(),
                    };
                    self.votes_sent.push((me, sv.clone()));
                    let to = self.index_of(&to);
                    let kind = match sv.vote.vote_type {
                        VoteType::Prevote => "prevote",
                        VoteType::Precommit => "precommit",
                    };
                    self.send(to, kind, Msg::Vote(sv));
                }
                Action::BroadcastChoke { choke, from } => {
                    let sc = SignedChoke {
                        signature: vec![0x52],
                        choke,
                        voter: self.replicas[me].address.clone(),
                        from,
                    };
                    self.broadcast("choke", Msg::Choke(sc));
                }
                Action::AggregateVotes {
                    vote,
                    votes,
                    bitmap,
                } => {
                    assert!(votes.len() >= 3);
                    let qc = self.replicas[me]
                        .smr
                        .auth
                        .aggregate_votes(&votes, vec![0xa6])
                        .unwrap();
                    assert_eq!(qc.signature.address_bitmap, bitmap);
                    assert_eq!(qc.to_vote(), vote);
                    assert_eq!(qc.leader, self.replicas[me].address);
                    let kind = match qc.vote_type {
                        VoteType::Prevote => "prevote_qc",
                        VoteType::Precommit => "precommit_qc",
                    };
                    self.broadcast(kind, Msg::Qc(qc));
                }
                Action::AggregateChokes {
                    choke,
                    chokes,
                    bitmap,
                } => {
                    assert!(chokes.len() >= 3);
                    let qc = self.replicas[me]
                        .smr
                        .auth
                        .aggregate_chokes(&chokes, vec![0xa7])
                        .unwrap();
                    assert_eq!(qc.signature.address_bitmap, bitmap);
                    assert_eq!(qc.choke, choke);
                    self.broadcast("choke_qc", Msg::ChokeQc(qc));
                }
                Action::Feed(capsule) => {
                    let msg = match capsule {
                        Capsule::SignedProposal(sp) => Msg::Proposal(
                            sp.proposal.height,
                            sp.proposal.round,
                            sp.proposal.block_hash,
                            sp.proposal.lock,
                            sp.proposal.proposer,
                        ),
                        Capsule::SignedVote(sv) => Msg::Vote(sv),
                        Capsule::SignedChoke(sc) => Msg::Choke(sc),
                        Capsule::AggregatedVote(qc) => Msg::Qc(qc),
                        Capsule::ChokeQC(qc) => Msg::ChokeQc(qc),
                    };
                    self.queue.push_back((me, msg));
                }
                Action::ExecBlock {
                    height, full_block, ..
                } => {
                    self.replicas[me]
                        .committed
                        .push((height, full_block.block_hash));
                }
                Action::CreateBlock {
                    height,
                    round,
                    exec_height,
                    pre_hash,
                    pre_proof,
                } => {
                    if self.replicas[me].silent {
                        continue;
                    }
                    let block_hash = vec![0xb0, height as u8, round as u8, me as u8];
                    let info = BlockInfo {
                        height,
                        exec_height,
                        pre_hash,
                        block_hash: block_hash.clone(),
                    };
                    let proof = if height > 0 { Some(pre_proof) } else { None };
                    self.blocks.insert(block_hash.clone(), (info, proof));
                    let proposer = self.replicas[me].address.clone();
                    self.broadcast(
                        "proposal",
                        Msg::Proposal(height, round, block_hash, None, proposer),
                    );
                }
                Action::ProposeLocked {
                    height,
                    round,
                    block,
                    lock,
                } => {
                    let proposer = self.replicas[me].address.clone();
                    self.broadcast(
                        "proposal",
                        Msg::Proposal(height, round, block.block_hash, Some(lock), proposer),
                    );
                }
            }
        }
    }

    fn deliver(&mut self, to: usize, msg: Msg) {
        let smr = &mut self.replicas[to].smr;
        let out = match msg {
            Msg::Proposal(height, round, block_hash, lock, proposer) => {
                let (info, proof) = self.blocks.get(&block_hash).unwrap().clone();
                let sp = SignedProposal {
                    signature: vec![0x50],
                    proposal: Proposal {
                        height,
                        round,
                        content: block_hash.clone(),
                        block_hash,
                        lock,
                        proposer,
                    },
                };
                let verdicts = ProposalVerdicts {
                    signature_ok: true,
                    proof_ok: true,
                    lock_ok: true,
                    block_ok: true,
                };
                smr.handle_signed_proposal(sp, info, proof, verdicts, 0)
            }
            Msg::Vote(sv) => smr.handle_signed_vote(sv, true),
            Msg::Choke(sc) => smr.handle_signed_choke(sc, true),
            Msg::Qc(qc) => smr.handle_vote_qc(qc, true, 0),
            Msg::ChokeQc(qc) => smr.handle_choke_qc(qc, true, 0),
            Msg::Fetched(height, block_hash) => smr.handle_fetch(Ok(FetchedFullBlock {
                height,
                block_hash: block_hash.clone(),
                full_block: block_hash,
            })),
        };
        self.perform(to, out);
    }

    fn run(&mut self) {
        let mut steps = 0;
        while let Some((to, msg)) = self.queue.pop_front() {
            self.deliver(to, msg);
            steps += 1;
            assert!(steps < 10_000);
        }
    }

    fn fire(&mut self, me: usize) {
        let stage = self.replicas[me].smr.state.stage;
        let event = match stage.step {
            Step::Propose => TimeoutEvent::ProposeTimeout(stage),
            Step::PreVote => TimeoutEvent::PreVoteTimeout(stage),
            Step::PreCommit => TimeoutEvent::PreCommitTimeout(stage),
            Step::Brake => TimeoutEvent::BrakeTimeout(stage),
            Step::Commit => TimeoutEvent::NextHeightTimeout(stage.height),
        };
        assert!(self.replicas[me].timers.iter().any(|t| t.event == event));
        let out = self.replicas[me].smr.handle_timeout(event, 100);
        self.perform(me, out);
    }

    fn fire_all(&mut self) {
        for i in 0..self.replicas.len() {
            self.fire(i);
        }
    }
}

#[test]
fn happy_path_single_round() {
    let mut net = Net::new();
    net.start();
    net.run();
    let hb = vec![0xb0, 0, 0, 0];
    for r in &net.replicas {
        assert_eq!(r.committed, vec![(0, hb.clone())]);
        assert_eq!(r.smr.prepare.pre_hash, hb);
        assert_eq!(r.smr.prepare.height, 1);
    }
    // The leader of the first round of height 1 has gone on at once, and
    // has taken in its own proposal; the others wait for the rest of the
    // interval.
    assert_eq!(net.replicas[1].smr.state.stage, Stage::new(1, 0, Step::PreVote));
    for i in [0usize, 2, 3] {
        assert_eq!(net.replicas[i].smr.state.stage, Stage::new(0, 0, Step::Commit));
        net.fire(i);
    }
    for r in &net.replicas {
        assert_eq!(r.smr.state.stage.height, 1);
        assert_eq!(r.smr.prepare.pre_hash, hb);
    }
    net.run();
    let hb1 = vec![0xb0, 1, 0, 1];
    for r in &net.replicas {
        assert_eq!(r.committed, vec![(0, hb.clone()), (1, hb1.clone())]);
        assert_eq!(r.smr.prepare.pre_hash, hb1);
    }
}

#[test]
fn state_is_saved_before_every_vote() {
    let mut net = Net::new();
    net.start();
    net.run();
    for r in &net.replicas {
        let steps: Vec<Step> = r.wal.iter().map(|s| s.stage.step).collect();
        assert!(steps.starts_with(&[Step::PreVote, Step::PreCommit, Step::Commit]));
    }
    assert_eq!(
        net.votes_sent
            .iter()
            .filter(|(_, v)| v.vote.height == 0 && v.vote.vote_type == VoteType::Prevote)
            .count(),
        4
    );
    assert_eq!(
        net.votes_sent
            .iter()
            .filter(|(_, v)| v.vote.height == 0 && v.vote.vote_type == VoteType::Precommit)
            .count(),
        4
    );
}

#[test]
fn leader_silent_one_choke_round() {
    let mut net = Net::new();
    net.replicas[0].silent = true;
    net.start();
    net.run();
    for r in &net.replicas {
        assert!(r.committed.is_empty());
        assert_eq!(r.smr.state.stage, Stage::new(0, 0, Step::Propose));
    }
    net.fire_all();
    for r in &net.replicas {
        assert_eq!(r.smr.state.stage.step, Step::Brake);
    }
    net.run();
    let hb = vec![0xb0, 0, 1, 1];
    for r in &net.replicas {
        assert_eq!(r.committed, vec![(0, hb.clone())]);
        assert_eq!(r.smr.prepare.pre_hash, hb);
    }
}

#[test]
fn lock_preservation_across_round_change() {
    let mut net = Net::new();
    // The leader of round 1 never learns of the pre-vote quorum of round 0,
    // and no pre-commit of round 0 arrives anywhere.
    net.dropped.insert((1, "prevote_qc"));
    net.drop_all.insert("precommit");
    net.start();
    net.run();
    let hb = vec![0xb0, 0, 0, 0];
    for i in [0usize, 2, 3] {
        let state = &net.replicas[i].smr.state;
        assert_eq!(state.stage, Stage::new(0, 0, Step::PreCommit));
        let lock = state.lock.as_ref().unwrap();
        assert_eq!(lock.lock_round, 0);
        assert_eq!(lock.lock_votes.block_hash, hb);
    }
    assert_eq!(net.replicas[1].smr.state.stage, Stage::new(0, 0, Step::PreVote));
    assert!(net.replicas[1].smr.state.lock.is_none());

    net.drop_all.clear();
    net.dropped.clear();
    net.fire_all();
    net.run();

    // Round 1: the leader proposed another block without a lock; the locked
    // replicas pre-voted for the block they were locked on.
    let other = vec![0xb0, 0, 1, 1];
    assert!(net.blocks.contains_key(&other));
    let round_one_prevotes: Vec<&(usize, SignedVote)> = net
        .votes_sent
        .iter()
        .filter(|(_, v)| v.vote.round == 1 && v.vote.vote_type == VoteType::Prevote)
        .collect();
    assert_eq!(round_one_prevotes.len(), 4);
    for (from, vote) in round_one_prevotes {
        if *from == 1 {
            assert_eq!(vote.vote.block_hash, other);
        } else {
            assert_eq!(vote.vote.block_hash, hb);
        }
    }
    for r in &net.replicas {
        assert_eq!(r.committed, vec![(0, hb.clone())]);
    }
}

#[test]
fn a_vote_of_a_stranger_is_refused() {
    let mut net = Net::new();
    net.start();
    let sv = SignedVote {
        signature: vec![],
        vote: overlord::types::Vote {
            height: 0,
            round: 0,
            vote_type: VoteType::Prevote,
            block_hash: vec![1],
        },
        voter: vec![9],
    };
    let out = net.replicas[0].smr.handle_signed_vote(sv.clone(), true);
    assert_eq!(
        out.result,
        Err(OverlordError {
            kind: ErrorKind::Byzantine,
            info: ErrorInfo::UnauthorizedSigner
        })
    );
    let mut known = sv;
    known.voter = vec![2];
    let out = net.replicas[0].smr.handle_signed_vote(known.clone(), false);
    assert_eq!(
        out.result,
        Err(OverlordError {
            kind: ErrorKind::Byzantine,
            info: ErrorInfo::Signature
        })
    );
    assert!(net.replicas[0].smr.cabinet.items.is_empty());
    let out = net.replicas[0].smr.handle_signed_vote(known.clone(), true);
    assert_eq!(out.result, Ok(()));
    let out = net.replicas[0].smr.handle_signed_vote(known, true);
    assert_eq!(
        out.result,
        Err(OverlordError {
            kind: ErrorKind::Debug,
            info: ErrorInfo::Duplicate
        })
    );
    assert_eq!(net.replicas[0].smr.cabinet.items.len(), 1);
}

#[test]
fn wal_crash_recovery() {
    let hb = vec![0x77u8; 4];
    let qc = AggregatedVote {
        signature: AggregatedSignature {
            signature: vec![1, 2, 3],
            address_bitmap: vec![0b1110_0000],
        },
        vote_type: VoteType::Prevote,
        height: 5,
        round: 2,
        block_hash: hb.clone(),
        leader: vec![3],
    };
    let state = StateInfo {
        stage: Stage::new(5, 2, Step::PreCommit),
        lock: Some(PoLC {
            lock_round: 2,
            lock_votes: qc.clone(),
        }),
        pre_commit_qc: None,
        block: Some(BlockInfo {
            height: 5,
            exec_height: 0,
            pre_hash: vec![0x66],
            block_hash: hb.clone(),
        }),
        from: Some(overlord::types::UpdateFrom::PreVoteQC(qc)),
    };
    let bytes = overlord::wal::codec::encode(&state);
    // The process is killed here; all that is left is the bytes.
    let recovered = overlord::wal::codec::decode(&bytes).unwrap();
    assert_eq!(recovered, state);

    let mut restarted = replica(vec![2], recovered);
    let out = restarted.smr.resume(0);
    assert_eq!(out.result, Ok(()));
    // (5 + 2) mod 4 = 3: the fourth validator leads round 2 of height 5.
    assert_eq!(
        out.actions,
        vec![
            Action::SetTimeout(TimeoutInfo {
                delay: 400,
                event: TimeoutEvent::PreCommitTimeout(Stage::new(5, 2, Step::PreCommit)),
            }),
            Action::TransmitVote {
                to: vec![4],
                vote: overlord::types::Vote {
                    height: 5,
                    round: 2,
                    vote_type: VoteType::Precommit,
                    block_hash: hb,
                },
            },
        ]
    );
    assert_eq!(restarted.smr.state, state);
}

#[test]
fn a_certificate_waits_for_its_block() {
    let mut net = Net::new();
    net.start();
    // Everything that is on its way is lost; replica 3 gets a pre-vote
    // quorum certificate for the proposed block before the proposal.
    net.queue.clear();
    let hb = vec![0xb0, 0, 0, 0];
    let qc = AggregatedVote {
        signature: AggregatedSignature {
            signature: vec![0xa6],
            address_bitmap: vec![0b1110_0000],
        },
        vote_type: VoteType::Prevote,
        height: 0,
        round: 0,
        block_hash: hb.clone(),
        leader: vec![1],
    };
    net.deliver(3, Msg::Qc(qc.clone()));
    assert!(net.queue.is_empty());
    assert_eq!(net.replicas[3].smr.state.stage, Stage::new(0, 0, Step::Propose));
    assert_eq!(
        net.replicas[3].smr.cabinet.get_qc(0, 0, VoteType::Prevote),
        Some(qc.clone())
    );

    net.drop_all.insert("prevote");
    net.drop_all.insert("precommit");
    net.deliver(3, Msg::Proposal(0, 0, hb.clone(), None, vec![1]));
    assert_eq!(net.replicas[3].smr.state.stage, Stage::new(0, 0, Step::PreVote));
    // The content of the block arrives, and the certificate is taken up again.
    net.run();
    let state = &net.replicas[3].smr.state;
    assert_eq!(state.stage, Stage::new(0, 0, Step::PreCommit));
    assert_eq!(state.lock.as_ref().unwrap().lock_votes, qc);
    let precommits: Vec<&(usize, SignedVote)> = net
        .votes_sent
        .iter()
        .filter(|(from, v)| *from == 3 && v.vote.vote_type == VoteType::Precommit)
        .collect();
    assert_eq!(precommits.len(), 1);
    assert_eq!(precommits[0].1.vote.block_hash, hb);
}

#[test]
fn an_invalid_certificate_changes_nothing() {
    let mut net = Net::new();
    net.start();
    net.queue.clear();
    let hb = vec![0xb0, 0, 0, 0];
    net.deliver(3, Msg::Proposal(0, 0, hb.clone(), None, vec![1]));
    net.run();
    let before = net.replicas[3].smr.state.clone();
    let items = net.replicas[3].smr.cabinet.items.len();
    let mut weak = AggregatedVote {
        signature: AggregatedSignature {
            signature: vec![0xa6],
            address_bitmap: vec![0b1100_0000],
        },
        vote_type: VoteType::Precommit,
        height: 0,
        round: 0,
        block_hash: hb,
        leader: vec![1],
    };
    let out = net.replicas[3].smr.handle_vote_qc(weak.clone(), true, 0);
    assert_eq!(
        out.result,
        Err(OverlordError {
            kind: ErrorKind::Byzantine,
            info: ErrorInfo::UnderMajority
        })
    );
    weak.signature.address_bitmap = vec![0b1111_0000];
    let out = net.replicas[3].smr.handle_vote_qc(weak, false, 0);
    assert_eq!(
        out.result,
        Err(OverlordError {
            kind: ErrorKind::Byzantine,
            info: ErrorInfo::Signature
        })
    );
    assert!(out.actions.is_empty());
    assert_eq!(net.replicas[3].smr.state, before);
    assert_eq!(net.replicas[3].smr.cabinet.items.len(), items);
    assert!(net.replicas[3].committed.is_empty());
}

#[test]
fn the_request_for_a_block_builds_on_the_last_commit() {
    let mut net = Net::new();
    {
        let first = net.replicas[0].smr.create_block();
        assert_eq!((first.height, first.exec_height), (0, 0));
        assert_eq!(first.pre_hash, vec![0xee]);
        assert_eq!(first.pre_proof, genesis_proof());
        assert!(first.block_states.is_empty());
    }
    net.start();
    net.run();
    for i in [0usize, 2, 3] {
        net.fire(i);
    }
    let hb = vec![0xb0, 0, 0, 0];
    for r in &net.replicas {
        let request = r.smr.create_block();
        assert_eq!(request.height, 1);
        assert_eq!(request.exec_height, r.smr.prepare.exec_height);
        assert_eq!(request.pre_hash, hb);
        assert_eq!(request.pre_proof.block_hash, hb);
        assert_eq!(request.pre_proof.vote_type, VoteType::Precommit);
        assert_eq!((request.pre_proof.height, request.pre_proof.round), (0, 0));
    }
    assert_eq!(created_block(Ok(7u8)), Ok(7u8));
    assert_eq!(
        created_block::<u8>(Err(())),
        Err(OverlordError {
            kind: ErrorKind::Local,
            info: ErrorInfo::CreateBlock
        })
    );
}
