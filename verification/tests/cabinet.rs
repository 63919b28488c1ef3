use overlord::auth::{AuthCell, Node};
use overlord::cabinet::{Cabinet, Capsule, CumWeight, FetchedFullBlock, Item, Kind};
use overlord::error::{ErrorInfo, ErrorKind, OverlordError};
use overlord::types::{
    AggregatedSignature, AggregatedVote, BlockInfo, Choke, ChokeQC, Proposal, SignedChoke,
    SignedProposal, SignedVote, Vote, VoteType,
};

fn auth() -> AuthCell {
    AuthCell::new(
        (1u8..=4)
            .map(|i| Node {
                address: vec![i],
                propose_weight: 1,
                vote_weight: 1,
            })
            .collect(),
    )
    .unwrap()
}

fn vote(hash: &[u8], vote_type: VoteType) -> Vote {
    Vote {
        height: 0,
        round: 0,
        vote_type,
        block_hash: hash.to_vec(),
    }
}

fn signed(voter: u8, hash: &[u8]) -> SignedVote {
    SignedVote {
        signature: vec![voter],
        vote: vote(hash, VoteType::Prevote),
        voter: vec![voter],
    }
}

fn duplicate() -> OverlordError {
    OverlordError {
        kind: ErrorKind::Debug,
        info: ErrorInfo::Duplicate,
    }
}

#[test]
fn quorum_is_reported_once() {
    let auth = auth();
    let mut cabinet: Cabinet<u8> = Cabinet::new();
    let hb = [0xaau8];
    assert_eq!(cabinet.insert_vote(signed(1, &hb), &auth), Ok(None));
    assert_eq!(cabinet.insert_vote(signed(2, &hb), &auth), Ok(None));
    assert_eq!(
        cabinet.insert_vote(signed(3, &hb), &auth),
        Ok(Some(CumWeight {
            cum_weight: 3,
            kind: Kind::PreVote,
            round: 0,
            block_hash: Some(hb.to_vec()),
        }))
    );
    assert_eq!(cabinet.insert_vote(signed(4, &hb), &auth), Ok(None));
    assert!(cabinet.has_winner(0, 0, Kind::PreVote));
    assert!(!cabinet.has_winner(0, 0, Kind::PreCommit));
    let voters: Vec<Vec<u8>> = cabinet
        .get_signed_votes(&vote(&hb, VoteType::Prevote))
        .into_iter()
        .map(|v| v.voter)
        .collect();
    assert_eq!(voters, vec![vec![1u8], vec![2], vec![3], vec![4]]);
}

#[test]
fn repeated_votes_do_not_count_twice() {
    let auth = auth();
    let mut cabinet: Cabinet<u8> = Cabinet::new();
    let hb = [0xaau8];
    assert_eq!(cabinet.insert_vote(signed(1, &hb), &auth), Ok(None));
    assert_eq!(cabinet.insert_vote(signed(1, &hb), &auth), Err(duplicate()));
    assert_eq!(cabinet.insert_vote(signed(1, &hb), &auth), Err(duplicate()));
    assert_eq!(cabinet.insert_vote(signed(2, &hb), &auth), Ok(None));
    assert_eq!(cabinet.insert_vote(signed(2, &hb), &auth), Err(duplicate()));
    assert_eq!(cabinet.items.len(), 2);
    let voters = cabinet.get_signers(&vote(&hb, VoteType::Prevote));
    assert_eq!(auth.weight_of_voters(&voters), 2);
}

#[test]
fn byzantine_double_vote_rejected() {
    let auth = auth();
    let mut cabinet: Cabinet<u8> = Cabinet::new();
    let hb = [0xaau8];
    let other = [0xbbu8];
    // Validator 4 signs pre-votes for both blocks; 1 votes for the first
    // block and 2 for the second.
    assert_eq!(cabinet.insert_vote(signed(4, &hb), &auth), Ok(None));
    assert_eq!(cabinet.insert_vote(signed(4, &other), &auth), Ok(None));
    assert_eq!(cabinet.insert_vote(signed(4, &hb), &auth), Err(duplicate()));
    assert_eq!(cabinet.insert_vote(signed(1, &hb), &auth), Ok(None));
    assert_eq!(cabinet.insert_vote(signed(2, &other), &auth), Ok(None));
    let for_hb = cabinet.get_signers(&vote(&hb, VoteType::Prevote));
    let for_other = cabinet.get_signers(&vote(&other, VoteType::Prevote));
    assert_eq!(auth.weight_of_voters(&for_hb), 2);
    assert_eq!(auth.weight_of_voters(&for_other), 2);
    assert!(!auth.beyond_majority(auth.weight_of_voters(&for_hb)));
    assert!(!auth.beyond_majority(auth.weight_of_voters(&for_other)));
    assert!(!cabinet.has_winner(0, 0, Kind::PreVote));
    assert_eq!(
        cabinet.get_voted_hashes(0, 0, VoteType::Prevote),
        vec![hb.to_vec(), other.to_vec()]
    );
}

#[test]
fn votes_of_strangers_are_refused() {
    let auth = auth();
    let mut cabinet: Cabinet<u8> = Cabinet::new();
    assert_eq!(
        cabinet.insert_vote(signed(9, &[1]), &auth),
        Err(OverlordError {
            kind: ErrorKind::Byzantine,
            info: ErrorInfo::UnauthorizedSigner
        })
    );
    assert!(cabinet.items.is_empty());
}

#[test]
fn phases_and_rounds_are_counted_apart() {
    let auth = auth();
    let mut cabinet: Cabinet<u8> = Cabinet::new();
    let hb = [0xaau8];
    for voter in 1u8..=2 {
        assert_eq!(cabinet.insert_vote(signed(voter, &hb), &auth), Ok(None));
    }
    let mut precommit = signed(3, &hb);
    precommit.vote.vote_type = VoteType::Precommit;
    assert_eq!(cabinet.insert_vote(precommit, &auth), Ok(None));
    let mut later = signed(3, &hb);
    later.vote.round = 1;
    assert_eq!(cabinet.insert_vote(later, &auth), Ok(None));
    let mut higher = signed(3, &hb);
    higher.vote.height = 1;
    assert_eq!(cabinet.insert_vote(higher, &auth), Ok(None));
    assert!(!cabinet.has_winner(0, 0, Kind::PreVote));
}

fn choke(voter: u8) -> SignedChoke {
    SignedChoke {
        signature: vec![voter],
        choke: Choke {
            height: 2,
            round: 1,
        },
        voter: vec![voter],
        from: None,
    }
}

#[test]
fn chokes_gather_weight_like_votes() {
    let auth = auth();
    let mut cabinet: Cabinet<u8> = Cabinet::new();
    assert_eq!(cabinet.insert_choke(choke(1), &auth), Ok(None));
    assert_eq!(cabinet.insert_choke(choke(1), &auth), Err(duplicate()));
    assert_eq!(cabinet.insert_choke(choke(2), &auth), Ok(None));
    assert_eq!(
        cabinet.insert_choke(choke(3), &auth),
        Ok(Some(CumWeight {
            cum_weight: 3,
            kind: Kind::Choke,
            round: 1,
            block_hash: None,
        }))
    );
    assert_eq!(cabinet.insert_choke(choke(4), &auth), Ok(None));
    assert_eq!(cabinet.get_signed_chokes(2, 1).len(), 4);
    assert_eq!(cabinet.get_signed_chokes(2, 0).len(), 0);
    assert_eq!(
        cabinet.get_chokers(2, 1),
        vec![vec![1u8], vec![2], vec![3], vec![4]]
    );
}

fn proposal(height: u64, round: u64, hash: &[u8]) -> (SignedProposal<u8>, BlockInfo) {
    (
        SignedProposal {
            signature: vec![],
            proposal: Proposal {
                height,
                round,
                content: 7u8,
                block_hash: hash.to_vec(),
                lock: None,
                proposer: vec![1],
            },
        },
        BlockInfo {
            height,
            exec_height: 0,
            pre_hash: vec![],
            block_hash: hash.to_vec(),
        },
    )
}

#[test]
fn proposals_blocks_and_full_blocks() {
    let mut cabinet: Cabinet<u8> = Cabinet::new();
    let (sp, block) = proposal(3, 1, &[5]);
    assert_eq!(cabinet.insert_signed_proposal(sp, block.clone()), Ok(()));
    let (again, again_block) = proposal(3, 1, &[6]);
    assert_eq!(
        cabinet.insert_signed_proposal(again, again_block),
        Err(duplicate())
    );
    assert_eq!(cabinet.get_block(3, &vec![5]), Some(block.clone()));
    assert_eq!(cabinet.get_block(3, &vec![6]), None);
    assert_eq!(cabinet.get_block(4, &vec![5]), None);

    assert_eq!(cabinet.get_full_block(3, &vec![5]), None);
    let fetched = FetchedFullBlock {
        height: 3,
        block_hash: vec![5],
        full_block: vec![1, 2, 3],
    };
    cabinet.insert_full_block(fetched.clone());
    cabinet.insert_full_block(FetchedFullBlock {
        height: 3,
        block_hash: vec![5],
        full_block: vec![9],
    });
    assert_eq!(cabinet.get_full_block(3, &vec![5]), Some(fetched));

    assert!(cabinet.take_signed_proposal(3, 0).is_none());
    let (taken, taken_block) = cabinet.take_signed_proposal(3, 1).unwrap();
    assert_eq!(taken.proposal.block_hash, vec![5u8]);
    assert_eq!(taken_block, block);
    assert!(cabinet.take_signed_proposal(3, 1).is_none());
    assert_eq!(cabinet.get_block(3, &vec![5]), None);
}

fn qc(height: u64, round: u64, vote_type: VoteType, hash: &[u8]) -> AggregatedVote {
    AggregatedVote {
        signature: AggregatedSignature {
            signature: vec![],
            address_bitmap: vec![0xe0],
        },
        vote_type,
        height,
        round,
        block_hash: hash.to_vec(),
        leader: vec![1],
    }
}

#[test]
fn certificates_are_kept_by_round_and_phase() {
    let mut cabinet: Cabinet<u8> = Cabinet::new();
    cabinet.insert_qc(qc(1, 0, VoteType::Prevote, &[5]));
    cabinet.insert_qc(qc(1, 0, VoteType::Prevote, &[6]));
    cabinet.insert_qc(qc(1, 1, VoteType::Precommit, &[5]));
    assert_eq!(
        cabinet.get_qc(1, 0, VoteType::Prevote),
        Some(qc(1, 0, VoteType::Prevote, &[5]))
    );
    assert_eq!(cabinet.get_qc(1, 0, VoteType::Precommit), None);
    assert_eq!(
        cabinet.get_qc_by_hash(1, &vec![5], VoteType::Precommit),
        Some(qc(1, 1, VoteType::Precommit, &[5]))
    );
    assert_eq!(cabinet.get_qc_by_hash(1, &vec![6], VoteType::Prevote), None);
    assert_eq!(cabinet.get_qcs_for_block(1, &vec![5]).len(), 2);
    cabinet.insert_choke_qc(ChokeQC {
        choke: Choke {
            height: 1,
            round: 0,
        },
        signature: AggregatedSignature {
            signature: vec![],
            address_bitmap: vec![],
        },
    });
    assert_eq!(cabinet.items.len(), 3);
}

#[test]
fn commit_purges_lower_heights_and_keeps_order() {
    let auth = auth();
    let mut cabinet: Cabinet<u8> = Cabinet::new();
    let mut low = signed(1, &[1]);
    low.vote.height = 4;
    let mut same = signed(2, &[2]);
    same.vote.height = 5;
    let mut high = signed(3, &[3]);
    high.vote.height = 6;
    cabinet.insert_vote(high.clone(), &auth).unwrap();
    cabinet.insert_vote(low, &auth).unwrap();
    cabinet.insert_vote(same.clone(), &auth).unwrap();
    cabinet.insert_qc(qc(4, 0, VoteType::Prevote, &[1]));
    cabinet.handle_commit(5);
    assert_eq!(cabinet.items, vec![Item::Vote(high), Item::Vote(same)]);
}

#[test]
fn buffered_messages_wait_for_their_height() {
    let mut cabinet: Cabinet<u8> = Cabinet::new();
    let mut a = signed(1, &[1]);
    a.vote.height = 7;
    let mut b = signed(2, &[1]);
    b.vote.height = 8;
    let mut c = signed(3, &[1]);
    c.vote.height = 7;
    cabinet.buffer(Capsule::SignedVote(a.clone()));
    cabinet.buffer(Capsule::SignedVote(b.clone()));
    cabinet.buffer(Capsule::SignedVote(c.clone()));
    // Buffered votes are not votes yet.
    assert!(cabinet.get_signers(&a.vote).is_empty());
    let waiting = cabinet.take_buffered(7);
    assert_eq!(
        waiting,
        vec![Capsule::SignedVote(a), Capsule::SignedVote(c)]
    );
    assert_eq!(cabinet.items, vec![Item::Pending(Capsule::SignedVote(b))]);
    assert!(cabinet.take_buffered(7).is_empty());
}
