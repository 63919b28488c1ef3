//! What a replica does with each input.

use vstd::prelude::*;

use crate::agent::timer_of;
use crate::auth::{flags_of, has_address, signer_verdict};
use crate::bitmap::pack_spec;
use crate::cabinet::{Capsule, CapsuleView, ItemView};
use crate::error::{ErrorInfo, OverlordError};
use crate::smr::action::{action_views, Action, ActionView, Outcome};
use crate::smr::{filter_verdict, Replica, SMR};
use crate::state::Stage;
use crate::types::{
    SignedChoke, SignedChokeView, SignedVote, SignedVoteView, UpdateFrom, UpdateFromView,
};

verus! {

/// One turn of a replica: what it has become, the effects it asks for, and
/// whether the input was taken in.
pub struct Turn<T, S> {
    pub replica: Replica<T, S>,
    pub actions: Seq<ActionView<T>>,
    pub result: Result<(), OverlordError>,
}

/// The message by which a piece of evidence is handed in.
pub open spec fn evidence_capsule<T>(from: UpdateFromView) -> CapsuleView<T> {
    match from {
        UpdateFromView::PreVoteQC(qc) => CapsuleView::AggregatedVote(qc),
        UpdateFromView::PreCommitQC(qc) => CapsuleView::AggregatedVote(qc),
        UpdateFromView::ChokeQC(qc) => CapsuleView::ChokeQC(qc),
    }
}

/// The message by which a piece of evidence is handed in.
pub fn evidence_to_capsule<T>(from: UpdateFrom) -> (r: Capsule<T>)
    ensures
        r@ == evidence_capsule::<T>(from@),
{
    match from {
        UpdateFrom::PreVoteQC(qc) => Capsule::AggregatedVote(qc),
        UpdateFrom::PreCommitQC(qc) => Capsule::AggregatedVote(qc),
        UpdateFrom::ChokeQC(qc) => Capsule::ChokeQC(qc),
    }
}

impl<T, S> Replica<T, S> {
    /// The turn ends here: the input is refused.
    pub open spec fn halt(self, actions: Seq<ActionView<T>>, e: OverlordError) -> Turn<T, S> {
        Turn { replica: self, actions, result: Err(e) }
    }

    /// The turn ends here: the input has been taken in.
    pub open spec fn done(self, actions: Seq<ActionView<T>>) -> Turn<T, S> {
        Turn { replica: self, actions, result: Ok(()) }
    }

    /// The turn of a message that the filter refuses.
    pub open spec fn filtered(self, capsule: CapsuleView<T>, e: OverlordError) -> Turn<T, S> {
        Turn {
            replica: Replica {
                shelf: if e.info == ErrorInfo::High {
                    self.shelf.with(ItemView::Pending(capsule))
                } else {
                    self.shelf
                },
                ..self
            },
            actions: Seq::empty(),
            result: Err(e),
        }
    }

    /// Whether this replica is a validator of the current height.
    pub open spec fn can_vote(self) -> bool {
        has_address(self.current, self.my_address)
    }

    /// The timer to arm on entering a stage, as a list of effects.
    pub open spec fn timer(self, stage: Stage, elapsed: u64) -> Seq<ActionView<T>> {
        match timer_of(self.time, stage, elapsed) {
            Some(info) => seq![ActionView::SetTimeout(info)],
            None => Seq::empty(),
        }
    }

    /// A signed vote arrives; `sig_ok` is the verdict on its signature.
    ///
    /// A vote that passes the filter and comes from a validator with a valid
    /// signature is put into the store. Where it completes the first quorum
    /// of its round and phase, the replica asks for the votes of that quorum
    /// to be aggregated into a certificate, for the certificate to be sent
    /// to everybody, and for it to be handed in then.
    pub open spec fn on_signed_vote(self, sv: SignedVoteView, sig_ok: bool) -> Turn<T, S> {
        let filter = filter_verdict(self.state.stage, sv.vote.height, sv.vote.round, false);
        let signer = signer_verdict(self.applicable(sv.vote.height), sv.voter, sig_ok);
        let offered = self.shelf.offer_vote(self.current, sv);
        let stored = Replica { shelf: offered.0, ..self };
        if filter is Err {
            self.filtered(CapsuleView::SignedVote(sv), filter->Err_0)
        } else if signer is Err {
            self.halt(Seq::empty(), signer->Err_0)
        } else {
            match offered.1 {
                Err(e) => self.halt(Seq::empty(), e),
                Ok(None) => stored.done(Seq::empty()),
                Ok(Some(w)) => stored.done(
                    seq![
                        ActionView::AggregateVotes {
                            vote: sv.vote,
                            votes: stored.shelf.votes(sv.vote),
                            bitmap: pack_spec(flags_of(self.current, stored.shelf.signers(sv.vote))),
                        },
                    ],
                ),
            }
        }
    }

    /// A signed choke arrives; `sig_ok` is the verdict on its signature.
    ///
    /// A choke that passes the filter and comes from a validator with a
    /// valid signature is put into the store. Where it completes the first
    /// quorum of chokes of its round, the replica asks for the chokes of
    /// that quorum to be aggregated into a certificate, for the certificate
    /// to be sent to everybody, and for it to be handed in then. Otherwise
    /// the replica asks for the evidence that the choke carries to be handed
    /// in, by which it may catch up with the sender.
    pub open spec fn on_signed_choke(self, sc: SignedChokeView, sig_ok: bool) -> Turn<T, S> {
        let filter = filter_verdict(self.state.stage, sc.choke.height, sc.choke.round, false);
        let signer = signer_verdict(self.applicable(sc.choke.height), sc.voter, sig_ok);
        let offered = self.shelf.offer_choke(self.current, sc);
        let stored = Replica { shelf: offered.0, ..self };
        if filter is Err {
            self.filtered(CapsuleView::SignedChoke(sc), filter->Err_0)
        } else if signer is Err {
            self.halt(Seq::empty(), signer->Err_0)
        } else {
            match offered.1 {
                Err(e) => self.halt(Seq::empty(), e),
                Ok(None) => stored.done(
                    match sc.from {
                        Some(from) => seq![ActionView::Feed(evidence_capsule(from))],
                        None => Seq::empty(),
                    },
                ),
                Ok(Some(w)) => stored.done(
                    seq![
                        ActionView::AggregateChokes {
                            choke: sc.choke,
                            chokes: stored.shelf.chokes(sc.choke),
                            bitmap: pack_spec(
                                flags_of(self.current, stored.shelf.chokers(sc.choke)),
                            ),
                        },
                    ],
                ),
            }
        }
    }
}

impl<T, S> SMR<T, S> {
    /// Handles a signed pre-vote or pre-commit: see [`Replica::on_signed_vote`].
    pub fn handle_signed_vote(&mut self, sv: SignedVote, sig_ok: bool) -> (r: Outcome<T>)
        ensures
            final(self)@ == old(self)@.on_signed_vote(sv@, sig_ok).replica,
            action_views(r.actions@) == old(self)@.on_signed_vote(sv@, sig_ok).actions,
            r.result == old(self)@.on_signed_vote(sv@, sig_ok).result,
    {
        let mut out: Outcome<T> = Outcome::new();
        let height: u64 = sv.vote.height;
        let round: u64 = sv.vote.round;
        let my_height: u64 = self.state.stage.height;
        let sv = match self.filter_msg(height, round, Capsule::SignedVote(sv)) {
            Err(e) => {
                return out.fail(e);
            },
            Ok(Capsule::SignedVote(sv)) => sv,
            Ok(_) => {
                return out;
            },
        };
        match self.auth.verify_signer(height, my_height, &sv.voter, sig_ok) {
            Err(e) => {
                return out.fail(e);
            },
            Ok(()) => {},
        }
        let vote = sv.vote.clone();
        match self.cabinet.insert_vote(sv, &self.auth.current_auth) {
            Err(e) => out.fail(e),
            Ok(None) => out,
            Ok(Some(_)) => {
                let votes = self.cabinet.get_signed_votes(&vote);
                let voters = self.cabinet.get_signers(&vote);
                let bitmap = self.auth.current_auth.bitmap_of(&voters);
                out.push(Action::AggregateVotes { vote, votes, bitmap });
                out
            },
        }
    }

    /// Handles a signed choke: see [`Replica::on_signed_choke`].
    pub fn handle_signed_choke(&mut self, sc: SignedChoke, sig_ok: bool) -> (r: Outcome<T>)
        ensures
            final(self)@ == old(self)@.on_signed_choke(sc@, sig_ok).replica,
            action_views(r.actions@) == old(self)@.on_signed_choke(sc@, sig_ok).actions,
            r.result == old(self)@.on_signed_choke(sc@, sig_ok).result,
    {
        let mut out: Outcome<T> = Outcome::new();
        let choke = sc.choke;
        let my_height: u64 = self.state.stage.height;
        let sc = match self.filter_msg(choke.height, choke.round, Capsule::SignedChoke(sc)) {
            Err(e) => {
                return out.fail(e);
            },
            Ok(Capsule::SignedChoke(sc)) => sc,
            Ok(_) => {
                return out;
            },
        };
        match self.auth.verify_signer(choke.height, my_height, &sc.voter, sig_ok) {
            Err(e) => {
                return out.fail(e);
            },
            Ok(()) => {},
        }
        let from = match &sc.from {
            Some(f) => Some(f.clone()),
            None => None,
        };
        match self.cabinet.insert_choke(sc, &self.auth.current_auth) {
            Err(e) => out.fail(e),
            Ok(None) => {
                match from {
                    Some(f) => {
                        out.push(Action::Feed(evidence_to_capsule(f)));
                    },
                    None => {},
                }
                out
            },
            Ok(Some(_)) => {
                let chokes = self.cabinet.get_signed_chokes(choke.height, choke.round);
                let voters = self.cabinet.get_chokers(choke.height, choke.round);
                let bitmap = self.auth.current_auth.bitmap_of(&voters);
                out.push(Action::AggregateChokes { choke, chokes, bitmap });
                out
            },
        }
    }
}

} // verus!
