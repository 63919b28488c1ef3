//! A round-based, weighted-quorum BFT consensus core.
//!
//! For every height a rotating leader proposes a block, the validators
//! exchange pre-votes and pre-commits, and a block is committed once a
//! pre-commit quorum certificate for it has been assembled. A round that
//! fails is given up by a quorum of chokes, and the next round begins.
//!
//! Everything in this crate is a synchronous function of its arguments.
//! Timers, networking, signatures, the application and the write-ahead log
//! are supplied by the caller: a replica takes an input together with the
//! verdicts that belong to it, and answers with its next state and the
//! effects it asks for.
//!
//! * [`types`], [`error`]: messages and errors.
//! * [`bitmap`], [`auth`]: validator sets, leaders, quorums and the voter
//!   bitmaps of quorum certificates.
//! * [`cabinet`]: the store of messages, with the weight behind each vote.
//! * [`state`]: where a replica stands, and the locking rules.
//! * [`prepare`], [`timeout`], [`agent`]: the chain and its execution, the
//!   timing of the steps, the bookkeeping of requests and timers.
//! * [`smr`]: the replica itself, and, in [`smr::state_machine`] together
//!   with [`state::process`], the same protocol split into a state machine
//!   that decides on steps and a state module that keeps the votes.
//! * [`wal`]: what is written to the write-ahead log, and its byte form.
//! * [`safety`]: why no two different blocks are committed at one height.

pub mod agent;
pub mod auth;
pub mod bitmap;
pub mod cabinet;
pub mod error;
pub mod prepare;
pub mod safety;
pub mod smr;
pub mod state;
pub mod timeout;
pub mod types;
pub mod wal;
