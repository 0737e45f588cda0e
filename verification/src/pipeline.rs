//! The submission pipeline: authenticate, verify the commitment, verify the
//! proof verdict, open a match session, insert into the leaderboard, close
//! the session — all-or-nothing. A submission that fails any step leaves the
//! leaderboard exactly as it was, and integrity is established before any
//! session effect is durably recorded.

use vstd::prelude::*;
use crate::commitment::commitment_matches;
use crate::commitment::verify_commitment;
use crate::leaderboard::insert_sorted;
use crate::leaderboard::insert_spec;
use crate::leaderboard::ScoreEntry;
use crate::leaderboard::ZKLeaderboard;
use crate::session::GameHubTrait;
use crate::session::SessionEvent;

verus! {

/// Why a submission was rejected.
#[derive(Clone, Copy, Debug, PartialEq, Eq, Structural)]
pub enum ErrorKind {
    /// The caller is not entitled to act as the named participant.
    AuthorizationFailure,
    /// The commitment does not match, or the proof is invalid.
    IntegrityFailure,
    /// A registry call failed; nothing durable remains of the submission.
    TransportFailure,
}

/// A submission passes every integrity check: the caller is authorized, the
/// revealed pair matches the published commitment, and the proof verdict is
/// positive.
pub open spec fn submission_accepted(
    score: u32,
    salt: Seq<u8>,
    public_hash: Seq<u8>,
    auth_ok: bool,
    proof_valid: bool,
) -> bool {
    auth_ok && commitment_matches(score, salt, public_hash) && proof_valid
}

/// The session-open event a submission records: the submitter against the
/// hub itself, staking the submitted score.
pub open spec fn start_event(hub_id: u64, session_id: u32, user: u64, score: u32) -> SessionEvent {
    SessionEvent::Started {
        game_id: hub_id,
        session_id,
        player1: user,
        player2: hub_id,
        player1_points: score as i128,
        player2_points: 0,
    }
}

/// The session-close event a submission records: the submitter is the winner.
pub open spec fn end_event(session_id: u32) -> SessionEvent {
    SessionEvent::Ended { session_id, player1_won: true }
}

impl ZKLeaderboard {
    /// Submit a score. `auth_ok` is the verdict of the caller-authentication
    /// mechanism on the claimed identity, and `proof_valid` the verdict of
    /// the proof system on (proof, score, commitment); both are established
    /// before anything else happens.
    ///
    /// On success the entry is ranked into the board and the registry log
    /// grows by exactly the paired start and end events of this submission.
    /// On any failure the board is unchanged; a rejected or unproven
    /// submission records no session event at all, and a transport failure
    /// leaves at most an unmatched open event, which discarding the whole
    /// unit of work (the environment's atomicity) erases.
    pub fn submit_score<H: GameHubTrait>(
        &mut self,
        hub: &mut H,
        hub_id: u64,
        session_id: u32,
        user: u64,
        score: u32,
        salt: &Vec<u8>,
        public_hash: &Vec<u8>,
        auth_ok: bool,
        proof_valid: bool,
    ) -> (r: Result<(), ErrorKind>)
        requires
            old(self).wf(),
        ensures
            final(self).wf(),
            r is Err ==> final(self)@ == old(self)@,
            !auth_ok ==> r == Err::<(), ErrorKind>(ErrorKind::AuthorizationFailure)
                && final(hub).log() == old(hub).log(),
            auth_ok && !(commitment_matches(score, salt@, public_hash@) && proof_valid)
                ==> r == Err::<(), ErrorKind>(ErrorKind::IntegrityFailure)
                && final(hub).log() == old(hub).log(),
            r is Ok ==> submission_accepted(score, salt@, public_hash@, auth_ok, proof_valid)
                && final(self)@ == insert_spec(old(self)@, ScoreEntry { user, score })
                && final(hub).log() == old(hub).log()
                    .push(start_event(hub_id, session_id, user, score))
                    .push(end_event(session_id)),
            submission_accepted(score, salt@, public_hash@, auth_ok, proof_valid) && r is Err
                ==> r == Err::<(), ErrorKind>(ErrorKind::TransportFailure)
                && (final(hub).log() == old(hub).log()
                    || final(hub).log() == old(hub).log()
                        .push(start_event(hub_id, session_id, user, score))),
    {
        proof {
            self.lemma_view();
        }
        if !auth_ok {
            return Err(ErrorKind::AuthorizationFailure);
        }
        if !verify_commitment(score, salt, public_hash) {
            return Err(ErrorKind::IntegrityFailure);
        }
        if !proof_valid {
            return Err(ErrorKind::IntegrityFailure);
        }
        if !hub.start_game(hub_id, session_id, user, hub_id, score as i128, 0) {
            return Err(ErrorKind::TransportFailure);
        }
        let candidate = insert_sorted(&self.board, ScoreEntry { user, score });
        if !hub.end_game(session_id, true) {
            // The candidate board is dropped with the rest of the unit of
            // work: nothing durable changed.
            return Err(ErrorKind::TransportFailure);
        }
        self.board = candidate;
        proof {
            self.lemma_view();
        }
        Ok(())
    }
}

} // verus!
