//! The external game-session registry, seen from this crate: two lifecycle
//! calls, `start_game` and `end_game`, that bracket a submission. The trait
//! is what a registry binding must provide; its contract speaks of an
//! abstract log of durably recorded session events, so that the pipeline can
//! state exactly which session effects a submission leaves behind.

use vstd::prelude::*;

verus! {

/// One durably recorded effect on the session registry.
#[derive(Clone, Copy, Debug, PartialEq, Eq, Structural)]
pub enum SessionEvent {
    /// A match session was registered with its participants and stakes.
    Started {
        game_id: u64,
        session_id: u32,
        player1: u64,
        player2: u64,
        player1_points: i128,
        player2_points: i128,
    },
    /// A match session was finalized and settled.
    Ended { session_id: u32, player1_won: bool },
}

/// The game-session registry. An implementation records sessions durably;
/// `log` is the sequence of effects recorded so far. A call either succeeds
/// and appends exactly its own event, or fails in transport and records
/// nothing — a failed call leaves no durable trace.
pub trait GameHubTrait {
    /// The events recorded so far. A registry binding that is verified
    /// overrides this with its own model; the default — no observable log —
    /// serves bindings whose durable effects live outside the program, such
    /// as a remote registry whose calls either commit or trap.
    open spec fn log(&self) -> Seq<SessionEvent> {
        Seq::empty()
    }

    /// Register a match session with stakes. Returns whether the registry
    /// durably recorded it.
    fn start_game(
        &mut self,
        game_id: u64,
        session_id: u32,
        player1: u64,
        player2: u64,
        player1_points: i128,
        player2_points: i128,
    ) -> (ok: bool)
        ensures
            ok ==> final(self).log() == old(self).log().push(
                SessionEvent::Started {
                    game_id,
                    session_id,
                    player1,
                    player2,
                    player1_points,
                    player2_points,
                },
            ),
            !ok ==> final(self).log() == old(self).log(),
    ;

    /// Finalize a match session, naming the winner. Returns whether the
    /// registry durably recorded it.
    fn end_game(&mut self, session_id: u32, player1_won: bool) -> (ok: bool)
        ensures
            ok ==> final(self).log() == old(self).log().push(
                SessionEvent::Ended { session_id, player1_won },
            ),
            !ok ==> final(self).log() == old(self).log(),
    ;
}

/// An in-memory registry: it records every event in order and can be told
/// to refuse the next calls, to stand in for a registry whose transport
/// fails. It satisfies the full `GameHubTrait` contract.
pub struct RecordingHub {
    events: Vec<SessionEvent>,
    /// Refuse every `start_game` call while set.
    pub fail_start: bool,
    /// Refuse every `end_game` call while set.
    pub fail_end: bool,
}

impl RecordingHub {
    /// A fresh registry with an empty log that accepts every call.
    pub fn new() -> (r: RecordingHub)
        ensures
            r.log() == Seq::<SessionEvent>::empty(),
    {
        RecordingHub { events: Vec::new(), fail_start: false, fail_end: false }
    }

    /// The events recorded so far, in order.
    pub fn events(&self) -> (r: &Vec<SessionEvent>)
        ensures
            r@ == self.log(),
    {
        &self.events
    }
}

impl GameHubTrait for RecordingHub {
    closed spec fn log(&self) -> Seq<SessionEvent> {
        self.events@
    }

    fn start_game(
        &mut self,
        game_id: u64,
        session_id: u32,
        player1: u64,
        player2: u64,
        player1_points: i128,
        player2_points: i128,
    ) -> (ok: bool) {
        if self.fail_start {
            false
        } else {
            self.events.push(
                SessionEvent::Started {
                    game_id,
                    session_id,
                    player1,
                    player2,
                    player1_points,
                    player2_points,
                },
            );
            true
        }
    }

    fn end_game(&mut self, session_id: u32, player1_won: bool) -> (ok: bool) {
        if self.fail_end {
            false
        } else {
            self.events.push(SessionEvent::Ended { session_id, player1_won });
            true
        }
    }
}

} // verus!
