use crate::coord::Coord;
use crate::moves::{NormalMove, TamMoveInternal};
use cetkaik_full_state_transition::Config;
use vstd::prelude::*;

verus! {

#[verifier::external_type_specification]
#[verifier::external_body]
pub struct ExConfig(Config);

/// The two sides of the board.
#[derive(Clone, Copy, Debug, PartialEq, Eq, Structural)]
pub enum Side {
    ASide,
    IASide,
}

/// The first half of a Tam2 move, kept while its second half is awaited.
#[derive(Clone, Copy, Debug, PartialEq, Eq, Structural)]
pub struct SrcStep {
    pub src: Coord,
    pub step: Coord,
}

/// How a hand that a move completed was settled: the season ends
/// (`TaXot`), the season goes on (`TyMok`), or not known yet.
#[derive(Clone, Copy, Debug, PartialEq, Eq, Structural)]
pub enum HandCompletionStatus {
    TyMok,
    TaXot,
    NotYetDetermined,
}

/// Whether the Tam2 passes its stepping square before or after its first
/// landing.
#[derive(Clone, Copy, Debug, PartialEq, Eq, Structural)]
pub enum StepTiming {
    DuringFormer,
    DuringLatter,
}

/// Why a two-phase move request is refused.
#[derive(Clone, Copy, Debug, PartialEq, Eq, Structural)]
pub enum SessionError {
    AlreadyPending,
    NoPendingStep,
}

/// A move waiting to be polled by observers: the move, which side sent it,
/// and, where it completed a hand, how that hand was settled.
#[derive(Clone, Copy, Debug, PartialEq, Eq, Structural)]
pub struct MovePiece {
    pub mov: NormalMove,
    pub status: Option<HandCompletionStatus>,
    pub by_ia_owner: bool,
}

/// A hand status may be settled only while it is undetermined.
pub open spec fn can_resolve(s: Option<HandCompletionStatus>) -> bool {
    s == Some(HandCompletionStatus::NotYetDetermined)
}

pub open spec fn is_terminal(s: HandCompletionStatus) -> bool {
    s != HandCompletionStatus::NotYetDetermined
}

impl MovePiece {
    /// Queues a move; one that completes a hand starts undetermined.
    pub fn new(mov: NormalMove, by_ia_owner: bool, completes_hand: bool) -> (r: MovePiece)
        ensures
            r.mov == mov,
            r.by_ia_owner == by_ia_owner,
            r.status == (if completes_hand {
                Some(HandCompletionStatus::NotYetDetermined)
            } else {
                None::<HandCompletionStatus>
            }),
    {
        let status = if completes_hand {
            Some(HandCompletionStatus::NotYetDetermined)
        } else {
            None
        };
        MovePiece { mov, status, by_ia_owner }
    }

    /// Settles the hand that this move completed. A status that is already
    /// settled is never set again.
    pub fn resolve(&mut self, outcome: HandCompletionStatus)
        requires
            can_resolve(old(self).status),
            is_terminal(outcome),
        ensures
            final(self).status == Some(outcome),
            final(self).mov == old(self).mov,
            final(self).by_ia_owner == old(self).by_ia_owner,
    {
        self.status = Some(outcome);
    }
}

/// A freshly queued move that completes a hand is undetermined and can be
/// settled; once settled to either outcome it cannot be settled again.
pub proof fn lemma_hand_settles_once(outcome: HandCompletionStatus)
    requires
        is_terminal(outcome),
    ensures
        can_resolve(Some(HandCompletionStatus::NotYetDetermined)),
        !can_resolve(Some(outcome)),
{
}

/// What beginning a two-phase move does to the kept first half.
pub open spec fn begin_spec(p: Option<SrcStep>, src: Coord, step: Coord) -> Result<Option<SrcStep>, SessionError> {
    match p {
        Some(_) => Err(SessionError::AlreadyPending),
        None => Ok(Some(SrcStep { src, step })),
    }
}

/// The Tam2 move that completing a kept first half gives.
pub open spec fn complete_spec(
    p: Option<SrcStep>,
    timing: StepTiming,
    first_dest: Coord,
    second_dest: Coord,
) -> Result<TamMoveInternal, SessionError> {
    match p {
        None => Err(SessionError::NoPendingStep),
        Some(s) => match timing {
            StepTiming::DuringFormer => Ok(
                TamMoveInternal::StepsDuringFormer { src: s.src, step: s.step, first_dest, second_dest },
            ),
            StepTiming::DuringLatter => Ok(
                TamMoveInternal::StepsDuringLatter { src: s.src, step: s.step, first_dest, second_dest },
            ),
        },
    }
}

/// The state of one game: the rules engine's record of whose turn it is,
/// the rule variant, the first half of a Tam2 move awaiting its second, and
/// the moves to be polled, one queue per round slot.
pub struct GameState {
    pub whose_turn: Side,
    pub config: Config,
    pub waiting_for_after_half_acceptance: Option<SrcStep>,
    pub moves_to_be_polled: [Vec<MovePiece>; 4],
}

impl GameState {
    /// A game with no move pending and nothing to poll.
    pub fn new(whose_turn: Side, config: Config) -> (r: GameState)
        ensures
            r.whose_turn == whose_turn,
            r.config == config,
            r.waiting_for_after_half_acceptance == None::<SrcStep>,
            forall|i: int| 0 <= i < 4 ==> (#[trigger] r.moves_to_be_polled@[i])@.len() == 0,
    {
        GameState {
            whose_turn,
            config,
            waiting_for_after_half_acceptance: None,
            moves_to_be_polled: [Vec::new(), Vec::new(), Vec::new(), Vec::new()],
        }
    }

    /// Whether the side of the IA owner is to move.
    pub fn is_ia_owner_s_turn(&self) -> (r: bool)
        ensures
            r == (self.whose_turn == Side::IASide),
    {
        match self.whose_turn {
            Side::IASide => true,
            Side::ASide => false,
        }
    }

    /// Keeps the first half of a Tam2 move; refused while another is kept.
    pub fn begin_half_move(&mut self, src: Coord, step: Coord) -> (r: Result<(), SessionError>)
        ensures
            r is Ok <==> old(self).waiting_for_after_half_acceptance is None,
            r is Err ==> r == Err::<(), SessionError>(SessionError::AlreadyPending),
            final(self).waiting_for_after_half_acceptance == match begin_spec(old(self).waiting_for_after_half_acceptance, src, step) {
                Ok(p) => p,
                Err(_) => old(self).waiting_for_after_half_acceptance,
            },
            final(self).whose_turn == old(self).whose_turn,
            final(self).config == old(self).config,
            final(self).moves_to_be_polled == old(self).moves_to_be_polled,
    {
        if self.waiting_for_after_half_acceptance.is_some() {
            return Err(SessionError::AlreadyPending);
        }
        self.waiting_for_after_half_acceptance = Some(SrcStep { src, step });
        Ok(())
    }

    /// Joins the kept first half to its second half and clears it.
    pub fn complete_half_move(&mut self, timing: StepTiming, first_dest: Coord, second_dest: Coord) -> (r: Result<TamMoveInternal, SessionError>)
        ensures
            r == complete_spec(old(self).waiting_for_after_half_acceptance, timing, first_dest, second_dest),
            final(self).waiting_for_after_half_acceptance == None::<SrcStep>,
            final(self).whose_turn == old(self).whose_turn,
            final(self).config == old(self).config,
            final(self).moves_to_be_polled == old(self).moves_to_be_polled,
    {
        match self.waiting_for_after_half_acceptance {
            None => Err(SessionError::NoPendingStep),
            Some(s) => {
                self.waiting_for_after_half_acceptance = None;
                match timing {
                    StepTiming::DuringFormer => Ok(
                        TamMoveInternal::StepsDuringFormer { src: s.src, step: s.step, first_dest, second_dest },
                    ),
                    StepTiming::DuringLatter => Ok(
                        TamMoveInternal::StepsDuringLatter { src: s.src, step: s.step, first_dest, second_dest },
                    ),
                }
            },
        }
    }

    /// Drops the kept first half; refused when none is kept.
    pub fn abandon_half_move(&mut self) -> (r: Result<(), SessionError>)
        ensures
            r is Ok <==> old(self).waiting_for_after_half_acceptance is Some,
            r is Err ==> r == Err::<(), SessionError>(SessionError::NoPendingStep),
            final(self).waiting_for_after_half_acceptance == None::<SrcStep>,
            final(self).whose_turn == old(self).whose_turn,
            final(self).config == old(self).config,
            final(self).moves_to_be_polled == old(self).moves_to_be_polled,
    {
        if self.waiting_for_after_half_acceptance.is_none() {
            return Err(SessionError::NoPendingStep);
        }
        self.waiting_for_after_half_acceptance = None;
        Ok(())
    }

    /// Appends a move to the queue of its round's slot.
    pub fn queue_move(&mut self, round: usize, piece: MovePiece)
        ensures
            forall|i: int| 0 <= i < 4 ==> (#[trigger] final(self).moves_to_be_polled@[i])@ == if i == round % 4 {
                old(self).moves_to_be_polled@[i]@.push(piece)
            } else {
                old(self).moves_to_be_polled@[i]@
            },
            final(self).waiting_for_after_half_acceptance == old(self).waiting_for_after_half_acceptance,
            final(self).whose_turn == old(self).whose_turn,
            final(self).config == old(self).config,
    {
        let slot = round % 4;
        self.moves_to_be_polled[slot].push(piece);
    }

    /// Settles the hand completed by the move queued at `index` in the slot
    /// of `round`; the rules engine reports the outcome.
    pub fn resolve_queued(&mut self, round: usize, index: usize, outcome: HandCompletionStatus)
        requires
            index < old(self).moves_to_be_polled@[(round % 4) as int]@.len(),
            can_resolve(old(self).moves_to_be_polled@[(round % 4) as int]@[index as int].status),
            is_terminal(outcome),
        ensures
            forall|i: int| 0 <= i < 4 ==> (#[trigger] final(self).moves_to_be_polled@[i])@ == if i == round % 4 {
                old(self).moves_to_be_polled@[i]@.update(
                    index as int,
                    MovePiece { status: Some(outcome), ..old(self).moves_to_be_polled@[i]@[index as int] },
                )
            } else {
                old(self).moves_to_be_polled@[i]@
            },
            final(self).waiting_for_after_half_acceptance == old(self).waiting_for_after_half_acceptance,
            final(self).whose_turn == old(self).whose_turn,
            final(self).config == old(self).config,
    {
        let slot = round % 4;
        let mut piece = self.moves_to_be_polled[slot][index];
        piece.resolve(outcome);
        self.moves_to_be_polled[slot].set(index, piece);
    }
}

/// Completing before any beginning is refused; beginning twice is refused;
/// a begun move completes to the double-step move of the kept squares and
/// the chosen timing, after which completing is refused again.
pub proof fn lemma_two_phase(
    src: Coord,
    step: Coord,
    other_src: Coord,
    other_step: Coord,
    first_dest: Coord,
    second_dest: Coord,
)
    ensures
        complete_spec(None, StepTiming::DuringFormer, first_dest, second_dest)
            == Err::<TamMoveInternal, SessionError>(SessionError::NoPendingStep),
        begin_spec(None, src, step) == Ok::<Option<SrcStep>, SessionError>(Some(SrcStep { src, step })),
        begin_spec(Some(SrcStep { src, step }), other_src, other_step)
            == Err::<Option<SrcStep>, SessionError>(SessionError::AlreadyPending),
        complete_spec(Some(SrcStep { src, step }), StepTiming::DuringFormer, first_dest, second_dest)
            == Ok::<TamMoveInternal, SessionError>(
                TamMoveInternal::StepsDuringFormer { src, step, first_dest, second_dest },
            ),
        complete_spec(Some(SrcStep { src, step }), StepTiming::DuringLatter, first_dest, second_dest)
            == Ok::<TamMoveInternal, SessionError>(
                TamMoveInternal::StepsDuringLatter { src, step, first_dest, second_dest },
            ),
{
}

} // verus!
