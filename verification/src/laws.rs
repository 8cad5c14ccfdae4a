//! Match-level guarantees, stated over `step_spec` — the one function that
//! says what a `process_choice` call does — and proved for every phase,
//! seat and input: the waits budget never grows back and points never fall
//! except for the sudden-death clamp, a pending seat cannot pick again, a
//! finished match rejects everything unchanged, a streak-barred choice is
//! penalized rather than accepted, and destroyed moves stay destroyed.

use vstd::prelude::*;
use crate::domain::{Character, Move};
use crate::players::{
    CharacterlessPlayer, MovelessPlayerV, penalized_waits, penalty_point, available_moves_of,
    available_characters_of, all_characters, move_pool_of, lemma_moves_allowed_contains,
    lemma_chars_allowed_contains,
};
use crate::game::{
    PhaseV, WhichPlayer, step_spec, move_penalty, orient, phase_wf,
};

verus! {

/// A seat's current score, in any phase.
pub open spec fn seat_points(ph: PhaseV, seat: WhichPlayer) -> u8 {
    match ph {
        PhaseV::CharacterChoosing(a, b) => if seat == WhichPlayer::PlayerA {
            a.points
        } else {
            b.points
        },
        PhaseV::BoosterChoosing(a, b) => if seat == WhichPlayer::PlayerA {
            a.points
        } else {
            b.points
        },
        PhaseV::MoveChoosing(a, b) => if seat == WhichPlayer::PlayerA {
            a.points
        } else {
            b.points
        },
        PhaseV::GameOver(x, y) => if seat == WhichPlayer::PlayerA {
            x
        } else {
            y
        },
    }
}

/// A seat's waits budget, while the match is live.
pub open spec fn seat_waits(ph: PhaseV, seat: WhichPlayer) -> Option<u8> {
    match ph {
        PhaseV::CharacterChoosing(a, b) => if seat == WhichPlayer::PlayerA {
            Some(a.waits)
        } else {
            Some(b.waits)
        },
        PhaseV::BoosterChoosing(a, b) => if seat == WhichPlayer::PlayerA {
            Some(a.waits)
        } else {
            Some(b.waits)
        },
        PhaseV::MoveChoosing(a, b) => if seat == WhichPlayer::PlayerA {
            Some(a.waits)
        } else {
            Some(b.waits)
        },
        PhaseV::GameOver(_, _) => None,
    }
}

/// Whether a seat has a pending selection recorded in the current phase.
pub open spec fn seat_pending(ph: PhaseV, seat: WhichPlayer) -> bool {
    match ph {
        PhaseV::CharacterChoosing(a, b) => if seat == WhichPlayer::PlayerA {
            a.selected_character is Some
        } else {
            b.selected_character is Some
        },
        PhaseV::BoosterChoosing(a, b) => if seat == WhichPlayer::PlayerA {
            a.selected_booster is Some
        } else {
            b.selected_booster is Some
        },
        PhaseV::MoveChoosing(a, b) => if seat == WhichPlayer::PlayerA {
            a.selected_move is Some
        } else {
            b.selected_move is Some
        },
        PhaseV::GameOver(_, _) => false,
    }
}

/// A seat's destroyed moves, while the match is in the move phase.
pub open spec fn seat_destroyed(ph: PhaseV, seat: WhichPlayer) -> Option<Seq<Move>> {
    match ph {
        PhaseV::MoveChoosing(a, b) => if seat == WhichPlayer::PlayerA {
            Some(a.destroyed_moves)
        } else {
            Some(b.destroyed_moves)
        },
        _ => None,
    }
}

/// Whether a phase shows the sudden-death clamp: the move phase with both
/// sides put back to four points.
pub open spec fn clamped_tie(ph: PhaseV) -> bool {
    match ph {
        PhaseV::MoveChoosing(a, b) => a.points == 4 && b.points == 4,
        _ => false,
    }
}

/// Waits only shrink and points only grow. For every phase, seat and
/// input: the step never raises a waits budget (and never resurrects one —
/// waits are unsigned, so they are also never negative), and it never
/// lowers a score, with the single exception of the sudden-death clamp,
/// which puts both sides back to exactly four.
pub proof fn lemma_waits_and_points_progress(
    ph: PhaseV,
    chooser: WhichPlayer,
    pc: Option<Character>,
    pb: Option<crate::domain::Booster>,
    pm: Option<Move>,
    seat: WhichPlayer,
)
    requires
        phase_wf(ph),
    ensures
        ({
            let ph2 = step_spec(ph, chooser, pc, pb, pm).1;
            &&& match (seat_waits(ph, seat), seat_waits(ph2, seat)) {
                (Some(w0), Some(w1)) => w1 <= w0,
                (None, Some(_)) => false,
                _ => true,
            }
            &&& (seat_points(ph2, seat) >= seat_points(ph, seat) || clamped_tie(ph2))
        }),
{
}

/// A seat with a pending selection cannot pick again: the call is rejected
/// and nothing changes.
pub proof fn lemma_repick_rejected(
    ph: PhaseV,
    chooser: WhichPlayer,
    pc: Option<Character>,
    pb: Option<crate::domain::Booster>,
    pm: Option<Move>,
)
    requires
        seat_pending(ph, chooser),
    ensures
        step_spec(ph, chooser, pc, pb, pm) == (Result::<(), ()>::Err(()), ph),
{
    let r = step_spec(ph, chooser, pc, pb, pm);
    assert(r.1 =~= ph);
}

/// A finished match rejects every call, whatever it is, and its payload
/// never changes.
pub proof fn lemma_game_over_rejects(
    ph: PhaseV,
    chooser: WhichPlayer,
    pc: Option<Character>,
    pb: Option<crate::domain::Booster>,
    pm: Option<Move>,
)
    requires
        ph matches PhaseV::GameOver(_, _),
    ensures
        step_spec(ph, chooser, pc, pb, pm) == (Result::<(), ()>::Err(()), ph),
{
}

/// A character picked three times in a row is barred: picking it a fourth
/// time is accepted as a call but treated as an invalid choice — nothing is
/// recorded, the phase never advances to boosters, the actor pays three
/// waits, and the opponent is credited a point exactly when the budget
/// cannot pay.
pub proof fn lemma_streak_bar_character(
    a: CharacterlessPlayer,
    b: CharacterlessPlayer,
    chooser: WhichPlayer,
    c: Character,
    pb: Option<crate::domain::Booster>,
    pm: Option<Move>,
)
    requires
        phase_wf(PhaseV::CharacterChoosing(a, b)),
        ({
            let actor = if chooser == WhichPlayer::PlayerA {
                a
            } else {
                b
            };
            &&& actor.selected_character is None
            &&& actor.character_streak.times == 3
            &&& actor.character_streak.repeated_character == Some(c)
        }),
    ensures
        ({
            let ph = PhaseV::CharacterChoosing(a, b);
            let actor = if chooser == WhichPlayer::PlayerA {
                a
            } else {
                b
            };
            let other = if chooser == WhichPlayer::PlayerA {
                b
            } else {
                a
            };
            let (r, ph2) = step_spec(ph, chooser, Some(c), pb, pm);
            &&& r == Result::<(), ()>::Ok(())
            &&& !seat_pending(ph2, chooser)
            &&& !(ph2 matches PhaseV::BoosterChoosing(_, _))
            &&& seat_points(ph2, if chooser == WhichPlayer::PlayerA {
                WhichPlayer::PlayerB
            } else {
                WhichPlayer::PlayerA
            }) == other.points + penalty_point(actor.waits, 3)
            &&& (seat_waits(ph2, chooser) matches Some(w) ==> w == penalized_waits(actor.waits, 3))
        }),
{
}

/// A move played three times in a row is barred: playing it a fourth time
/// is penalized, never accepted or resolved — at four waits if the move is
/// also destroyed, at three otherwise.
pub proof fn lemma_streak_bar_move(
    a: MovelessPlayerV,
    b: MovelessPlayerV,
    chooser: WhichPlayer,
    m: Move,
    pc: Option<Character>,
    pb: Option<crate::domain::Booster>,
)
    requires
        phase_wf(PhaseV::MoveChoosing(a, b)),
        ({
            let actor = if chooser == WhichPlayer::PlayerA {
                a
            } else {
                b
            };
            &&& actor.selected_move is None
            &&& actor.move_streak.times == 3
            &&& actor.move_streak.repeated_move == Some(m)
        }),
    ensures
        ({
            let ph = PhaseV::MoveChoosing(a, b);
            let actor = if chooser == WhichPlayer::PlayerA {
                a
            } else {
                b
            };
            let other = if chooser == WhichPlayer::PlayerA {
                b
            } else {
                a
            };
            let cost: u8 = if actor.destroyed_moves.contains(m) {
                4
            } else {
                3
            };
            let (r, ph2) = step_spec(ph, chooser, pc, pb, Some(m));
            &&& r == Result::<(), ()>::Ok(())
            &&& ph2 == orient(chooser, (r, move_penalty(actor, other, cost))).1
            &&& !seat_pending(ph2, chooser)
        }),
{
    let actor = if chooser == WhichPlayer::PlayerA {
        a
    } else {
        b
    };
    lemma_moves_allowed_contains(actor, move_pool_of(actor), m);
    assert(!available_moves_of(actor).contains(m));
}

/// A character picked three times in a row disappears from the legal
/// character set until a different pick resets the streak.
pub proof fn lemma_streak_bar_excludes_character(p: CharacterlessPlayer, c: Character)
    requires
        p.character_streak.times == 3,
        p.character_streak.repeated_character == Some(c),
    ensures
        !available_characters_of(p).contains(c),
{
    lemma_chars_allowed_contains(p, all_characters(), c);
}

/// A destroyed move never comes back: it is absent from the legal move set,
/// whatever else the player's state holds.
pub proof fn lemma_destroyed_never_available(p: MovelessPlayerV, m: Move)
    requires
        p.destroyed_moves.contains(m),
    ensures
        !available_moves_of(p).contains(m),
{
    lemma_moves_allowed_contains(p, move_pool_of(p), m);
}

/// Destroyed moves only accumulate: any step that stays in the move phase
/// keeps each seat's destroyed moves as a prefix of the new ones, for the
/// rest of the match.
pub proof fn lemma_destroyed_persist(
    ph: PhaseV,
    chooser: WhichPlayer,
    pc: Option<Character>,
    pb: Option<crate::domain::Booster>,
    pm: Option<Move>,
    seat: WhichPlayer,
)
    requires
        phase_wf(ph),
    ensures
        ({
            let ph2 = step_spec(ph, chooser, pc, pb, pm).1;
            match (seat_destroyed(ph, seat), seat_destroyed(ph2, seat)) {
                (Some(d0), Some(d1)) => d0.is_prefix_of(d1),
                _ => true,
            }
        }),
{
}

/// The match ends only on a fifth point: a step out of a live phase lands
/// in game over only when one side's total has reached five.
pub proof fn lemma_game_over_threshold(
    ph: PhaseV,
    chooser: WhichPlayer,
    pc: Option<Character>,
    pb: Option<crate::domain::Booster>,
    pm: Option<Move>,
)
    requires
        phase_wf(ph),
        !(ph matches PhaseV::GameOver(_, _)),
    ensures
        ({
            let ph2 = step_spec(ph, chooser, pc, pb, pm).1;
            ph2 matches PhaseV::GameOver(x, y) ==> x >= 5 || y >= 5
        }),
{
}

} // verus!
