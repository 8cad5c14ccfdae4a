//! The match state machine. A match sits in one of four phases: both
//! players picking characters, both picking boosters, both picking moves,
//! or game over. `process_choice` is the single entry point: it validates a
//! raw choice string for the acting seat against the current phase, records
//! it, penalizes it, or resolves the sub-round, and commits the next phase.
//!
//! Each non-terminal phase stores the pair in absolute seat order (seat A
//! first). A call is processed in (actor, opponent) order, and a phase
//! produced by seat B is flipped back before it is stored, so the stored
//! order never depends on who acted last.

use vstd::prelude::*;
use crate::domain::{
    Character, Booster, Move, boosters_of, booster_moves_of, headstart_points, single_use_move,
    destructive_move, moves_contain, boosters_contain,
};
use crate::streaks::{char_streak_add, move_streak_add};
use crate::players::{
    CharacterlessPlayer, BoosterlessPlayer, MovelessPlayer, MovelessPlayerV, penalized_waits,
    penalty_point, available_moves_of, move_pool_of, char_player_wf, booster_player_wf,
    move_player_wf, lemma_moves_allowed_contains, lemma_available_moves_unaffected,
};
use crate::external::{
    parsed_character, parsed_booster, parsed_move, duel_points, parse_character, parse_booster,
    parse_move, head_start, resolve_move_points, move_is_single_use, move_is_destructive,
    character_boosters, booster_moves,
};

verus! {

/// A match: nothing but its current phase.
pub struct NZSCTwoPlayerGame {
    pub phase: Phase,
}

/// The four phases of a match. Non-terminal phases hold the two players in
/// absolute seat order (seat A first); `GameOver` holds the final scores.
#[derive(Clone)]
pub enum Phase {
    CharacterChoosing(CharacterlessPlayer, CharacterlessPlayer),
    BoosterChoosing(BoosterlessPlayer, BoosterlessPlayer),
    MoveChoosing(MovelessPlayer, MovelessPlayer),
    GameOver(u8, u8),
}

/// One of the two fixed seats of the match.
#[derive(Clone, Copy, PartialEq, Eq, Structural)]
pub enum WhichPlayer {
    PlayerA,
    PlayerB,
}

/// The mathematical image of a phase.
#[verifier::ext_equal]
pub enum PhaseV {
    CharacterChoosing(CharacterlessPlayer, CharacterlessPlayer),
    BoosterChoosing(BoosterlessPlayer, BoosterlessPlayer),
    MoveChoosing(MovelessPlayerV, MovelessPlayerV),
    GameOver(u8, u8),
}

impl View for Phase {
    type V = PhaseV;

    open spec fn view(&self) -> PhaseV {
        match self {
            Phase::CharacterChoosing(a, b) => PhaseV::CharacterChoosing(*a, *b),
            Phase::BoosterChoosing(a, b) => PhaseV::BoosterChoosing(*a, *b),
            Phase::MoveChoosing(a, b) => PhaseV::MoveChoosing(a@, b@),
            Phase::GameOver(a, b) => PhaseV::GameOver(*a, *b),
        }
    }
}

impl View for NZSCTwoPlayerGame {
    type V = PhaseV;

    open spec fn view(&self) -> PhaseV {
        self.phase@
    }
}

/// The same phase with the two seats' payloads exchanged.
pub open spec fn flip_v(p: PhaseV) -> PhaseV {
    match p {
        PhaseV::CharacterChoosing(a, b) => PhaseV::CharacterChoosing(b, a),
        PhaseV::BoosterChoosing(a, b) => PhaseV::BoosterChoosing(b, a),
        PhaseV::MoveChoosing(a, b) => PhaseV::MoveChoosing(b, a),
        PhaseV::GameOver(a, b) => PhaseV::GameOver(b, a),
    }
}

/// A phase the engine can hold: both players well formed and at most one of
/// them holding a pending selection.
pub open spec fn phase_wf(p: PhaseV) -> bool {
    match p {
        PhaseV::CharacterChoosing(a, b) => char_player_wf(a) && char_player_wf(b) && !(
        a.selected_character is Some && b.selected_character is Some),
        PhaseV::BoosterChoosing(a, b) => booster_player_wf(a) && booster_player_wf(b) && !(
        a.selected_booster is Some && b.selected_booster is Some),
        PhaseV::MoveChoosing(a, b) => move_player_wf(a) && move_player_wf(b) && !(
        a.selected_move is Some && b.selected_move is Some),
        PhaseV::GameOver(_, _) => true,
    }
}

/// The character phase after the actor absorbs a penalty: the cost comes
/// out of the actor's waits, the opponent is credited a point exactly when
/// the budget could not pay, and the match ends at once if that point is
/// the opponent's fifth.
pub open spec fn char_penalty(
    actor: CharacterlessPlayer,
    other: CharacterlessPlayer,
    cost: u8,
) -> PhaseV {
    let credited = (other.points + penalty_point(actor.waits, cost)) as u8;
    if credited >= 5 {
        PhaseV::GameOver(actor.points, credited)
    } else {
        PhaseV::CharacterChoosing(
            CharacterlessPlayer {
                points: actor.points,
                waits: penalized_waits(actor.waits, cost),
                character_streak: actor.character_streak,
                selected_character: actor.selected_character,
            },
            CharacterlessPlayer {
                points: credited,
                waits: other.waits,
                character_streak: other.character_streak,
                selected_character: other.selected_character,
            },
        )
    }
}

/// The booster phase after the actor absorbs a penalty.
pub open spec fn booster_penalty(
    actor: BoosterlessPlayer,
    other: BoosterlessPlayer,
    cost: u8,
) -> PhaseV {
    let credited = (other.points + penalty_point(actor.waits, cost)) as u8;
    if credited >= 5 {
        PhaseV::GameOver(actor.points, credited)
    } else {
        PhaseV::BoosterChoosing(
            BoosterlessPlayer {
                points: actor.points,
                waits: penalized_waits(actor.waits, cost),
                character: actor.character,
                selected_booster: actor.selected_booster,
            },
            BoosterlessPlayer {
                points: credited,
                waits: other.waits,
                character: other.character,
                selected_booster: other.selected_booster,
            },
        )
    }
}

/// The move phase after the actor absorbs a penalty.
pub open spec fn move_penalty(actor: MovelessPlayerV, other: MovelessPlayerV, cost: u8) -> PhaseV {
    let credited = (other.points + penalty_point(actor.waits, cost)) as u8;
    if credited >= 5 {
        PhaseV::GameOver(actor.points, credited)
    } else {
        PhaseV::MoveChoosing(
            MovelessPlayerV { waits: penalized_waits(actor.waits, cost), ..actor },
            MovelessPlayerV { points: credited, ..other },
        )
    }
}

/// A move-selecting player after a resolved exchange in which they played
/// `own` against the opponent's `oth`: the score becomes `new_points`, the
/// streak records `own`, the pending slot clears, and `own` is destroyed
/// for the rest of the match if it is single-use or the opponent's move was
/// destructive.
pub open spec fn resolved_player(
    p: MovelessPlayerV,
    own: Move,
    oth: Move,
    new_points: u8,
) -> MovelessPlayerV {
    MovelessPlayerV {
        points: new_points,
        move_streak: move_streak_add(p.move_streak, own),
        destroyed_moves: if single_use_move(own) || destructive_move(oth) {
            p.destroyed_moves.push(own)
        } else {
            p.destroyed_moves
        },
        selected_move: None,
        ..p
    }
}

/// The points one side earns from a resolved exchange: the outcome table's
/// answer, which never exceeds two.
pub open spec fn duel_delta(own_b: Booster, own_m: Move, oth_b: Booster, oth_m: Move) -> u8 {
    let d = duel_points(own_b, own_m, oth_b, oth_m);
    if d <= 2 {
        d
    } else {
        2
    }
}

/// Both moves are in: score the exchange, record streaks and destroyed
/// moves, clear the pending slots. If either total reaches five the match
/// ends — unless the totals are equal, in which case both sides are clamped
/// back to four and the move phase continues as sudden death.
pub open spec fn resolve_duel(
    actor: MovelessPlayerV,
    m: Move,
    other: MovelessPlayerV,
    om: Move,
) -> PhaseV {
    let ap = (actor.points + duel_delta(actor.booster, m, other.booster, om)) as u8;
    let op = (other.points + duel_delta(other.booster, om, actor.booster, m)) as u8;
    if ap >= 5 || op >= 5 {
        if ap == op {
            PhaseV::MoveChoosing(resolved_player(actor, m, om, 4), resolved_player(other, om, m, 4))
        } else {
            PhaseV::GameOver(ap, op)
        }
    } else {
        PhaseV::MoveChoosing(resolved_player(actor, m, om, ap), resolved_player(other, om, m, op))
    }
}

/// One call in the character phase, seen from the actor's side: a repick
/// is rejected outright; an unparseable string costs four waits; a
/// streak-barred character costs three; otherwise the pick is recorded, or
/// — once both are in — the same character forces a replay with both
/// streaks recording it, and different characters apply the head-start
/// table and advance (or end) the match.
pub open spec fn character_step(
    actor: CharacterlessPlayer,
    other: CharacterlessPlayer,
    pc: Option<Character>,
) -> (Result<(), ()>, PhaseV) {
    if actor.selected_character is Some {
        (Result::Err(()), PhaseV::CharacterChoosing(actor, other))
    } else {
        match pc {
            None => (Result::Ok(()), char_penalty(actor, other, 4)),
            Some(c) => {
                if actor.character_streak.times == 3 && actor.character_streak.repeated_character
                    == Some(c) {
                    (Result::Ok(()), char_penalty(actor, other, 3))
                } else {
                    match other.selected_character {
                        Some(oc) => {
                            if c == oc {
                                (
                                    Result::Ok(()),
                                    PhaseV::CharacterChoosing(
                                        CharacterlessPlayer {
                                            character_streak: char_streak_add(
                                                actor.character_streak,
                                                c,
                                            ),
                                            selected_character: None,
                                            ..actor
                                        },
                                        CharacterlessPlayer {
                                            character_streak: char_streak_add(
                                                other.character_streak,
                                                c,
                                            ),
                                            selected_character: None,
                                            ..other
                                        },
                                    ),
                                )
                            } else {
                                let ap = (actor.points + headstart_points(c, oc)) as u8;
                                let op = (other.points + headstart_points(oc, c)) as u8;
                                if ap >= 5 || op >= 5 {
                                    (Result::Ok(()), PhaseV::GameOver(ap, op))
                                } else {
                                    (
                                        Result::Ok(()),
                                        PhaseV::BoosterChoosing(
                                            BoosterlessPlayer {
                                                points: ap,
                                                waits: actor.waits,
                                                character: c,
                                                selected_booster: None,
                                            },
                                            BoosterlessPlayer {
                                                points: op,
                                                waits: other.waits,
                                                character: oc,
                                                selected_booster: None,
                                            },
                                        ),
                                    )
                                }
                            }
                        },
                        None => (
                            Result::Ok(()),
                            PhaseV::CharacterChoosing(
                                CharacterlessPlayer { selected_character: Some(c), ..actor },
                                other,
                            ),
                        ),
                    }
                }
            },
        }
    }
}

/// One call in the booster phase, seen from the actor's side: a repick is
/// rejected; an unparseable string costs four waits; a booster of another
/// character costs three; otherwise the pick is recorded, or — once both
/// are in — the match advances to the move phase.
pub open spec fn booster_step(
    actor: BoosterlessPlayer,
    other: BoosterlessPlayer,
    pb: Option<Booster>,
) -> (Result<(), ()>, PhaseV) {
    if actor.selected_booster is Some {
        (Result::Err(()), PhaseV::BoosterChoosing(actor, other))
    } else {
        match pb {
            None => (Result::Ok(()), booster_penalty(actor, other, 4)),
            Some(bo) => {
                if boosters_of(actor.character).contains(bo) {
                    match other.selected_booster {
                        Some(ob) => (
                            Result::Ok(()),
                            PhaseV::MoveChoosing(fresh_moveless(actor, bo), fresh_moveless(other, ob)),
                        ),
                        None => (
                            Result::Ok(()),
                            PhaseV::BoosterChoosing(
                                BoosterlessPlayer { selected_booster: Some(bo), ..actor },
                                other,
                            ),
                        ),
                    }
                } else {
                    (Result::Ok(()), booster_penalty(actor, other, 3))
                }
            },
        }
    }
}

/// A move-selecting player fresh from the booster phase.
pub open spec fn fresh_moveless(p: BoosterlessPlayer, b: Booster) -> MovelessPlayerV {
    MovelessPlayerV {
        points: p.points,
        waits: p.waits,
        character: p.character,
        booster: b,
        move_streak: crate::streaks::MoveStreak { repeated_move: None, times: 0 },
        destroyed_moves: Seq::empty(),
        selected_move: None,
    }
}

/// The moves granted by the boosters a character could have equipped.
/// Playing one of these with the wrong booster equipped is the cheapest
/// kind of illegal move.
pub open spec fn character_booster_moves(c: Character) -> Seq<Move> {
    booster_moves_of(boosters_of(c)[0]) + booster_moves_of(boosters_of(c)[1]) + booster_moves_of(
        boosters_of(c)[2],
    )
}

/// One call in the move phase, seen from the actor's side: a repick is
/// rejected; a legal move is recorded or resolves the round; an illegal one
/// costs four waits if unparseable or destroyed, three if streak-barred,
/// two if it belongs to a booster the character could have equipped but did
/// not, and three otherwise.
pub open spec fn move_step(
    actor: MovelessPlayerV,
    other: MovelessPlayerV,
    pm: Option<Move>,
) -> (Result<(), ()>, PhaseV) {
    if actor.selected_move is Some {
        (Result::Err(()), PhaseV::MoveChoosing(actor, other))
    } else {
        match pm {
            None => (Result::Ok(()), move_penalty(actor, other, 4)),
            Some(m) => {
                if available_moves_of(actor).contains(m) {
                    match other.selected_move {
                        Some(om) => (Result::Ok(()), resolve_duel(actor, m, other, om)),
                        None => (
                            Result::Ok(()),
                            PhaseV::MoveChoosing(
                                MovelessPlayerV { selected_move: Some(m), ..actor },
                                other,
                            ),
                        ),
                    }
                } else if actor.destroyed_moves.contains(m) {
                    (Result::Ok(()), move_penalty(actor, other, 4))
                } else if actor.move_streak.times == 3 && actor.move_streak.repeated_move == Some(
                    m,
                ) {
                    (Result::Ok(()), move_penalty(actor, other, 3))
                } else if character_booster_moves(actor.character).contains(m) {
                    (Result::Ok(()), move_penalty(actor, other, 2))
                } else {
                    (Result::Ok(()), move_penalty(actor, other, 3))
                }
            },
        }
    }
}

/// A step result re-oriented for the seat that produced it: a phase
/// computed in (actor, opponent) order is stored flipped when the actor was
/// seat B.
pub open spec fn orient(chooser: WhichPlayer, r: (Result<(), ()>, PhaseV)) -> (
    Result<(), ()>,
    PhaseV,
) {
    if chooser == WhichPlayer::PlayerB {
        (r.0, flip_v(r.1))
    } else {
        r
    }
}

/// What one `process_choice` call does, as a function of the current phase,
/// the acting seat, and what the three parsers make of the raw string: the
/// returned verdict and the phase the match moves to. `GameOver` rejects
/// every call unchanged.
pub open spec fn step_spec(
    ph: PhaseV,
    chooser: WhichPlayer,
    pc: Option<Character>,
    pb: Option<Booster>,
    pm: Option<Move>,
) -> (Result<(), ()>, PhaseV) {
    match ph {
        PhaseV::GameOver(_, _) => (Result::Err(()), ph),
        PhaseV::CharacterChoosing(a, b) => orient(
            chooser,
            if chooser == WhichPlayer::PlayerA {
                character_step(a, b, pc)
            } else {
                character_step(b, a, pc)
            },
        ),
        PhaseV::BoosterChoosing(a, b) => orient(
            chooser,
            if chooser == WhichPlayer::PlayerA {
                booster_step(a, b, pb)
            } else {
                booster_step(b, a, pb)
            },
        ),
        PhaseV::MoveChoosing(a, b) => orient(
            chooser,
            if chooser == WhichPlayer::PlayerA {
                move_step(a, b, pm)
            } else {
                move_step(b, a, pm)
            },
        ),
    }
}

/// A fresh character-selecting player, as a value.
pub open spec fn fresh_char_player() -> CharacterlessPlayer {
    CharacterlessPlayer {
        points: 0,
        waits: 4,
        character_streak: crate::streaks::CharacterStreak { repeated_character: None, times: 0 },
        selected_character: None,
    }
}

/// The phase a fresh match starts in: two fresh players picking characters.
pub open spec fn initial_phase() -> PhaseV {
    PhaseV::CharacterChoosing(fresh_char_player(), fresh_char_player())
}

/// An element-for-element copy of a move vector.
fn copy_moves(v: &Vec<Move>) -> (r: Vec<Move>)
    ensures
        r@ == v@,
{
    let mut r: Vec<Move> = Vec::new();
    let mut i: usize = 0;
    while i < v.len()
        invariant
            0 <= i <= v@.len(),
            r@ == v@.subrange(0, i as int),
        decreases v@.len() - i,
    {
        r.push(v[i]);
        proof {
            assert(v@.subrange(0, i + 1 as int) =~= v@.subrange(0, i as int).push(v@[i as int]));
        }
        i = i + 1;
    }
    proof {
        assert(v@.subrange(0, v@.len() as int) =~= v@);
    }
    r
}

/// A field-for-field copy of a move-selecting player.
fn clone_moveless(p: &MovelessPlayer) -> (r: MovelessPlayer)
    ensures
        r@ == p@,
{
    let r = MovelessPlayer {
        points: p.points,
        waits: p.waits,
        character: p.character,
        booster: p.booster,
        move_streak: p.move_streak,
        destroyed_moves: copy_moves(&p.destroyed_moves),
        selected_move: p.selected_move,
    };
    proof {
        assert(r@ =~= p@);
    }
    r
}

impl Phase {
    /// The same phase with the two seats' payloads exchanged.
    pub fn flip_a_and_b(&self) -> (r: Self)
        ensures
            r@ == flip_v(self@),
    {
        match self {
            Phase::CharacterChoosing(a, b) => Phase::CharacterChoosing(*b, *a),
            Phase::BoosterChoosing(a, b) => Phase::BoosterChoosing(*b, *a),
            Phase::MoveChoosing(a, b) => Phase::MoveChoosing(clone_moveless(b), clone_moveless(a)),
            Phase::GameOver(a, b) => Phase::GameOver(*b, *a),
        }
    }
}

/// One exec call in the character phase, in (actor, opponent) order.
fn character_step_exec(
    actor: CharacterlessPlayer,
    other: CharacterlessPlayer,
    parsed: Option<Character>,
) -> (r: (Result<(), ()>, Phase))
    requires
        char_player_wf(actor),
        char_player_wf(other),
        !(actor.selected_character is Some && other.selected_character is Some),
    ensures
        (r.0, r.1@) == character_step(actor, other, parsed),
        phase_wf(r.1@),
{
    let mut a = actor;
    let mut b = other;
    if a.selected_character.is_some() {
        (Result::Err(()), Phase::CharacterChoosing(a, b))
    } else {
        match parsed {
            Some(character) => {
                let barred = a.character_streak.times == 3 && (
                match a.character_streak.repeated_character {
                    Some(rc) => rc == character,
                    None => false,
                });
                if barred {
                    let pt = a.penalize(3);
                    b.points = b.points + pt;
                    if b.points >= 5 {
                        (Result::Ok(()), Phase::GameOver(a.points, b.points))
                    } else {
                        (Result::Ok(()), Phase::CharacterChoosing(a, b))
                    }
                } else {
                    match b.selected_character {
                        Some(b_character) => {
                            if character == b_character {
                                a.selected_character = None;
                                b.selected_character = None;
                                a.character_streak.add(character);
                                b.character_streak.add(character);
                                (Result::Ok(()), Phase::CharacterChoosing(a, b))
                            } else {
                                let hs = head_start(character, b_character);
                                a.points = a.points + hs.0;
                                b.points = b.points + hs.1;
                                if a.points >= 5 || b.points >= 5 {
                                    (Result::Ok(()), Phase::GameOver(a.points, b.points))
                                } else {
                                    (
                                        Result::Ok(()),
                                        Phase::BoosterChoosing(
                                            a.to_boosterless_player(character),
                                            b.to_boosterless_player(b_character),
                                        ),
                                    )
                                }
                            }
                        },
                        None => {
                            a.selected_character = Some(character);
                            (Result::Ok(()), Phase::CharacterChoosing(a, b))
                        },
                    }
                }
            },
            None => {
                let pt = a.penalize(4);
                b.points = b.points + pt;
                if b.points >= 5 {
                    (Result::Ok(()), Phase::GameOver(a.points, b.points))
                } else {
                    (Result::Ok(()), Phase::CharacterChoosing(a, b))
                }
            },
        }
    }
}

/// One exec call in the booster phase, in (actor, opponent) order.
fn booster_step_exec(
    actor: BoosterlessPlayer,
    other: BoosterlessPlayer,
    parsed: Option<Booster>,
) -> (r: (Result<(), ()>, Phase))
    requires
        booster_player_wf(actor),
        booster_player_wf(other),
        !(actor.selected_booster is Some && other.selected_booster is Some),
    ensures
        (r.0, r.1@) == booster_step(actor, other, parsed),
        phase_wf(r.1@),
{
    let mut a = actor;
    let mut b = other;
    if a.selected_booster.is_some() {
        (Result::Err(()), Phase::BoosterChoosing(a, b))
    } else {
        match parsed {
            Some(booster) => {
                let owned = a.available_boosters();
                if boosters_contain(&owned, booster) {
                    match b.selected_booster {
                        Some(b_booster) => {
                            let pa = a.to_moveless_player(booster);
                            let pb = b.to_moveless_player(b_booster);
                            proof {
                                assert(pa@ =~= fresh_moveless(a, booster));
                                assert(pb@ =~= fresh_moveless(b, b_booster));
                            }
                            (Result::Ok(()), Phase::MoveChoosing(pa, pb))
                        },
                        None => {
                            a.selected_booster = Some(booster);
                            (Result::Ok(()), Phase::BoosterChoosing(a, b))
                        },
                    }
                } else {
                    let pt = a.penalize(3);
                    b.points = b.points + pt;
                    if b.points >= 5 {
                        (Result::Ok(()), Phase::GameOver(a.points, b.points))
                    } else {
                        (Result::Ok(()), Phase::BoosterChoosing(a, b))
                    }
                }
            },
            None => {
                let pt = a.penalize(4);
                b.points = b.points + pt;
                if b.points >= 5 {
                    (Result::Ok(()), Phase::GameOver(a.points, b.points))
                } else {
                    (Result::Ok(()), Phase::BoosterChoosing(a, b))
                }
            },
        }
    }
}

/// One exec call in the move phase, in (actor, opponent) order.
fn move_step_exec(actor: MovelessPlayer, other: MovelessPlayer, parsed: Option<Move>) -> (r: (
    Result<(), ()>,
    Phase,
))
    requires
        move_player_wf(actor@),
        move_player_wf(other@),
        !(actor@.selected_move is Some && other@.selected_move is Some),
    ensures
        (r.0, r.1@) == move_step(actor@, other@, parsed),
        phase_wf(r.1@),
{
    let ghost av = actor@;
    let ghost ov = other@;
    let mut a = actor;
    let mut b = other;
    if a.selected_move.is_some() {
        (Result::Err(()), Phase::MoveChoosing(a, b))
    } else {
        match parsed {
            Some(mv) => {
                let legal = a.available_moves();
                if moves_contain(&legal, mv) {
                    proof {
                        lemma_moves_allowed_contains(av, move_pool_of(av), mv);
                    }
                    match b.selected_move {
                        Some(b_move) => {
                            proof {
                                lemma_moves_allowed_contains(ov, move_pool_of(ov), b_move);
                            }
                            let pts = resolve_move_points(a.booster, mv, b.booster, b_move);
                            a.points = a.points + pts.0;
                            b.points = b.points + pts.1;
                            a.move_streak.add(mv);
                            b.move_streak.add(b_move);
                            a.selected_move = None;
                            b.selected_move = None;
                            if move_is_single_use(mv) || move_is_destructive(b_move) {
                                a.destroyed_moves.push(mv);
                            }
                            if move_is_single_use(b_move) || move_is_destructive(mv) {
                                b.destroyed_moves.push(b_move);
                            }
                            if a.points >= 5 || b.points >= 5 {
                                if a.points == b.points {
                                    a.points = 4;
                                    b.points = 4;
                                    proof {
                                        assert(a@ =~= resolved_player(av, mv, b_move, 4));
                                        assert(b@ =~= resolved_player(ov, b_move, mv, 4));
                                    }
                                    (Result::Ok(()), Phase::MoveChoosing(a, b))
                                } else {
                                    (Result::Ok(()), Phase::GameOver(a.points, b.points))
                                }
                            } else {
                                proof {
                                    assert(a@ =~= resolved_player(av, mv, b_move, a@.points));
                                    assert(b@ =~= resolved_player(ov, b_move, mv, b@.points));
                                }
                                (Result::Ok(()), Phase::MoveChoosing(a, b))
                            }
                        },
                        None => {
                            a.selected_move = Some(mv);
                            proof {
                                assert(a@ =~= (MovelessPlayerV { selected_move: Some(mv), ..av }));
                                lemma_available_moves_unaffected(av, a@);
                            }
                            (Result::Ok(()), Phase::MoveChoosing(a, b))
                        },
                    }
                } else if moves_contain(&a.destroyed_moves, mv) {
                    let pt = a.penalize(4);
                    b.points = b.points + pt;
                    if b.points >= 5 {
                        (Result::Ok(()), Phase::GameOver(a.points, b.points))
                    } else {
                        proof {
                            assert(a@ =~= (MovelessPlayerV {
                                waits: penalized_waits(av.waits, 4),
                                ..av
                            }));
                            lemma_available_moves_unaffected(ov, b@);
                        }
                        (Result::Ok(()), Phase::MoveChoosing(a, b))
                    }
                } else {
                    let barred = a.move_streak.times == 3 && (match a.move_streak.repeated_move {
                        Some(rm) => rm == mv,
                        None => false,
                    });
                    if barred {
                        let pt = a.penalize(3);
                        b.points = b.points + pt;
                        if b.points >= 5 {
                            (Result::Ok(()), Phase::GameOver(a.points, b.points))
                        } else {
                            proof {
                                assert(a@ =~= (MovelessPlayerV {
                                    waits: penalized_waits(av.waits, 3),
                                    ..av
                                }));
                                lemma_available_moves_unaffected(ov, b@);
                            }
                            (Result::Ok(()), Phase::MoveChoosing(a, b))
                        }
                    } else {
                        let owned_boosters = character_boosters(a.character);
                        proof {
                            assert(boosters_of(a.character).len() == 3);
                        }
                        let mut granted = booster_moves(owned_boosters[0]);
                        let mut more = booster_moves(owned_boosters[1]);
                        granted.append(&mut more);
                        let mut last = booster_moves(owned_boosters[2]);
                        granted.append(&mut last);
                        proof {
                            assert(granted@ == character_booster_moves(a.character));
                        }
                        let cost: u8 = if moves_contain(&granted, mv) {
                            2
                        } else {
                            3
                        };
                        let pt = a.penalize(cost);
                        b.points = b.points + pt;
                        if b.points >= 5 {
                            (Result::Ok(()), Phase::GameOver(a.points, b.points))
                        } else {
                            proof {
                                assert(a@ =~= (MovelessPlayerV {
                                    waits: penalized_waits(av.waits, cost),
                                    ..av
                                }));
                                lemma_available_moves_unaffected(ov, b@);
                            }
                            (Result::Ok(()), Phase::MoveChoosing(a, b))
                        }
                    }
                }
            },
            None => {
                let pt = a.penalize(4);
                b.points = b.points + pt;
                if b.points >= 5 {
                    (Result::Ok(()), Phase::GameOver(a.points, b.points))
                } else {
                    proof {
                        assert(a@ =~= (MovelessPlayerV { waits: penalized_waits(av.waits, 4), ..av }));
                        lemma_available_moves_unaffected(ov, b@);
                    }
                    (Result::Ok(()), Phase::MoveChoosing(a, b))
                }
            },
        }
    }
}

impl NZSCTwoPlayerGame {
    /// A fresh match: two fresh players, both picking characters.
    pub fn new() -> (r: Self)
        ensures
            r@ == initial_phase(),
            phase_wf(r@),
    {
        Self {
            phase: Phase::CharacterChoosing(CharacterlessPlayer::new(), CharacterlessPlayer::new()),
        }
    }

    /// Submit one seat's raw choice. The result and the phase the match
    /// moves to are exactly what `step_spec` says for the current phase,
    /// the acting seat, and what the parsers make of the string: rejection
    /// with no change on a repick or after game over, and otherwise an
    /// accepted call whose effect is a recorded pick, a penalty, or a
    /// resolved sub-round.
    pub fn process_choice(&mut self, chooser: WhichPlayer, choice: String) -> (res: Result<(), ()>)
        requires
            phase_wf(old(self)@),
        ensures
            ({
                let s = step_spec(
                    old(self)@,
                    chooser,
                    parsed_character(choice@),
                    parsed_booster(choice@),
                    parsed_move(choice@),
                );
                res == s.0 && final(self)@ == s.1
            }),
            phase_wf(final(self)@),
    {
        let mut taken = Phase::GameOver(0, 0);
        core::mem::swap(&mut taken, &mut self.phase);
        let stepped: (Result<(), ()>, Phase) = match taken {
            Phase::CharacterChoosing(a, b) => {
                let parsed = parse_character(choice.as_str());
                match chooser {
                    WhichPlayer::PlayerA => character_step_exec(a, b, parsed),
                    WhichPlayer::PlayerB => {
                        let r = character_step_exec(b, a, parsed);
                        (r.0, r.1.flip_a_and_b())
                    },
                }
            },
            Phase::BoosterChoosing(a, b) => {
                let parsed = parse_booster(choice.as_str());
                match chooser {
                    WhichPlayer::PlayerA => booster_step_exec(a, b, parsed),
                    WhichPlayer::PlayerB => {
                        let r = booster_step_exec(b, a, parsed);
                        (r.0, r.1.flip_a_and_b())
                    },
                }
            },
            Phase::MoveChoosing(a, b) => {
                let parsed = parse_move(choice.as_str());
                match chooser {
                    WhichPlayer::PlayerA => move_step_exec(a, b, parsed),
                    WhichPlayer::PlayerB => {
                        let r = move_step_exec(b, a, parsed);
                        (r.0, r.1.flip_a_and_b())
                    },
                }
            },
            Phase::GameOver(x, y) => (Result::Err(()), Phase::GameOver(x, y)),
        };
        self.phase = stepped.1;
        stepped.0
    }
}

} // verus!
