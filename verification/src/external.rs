//! The trusted boundary to the `nzsc_core` crate.
//!
//! Everything the engine needs from the outside world comes through here:
//! parsing choice strings into domain values, the catalog lookups
//! (character to boosters, character or booster to moves), the character
//! head-start table, the move outcome table, and the single-use /
//! destructive move classes. Each wrapper's contract states what the
//! corresponding `nzsc_core` item computes; Verus believes the contracts
//! without reading the bodies.

use vstd::prelude::*;
use std::str::FromStr;
use nzsc_core::characters::Character as NzscCharacter;
use nzsc_core::boosters::Booster as NzscBooster;
use nzsc_core::moves::Move as NzscMove;
use crate::domain::{
    Character, Booster, Move, boosters_of, character_moves_of, booster_moves_of, headstart_points,
    single_use_move, destructive_move, move_of_index, move_token, booster_token,
};

verus! {

#[verifier::external_type_specification]
#[verifier::external_body]
pub struct ExCharacter(NzscCharacter);

#[verifier::external_type_specification]
#[verifier::external_body]
pub struct ExBooster(NzscBooster);

#[verifier::external_type_specification]
#[verifier::external_body]
pub struct ExMove(NzscMove);

/// What `nzsc_core`'s character parser makes of a string: `Some` of a
/// character for the strings it recognizes as that character's name,
/// `None` for everything else. The result depends on the string alone.
pub uninterp spec fn parsed_character(s: Seq<char>) -> Option<Character>;

/// What `nzsc_core`'s booster parser makes of a string.
pub uninterp spec fn parsed_booster(s: Seq<char>) -> Option<Booster>;

/// What `nzsc_core`'s move parser makes of a string.
pub uninterp spec fn parsed_move(s: Seq<char>) -> Option<Move>;

/// The points the first (booster, move) pair earns against the second in
/// `nzsc_core`'s outcome table. The table is fixed data: the result depends
/// on the two pairs alone.
pub uninterp spec fn duel_points(
    own_booster: Booster,
    own_move: Move,
    other_booster: Booster,
    other_move: Move,
) -> u8;

/// Carries a character of the library into `nzsc_core`'s own enum, variant
/// for variant. Used only inside the other wrappers.
#[verifier::external_body]
fn core_character(c: Character) -> NzscCharacter {
    match c {
        Character::Ninja => NzscCharacter::Ninja,
        Character::Zombie => NzscCharacter::Zombie,
        Character::Samurai => NzscCharacter::Samurai,
        Character::Clown => NzscCharacter::Clown,
    }
}

/// Carries a booster of the library into `nzsc_core`'s own enum, through
/// the crate's parser on the booster's canonical name. Used only inside the
/// other wrappers.
#[verifier::external_body]
fn core_booster(b: Booster) -> NzscBooster {
    NzscBooster::from_str(booster_token(b)).unwrap()
}

/// Carries a move of the library into `nzsc_core`'s own enum, through the
/// crate's parser on the move's canonical name. Used only inside the other
/// wrappers.
#[verifier::external_body]
fn core_move(m: Move) -> NzscMove {
    NzscMove::from_str(move_token(m)).unwrap()
}

/// Relies on `NzscCharacter::from_str`, the parser that
/// owns the name-to-character rule (case- and whitespace-insensitive).
#[verifier::external_body]
pub(crate) fn parse_character(s: &str) -> (r: Option<Character>)
    ensures
        r == parsed_character(s@),
{
    match NzscCharacter::from_str(s) {
        Ok(NzscCharacter::Ninja) => Some(Character::Ninja),
        Ok(NzscCharacter::Zombie) => Some(Character::Zombie),
        Ok(NzscCharacter::Samurai) => Some(Character::Samurai),
        Ok(NzscCharacter::Clown) => Some(Character::Clown),
        Err(()) => None,
    }
}

/// Relies on `NzscBooster::from_str`, the parser that owns
/// the name-to-booster rule.
#[verifier::external_body]
pub(crate) fn parse_booster(s: &str) -> (r: Option<Booster>)
    ensures
        r == parsed_booster(s@),
{
    match NzscBooster::from_str(s) {
        Ok(cb) => Some(booster_of_core_index(booster_core_index(cb))),
        Err(()) => None,
    }
}

/// The position of a booster in `nzsc_core`'s declaration order. Used only
/// inside `parse_booster`.
#[verifier::external_body]
fn booster_core_index(b: NzscBooster) -> u8 {
    match b {
        NzscBooster::Shadow => 0,
        NzscBooster::Speedy => 1,
        NzscBooster::Regenerative => 2,
        NzscBooster::ZombieCorps => 3,
        NzscBooster::Atlas => 4,
        NzscBooster::Strong => 5,
        NzscBooster::Backwards => 6,
        NzscBooster::Moustachio => 7,
        NzscBooster::None => 8,
    }
}

/// Relies on `NzscMove::from_str`, the parser that owns the
/// name-to-move rule. `to_u8` is the move's declared discriminant, which
/// `move_of_index` maps back onto the library's enum.
#[verifier::external_body]
pub(crate) fn parse_move(s: &str) -> (r: Option<Move>)
    ensures
        r == parsed_move(s@),
{
    match NzscMove::from_str(s) {
        Ok(cm) => Some(move_of_index(cm.to_u8())),
        Err(()) => None,
    }
}

/// Relies on `nzsc_core::characters::Character::get_boosters`: each
/// character owns its two boosters and `NoBooster`, in catalog order.
#[verifier::external_body]
pub(crate) fn character_boosters(c: Character) -> (r: Vec<Booster>)
    ensures
        r@ == boosters_of(c),
{
    let mut out: Vec<Booster> = Vec::new();
    for cb in core_character(c).get_boosters() {
        out.push(booster_of_core_index(booster_core_index(cb)));
    }
    out
}

/// Relies on `nzsc_core::characters::Character::get_moves`: each character
/// owns three moves, in catalog order.
#[verifier::external_body]
pub(crate) fn character_moves(c: Character) -> (r: Vec<Move>)
    ensures
        r@ == character_moves_of(c),
{
    let mut out: Vec<Move> = Vec::new();
    for cm in core_character(c).get_moves() {
        out.push(move_of_index(cm.to_u8()));
    }
    out
}

/// Relies on `NzscBooster::get_moves`: each booster grants
/// two moves and `NoBooster` grants none, in catalog order.
#[verifier::external_body]
pub(crate) fn booster_moves(b: Booster) -> (r: Vec<Move>)
    ensures
        r@ == booster_moves_of(b),
{
    let mut out: Vec<Move> = Vec::new();
    for cm in core_booster(b).get_moves() {
        out.push(move_of_index(cm.to_u8()));
    }
    out
}

/// Relies on `nzsc_core::outcomes::get_headstart`: the character table
/// awards one point along the Clown-Ninja-Samurai cycle and nothing
/// anywhere else, each direction read independently.
#[verifier::external_body]
pub(crate) fn head_start(a: Character, b: Character) -> (r: (u8, u8))
    ensures
        r.0 == headstart_points(a, b),
        r.1 == headstart_points(b, a),
{
    let h = nzsc_core::outcomes::get_headstart(core_character(a), core_character(b));
    (h.0, h.1)
}

/// Relies on `nzsc_core::outcomes::get_points` on a two-pair input: each
/// side's score is a function of the two (booster, move) pairs, computed
/// symmetrically, and is the sum of two table entries of at most one point
/// each, so it never exceeds two.
#[verifier::external_body]
pub(crate) fn resolve_move_points(
    own_booster: Booster,
    own_move: Move,
    other_booster: Booster,
    other_move: Move,
) -> (r: (u8, u8))
    ensures
        r.0 == duel_points(own_booster, own_move, other_booster, other_move),
        r.1 == duel_points(other_booster, other_move, own_booster, own_move),
        r.0 <= 2,
        r.1 <= 2,
{
    let pairs = vec![
        (core_booster(own_booster), core_move(own_move)),
        (core_booster(other_booster), core_move(other_move)),
    ];
    let points = nzsc_core::outcomes::get_points(pairs);
    (points[0], points[1])
}

/// Relies on `nzsc_core::moves::SINGLE_USE_MOVES`: exactly Zap, Regenerate
/// and Acid Spray destroy themselves once played.
#[verifier::external_body]
pub(crate) fn move_is_single_use(m: Move) -> (r: bool)
    ensures
        r == single_use_move(m),
{
    nzsc_core::moves::SINGLE_USE_MOVES.contains(&core_move(m))
}

/// Relies on `nzsc_core::moves::DESTRUCTIVE_MOVES`: exactly Zap and Acid
/// Spray destroy the move the opponent answered with.
#[verifier::external_body]
pub(crate) fn move_is_destructive(m: Move) -> (r: bool)
    ensures
        r == destructive_move(m),
{
    nzsc_core::moves::DESTRUCTIVE_MOVES.contains(&core_move(m))
}

/// The library's booster for a position in `nzsc_core`'s declaration
/// order. Positions past the catalog fall back to `NoBooster`; the trusted
/// callers only hand in positions the catalog has.
pub(crate) fn booster_of_core_index(i: u8) -> Booster {
    match i {
        0 => Booster::Shadow,
        1 => Booster::Speedy,
        2 => Booster::Regenerative,
        3 => Booster::ZombieCorps,
        4 => Booster::Atlas,
        5 => Booster::Strong,
        6 => Booster::Backwards,
        7 => Booster::Moustachio,
        _ => Booster::NoBooster,
    }
}

} // verus!
