//! The playable characters, boosters and moves, and the fixed catalog that
//! ties them together: which boosters belong to a character, which moves a
//! character or booster grants, the character head-start table, and the
//! single-use / destructive move classes.
//!
//! The catalog data lives in the `nzsc_core` crate; the spec functions here
//! state that data so that contracts can speak about it, and the trusted
//! wrappers in `external` promise that the crate's lookups agree with them.

use vstd::prelude::*;

verus! {

/// One of the four playable characters.
#[derive(Clone, Copy, PartialEq, Eq, Structural, Debug)]
pub enum Character {
    Ninja,
    Zombie,
    Samurai,
    Clown,
}

/// A booster: a character upgrade picked after both characters are fixed.
/// `NoBooster` is the choice of playing without one.
#[derive(Clone, Copy, PartialEq, Eq, Structural, Debug)]
pub enum Booster {
    Shadow,
    Speedy,
    Regenerative,
    ZombieCorps,
    Atlas,
    Strong,
    Backwards,
    Moustachio,
    NoBooster,
}

/// One of the twenty-eight moves.
#[derive(Clone, Copy, PartialEq, Eq, Structural, Debug)]
pub enum Move {
    Kick,
    NinjaSword,
    Nunchucks,
    ShadowFireball,
    ShadowSlip,
    RunInCircles,
    LightningFastKarateChop,
    Rampage,
    Muscle,
    Zap,
    Regenerate,
    Gravedigger,
    ZombieCorps,
    Apocalypse,
    SamuraiSword,
    Helmet,
    Smash,
    Lightning,
    Earthquake,
    Twist,
    Bend,
    JugglingKnives,
    AcidSpray,
    Nose,
    BackwardsMoustachio,
    NoseOfTheTaunted,
    MustacheMash,
    BigHairyDeal,
}

/// The boosters that belong to a character: two of its own and `NoBooster`.
pub open spec fn boosters_of(c: Character) -> Seq<Booster> {
    match c {
        Character::Ninja => seq![Booster::Shadow, Booster::Speedy, Booster::NoBooster],
        Character::Zombie => seq![Booster::Regenerative, Booster::ZombieCorps, Booster::NoBooster],
        Character::Samurai => seq![Booster::Atlas, Booster::Strong, Booster::NoBooster],
        Character::Clown => seq![Booster::Backwards, Booster::Moustachio, Booster::NoBooster],
    }
}

/// The three moves every character owns outright.
pub open spec fn character_moves_of(c: Character) -> Seq<Move> {
    match c {
        Character::Ninja => seq![Move::Kick, Move::NinjaSword, Move::Nunchucks],
        Character::Zombie => seq![Move::Rampage, Move::Muscle, Move::Zap],
        Character::Samurai => seq![Move::SamuraiSword, Move::Helmet, Move::Smash],
        Character::Clown => seq![Move::JugglingKnives, Move::AcidSpray, Move::Nose],
    }
}

/// The two extra moves a booster grants; `NoBooster` grants none.
pub open spec fn booster_moves_of(b: Booster) -> Seq<Move> {
    match b {
        Booster::Shadow => seq![Move::ShadowFireball, Move::ShadowSlip],
        Booster::Speedy => seq![Move::RunInCircles, Move::LightningFastKarateChop],
        Booster::Regenerative => seq![Move::Regenerate, Move::Gravedigger],
        Booster::ZombieCorps => seq![Move::ZombieCorps, Move::Apocalypse],
        Booster::Atlas => seq![Move::Lightning, Move::Earthquake],
        Booster::Strong => seq![Move::Twist, Move::Bend],
        Booster::Backwards => seq![Move::BackwardsMoustachio, Move::NoseOfTheTaunted],
        Booster::Moustachio => seq![Move::MustacheMash, Move::BigHairyDeal],
        Booster::NoBooster => Seq::empty(),
    }
}

/// Head-start points `a` earns when the characters `a` and `b` face off.
/// The table is a three-cycle: Clown starts ahead of Ninja, Ninja ahead of
/// Samurai, Samurai ahead of Clown; every other pairing gives nothing.
pub open spec fn headstart_points(a: Character, b: Character) -> u8 {
    if (a == Character::Clown && b == Character::Ninja) || (a == Character::Ninja
        && b == Character::Samurai) || (a == Character::Samurai && b == Character::Clown) {
        1
    } else {
        0
    }
}

/// A single-use move destroys itself for its user once played.
pub open spec fn single_use_move(m: Move) -> bool {
    m == Move::Zap || m == Move::Regenerate || m == Move::AcidSpray
}

/// A destructive move destroys the move the opponent answered it with.
pub open spec fn destructive_move(m: Move) -> bool {
    m == Move::Zap || m == Move::AcidSpray
}

/// Whether a move sequence holds a given move, decided by a scan.
pub fn moves_contain(v: &Vec<Move>, m: Move) -> (r: bool)
    ensures
        r == v@.contains(m),
{
    let mut i: usize = 0;
    while i < v.len()
        invariant
            0 <= i <= v@.len(),
            forall|j: int| 0 <= j < i ==> v@[j] != m,
        decreases v@.len() - i,
    {
        if v[i] == m {
            return true;
        }
        i = i + 1;
    }
    false
}

/// Whether a booster sequence holds a given booster, decided by a scan.
pub fn boosters_contain(v: &Vec<Booster>, b: Booster) -> (r: bool)
    ensures
        r == v@.contains(b),
{
    let mut i: usize = 0;
    while i < v.len()
        invariant
            0 <= i <= v@.len(),
            forall|j: int| 0 <= j < i ==> v@[j] != b,
        decreases v@.len() - i,
    {
        if v[i] == b {
            return true;
        }
        i = i + 1;
    }
    false
}

/// The library's move for a declared `nzsc_core` discriminant. Positions
/// past the catalog fall back to `Kick`; the trusted callers only hand in
/// discriminants the catalog has.
pub(crate) fn move_of_index(i: u8) -> Move {
    match i {
        0 => Move::Kick,
        1 => Move::NinjaSword,
        2 => Move::Nunchucks,
        3 => Move::ShadowFireball,
        4 => Move::ShadowSlip,
        5 => Move::RunInCircles,
        6 => Move::LightningFastKarateChop,
        7 => Move::Rampage,
        8 => Move::Muscle,
        9 => Move::Zap,
        10 => Move::Regenerate,
        11 => Move::Gravedigger,
        12 => Move::ZombieCorps,
        13 => Move::Apocalypse,
        14 => Move::SamuraiSword,
        15 => Move::Helmet,
        16 => Move::Smash,
        17 => Move::Lightning,
        18 => Move::Earthquake,
        19 => Move::Twist,
        20 => Move::Bend,
        21 => Move::JugglingKnives,
        22 => Move::AcidSpray,
        23 => Move::Nose,
        24 => Move::BackwardsMoustachio,
        25 => Move::NoseOfTheTaunted,
        26 => Move::MustacheMash,
        _ => Move::BigHairyDeal,
    }
}

/// The canonical lower-case name under which `nzsc_core`'s parser
/// recognizes a move. Used by the trusted wrappers to carry a move of the
/// library into the crate's own enum.
pub(crate) fn move_token(m: Move) -> &'static str {
    match m {
        Move::Kick => "kick",
        Move::NinjaSword => "ninjasword",
        Move::Nunchucks => "nunchucks",
        Move::ShadowFireball => "shadowfireball",
        Move::ShadowSlip => "shadowslip",
        Move::RunInCircles => "runincircles",
        Move::LightningFastKarateChop => "lightningfastkaratechop",
        Move::Rampage => "rampage",
        Move::Muscle => "muscle",
        Move::Zap => "zap",
        Move::Regenerate => "regenerate",
        Move::Gravedigger => "gravedigger",
        Move::ZombieCorps => "zombiecorps",
        Move::Apocalypse => "apocalypse",
        Move::SamuraiSword => "samuraisword",
        Move::Helmet => "helmet",
        Move::Smash => "smash",
        Move::Lightning => "lightning",
        Move::Earthquake => "earthquake",
        Move::Twist => "twist",
        Move::Bend => "bend",
        Move::JugglingKnives => "jugglingknives",
        Move::AcidSpray => "acidspray",
        Move::Nose => "nose",
        Move::BackwardsMoustachio => "backwardsmoustachio",
        Move::NoseOfTheTaunted => "noseofthetaunted",
        Move::MustacheMash => "mustachemash",
        Move::BigHairyDeal => "bighairydeal",
    }
}

/// The canonical lower-case name under which `nzsc_core`'s parser
/// recognizes a booster.
pub(crate) fn booster_token(b: Booster) -> &'static str {
    match b {
        Booster::Shadow => "shadow",
        Booster::Speedy => "speedy",
        Booster::Regenerative => "regenerative",
        Booster::ZombieCorps => "zombiecorps",
        Booster::Atlas => "atlas",
        Booster::Strong => "strong",
        Booster::Backwards => "backwards",
        Booster::Moustachio => "moustachio",
        Booster::NoBooster => "none",
    }
}

} // verus!
