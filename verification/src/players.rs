//! The three player stages. A player starts without a character, fixes a
//! character to become a booster-selecting player, and fixes a booster to
//! become a move-selecting player. Every stage carries the running score
//! (`points`) and the penalty-absorption budget (`waits`); each stage
//! transition copies both forward and seeds the next stage's extras fresh.

use vstd::prelude::*;
use crate::domain::{
    Character, Booster, Move, boosters_of, character_moves_of, booster_moves_of, moves_contain,
};
use crate::streaks::{CharacterStreak, MoveStreak};
use crate::external::{character_boosters, character_moves, booster_moves};

verus! {

/// A player who has not fixed a character yet.
#[derive(Clone, Copy)]
pub struct CharacterlessPlayer {
    pub points: u8,
    pub waits: u8,
    pub character_streak: CharacterStreak,
    pub selected_character: Option<Character>,
}

/// A player whose character is fixed but who has not fixed a booster yet.
#[derive(Clone, Copy)]
pub struct BoosterlessPlayer {
    pub points: u8,
    pub waits: u8,
    pub character: Character,
    pub selected_booster: Option<Booster>,
}

/// A player with character and booster fixed, choosing moves round by round.
#[derive(Clone)]
pub struct MovelessPlayer {
    pub points: u8,
    pub waits: u8,
    pub character: Character,
    pub booster: Booster,
    pub move_streak: MoveStreak,
    pub destroyed_moves: Vec<Move>,
    pub selected_move: Option<Move>,
}

/// The mathematical image of a move-selecting player: the destroyed moves
/// as a sequence, everything else as it stands.
#[verifier::ext_equal]
pub struct MovelessPlayerV {
    pub points: u8,
    pub waits: u8,
    pub character: Character,
    pub booster: Booster,
    pub move_streak: MoveStreak,
    pub destroyed_moves: Seq<Move>,
    pub selected_move: Option<Move>,
}

impl View for MovelessPlayer {
    type V = MovelessPlayerV;

    open spec fn view(&self) -> MovelessPlayerV {
        MovelessPlayerV {
            points: self.points,
            waits: self.waits,
            character: self.character,
            booster: self.booster,
            move_streak: self.move_streak,
            destroyed_moves: self.destroyed_moves@,
            selected_move: self.selected_move,
        }
    }
}

/// The waits budget after absorbing a penalty: the cost is subtracted, and
/// a budget too small to pay is emptied instead.
pub open spec fn penalized_waits(waits: u8, cost: u8) -> u8 {
    if waits < cost {
        0
    } else {
        (waits - cost) as u8
    }
}

/// The point the opponent earns from a penalty: one exactly when the waits
/// budget could not pay the full cost.
pub open spec fn penalty_point(waits: u8, cost: u8) -> u8 {
    if waits < cost {
        1
    } else {
        0
    }
}

/// The fixed four-character catalog, in its canonical order.
pub open spec fn all_characters() -> Seq<Character> {
    seq![Character::Ninja, Character::Zombie, Character::Samurai, Character::Clown]
}

/// Whether a character is open to a character-selecting player: everything
/// but the streak character once it has been picked three times in a row.
pub open spec fn char_pick_allowed(p: CharacterlessPlayer, c: Character) -> bool {
    !(p.character_streak.times == 3 && p.character_streak.repeated_character == Some(c))
}

/// The subsequence of `s` whose characters are open to `p`, in order.
pub open spec fn chars_allowed_in(p: CharacterlessPlayer, s: Seq<Character>) -> Seq<Character>
    decreases s.len(),
{
    if s.len() == 0 {
        Seq::empty()
    } else {
        let rest = chars_allowed_in(p, s.drop_last());
        if char_pick_allowed(p, s.last()) {
            rest.push(s.last())
        } else {
            rest
        }
    }
}

/// The characters a character-selecting player may legally pick next: the
/// full catalog, minus the streak character once it has been picked three
/// times in a row.
pub open spec fn available_characters_of(p: CharacterlessPlayer) -> Seq<Character> {
    chars_allowed_in(p, all_characters())
}

/// Extending the scanned sequence by one character extends its allowed
/// subsequence exactly when that character is open.
pub proof fn lemma_chars_allowed_push(p: CharacterlessPlayer, s: Seq<Character>, c: Character)
    ensures
        chars_allowed_in(p, s.push(c)) == (if char_pick_allowed(p, c) {
            chars_allowed_in(p, s).push(c)
        } else {
            chars_allowed_in(p, s)
        }),
{
    assert(s.push(c).drop_last() =~= s);
}

/// A character is in the allowed subsequence exactly when it is in the
/// scanned sequence and open.
pub proof fn lemma_chars_allowed_contains(p: CharacterlessPlayer, s: Seq<Character>, c: Character)
    ensures
        chars_allowed_in(p, s).contains(c) <==> (s.contains(c) && char_pick_allowed(p, c)),
    decreases s.len(),
{
    if s.len() > 0 {
        lemma_chars_allowed_contains(p, s.drop_last(), c);
        assert(s.contains(c) <==> (s.drop_last().contains(c) || s.last() == c)) by {
            if s.contains(c) {
                let i = choose|i: int| 0 <= i < s.len() && s[i] == c;
                if i < s.len() - 1 {
                    assert(s.drop_last()[i] == c);
                }
            }
            if s.drop_last().contains(c) {
                let i = choose|i: int| 0 <= i < s.drop_last().len() && s.drop_last()[i] == c;
                assert(s[i] == c);
            }
        }
        let rest = chars_allowed_in(p, s.drop_last());
        if char_pick_allowed(p, s.last()) {
            assert(chars_allowed_in(p, s) == rest.push(s.last()));
            assert forall|x: Character| rest.push(s.last()).contains(x) <==> (rest.contains(x)
                || s.last() == x) by {
                if rest.contains(x) {
                    let i = choose|i: int| 0 <= i < rest.len() && rest[i] == x;
                    assert(rest.push(s.last())[i] == x);
                }
                if s.last() == x {
                    assert(rest.push(s.last())[rest.len() as int] == x);
                }
                if rest.push(s.last()).contains(x) {
                    let i = choose|i: int|
                        0 <= i < rest.push(s.last()).len() && rest.push(s.last())[i] == x;
                    if i < rest.len() {
                        assert(rest[i] == x);
                    } else {
                        assert(s.last() == x);
                    }
                }
            }
        }
    }
}

/// The moves granted by a move-selecting player's character and booster.
pub open spec fn move_pool_of(p: MovelessPlayerV) -> Seq<Move> {
    character_moves_of(p.character) + booster_moves_of(p.booster)
}

/// Whether a move from the pool is still legal: not destroyed, and not the
/// streak move once it has been played three times in a row.
pub open spec fn move_allowed(p: MovelessPlayerV, m: Move) -> bool {
    &&& !p.destroyed_moves.contains(m)
    &&& !(p.move_streak.times >= 3 && p.move_streak.repeated_move == Some(m))
}

/// The subsequence of `s` whose moves are still legal for `p`, in order.
pub open spec fn moves_allowed_in(p: MovelessPlayerV, s: Seq<Move>) -> Seq<Move>
    decreases s.len(),
{
    if s.len() == 0 {
        Seq::empty()
    } else {
        let rest = moves_allowed_in(p, s.drop_last());
        if move_allowed(p, s.last()) {
            rest.push(s.last())
        } else {
            rest
        }
    }
}

/// The moves a move-selecting player may legally pick next.
pub open spec fn available_moves_of(p: MovelessPlayerV) -> Seq<Move> {
    moves_allowed_in(p, move_pool_of(p))
}

/// Which moves are legal depends only on the character, the booster, the
/// destroyed moves and the streak — not on the score, the waits budget or a
/// pending selection.
pub proof fn lemma_moves_allowed_unaffected(p1: MovelessPlayerV, p2: MovelessPlayerV, s: Seq<Move>)
    requires
        p1.character == p2.character,
        p1.booster == p2.booster,
        p1.destroyed_moves == p2.destroyed_moves,
        p1.move_streak == p2.move_streak,
    ensures
        moves_allowed_in(p1, s) == moves_allowed_in(p2, s),
    decreases s.len(),
{
    if s.len() > 0 {
        lemma_moves_allowed_unaffected(p1, p2, s.drop_last());
    }
}

/// The legal move set, likewise, depends only on those four fields.
pub proof fn lemma_available_moves_unaffected(p1: MovelessPlayerV, p2: MovelessPlayerV)
    requires
        p1.character == p2.character,
        p1.booster == p2.booster,
        p1.destroyed_moves == p2.destroyed_moves,
        p1.move_streak == p2.move_streak,
    ensures
        available_moves_of(p1) == available_moves_of(p2),
{
    lemma_moves_allowed_unaffected(p1, p2, move_pool_of(p1));
}

/// Extending the scanned sequence by one move extends its legal subsequence
/// exactly when that move is legal.
pub proof fn lemma_moves_allowed_push(p: MovelessPlayerV, s: Seq<Move>, m: Move)
    ensures
        moves_allowed_in(p, s.push(m)) == (if move_allowed(p, m) {
            moves_allowed_in(p, s).push(m)
        } else {
            moves_allowed_in(p, s)
        }),
{
    assert(s.push(m).drop_last() =~= s);
}

/// A move is in the legal subsequence exactly when it is in the scanned
/// sequence and legal.
pub proof fn lemma_moves_allowed_contains(p: MovelessPlayerV, s: Seq<Move>, m: Move)
    ensures
        moves_allowed_in(p, s).contains(m) <==> (s.contains(m) && move_allowed(p, m)),
    decreases s.len(),
{
    if s.len() > 0 {
        lemma_moves_allowed_contains(p, s.drop_last(), m);
        assert(s.contains(m) <==> (s.drop_last().contains(m) || s.last() == m)) by {
            if s.contains(m) {
                let i = choose|i: int| 0 <= i < s.len() && s[i] == m;
                if i < s.len() - 1 {
                    assert(s.drop_last()[i] == m);
                }
            }
            if s.drop_last().contains(m) {
                let i = choose|i: int| 0 <= i < s.drop_last().len() && s.drop_last()[i] == m;
                assert(s[i] == m);
            }
        }
        let rest = moves_allowed_in(p, s.drop_last());
        if move_allowed(p, s.last()) {
            assert(moves_allowed_in(p, s) == rest.push(s.last()));
            assert forall|x: Move| rest.push(s.last()).contains(x) <==> (rest.contains(x)
                || s.last() == x) by {
                if rest.contains(x) {
                    let i = choose|i: int| 0 <= i < rest.len() && rest[i] == x;
                    assert(rest.push(s.last())[i] == x);
                }
                if s.last() == x {
                    assert(rest.push(s.last())[rest.len() as int] == x);
                }
                if rest.push(s.last()).contains(x) {
                    let i = choose|i: int|
                        0 <= i < rest.push(s.last()).len() && rest.push(s.last())[i] == x;
                    if i < rest.len() {
                        assert(rest[i] == x);
                    } else {
                        assert(s.last() == x);
                    }
                }
            }
        }
    }
}

/// A character-selecting player the engine can hold: scores and streaks in
/// the ranges the match keeps them in, and any pending character not
/// streak-barred at the time it was recorded.
pub open spec fn char_player_wf(p: CharacterlessPlayer) -> bool {
    &&& p.points <= 4
    &&& p.waits <= 4
    &&& p.character_streak.times <= 3
    &&& match p.selected_character {
        Some(c) => !(p.character_streak.times == 3 && p.character_streak.repeated_character
            == Some(c)),
        None => true,
    }
}

/// A booster-selecting player the engine can hold: any pending booster
/// belongs to the player's character.
pub open spec fn booster_player_wf(p: BoosterlessPlayer) -> bool {
    &&& p.points <= 4
    &&& p.waits <= 4
    &&& match p.selected_booster {
        Some(b) => boosters_of(p.character).contains(b),
        None => true,
    }
}

/// A move-selecting player the engine can hold: any pending move was legal
/// when it was recorded.
pub open spec fn move_player_wf(p: MovelessPlayerV) -> bool {
    &&& p.points <= 4
    &&& p.waits <= 4
    &&& p.move_streak.times <= 3
    &&& match p.selected_move {
        Some(m) => available_moves_of(p).contains(m),
        None => true,
    }
}

impl CharacterlessPlayer {
    /// A fresh player: no points, a full waits budget of four, no streak,
    /// nothing picked.
    pub fn new() -> (r: Self)
        ensures
            r.points == 0,
            r.waits == 4,
            r.character_streak.repeated_character == Option::<Character>::None,
            r.character_streak.times == 0,
            r.selected_character == Option::<Character>::None,
            char_player_wf(r),
    {
        Self {
            points: 0,
            waits: 4,
            character_streak: CharacterStreak::new(),
            selected_character: None,
        }
    }

    /// The characters this player may legally pick next.
    pub fn available_characters(&self) -> (r: Vec<Character>)
        ensures
            r@ == available_characters_of(*self),
    {
        let mut characters: Vec<Character> = Vec::new();
        characters.push(Character::Ninja);
        characters.push(Character::Zombie);
        characters.push(Character::Samurai);
        characters.push(Character::Clown);
        proof {
            assert(characters@ =~= all_characters());
        }

        let mut out: Vec<Character> = Vec::new();
        let mut i: usize = 0;
        while i < characters.len()
            invariant
                0 <= i <= characters@.len(),
                characters@ == all_characters(),
                out@ == chars_allowed_in(*self, characters@.subrange(0, i as int)),
            decreases characters@.len() - i,
        {
            let c = characters[i];
            let open_to_pick = !(self.character_streak.times == 3 && (
            match self.character_streak.repeated_character {
                Some(rc) => rc == c,
                None => false,
            }));
            proof {
                lemma_chars_allowed_push(*self, characters@.subrange(0, i as int), c);
                assert(characters@.subrange(0, i as int + 1) =~= characters@.subrange(
                    0,
                    i as int,
                ).push(c));
            }
            if open_to_pick {
                out.push(c);
            }
            i = i + 1;
        }
        proof {
            assert(characters@.subrange(0, characters@.len() as int) =~= characters@);
        }
        out
    }

    /// Absorb a penalty of `waits` into the budget; the result is the point
    /// the opponent earns (one exactly when the budget could not pay).
    pub fn penalize(&mut self, waits: u8) -> (r: u8)
        ensures
            final(self).waits == penalized_waits(old(self).waits, waits),
            r == penalty_point(old(self).waits, waits),
            final(self).points == old(self).points,
            final(self).character_streak == old(self).character_streak,
            final(self).selected_character == old(self).selected_character,
    {
        if self.waits < waits {
            self.waits = 0;
            1
        } else {
            self.waits = self.waits - waits;
            0
        }
    }

    /// Fix a character: points and waits carry forward, the booster slot
    /// starts empty.
    pub fn to_boosterless_player(&self, character: Character) -> (r: BoosterlessPlayer)
        ensures
            r == (BoosterlessPlayer {
                points: self.points,
                waits: self.waits,
                character,
                selected_booster: None,
            }),
    {
        BoosterlessPlayer {
            points: self.points,
            waits: self.waits,
            character,
            selected_booster: None,
        }
    }
}

impl BoosterlessPlayer {
    /// The boosters this player may pick: exactly the ones the catalog
    /// gives the fixed character.
    pub fn available_boosters(&self) -> (r: Vec<Booster>)
        ensures
            r@ == boosters_of(self.character),
    {
        character_boosters(self.character)
    }

    /// Absorb a penalty of `waits` into the budget; the result is the point
    /// the opponent earns.
    pub fn penalize(&mut self, waits: u8) -> (r: u8)
        ensures
            final(self).waits == penalized_waits(old(self).waits, waits),
            r == penalty_point(old(self).waits, waits),
            final(self).points == old(self).points,
            final(self).character == old(self).character,
            final(self).selected_booster == old(self).selected_booster,
    {
        if self.waits < waits {
            self.waits = 0;
            1
        } else {
            self.waits = self.waits - waits;
            0
        }
    }

    /// Fix a booster: points, waits and character carry forward; the move
    /// streak starts empty and no move is destroyed yet.
    pub fn to_moveless_player(&self, booster: Booster) -> (r: MovelessPlayer)
        ensures
            r@ == (MovelessPlayerV {
                points: self.points,
                waits: self.waits,
                character: self.character,
                booster,
                move_streak: MoveStreak { repeated_move: None, times: 0 },
                destroyed_moves: Seq::empty(),
                selected_move: None,
            }),
    {
        let r = MovelessPlayer {
            points: self.points,
            waits: self.waits,
            character: self.character,
            booster,
            move_streak: MoveStreak::new(),
            destroyed_moves: Vec::new(),
            selected_move: None,
        };
        proof {
            assert(r@.destroyed_moves =~= Seq::<Move>::empty());
        }
        r
    }
}

impl MovelessPlayer {
    /// The moves this player may legally pick next: the pool granted by
    /// character and booster, minus destroyed moves, minus the streak move
    /// once it has been played three times in a row.
    pub fn available_moves(&self) -> (r: Vec<Move>)
        ensures
            r@ == available_moves_of(self@),
    {
        let mut pool = character_moves(self.character);
        let mut granted = booster_moves(self.booster);
        pool.append(&mut granted);
        proof {
            assert(pool@ == move_pool_of(self@));
        }

        let mut out: Vec<Move> = Vec::new();
        let mut i: usize = 0;
        while i < pool.len()
            invariant
                0 <= i <= pool@.len(),
                pool@ == move_pool_of(self@),
                out@ == moves_allowed_in(self@, pool@.subrange(0, i as int)),
            decreases pool@.len() - i,
        {
            let m = pool[i];
            let destroyed = moves_contain(&self.destroyed_moves, m);
            let barred = self.move_streak.times >= 3 && (match self.move_streak.repeated_move {
                Some(rm) => rm == m,
                None => false,
            });
            proof {
                lemma_moves_allowed_push(self@, pool@.subrange(0, i as int), m);
                assert(pool@.subrange(0, i as int + 1) =~= pool@.subrange(0, i as int).push(m));
            }
            if !destroyed && !barred {
                out.push(m);
            }
            i = i + 1;
        }
        proof {
            assert(pool@.subrange(0, pool@.len() as int) =~= pool@);
        }
        out
    }

    /// Absorb a penalty of `waits` into the budget; the result is the point
    /// the opponent earns.
    pub fn penalize(&mut self, waits: u8) -> (r: u8)
        ensures
            final(self).waits == penalized_waits(old(self).waits, waits),
            r == penalty_point(old(self).waits, waits),
            final(self).points == old(self).points,
            final(self).character == old(self).character,
            final(self).booster == old(self).booster,
            final(self).move_streak == old(self).move_streak,
            final(self).destroyed_moves == old(self).destroyed_moves,
            final(self).selected_move == old(self).selected_move,
    {
        if self.waits < waits {
            self.waits = 0;
            1
        } else {
            self.waits = self.waits - waits;
            0
        }
    }
}

} // verus!
