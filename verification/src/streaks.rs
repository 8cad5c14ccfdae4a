//! Streak trackers: how many times in a row a player has picked the same
//! character or the same move. Once a value has been picked three times in a
//! row it is barred until a different value resets the streak.

use vstd::prelude::*;
use crate::domain::{Character, Move};

verus! {

/// Consecutive identical character picks by one player.
#[derive(Clone, Copy)]
pub struct CharacterStreak {
    pub repeated_character: Option<Character>,
    pub times: u8,
}

/// Consecutive identical move picks by one player.
#[derive(Clone, Copy)]
pub struct MoveStreak {
    pub repeated_move: Option<Move>,
    pub times: u8,
}

/// The character streak after recording one more pick.
pub open spec fn char_streak_add(s: CharacterStreak, c: Character) -> CharacterStreak {
    if s.repeated_character == Some(c) {
        CharacterStreak { repeated_character: Some(c), times: (s.times + 1) as u8 }
    } else {
        CharacterStreak { repeated_character: Some(c), times: 1 }
    }
}

/// The move streak after recording one more pick.
pub open spec fn move_streak_add(s: MoveStreak, m: Move) -> MoveStreak {
    if s.repeated_move == Some(m) {
        MoveStreak { repeated_move: Some(m), times: (s.times + 1) as u8 }
    } else {
        MoveStreak { repeated_move: Some(m), times: 1 }
    }
}

impl CharacterStreak {
    /// An empty streak: nothing picked yet.
    pub fn new() -> (r: Self)
        ensures
            r.repeated_character == Option::<Character>::None,
            r.times == 0,
    {
        Self { repeated_character: None, times: 0 }
    }

    /// Record one more pick: a repeat lengthens the streak, anything else
    /// starts a fresh streak of one.
    pub fn add(&mut self, new_character: Character)
        requires
            old(self).times < 255,
        ensures
            *final(self) == char_streak_add(*old(self), new_character),
    {
        let is_streak_continued = match self.repeated_character {
            Some(repeated_character) => repeated_character == new_character,
            None => false,
        };

        self.repeated_character = Some(new_character);
        self.times = if is_streak_continued {
            self.times + 1
        } else {
            1
        };
    }
}

impl MoveStreak {
    /// An empty streak: nothing picked yet.
    pub fn new() -> (r: Self)
        ensures
            r.repeated_move == Option::<Move>::None,
            r.times == 0,
    {
        Self { repeated_move: None, times: 0 }
    }

    /// Record one more pick: a repeat lengthens the streak, anything else
    /// starts a fresh streak of one.
    pub fn add(&mut self, new_move: Move)
        requires
            old(self).times < 255,
        ensures
            *final(self) == move_streak_add(*old(self), new_move),
    {
        let is_streak_continued = match self.repeated_move {
            Some(repeated_move) => repeated_move == new_move,
            None => false,
        };

        self.repeated_move = Some(new_move);
        self.times = if is_streak_continued {
            self.times + 1
        } else {
            1
        };
    }
}

} // verus!
