use nzsc_engine::domain::{Booster, Character, Move};
use nzsc_engine::game::{NZSCTwoPlayerGame, Phase, WhichPlayer};
use nzsc_engine::players::{BoosterlessPlayer, CharacterlessPlayer, MovelessPlayer};
use nzsc_engine::streaks::{CharacterStreak, MoveStreak};

#[test]
fn fresh_match_state() {
    let g = NZSCTwoPlayerGame::new();
    if let Phase::CharacterChoosing(ref a, ref b) = &g.phase {
        assert_eq!(a.points, 0);
        assert_eq!(a.waits, 4);
        assert_eq!(a.character_streak.times, 0);
        assert!(a.selected_character.is_none());
        assert_eq!(b.points, 0);
        assert_eq!(b.waits, 4);
    } else {
        panic!();
    }
}

/// Invalid strings drain waits before they ever cost points, and only the
/// exhausted budget converts further invalid choices into opponent points.
#[test]
fn penalty_ladder_in_character_phase() {
    let mut g = NZSCTwoPlayerGame::new();

    g.process_choice(WhichPlayer::PlayerA, "not a character".to_string()).unwrap();
    g.process_choice(WhichPlayer::PlayerB, "also wrong".to_string()).unwrap();

    if let Phase::CharacterChoosing(ref a, ref b) = &g.phase {
        assert_eq!(a.waits, 0);
        assert_eq!(b.waits, 0);
        assert_eq!(a.points, 0);
        assert_eq!(b.points, 0);
    } else {
        panic!();
    }

    for round in 1..=4u8 {
        g.process_choice(WhichPlayer::PlayerA, "junk".to_string()).unwrap();
        g.process_choice(WhichPlayer::PlayerB, "junk".to_string()).unwrap();
        if let Phase::CharacterChoosing(ref a, ref b) = &g.phase {
            assert_eq!(a.points, round);
            assert_eq!(b.points, round);
            assert_eq!(a.waits, 0);
            assert_eq!(b.waits, 0);
        } else {
            panic!();
        }
    }
}

/// Both sides reaching five with equal totals is not game over: the scores
/// are clamped back to four and the move phase continues as sudden death.
#[test]
fn exact_tie_clamps_to_four() {
    let mut g = NZSCTwoPlayerGame::new();

    // Pump both scores to four through the penalty ladder.
    for _ in 0..5 {
        g.process_choice(WhichPlayer::PlayerA, "junk".to_string()).unwrap();
    }
    for _ in 0..5 {
        g.process_choice(WhichPlayer::PlayerB, "junk".to_string()).unwrap();
    }
    if let Phase::CharacterChoosing(ref a, ref b) = &g.phase {
        assert_eq!(a.points, 4);
        assert_eq!(b.points, 4);
    } else {
        panic!();
    }

    // Zombie and Samurai give no head start in either direction.
    g.process_choice(WhichPlayer::PlayerA, "Zombie".to_string()).unwrap();
    g.process_choice(WhichPlayer::PlayerB, "Samurai".to_string()).unwrap();
    g.process_choice(WhichPlayer::PlayerA, "None".to_string()).unwrap();
    g.process_choice(WhichPlayer::PlayerB, "Atlas".to_string()).unwrap();

    // Muscle and Lightning beat each other: both reach five at once.
    g.process_choice(WhichPlayer::PlayerA, "Muscle".to_string()).unwrap();
    g.process_choice(WhichPlayer::PlayerB, "Lightning".to_string()).unwrap();

    if let Phase::MoveChoosing(ref a, ref b) = &g.phase {
        assert_eq!(a.points, 4);
        assert_eq!(b.points, 4);
    } else {
        panic!("match should continue in sudden death");
    }
}

/// Once the match is over every call is rejected and the payload is frozen.
#[test]
fn game_over_rejects_everything() {
    let mut g = NZSCTwoPlayerGame::new();
    for _ in 0..6 {
        g.process_choice(WhichPlayer::PlayerA, "junk".to_string()).unwrap();
    }
    if let Phase::GameOver(a, b) = &g.phase {
        assert_eq!(*a, 0);
        assert_eq!(*b, 5);
    } else {
        panic!();
    }

    assert_eq!(g.process_choice(WhichPlayer::PlayerA, "Ninja".to_string()), Err(()));
    assert_eq!(g.process_choice(WhichPlayer::PlayerB, "junk".to_string()), Err(()));
    if let Phase::GameOver(a, b) = &g.phase {
        assert_eq!(*a, 0);
        assert_eq!(*b, 5);
    } else {
        panic!();
    }
}

/// The name parsers ignore case and whitespace, so an oddly spelled real
/// name is a valid pick, not a penalty.
#[test]
fn parsing_ignores_case_and_whitespace() {
    let mut g = NZSCTwoPlayerGame::new();
    g.process_choice(WhichPlayer::PlayerA, "  zOm BiE ".to_string()).unwrap();
    if let Phase::CharacterChoosing(ref a, ref b) = &g.phase {
        assert_eq!(a.selected_character, Some(Character::Zombie));
        assert_eq!(a.waits, 4);
        assert_eq!(b.points, 0);
    } else {
        panic!();
    }
    g.process_choice(WhichPlayer::PlayerB, "SAMURAI".to_string()).unwrap();
    if let Phase::BoosterChoosing(ref a, ref b) = &g.phase {
        assert_eq!(a.character, Character::Zombie);
        assert_eq!(b.character, Character::Samurai);
    } else {
        panic!();
    }
}

/// Picking the same character three times in a row bars it: the fourth
/// identical pick is penalized at three waits instead of being recorded.
#[test]
fn character_streak_bars_fourth_pick() {
    let mut g = NZSCTwoPlayerGame::new();
    for _ in 0..3 {
        g.process_choice(WhichPlayer::PlayerA, "Ninja".to_string()).unwrap();
        g.process_choice(WhichPlayer::PlayerB, "Ninja".to_string()).unwrap();
    }
    if let Phase::CharacterChoosing(ref a, ref b) = &g.phase {
        assert_eq!(a.character_streak.times, 3);
        assert_eq!(b.character_streak.times, 3);
        assert!(a.selected_character.is_none());
        assert!(b.selected_character.is_none());
    } else {
        panic!();
    }

    g.process_choice(WhichPlayer::PlayerA, "Ninja".to_string()).unwrap();
    if let Phase::CharacterChoosing(ref a, ref b) = &g.phase {
        assert_eq!(a.waits, 1);
        assert!(a.selected_character.is_none());
        assert_eq!(b.points, 0);
    } else {
        panic!();
    }

    // A different character resets the streak and is accepted.
    g.process_choice(WhichPlayer::PlayerA, "Clown".to_string()).unwrap();
    if let Phase::CharacterChoosing(ref a, _) = &g.phase {
        assert_eq!(a.selected_character, Some(Character::Clown));
    } else {
        panic!();
    }
}

/// A booster belonging to another character costs three waits.
#[test]
fn foreign_booster_is_penalized() {
    let mut g = NZSCTwoPlayerGame::new();
    g.process_choice(WhichPlayer::PlayerA, "Ninja".to_string()).unwrap();
    g.process_choice(WhichPlayer::PlayerB, "Zombie".to_string()).unwrap();

    // Atlas belongs to Samurai, not Ninja.
    g.process_choice(WhichPlayer::PlayerA, "Atlas".to_string()).unwrap();
    if let Phase::BoosterChoosing(ref a, ref b) = &g.phase {
        assert_eq!(a.waits, 1);
        assert!(a.selected_booster.is_none());
        assert_eq!(b.points, 0);
    } else {
        panic!();
    }

    // An unparseable booster costs four.
    g.process_choice(WhichPlayer::PlayerB, "no such booster".to_string()).unwrap();
    if let Phase::BoosterChoosing(ref a, ref b) = &g.phase {
        assert_eq!(b.waits, 0);
        assert_eq!(a.points, 0);
    } else {
        panic!();
    }
}

/// The graduated costs of illegal moves: a move of a booster the character
/// could have equipped costs two waits; a recognized move from another
/// character's kit costs three.
#[test]
fn illegal_move_costs_are_graduated() {
    let mut g = NZSCTwoPlayerGame::new();
    g.process_choice(WhichPlayer::PlayerA, "Ninja".to_string()).unwrap();
    g.process_choice(WhichPlayer::PlayerB, "Clown".to_string()).unwrap();
    g.process_choice(WhichPlayer::PlayerA, "Shadow".to_string()).unwrap();
    g.process_choice(WhichPlayer::PlayerB, "Moustachio".to_string()).unwrap();

    // Run In Circles belongs to Speedy, a booster Ninja could have taken.
    g.process_choice(WhichPlayer::PlayerA, "Run In Circles".to_string()).unwrap();
    if let Phase::MoveChoosing(ref a, _) = &g.phase {
        assert_eq!(a.waits, 2);
    } else {
        panic!();
    }

    // Kick is Ninja's own move: illegal for the Clown seat at cost three.
    g.process_choice(WhichPlayer::PlayerB, "Kick".to_string()).unwrap();
    if let Phase::MoveChoosing(_, ref b) = &g.phase {
        assert_eq!(b.waits, 1);
    } else {
        panic!();
    }
}

/// A destroyed move is gone for the rest of the match: it never shows up in
/// the available set again, and replaying it costs four waits.
#[test]
fn destroyed_moves_stay_destroyed() {
    let mut g = NZSCTwoPlayerGame::new();
    g.process_choice(WhichPlayer::PlayerA, "Ninja".to_string()).unwrap();
    g.process_choice(WhichPlayer::PlayerB, "Clown".to_string()).unwrap();
    g.process_choice(WhichPlayer::PlayerA, "Shadow".to_string()).unwrap();
    g.process_choice(WhichPlayer::PlayerB, "Moustachio".to_string()).unwrap();

    g.process_choice(WhichPlayer::PlayerA, "Shadow Fireball".to_string()).unwrap();
    g.process_choice(WhichPlayer::PlayerB, "Acid Spray".to_string()).unwrap();

    if let Phase::MoveChoosing(ref a, ref b) = &g.phase {
        assert!(!a.available_moves().contains(&Move::ShadowFireball));
        assert!(!b.available_moves().contains(&Move::AcidSpray));
        assert!(a.available_moves().contains(&Move::Kick));
    } else {
        panic!();
    }

    g.process_choice(WhichPlayer::PlayerA, "Shadow Fireball".to_string()).unwrap();
    if let Phase::MoveChoosing(ref a, ref b) = &g.phase {
        assert_eq!(a.waits, 0);
        assert!(a.selected_move.is_none());
        assert_eq!(b.points, 1);
    } else {
        panic!();
    }
}

/// A pending move blocks a second pick in the same sub-round.
#[test]
fn cant_pick_move_twice() {
    let mut g = NZSCTwoPlayerGame::new();
    g.process_choice(WhichPlayer::PlayerA, "Ninja".to_string()).unwrap();
    g.process_choice(WhichPlayer::PlayerB, "Clown".to_string()).unwrap();
    g.process_choice(WhichPlayer::PlayerA, "Shadow".to_string()).unwrap();
    g.process_choice(WhichPlayer::PlayerB, "Moustachio".to_string()).unwrap();

    g.process_choice(WhichPlayer::PlayerA, "Kick".to_string()).unwrap();
    let e = g.process_choice(WhichPlayer::PlayerA, "Nunchucks".to_string());
    assert_eq!(e, Err(()));

    if let Phase::MoveChoosing(ref a, _) = &g.phase {
        assert_eq!(a.selected_move, Some(Move::Kick));
        assert_eq!(a.waits, 4);
    } else {
        panic!();
    }
}

/// A pending booster blocks a second pick in the same sub-round.
#[test]
fn cant_pick_booster_twice() {
    let mut g = NZSCTwoPlayerGame::new();
    g.process_choice(WhichPlayer::PlayerA, "Ninja".to_string()).unwrap();
    g.process_choice(WhichPlayer::PlayerB, "Clown".to_string()).unwrap();

    g.process_choice(WhichPlayer::PlayerB, "Backwards".to_string()).unwrap();
    let e = g.process_choice(WhichPlayer::PlayerB, "Moustachio".to_string());
    assert_eq!(e, Err(()));
}

#[test]
fn available_characters_respects_streak() {
    let p = CharacterlessPlayer {
        points: 0,
        waits: 4,
        character_streak: CharacterStreak { repeated_character: Some(Character::Ninja), times: 3 },
        selected_character: None,
    };
    assert_eq!(
        p.available_characters(),
        vec![Character::Zombie, Character::Samurai, Character::Clown]
    );

    let q = CharacterlessPlayer {
        points: 0,
        waits: 4,
        character_streak: CharacterStreak { repeated_character: Some(Character::Ninja), times: 2 },
        selected_character: None,
    };
    assert_eq!(
        q.available_characters(),
        vec![Character::Ninja, Character::Zombie, Character::Samurai, Character::Clown]
    );
}

#[test]
fn available_boosters_come_from_the_character() {
    let p = BoosterlessPlayer {
        points: 0,
        waits: 4,
        character: Character::Ninja,
        selected_booster: None,
    };
    assert_eq!(
        p.available_boosters(),
        vec![Booster::Shadow, Booster::Speedy, Booster::NoBooster]
    );
}

#[test]
fn available_moves_filter_destroyed_and_streak() {
    let p = MovelessPlayer {
        points: 0,
        waits: 4,
        character: Character::Ninja,
        booster: Booster::Shadow,
        move_streak: MoveStreak { repeated_move: Some(Move::Kick), times: 3 },
        destroyed_moves: vec![Move::ShadowFireball],
        selected_move: None,
    };
    assert_eq!(
        p.available_moves(),
        vec![Move::NinjaSword, Move::Nunchucks, Move::ShadowSlip]
    );
}

#[test]
fn penalize_spends_waits_before_points() {
    let mut p = CharacterlessPlayer::new();
    assert_eq!(p.penalize(3), 0);
    assert_eq!(p.waits, 1);
    assert_eq!(p.penalize(3), 1);
    assert_eq!(p.waits, 0);
    assert_eq!(p.points, 0);

    let mut q = BoosterlessPlayer {
        points: 2,
        waits: 4,
        character: Character::Clown,
        selected_booster: None,
    };
    assert_eq!(q.penalize(4), 0);
    assert_eq!(q.waits, 0);
    assert_eq!(q.penalize(2), 1);
    assert_eq!(q.waits, 0);

    let mut m = MovelessPlayer {
        points: 0,
        waits: 1,
        character: Character::Ninja,
        booster: Booster::NoBooster,
        move_streak: MoveStreak { repeated_move: None, times: 0 },
        destroyed_moves: vec![],
        selected_move: None,
    };
    assert_eq!(m.penalize(2), 1);
    assert_eq!(m.waits, 0);
}

#[test]
fn streaks_count_repeats_and_reset() {
    let mut s = CharacterStreak::new();
    assert_eq!(s.times, 0);
    s.add(Character::Ninja);
    assert_eq!(s.times, 1);
    s.add(Character::Ninja);
    assert_eq!(s.times, 2);
    s.add(Character::Clown);
    assert_eq!(s.times, 1);
    assert_eq!(s.repeated_character, Some(Character::Clown));

    let mut t = MoveStreak::new();
    t.add(Move::Kick);
    t.add(Move::Kick);
    t.add(Move::Kick);
    assert_eq!(t.times, 3);
    assert_eq!(t.repeated_move, Some(Move::Kick));
}

/// The stage transitions carry points and waits forward and seed the next
/// stage fresh.
#[test]
fn stage_transitions_carry_score() {
    let mut p = CharacterlessPlayer::new();
    p.points = 3;
    p.waits = 2;
    let b = p.to_boosterless_player(Character::Samurai);
    assert_eq!(b.points, 3);
    assert_eq!(b.waits, 2);
    assert_eq!(b.character, Character::Samurai);
    assert!(b.selected_booster.is_none());

    let m = b.to_moveless_player(Booster::Strong);
    assert_eq!(m.points, 3);
    assert_eq!(m.waits, 2);
    assert_eq!(m.character, Character::Samurai);
    assert_eq!(m.booster, Booster::Strong);
    assert_eq!(m.move_streak.times, 0);
    assert_eq!(m.destroyed_moves.len(), 0);
    assert!(m.selected_move.is_none());
}

/// Flipping a phase exchanges the seats and flipping twice restores it.
#[test]
fn flip_exchanges_seats() {
    let mut g = NZSCTwoPlayerGame::new();
    g.process_choice(WhichPlayer::PlayerA, "Ninja".to_string()).unwrap();
    g.process_choice(WhichPlayer::PlayerB, "Clown".to_string()).unwrap();

    let flipped = g.phase.flip_a_and_b();
    if let Phase::BoosterChoosing(ref a, ref b) = &flipped {
        assert_eq!(a.character, Character::Clown);
        assert_eq!(b.character, Character::Ninja);
    } else {
        panic!();
    }
    let back = flipped.flip_a_and_b();
    if let Phase::BoosterChoosing(ref a, ref b) = &back {
        assert_eq!(a.character, Character::Ninja);
        assert_eq!(b.character, Character::Clown);
    } else {
        panic!();
    }
}
