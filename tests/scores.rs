use rock_paper_scissors::{GameError, GameSettings, MoveType, PlayerMoves, Scores, Winner};

#[test]
fn test_scores_new() {
    let scores = Scores::new();

    assert_eq!(scores, Scores {
        user_wins: 0,
        enemy_wins: 0,
    });
}

#[test]
fn check_scores_new() {
    let scores = Scores::new();
    assert_eq!(scores, Scores {
        user_wins: 0,
        enemy_wins: 0,
    });
}

#[test]
fn test_check_for_winner() {
    let game_settings = GameSettings::from_first_to(3).unwrap();

    let scores = Scores {
        user_wins: 3,
        enemy_wins: 1,
    };

    assert_eq!(scores.check_for_winner(&game_settings), Ok(Winner::User));

    let scores = Scores {
        user_wins: 2,
        enemy_wins: 3,
    };

    assert_eq!(scores.check_for_winner(&game_settings), Ok(Winner::Enemy));

    let scores = Scores {
        user_wins: 0,
        enemy_wins: 2,
    };

    assert_eq!(scores.check_for_winner(&game_settings), Err("rock-paper-scissors: err: No winner yet"));
}

#[test]
fn check_for_winner_works() {
    let game_settings = GameSettings::first_to_3();
    let scores = Scores {
        user_wins: 3,
        enemy_wins: 1,
    };
    assert_eq!(scores.check_for_winner(&game_settings), Ok(Winner::User));
    let scores = Scores {
        user_wins: 2,
        enemy_wins: 3
    };
    assert_eq!(scores.check_for_winner(&game_settings), Ok(Winner::Enemy));
    let scores = Scores {
        user_wins: 1,
        enemy_wins: 0,
    };
    assert_eq!(scores.check_for_winner(&game_settings), Err("rock-paper-scissors: err: No winner yet"));
}

#[test]
fn check_for_winner_past_target_and_both_at_target() {
    let game_settings = GameSettings::first_to_3();
    let scores = Scores { user_wins: 5, enemy_wins: 0 };
    assert_eq!(scores.check_for_winner(&game_settings), Ok(Winner::User));
    let scores = Scores { user_wins: 3, enemy_wins: 3 };
    assert_eq!(scores.check_for_winner(&game_settings), Ok(Winner::User));
    let scores = Scores { user_wins: 2, enemy_wins: 2 };
    assert!(scores.check_for_winner(&game_settings).is_err());
}

#[test]
fn test_scores_reset() {
    let mut scores = Scores {
        user_wins: 3,
        enemy_wins: 2,
    };

    scores.reset();

    assert_eq!(scores, Scores {
        user_wins: 0,
        enemy_wins: 0,
    });
}

#[test]
fn reset_twice_leaves_no_winner() {
    let mut scores = Scores { user_wins: 7, enemy_wins: 4 };
    scores.reset();
    let once = scores;
    scores.reset();
    assert_eq!(scores, once);
    assert_eq!(scores, Scores { user_wins: 0, enemy_wins: 0 });
    for target in 1..=255u8 {
        let settings = GameSettings::from_first_to(target).unwrap();
        assert!(scores.check_for_winner(&settings).is_err());
    }
}

#[test]
fn record_round_counts_wins() {
    let rounds = [
        Winner::User,
        Winner::Tie,
        Winner::Enemy,
        Winner::User,
        Winner::Tie,
        Winner::User,
    ];
    let mut scores = Scores::new();
    for w in rounds {
        scores.record_round(w);
    }
    assert_eq!(scores, Scores { user_wins: 3, enemy_wins: 1 });
    scores.record_round(Winner::Tie);
    assert_eq!(scores, Scores { user_wins: 3, enemy_wins: 1 });
}

#[test]
fn first_to_three_match_ends() {
    let settings = GameSettings::first_to_3();
    let mut scores = Scores::new();
    let rounds = [Winner::Enemy, Winner::User, Winner::Enemy, Winner::Tie, Winner::Enemy];
    let mut finished = None;
    for (i, w) in rounds.iter().enumerate() {
        scores.record_round(*w);
        if let Ok(winner) = scores.check_for_winner(&settings) {
            finished = Some((i, winner));
            break;
        }
    }
    assert_eq!(finished, Some((4, Winner::Enemy)));
}

#[test]
fn play_round_counts_and_reports() {
    let settings = GameSettings::first_to_3();
    let mut scores = Scores { user_wins: 2, enemy_wins: 1 };
    let tie = PlayerMoves { user_move: MoveType::Paper, enemy_move: MoveType::Paper };
    assert_eq!(scores.play_round(&tie, &settings), Ok((Winner::Tie, None)));
    assert_eq!(scores, Scores { user_wins: 2, enemy_wins: 1 });
    let lost = PlayerMoves { user_move: MoveType::Paper, enemy_move: MoveType::Scissors };
    assert_eq!(scores.play_round(&lost, &settings), Ok((Winner::Enemy, None)));
    assert_eq!(scores, Scores { user_wins: 2, enemy_wins: 2 });
    let won = PlayerMoves { user_move: MoveType::Rock, enemy_move: MoveType::Scissors };
    assert_eq!(scores.play_round(&won, &settings), Ok((Winner::User, Some(Winner::User))));
    assert_eq!(scores, Scores { user_wins: 3, enemy_wins: 2 });
    let unset = PlayerMoves::new();
    assert_eq!(scores.play_round(&unset, &settings), Err(GameError::InvalidRoundState));
    assert_eq!(scores, Scores { user_wins: 3, enemy_wins: 2 });
}
