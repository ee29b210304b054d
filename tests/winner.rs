use rock_paper_scissors::Winner;

#[test]
fn test_winner_convert_to_string_works() {
    assert_eq!(Winner::User.convert_to_string(), "User");

    assert_eq!(Winner::Enemy.convert_to_string(), "Enemy");

    assert_eq!(Winner::Tie.convert_to_string(), "Tie");
}

#[test]
fn convert_winner_to_string_works() {
    let winner = Winner::Tie;
    assert_eq!(winner.convert_to_string(), "Tie");
    let winner = Winner::User;
    assert_eq!(winner.convert_to_string(), "User");
    let winner = Winner::Enemy;
    assert_eq!(winner.convert_to_string(), "Enemy");
}
