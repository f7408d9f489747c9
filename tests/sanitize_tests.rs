use omnipacker::depots::{get_depot_name, get_shared_depot_name, is_shared_depot, sanitize_game_name};

#[test]
fn test_sanitize_game_name_basic() {
    assert_eq!(sanitize_game_name("Balatro"), "Balatro");
    assert_eq!(sanitize_game_name("Half-Life 2"), "Half-Life.2");
    assert_eq!(sanitize_game_name("Portal 2"), "Portal.2");
}

#[test]
fn test_sanitize_game_name_special_chars() {
    assert_eq!(sanitize_game_name("Assassin's Creed"), "Assassins.Creed");
    assert_eq!(sanitize_game_name("Fallout: New Vegas"), "Fallout.New.Vegas");
    assert_eq!(sanitize_game_name("Game/Name\\Test"), "GameNameTest");
}

#[test]
fn test_sanitize_game_name_non_ascii() {
    assert_eq!(sanitize_game_name("Café Game™"), "Caf.Game");
    assert_eq!(sanitize_game_name("日本語ゲーム"), "");
}

#[test]
fn test_sanitize_game_name_preserves_case() {
    assert_eq!(sanitize_game_name("CamelCaseGame"), "CamelCaseGame");
    assert_eq!(sanitize_game_name("ALLCAPS"), "ALLCAPS");
    assert_eq!(sanitize_game_name("lowercase"), "lowercase");
}

#[test]
fn test_sanitize_game_name_complex() {
    assert_eq!(
        sanitize_game_name("The Witcher 3: Wild Hunt - Game of the Year Edition"),
        "The.Witcher.3.Wild.Hunt.-.Game.of.the.Year.Edition"
    );
}

#[test]
fn sanitize_is_idempotent_on_examples() {
    for name in ["Fallout: New Vegas", "Game/Name\\Test", "Café Game™", "a  b", "", "x'y:z"] {
        let once = sanitize_game_name(name);
        assert_eq!(sanitize_game_name(&once), once);
    }
}

#[test]
fn sanitize_keeps_other_ascii_punctuation() {
    assert_eq!(sanitize_game_name("A&B!(C)"), "A&B!(C)");
}

#[test]
fn shared_depot_table() {
    assert!(is_shared_depot("228989"));
    assert!(is_shared_depot("1628210"));
    assert!(!is_shared_depot("47411"));
    assert_eq!(get_shared_depot_name("228985"), Some("VC Redist".to_string()));
    assert_eq!(get_depot_name("47411", true, "Test Game"), "Test Game");
    assert_eq!(get_depot_name("228989", false, "Test Game"), "Steamworks Shared");
    assert_eq!(get_depot_name("47412", false, "Test Game"), "depot_47412");
}
