use distance_util::{
    LeaderboardGameMode, create_leaderboard_name_string, official_level_leaderboard_names,
    official_level_names,
};

#[test]
fn official_level_key_uses_the_mode_id_and_stable_suffix() {
    let name =
        create_leaderboard_name_string("Broken Symmetry", LeaderboardGameMode::Sprint, None)
            .unwrap();
    assert_eq!(name, "Broken Symmetry_1_stable");
}

#[test]
fn each_mode_contributes_its_own_numeric_id() {
    assert_eq!(
        create_leaderboard_name_string("x", LeaderboardGameMode::Sprint, None).unwrap(),
        "x_1_stable"
    );
    assert_eq!(
        create_leaderboard_name_string("x", LeaderboardGameMode::Stunt, None).unwrap(),
        "x_2_stable"
    );
    assert_eq!(
        create_leaderboard_name_string("x", LeaderboardGameMode::Challenge, None).unwrap(),
        "x_8_stable"
    );
}

#[test]
fn workshop_key_includes_the_author_steam_id() {
    let name = create_leaderboard_name_string(
        "my level",
        LeaderboardGameMode::Sprint,
        Some(76561198000000000),
    )
    .unwrap();
    assert_eq!(name, "my level_1_76561198000000000_stable");
}

#[test]
fn key_of_exactly_128_bytes_is_accepted() {
    // 119 bytes of level name plus the 9-byte suffix "_1_stable".
    let level = "a".repeat(119);
    let name =
        create_leaderboard_name_string(&level, LeaderboardGameMode::Sprint, None).unwrap();
    assert_eq!(name.len(), 128);
}

#[test]
fn key_of_129_bytes_is_rejected_with_the_full_name() {
    let level = "a".repeat(120);
    let err =
        create_leaderboard_name_string(&level, LeaderboardGameMode::Sprint, None).unwrap_err();
    let recovered = err.into_leaderboard_name();
    assert_eq!(recovered.len(), 129);
    assert_eq!(recovered, format!("{}_1_stable", level));
}

#[test]
fn too_long_error_message_reports_the_byte_length() {
    let level = "a".repeat(120);
    let err =
        create_leaderboard_name_string(&level, LeaderboardGameMode::Sprint, None).unwrap_err();
    let expected = format!(
        "The generated leaderboard name \"{}_1_stable\" is invalid because it's too long. The maximum valid length is 128 bytes, but it has a length of 129 bytes.",
        level
    );
    assert_eq!(err.message(), expected);
}

#[test]
fn length_limit_counts_bytes_not_characters() {
    // Each 'é' is two bytes in UTF-8. 60 of them plus the 9-byte suffix is
    // 129 bytes but only 69 characters, so the key must be rejected.
    let level = "é".repeat(60);
    assert!(create_leaderboard_name_string(&level, LeaderboardGameMode::Sprint, None).is_err());
    // 59 of them gives 127 bytes, which is accepted.
    let level = "é".repeat(59);
    assert!(create_leaderboard_name_string(&level, LeaderboardGameMode::Sprint, None).is_ok());
}

#[test]
fn building_a_key_is_deterministic() {
    let first = create_leaderboard_name_string("Amusement", LeaderboardGameMode::Sprint, None);
    let second = create_leaderboard_name_string("Amusement", LeaderboardGameMode::Sprint, None);
    assert_eq!(first.unwrap(), second.unwrap());
}

#[test]
fn official_level_names_are_in_presentation_order() {
    let sprint = official_level_names(LeaderboardGameMode::Sprint);
    assert_eq!(sprint.len(), 102);
    assert_eq!(sprint[0], "Broken Symmetry");
    assert_eq!(sprint[1], "Lost Society");

    let stunt = official_level_names(LeaderboardGameMode::Stunt);
    assert_eq!(stunt.len(), 8);
    assert_eq!(stunt[0], "Neon Park");

    let challenge = official_level_names(LeaderboardGameMode::Challenge);
    assert_eq!(challenge.len(), 15);
    assert_eq!(challenge[0], "Dodge");
    assert_eq!(challenge[14], "Transfer");
}

#[test]
fn mode_methods_match_the_free_functions() {
    for mode in [
        LeaderboardGameMode::Sprint,
        LeaderboardGameMode::Stunt,
        LeaderboardGameMode::Challenge,
    ] {
        assert_eq!(mode.official_level_names(), official_level_names(mode));
        assert_eq!(
            mode.official_level_leaderboard_names().unwrap(),
            official_level_leaderboard_names(mode).unwrap()
        );
    }
}

#[test]
fn official_leaderboard_names_cover_every_level() {
    for mode in [
        LeaderboardGameMode::Sprint,
        LeaderboardGameMode::Stunt,
        LeaderboardGameMode::Challenge,
    ] {
        let names = official_level_names(mode);
        let keys = official_level_leaderboard_names(mode).unwrap();
        assert_eq!(keys.len(), names.len());
        for (name, key) in names.iter().zip(keys.iter()) {
            let expected = create_leaderboard_name_string(name, mode, None).unwrap();
            assert_eq!(*key, expected);
        }
    }
}

#[test]
fn first_official_sprint_leaderboard_name() {
    let keys = official_level_leaderboard_names(LeaderboardGameMode::Sprint).unwrap();
    assert_eq!(keys[0], "Broken Symmetry_1_stable");
}

#[test]
fn game_mode_ids_and_names_are_fixed() {
    assert_eq!(LeaderboardGameMode::Sprint.numeric_id(), 1);
    assert_eq!(LeaderboardGameMode::Stunt.numeric_id(), 2);
    assert_eq!(LeaderboardGameMode::Challenge.numeric_id(), 8);
    assert_eq!(LeaderboardGameMode::Sprint.name(), "Sprint");
    assert_eq!(LeaderboardGameMode::Stunt.name(), "Stunt");
    assert_eq!(LeaderboardGameMode::Challenge.name(), "Challenge");
}
