use distance_util::{LeaderboardGameMode, format_score};

#[test]
fn sprint_time_under_an_hour_renders_all_four_fields() {
    let formatted = format_score(83450, LeaderboardGameMode::Sprint).unwrap();
    assert_eq!(formatted, "00:01:23.45");
}

#[test]
fn sprint_time_with_hours() {
    let formatted = format_score(17767890, LeaderboardGameMode::Sprint).unwrap();
    assert_eq!(formatted, "04:56:07.89");
}

#[test]
fn challenge_uses_the_same_time_code_as_sprint() {
    let formatted = format_score(17767890, LeaderboardGameMode::Challenge).unwrap();
    assert_eq!(formatted, "04:56:07.89");
}

#[test]
fn stunt_score_is_grouped_with_commas() {
    let formatted = format_score(123_456, LeaderboardGameMode::Stunt).unwrap();
    assert_eq!(formatted, "123,456 eV");
}

#[test]
fn zero_time_renders_as_all_zeros() {
    let formatted = format_score(0, LeaderboardGameMode::Sprint).unwrap();
    assert_eq!(formatted, "00:00:00.00");
}

#[test]
fn times_past_24_hours_do_not_wrap() {
    let formatted = format_score(86_400_000, LeaderboardGameMode::Sprint).unwrap();
    assert_eq!(formatted, "24:00:00.00");
}

#[test]
fn largest_score_renders_as_time_without_failing() {
    let formatted = format_score(i32::MAX, LeaderboardGameMode::Sprint).unwrap();
    assert_eq!(formatted, "596:31:23.64");
}

#[test]
fn largest_score_renders_as_points_without_failing() {
    let formatted = format_score(i32::MAX, LeaderboardGameMode::Stunt).unwrap();
    assert_eq!(formatted, "2,147,483,647 eV");
}

#[test]
fn stunt_grouping_boundaries() {
    assert_eq!(format_score(0, LeaderboardGameMode::Stunt).unwrap(), "0 eV");
    assert_eq!(format_score(999, LeaderboardGameMode::Stunt).unwrap(), "999 eV");
    assert_eq!(format_score(1_000, LeaderboardGameMode::Stunt).unwrap(), "1,000 eV");
    assert_eq!(format_score(999_999, LeaderboardGameMode::Stunt).unwrap(), "999,999 eV");
    assert_eq!(format_score(1_000_000, LeaderboardGameMode::Stunt).unwrap(), "1,000,000 eV");
}

#[test]
fn negative_score_fails_in_every_mode() {
    for mode in [
        LeaderboardGameMode::Sprint,
        LeaderboardGameMode::Stunt,
        LeaderboardGameMode::Challenge,
    ] {
        let err = format_score(-1, mode).unwrap_err();
        assert_eq!(err.score(), -1);
        let err = format_score(i32::MIN, mode).unwrap_err();
        assert_eq!(err.score(), i32::MIN);
    }
}

#[test]
fn negative_score_error_message_names_the_score() {
    let err = format_score(-1, LeaderboardGameMode::Sprint).unwrap_err();
    assert_eq!(err.message(), "The score \"-1\" is invalid because it's negative");
}

#[test]
fn non_negative_scores_never_fail() {
    for score in [0, 1, 9, 10, 99, 100, 1_000, 59_999, 3_599_999, i32::MAX] {
        assert!(format_score(score, LeaderboardGameMode::Sprint).is_ok());
        assert!(format_score(score, LeaderboardGameMode::Stunt).is_ok());
        assert!(format_score(score, LeaderboardGameMode::Challenge).is_ok());
    }
}

#[test]
fn sprint_output_matches_the_time_code_pattern() {
    for score in [0, 1, 83450, 17767890, 359_999_999] {
        let formatted = format_score(score, LeaderboardGameMode::Sprint).unwrap();
        let chars: Vec<char> = formatted.chars().collect();
        assert_eq!(chars.len(), 11);
        for (i, c) in chars.iter().enumerate() {
            match i {
                2 | 5 => assert_eq!(*c, ':'),
                8 => assert_eq!(*c, '.'),
                _ => assert!(c.is_ascii_digit()),
            }
        }
    }
}

#[test]
fn stunt_grouping_partitions_digits_in_threes_from_the_right() {
    for score in [0, 5, 42, 100, 1_234, 98_765, 123_456, 1_000_000, i32::MAX] {
        let formatted = format_score(score, LeaderboardGameMode::Stunt).unwrap();
        let body = formatted.strip_suffix(" eV").unwrap();
        assert!(body.chars().all(|c| c.is_ascii_digit() || c == ','));
        let ungrouped: String = body.chars().filter(|c| *c != ',').collect();
        assert_eq!(ungrouped, score.to_string());
        for (i, c) in body.chars().enumerate() {
            let from_right = body.len() - i;
            assert_eq!(c == ',', from_right % 4 == 0);
        }
    }
}
