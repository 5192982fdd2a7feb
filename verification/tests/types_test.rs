use nocheat::types::{
    AnalysisResponse, Analyzable, DefaultAnalysisResult, DefaultPlayerData, PlayerResult,
    PlayerStats, Score,
};

fn weapon_counts(pairs: &[(&str, u32)]) -> Vec<(String, u32)> {
    pairs.iter().map(|(name, count)| (name.to_string(), *count)).collect()
}

fn count_of(counts: &[(String, u32)], name: &str) -> u32 {
    counts.iter().find(|(n, _)| n == name).map(|(_, c)| *c).unwrap()
}

fn ratio_as_f64(r: &nocheat::Ratio) -> f64 {
    r.num as f64 / r.den as f64
}

#[test]
fn test_player_stats_creation() {
    let player_data = DefaultPlayerData {
        shots_fired: weapon_counts(&[("rifle", 100), ("pistol", 20)]),
        hits: weapon_counts(&[("rifle", 50), ("pistol", 15)]),
        headshots: 10,
        shot_timestamps_ms: Some(vec![100, 200, 300]),
        training_label: None,
    };

    let stats = PlayerStats::new("player123".to_string(), player_data);

    assert_eq!(stats.player_id, "player123");
    assert_eq!(count_of(&stats.data.shots_fired, "rifle"), 100);
    assert_eq!(count_of(&stats.data.hits, "pistol"), 15);
    assert_eq!(stats.data.headshots, 10);
    assert_eq!(stats.data.shot_timestamps_ms.unwrap().len(), 3);
}

#[test]
fn test_player_result_creation() {
    let result_data = DefaultAnalysisResult {
        suspicion_score: Score { micros: 750_000 },
        flags: vec!["HighHeadshotRatio".to_string(), "AimSnap".to_string()],
    };

    let result = PlayerResult::new("player123".to_string(), result_data);

    assert_eq!(result.player_id, "player123");
    assert_eq!(result.data.suspicion_score.micros, 750_000);
    assert_eq!(result.data.flags.len(), 2);
    assert!(result.data.flags.contains(&"HighHeadshotRatio".to_string()));
}

#[test]
fn test_analysis_response_creation() {
    let response = AnalysisResponse {
        results: vec![
            PlayerResult::new(
                "player123".to_string(),
                DefaultAnalysisResult {
                    suspicion_score: Score { micros: 750_000 },
                    flags: vec!["HighHeadshotRatio".to_string()],
                },
            ),
            PlayerResult::new(
                "player456".to_string(),
                DefaultAnalysisResult {
                    suspicion_score: Score { micros: 200_000 },
                    flags: vec![],
                },
            ),
        ],
    };

    assert_eq!(response.results.len(), 2);
    assert_eq!(response.results[0].player_id, "player123");
    assert_eq!(response.results[1].player_id, "player456");
}

#[test]
fn test_convert_player_stats() {
    #[derive(Clone, Debug)]
    struct SimpleData {
        accuracy: f32,
        headshot_ratio: f32,
    }

    let player_data = DefaultPlayerData {
        shots_fired: weapon_counts(&[("rifle", 100)]),
        hits: weapon_counts(&[("rifle", 50)]),
        headshots: 10,
        shot_timestamps_ms: None,
        training_label: None,
    };

    let legacy_stats = PlayerStats::new("player123".to_string(), player_data);

    let custom_stats = legacy_stats.convert(|data| {
        let accuracy = data.calculate_accuracy_rate();
        let headshot_ratio = data.calculate_headshot_ratio();

        SimpleData {
            accuracy: (accuracy.num as f32) / (accuracy.den as f32),
            headshot_ratio: (headshot_ratio.num as f32) / (headshot_ratio.den as f32),
        }
    });

    assert_eq!(custom_stats.player_id, "player123");
    assert_eq!(custom_stats.data.accuracy, 0.5);
    assert_eq!(custom_stats.data.headshot_ratio, 0.2);
}

#[test]
fn test_analyzable_trait() {
    let player_data = DefaultPlayerData {
        shots_fired: weapon_counts(&[("rifle", 100), ("pistol", 50)]),
        hits: weapon_counts(&[("rifle", 90), ("pistol", 40)]),
        headshots: 70,
        shot_timestamps_ms: None,
        training_label: None,
    };

    let accuracy = player_data.calculate_accuracy_rate();
    assert_eq!(ratio_as_f64(&accuracy), 130.0 / 150.0);

    let headshot_ratio = player_data.calculate_headshot_ratio();
    assert_eq!(ratio_as_f64(&headshot_ratio), 70.0 / 130.0);

    assert!(player_data.is_suspicious());

    let features = player_data.extract_features();
    assert_eq!(features.len(), 2);
    assert_eq!(ratio_as_f64(&features[0]), 130.0 / 150.0);
    assert_eq!(ratio_as_f64(&features[1]), 70.0 / 130.0);
}

#[test]
fn zero_shots_give_zero_accuracy() {
    let player_data = DefaultPlayerData {
        shots_fired: weapon_counts(&[("rifle", 0), ("pistol", 0)]),
        hits: weapon_counts(&[]),
        headshots: 5,
        shot_timestamps_ms: None,
        training_label: None,
    };

    let accuracy = player_data.calculate_accuracy_rate();
    assert_eq!(accuracy.num, 0);
    assert_eq!(accuracy.den, 1);
    assert_eq!(ratio_as_f64(&accuracy), 0.0);
}

#[test]
fn zero_hits_give_zero_headshot_ratio() {
    let player_data = DefaultPlayerData {
        shots_fired: weapon_counts(&[("rifle", 100)]),
        hits: weapon_counts(&[("rifle", 0)]),
        headshots: 7,
        shot_timestamps_ms: None,
        training_label: None,
    };

    let headshot_ratio = player_data.calculate_headshot_ratio();
    assert_eq!(headshot_ratio.num, 0);
    assert_eq!(headshot_ratio.den, 1);
    assert_eq!(ratio_as_f64(&headshot_ratio), 0.0);
}

#[test]
fn ratio_constructor_applies_zero_rule() {
    let zero = nocheat::Ratio::new(7, 0);
    assert_eq!((zero.num, zero.den), (0, 1));
    let plain = nocheat::Ratio::new(3, 4);
    assert_eq!((plain.num, plain.den), (3, 4));
}

#[test]
fn suspicion_thresholds_are_strict() {
    // Exactly 80% accuracy and exactly 50% headshots: not suspicious.
    let at_threshold = DefaultPlayerData {
        shots_fired: weapon_counts(&[("rifle", 100)]),
        hits: weapon_counts(&[("rifle", 80)]),
        headshots: 40,
        shot_timestamps_ms: None,
        training_label: None,
    };
    assert!(!at_threshold.is_suspicious());

    // One hit above 80% accuracy: suspicious.
    let above_accuracy = DefaultPlayerData {
        shots_fired: weapon_counts(&[("rifle", 100)]),
        hits: weapon_counts(&[("rifle", 81)]),
        headshots: 0,
        shot_timestamps_ms: None,
        training_label: None,
    };
    assert!(above_accuracy.is_suspicious());

    // One headshot above 50% of hits: suspicious.
    let above_headshots = DefaultPlayerData {
        shots_fired: weapon_counts(&[("rifle", 100)]),
        hits: weapon_counts(&[("rifle", 80)]),
        headshots: 41,
        shot_timestamps_ms: None,
        training_label: None,
    };
    assert!(above_headshots.is_suspicious());
}
