use nocheat::types::{DefaultPlayerData, PlayerStats, Score};
use nocheat::{attach_scores, build_dataframe, df_to_ndarray, prepare_analysis, ColumnData};
use nocheat::table::derive_ratios;
use nocheat::types::AnalysisError;

fn weapon_counts(pairs: &[(&str, u32)]) -> Vec<(String, u32)> {
    pairs.iter().map(|(name, count)| (name.to_string(), *count)).collect()
}

fn record(id: &str, shots: &[(&str, u32)], hits: &[(&str, u32)], headshots: u32)
    -> PlayerStats<DefaultPlayerData> {
    PlayerStats {
        player_id: id.to_string(),
        data: DefaultPlayerData {
            shots_fired: weapon_counts(shots),
            hits: weapon_counts(hits),
            headshots,
            shot_timestamps_ms: None,
            training_label: None,
        },
    }
}

fn create_test_stats() -> Vec<PlayerStats<DefaultPlayerData>> {
    vec![
        record("normal_player", &[("rifle", 100)], &[("rifle", 50)], 10),
        record(
            "suspicious_player",
            &[("rifle", 100), ("pistol", 50)],
            &[("rifle", 90), ("pistol", 45)],
            50,
        ),
    ]
}

fn counts_column(table: &nocheat::StatTable, name: &str) -> Vec<u32> {
    match &table.column(&name.to_string()).unwrap().data {
        ColumnData::Counts(v) => v.clone(),
        _ => panic!("expected a count column"),
    }
}

fn text_column(table: &nocheat::StatTable, name: &str) -> Vec<String> {
    match &table.column(&name.to_string()).unwrap().data {
        ColumnData::Text(v) => v.clone(),
        _ => panic!("expected a text column"),
    }
}

fn ratio_as_f32(r: &nocheat::Ratio) -> f32 {
    r.num as f32 / r.den as f32
}

#[test]
fn test_build_dataframe_columns() {
    let stats = create_test_stats();
    let df = build_dataframe(&stats).expect("DataFrame creation failed");

    assert_eq!(df.height(), 2);
    assert_eq!(df.width(), 4);
    assert!(df.column(&"player_id".to_string()).is_some());
    assert!(df.column(&"shots".to_string()).is_some());
    assert!(df.column(&"hits".to_string()).is_some());
    assert!(df.column(&"headshots".to_string()).is_some());
}

#[test]
fn test_build_dataframe_values() {
    let stats = create_test_stats();
    let df = build_dataframe(&stats).expect("DataFrame creation failed");

    let player_ids = text_column(&df, "player_id");
    assert!(player_ids[0].contains("normal_player"));
    assert!(player_ids[1].contains("suspicious_player"));

    let shots = counts_column(&df, "shots");
    assert_eq!(shots[0], 100);
    assert_eq!(shots[1], 150);

    let hits = counts_column(&df, "hits");
    assert_eq!(hits[0], 50);
    assert_eq!(hits[1], 135);

    let headshots = counts_column(&df, "headshots");
    assert_eq!(headshots[0], 10);
    assert_eq!(headshots[1], 50);
}

#[test]
fn test_df_to_ndarray_conversion() {
    let stats = create_test_stats();
    let df = build_dataframe(&stats).expect("DataFrame creation failed");

    let df = df
        .with_ratio_column(
            "test_ratio".to_string(),
            &"headshots".to_string(),
            &"shots".to_string(),
        )
        .expect("Failed to compute test_ratio");

    let features = df_to_ndarray(&df, &vec!["test_ratio".to_string()]).expect("Failed to convert");

    assert_eq!(features.rows.len(), 2);
    assert_eq!(features.rows[0].len(), 1);

    let expected_normal = 10.0 / 100.0;
    let expected_suspicious = 50.0 / 150.0;

    let tolerance = 1e-5;
    assert!((ratio_as_f32(&features.rows[0][0]) - expected_normal).abs() < tolerance);
    assert!((ratio_as_f32(&features.rows[1][0]) - expected_suspicious).abs() < tolerance);
}

#[test]
fn test_build_dataframe() {
    let stats = vec![record("player1", &[("rifle", 100)], &[("rifle", 50)], 10)];
    let df = build_dataframe(&stats).expect("DataFrame creation failed");
    assert_eq!(df.height(), 1);
    assert_eq!(counts_column(&df, "shots")[0], 100);
    assert_eq!(counts_column(&df, "hits")[0], 50);
    assert_eq!(counts_column(&df, "headshots")[0], 10);
}

#[test]
fn test_df_to_ndarray() {
    let stats = vec![record("player1", &[("rifle", 100)], &[("rifle", 50)], 10)];
    let df = build_dataframe(&stats).unwrap();
    let df = derive_ratios(df).unwrap();
    let arr = df_to_ndarray(
        &df,
        &vec!["hit_rate".to_string(), "headshot_rate".to_string()],
    )
    .expect("ndarray conversion");
    assert_eq!(arr.rows.len(), 1);
    assert_eq!(arr.rows[0].len(), 2);
    let hr = ratio_as_f32(&arr.rows[0][0]);
    let hrate = 50.0 / 100.0;
    assert!((hr - hrate).abs() < 1e-6);
}

#[test]
fn single_record_table_row_is_exact() {
    // One record with 100 rifle shots, 50 hits and 10 headshots gives the
    // exact row: shots 100, hits 50, headshots 10, hit_rate 0.5,
    // headshot_rate 0.2.
    let stats = vec![record("p", &[("rifle", 100)], &[("rifle", 50)], 10)];
    let df = build_dataframe(&stats).unwrap();
    assert_eq!(counts_column(&df, "shots")[0], 100);
    assert_eq!(counts_column(&df, "hits")[0], 50);
    assert_eq!(counts_column(&df, "headshots")[0], 10);

    let df = derive_ratios(df).unwrap();
    let m = df_to_ndarray(
        &df,
        &vec!["hit_rate".to_string(), "headshot_rate".to_string()],
    )
    .unwrap();
    assert_eq!(ratio_as_f32(&m.rows[0][0]), 0.5);
    assert_eq!(ratio_as_f32(&m.rows[0][1]), 0.2);
}

#[test]
fn zero_denominators_yield_zero_cells() {
    // A record with no shots and no hits must still produce a row, with
    // both derived rates defined as exactly zero.
    let stats = vec![record("silent", &[], &[], 3)];
    let df = derive_ratios(build_dataframe(&stats).unwrap()).unwrap();
    let m = df_to_ndarray(
        &df,
        &vec!["hit_rate".to_string(), "headshot_rate".to_string()],
    )
    .unwrap();
    assert_eq!(m.rows.len(), 1);
    assert_eq!(ratio_as_f32(&m.rows[0][0]), 0.0);
    assert_eq!(ratio_as_f32(&m.rows[0][1]), 0.0);
}

#[test]
fn empty_batch_builds_empty_table() {
    let stats: Vec<PlayerStats<DefaultPlayerData>> = Vec::new();
    let df = build_dataframe(&stats).expect("empty batch must be valid");
    assert_eq!(df.height(), 0);
    assert_eq!(df.width(), 4);
}

#[test]
fn summation_overflow_is_reported() {
    let stats = vec![record(
        "overflowing",
        &[("rifle", u32::MAX), ("pistol", u32::MAX)],
        &[("rifle", 1)],
        0,
    )];
    let err = build_dataframe(&stats).unwrap_err();
    assert_eq!(err, AnalysisError::Overflow);
}

#[test]
fn missing_column_is_reported() {
    let stats = vec![record("p", &[("rifle", 10)], &[("rifle", 5)], 1)];
    let df = build_dataframe(&stats).unwrap();
    let err = df_to_ndarray(&df, &vec!["no_such_column".to_string()]).unwrap_err();
    assert_eq!(err, AnalysisError::ColumnNotFound("no_such_column".to_string()));
}

#[test]
fn text_column_is_a_type_mismatch() {
    let stats = vec![record("p", &[("rifle", 10)], &[("rifle", 5)], 1)];
    let df = build_dataframe(&stats).unwrap();
    let err = df_to_ndarray(&df, &vec!["player_id".to_string()]).unwrap_err();
    assert_eq!(err, AnalysisError::TypeMismatch("player_id".to_string()));
}

#[test]
fn analysis_preserves_batch_order_and_length() {
    // One result per record, in input order, identifier matching, with
    // the high-hit-rate flag exactly where hit_rate > 0.8.
    let stats = vec![
        record("steady", &[("rifle", 100)], &[("rifle", 50)], 10),
        record("sharp", &[("rifle", 100)], &[("rifle", 90)], 50),
    ];
    let plan = prepare_analysis(&stats).expect("analysis preparation failed");
    assert_eq!(plan.player_ids.len(), 2);
    assert_eq!(plan.features.rows.len(), 2);
    assert_eq!(plan.flags.len(), 2);
    assert_eq!(plan.player_ids[0], "steady");
    assert_eq!(plan.player_ids[1], "sharp");
    assert_eq!(plan.flags[0], Vec::<String>::new());
    assert_eq!(plan.flags[1], vec!["HighHitRate".to_string()]);

    let scores = vec![Score { micros: 120_000 }, Score { micros: 930_000 }];
    let response = attach_scores(plan, &scores);
    assert_eq!(response.results.len(), stats.len());
    assert_eq!(response.results[0].player_id, "steady");
    assert_eq!(response.results[1].player_id, "sharp");
    assert_eq!(response.results[0].data.suspicion_score.micros, 120_000);
    assert_eq!(response.results[1].data.suspicion_score.micros, 930_000);
    assert_eq!(response.results[0].data.flags, Vec::<String>::new());
    assert_eq!(response.results[1].data.flags, vec!["HighHitRate".to_string()]);
}

#[test]
fn high_hit_rate_flag_threshold_is_strict() {
    // Exactly 0.8 raises no flag; just above does.
    let stats = vec![
        record("at", &[("rifle", 100)], &[("rifle", 80)], 0),
        record("above", &[("rifle", 100)], &[("rifle", 81)], 0),
    ];
    let plan = prepare_analysis(&stats).unwrap();
    assert!(plan.flags[0].is_empty());
    assert_eq!(plan.flags[1], vec!["HighHitRate".to_string()]);
}
