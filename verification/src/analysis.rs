//! Analysis orchestration: from a batch of stat records to per-player
//! feature rows, rule-based flags, and — once the classifier has scored
//! each row — the final response.
//!
//! The classifier itself is an outside floating-point service, so the
//! orchestration is split in two verified halves.  `prepare_analysis`
//! turns the batch into exact feature rows and flags, in input order;
//! the host scores each row; `attach_scores` zips identifiers, scores and
//! flags back together positionally.  The positional zip is sound because
//! both halves provably preserve row order and batch length.

use vstd::prelude::*;
use vstd::string::StringExecFns;

use crate::ratio::{ratio_exceeds, Ratio};
use crate::table::{
    build_dataframe, cell, derive_ratios, df_to_ndarray, lemma_base_table_lookups,
    lemma_feature_table_lookups, lookup, sums_fit, ColumnData, FeatureMatrix,
};
use crate::types::{
    AnalysisError, AnalysisResponse, Analyzable, DefaultAnalysisResult, DefaultPlayerData,
    PlayerResult, PlayerStats, Score,
};

verus! {

/// A hit rate strictly above `4 / 5` raises the high-hit-rate flag.
pub const HIGH_HIT_RATE_NUM: u64 = 4;
/// Denominator of the high-hit-rate flag threshold.
pub const HIGH_HIT_RATE_DEN: u64 = 5;

/// The flag list of one row: exactly the high-hit-rate flag when the
/// row's hit rate strictly exceeds the threshold, empty otherwise.
pub open spec fn flags_for(hit_rate: Ratio, flags: Seq<String>) -> bool {
    if ratio_exceeds(hit_rate, HIGH_HIT_RATE_NUM as int, HIGH_HIT_RATE_DEN as int) {
        flags.len() == 1 && flags[0]@ == "HighHitRate"@
    } else {
        flags.len() == 0
    }
}

/// Everything the host needs to score a batch: identifiers, feature rows
/// and flags, all in input order and of equal length.
#[derive(Debug)]
pub struct AnalysisPlan {
    /// Player identifiers, in input order.
    pub player_ids: Vec<String>,
    /// One feature row per record: hit rate first, headshot rate second.
    pub features: FeatureMatrix,
    /// Rule-based flags per record.
    pub flags: Vec<Vec<String>>,
}

impl AnalysisPlan {
    /// Number of records the plan covers.
    pub open spec fn len(&self) -> nat {
        self.player_ids@.len()
    }

    /// Identifier, feature and flag rows all have the plan's length.
    pub open spec fn wf(&self) -> bool {
        &&& self.features.rows@.len() == self.len()
        &&& self.flags@.len() == self.len()
    }
}

/// The plan that belongs to a batch: one entry per record, in input
/// order, with matching identifier, the exact feature pair, and the
/// threshold flags of the record's hit rate.
pub open spec fn plan_for(plan: AnalysisPlan, stats: Seq<PlayerStats<DefaultPlayerData>>) -> bool {
    &&& plan.wf()
    &&& plan.len() == stats.len()
    &&& forall|i: int|
        0 <= i < stats.len() ==> (#[trigger] plan.player_ids@[i])@ == stats[i].player_id@
    &&& forall|i: int|
        0 <= i < stats.len() ==> (#[trigger] plan.features.rows@[i])@ == seq![
            stats[i].data.accuracy_rate_spec(),
            stats[i].data.headshot_ratio_spec(),
        ]
    &&& forall|i: int|
        0 <= i < stats.len() ==> flags_for(
            (#[trigger] stats[i]).data.accuracy_rate_spec(),
            plan.flags@[i]@,
        )
}

/// Builds the analysis plan for a batch: summarise the batch into the
/// columnar table, derive the two exact rate columns, project them into
/// feature rows, and compute the rule-based flags.
///
/// Fails with `Overflow` exactly when some record's summed counters do
/// not fit the table; an empty batch yields an empty plan.  Row order is
/// preserved throughout: entry `i` of the plan describes record `i`.
pub fn prepare_analysis(stats: &Vec<PlayerStats<DefaultPlayerData>>) -> (r: Result<
    AnalysisPlan,
    AnalysisError,
>)
    ensures
        r is Ok <==> sums_fit(stats@),
        r matches Ok(p) ==> plan_for(p, stats@),
        r matches Err(e) ==> e == AnalysisError::Overflow,
{
    let base = match build_dataframe(stats) {
        Ok(t) => t,
        Err(e) => {
            return Err(e);
        },
    };
    let ghost gbase = base;
    proof {
        lemma_base_table_lookups(gbase, stats@);
    }
    let table = match derive_ratios(base) {
        Ok(t) => t,
        Err(e) => {
            proof {
                assert(false);
            }
            return Err(e);
        },
    };
    proof {
        lemma_feature_table_lookups(gbase, table, stats@);
    }
    let mut feature_names: Vec<String> = Vec::new();
    feature_names.push(String::from_str("hit_rate"));
    feature_names.push(String::from_str("headshot_rate"));
    let matrix = match df_to_ndarray(&table, &feature_names) {
        Ok(m) => m,
        Err(e) => {
            proof {
                assert(false);
            }
            return Err(e);
        },
    };
    proof {
        assert forall|i: int| 0 <= i < stats@.len() implies (#[trigger] matrix.rows@[i])@ == seq![
            stats@[i].data.accuracy_rate_spec(),
            stats@[i].data.headshot_ratio_spec(),
        ] by {
            assert(matrix.rows@[i]@[0] == cell(table.columns@, "hit_rate"@, i));
            assert(matrix.rows@[i]@[1] == cell(table.columns@, "headshot_rate"@, i));
            assert(matrix.rows@[i]@ =~= seq![
                stats@[i].data.accuracy_rate_spec(),
                stats@[i].data.headshot_ratio_spec(),
            ]);
        }
    }
    let mut player_ids: Vec<String> = Vec::new();
    let mut flags: Vec<Vec<String>> = Vec::new();
    let mut i: usize = 0;
    while i < stats.len()
        invariant
            i <= stats@.len(),
            sums_fit(stats@),
            matrix.rows@.len() == stats@.len(),
            forall|k: int|
                0 <= k < stats@.len() ==> (#[trigger] matrix.rows@[k])@ == seq![
                    stats@[k].data.accuracy_rate_spec(),
                    stats@[k].data.headshot_ratio_spec(),
                ],
            player_ids@.len() == i,
            flags@.len() == i,
            forall|k: int| 0 <= k < i ==> (#[trigger] player_ids@[k])@ == stats@[k].player_id@,
            forall|k: int|
                0 <= k < i ==> flags_for(
                    (#[trigger] stats@[k]).data.accuracy_rate_spec(),
                    flags@[k]@,
                ),
        decreases stats@.len() - i,
    {
        player_ids.push(stats[i].player_id.clone());
        let row = &matrix.rows[i];
        let hit_rate: Ratio = row[0];
        proof {
            crate::types::lemma_sum_counts_bounds(stats@[i as int].data.hits@);
            crate::types::lemma_sum_counts_bounds(stats@[i as int].data.shots_fired@);
            assert(hit_rate == stats@[i as int].data.accuracy_rate_spec());
            assert(hit_rate.num * HIGH_HIT_RATE_DEN <= u128::MAX);
            assert(HIGH_HIT_RATE_NUM * hit_rate.den <= u128::MAX);
        }
        let mut row_flags: Vec<String> = Vec::new();
        if hit_rate.exceeds(HIGH_HIT_RATE_NUM, HIGH_HIT_RATE_DEN) {
            row_flags.push(String::from_str("HighHitRate"));
        }
        flags.push(row_flags);
        i = i + 1;
    }
    Ok(AnalysisPlan { player_ids, features: matrix, flags })
}

/// The response that belongs to a plan and its scores: one result per
/// plan entry, positionally, carrying that entry's identifier, score and
/// flags.
pub open spec fn response_for(
    resp: AnalysisResponse<DefaultAnalysisResult>,
    plan: AnalysisPlan,
    scores: Seq<Score>,
) -> bool {
    &&& resp.results@.len() == plan.len()
    &&& forall|i: int|
        0 <= i < plan.len() ==> (#[trigger] resp.results@[i]).player_id == plan.player_ids@[i]
    &&& forall|i: int|
        0 <= i < plan.len() ==> (#[trigger] resp.results@[i]).data.suspicion_score == scores[i]
    &&& forall|i: int|
        0 <= i < plan.len() ==> (#[trigger] resp.results@[i]).data.flags == plan.flags@[i]
}

/// Zips the plan's identifiers and flags with the classifier's scores,
/// positionally, into the final response.
///
/// Sound only because `prepare_analysis` preserves row order; the caller
/// must supply exactly one score per plan entry, in plan order.
pub fn attach_scores(plan: AnalysisPlan, scores: &Vec<Score>) -> (r: AnalysisResponse<
    DefaultAnalysisResult,
>)
    requires
        plan.wf(),
        scores@.len() == plan.len(),
    ensures
        response_for(r, plan, scores@),
{
    let ghost gids = plan.player_ids@;
    let ghost gflags = plan.flags@;
    let mut ids = plan.player_ids;
    let mut flags = plan.flags;
    let mut results: Vec<PlayerResult<DefaultAnalysisResult>> = Vec::new();
    let mut i: usize = 0;
    while i < scores.len()
        invariant
            i <= scores@.len(),
            scores@.len() == gids.len(),
            scores@.len() == gflags.len(),
            ids@ == gids.skip(i as int),
            flags@ == gflags.skip(i as int),
            results@.len() == i,
            forall|k: int| 0 <= k < i ==> (#[trigger] results@[k]).player_id == gids[k],
            forall|k: int|
                0 <= k < i ==> (#[trigger] results@[k]).data.suspicion_score == scores@[k],
            forall|k: int| 0 <= k < i ==> (#[trigger] results@[k]).data.flags == gflags[k],
        decreases scores@.len() - i,
    {
        let player_id = ids.remove(0);
        let row_flags = flags.remove(0);
        let score: Score = scores[i];
        results.push(
            PlayerResult {
                player_id,
                data: DefaultAnalysisResult { suspicion_score: score, flags: row_flags },
            },
        );
        proof {
            assert(gids.skip(i as int).remove(0) =~= gids.skip(i as int + 1));
            assert(gflags.skip(i as int).remove(0) =~= gflags.skip(i as int + 1));
            assert(gids.skip(i as int)[0] == gids[i as int]);
            assert(gflags.skip(i as int)[0] == gflags[i as int]);
        }
        i = i + 1;
    }
    AnalysisResponse { results }
}

/// Whatever scores the classifier returned, an analysis built from a
/// plan of a batch answers for exactly that batch: one result per input
/// record, in input order, carrying the matching identifier.
pub proof fn lemma_analysis_preserves_batch(
    stats: Seq<PlayerStats<DefaultPlayerData>>,
    plan: AnalysisPlan,
    scores: Seq<Score>,
    resp: AnalysisResponse<DefaultAnalysisResult>,
)
    requires
        plan_for(plan, stats),
        response_for(resp, plan, scores),
    ensures
        resp.results@.len() == stats.len(),
        forall|i: int|
            0 <= i < stats.len() ==> (#[trigger] resp.results@[i]).player_id@
                == stats[i].player_id@,
{
}

} // verus!
