//! Training preparation: validation of labeled training sets, the exact
//! feature rows handed to the learning algorithm, and the deterministic
//! built-in dataset used to bootstrap a model without external data.
//!
//! The learning algorithm itself is an outside floating-point service;
//! everything up to its doorstep — validation, feature engineering, and
//! the synthesis of the default dataset — is verified here.

use vstd::prelude::*;
use vstd::string::StringExecFns;

use crate::analysis::prepare_analysis;
use crate::table::{sums_fit, FeatureMatrix};
use crate::types::{
    AnalysisError, Analyzable, DefaultPlayerData, PlayerStats, TrainingLabel,
};

verus! {

/// The decimal digit character of `d`, for `0 <= d <= 9`.
pub open spec fn digit_char(d: int) -> char {
    if d == 0 {
        '0'
    } else if d == 1 {
        '1'
    } else if d == 2 {
        '2'
    } else if d == 3 {
        '3'
    } else if d == 4 {
        '4'
    } else if d == 5 {
        '5'
    } else if d == 6 {
        '6'
    } else if d == 7 {
        '7'
    } else if d == 8 {
        '8'
    } else {
        '9'
    }
}

/// The decimal digit string of a non-negative number, most significant
/// digit first.
pub open spec fn spec_decimal(n: int) -> Seq<char>
    recommends
        n >= 0,
    decreases n,
{
    if n < 10 {
        seq![digit_char(n)]
    } else {
        spec_decimal(n / 10).push(digit_char(n % 10))
    }
}

/// The one-character string of a single decimal digit.
fn digit_str(d: u64) -> (s: &'static str)
    requires
        d < 10,
    ensures
        s@ == seq![digit_char(d as int)],
{
    let s: &'static str = if d == 0 {
        "0"
    } else if d == 1 {
        "1"
    } else if d == 2 {
        "2"
    } else if d == 3 {
        "3"
    } else if d == 4 {
        "4"
    } else if d == 5 {
        "5"
    } else if d == 6 {
        "6"
    } else if d == 7 {
        "7"
    } else if d == 8 {
        "8"
    } else {
        "9"
    };
    proof {
        reveal_strlit("0");
        reveal_strlit("1");
        reveal_strlit("2");
        reveal_strlit("3");
        reveal_strlit("4");
        reveal_strlit("5");
        reveal_strlit("6");
        reveal_strlit("7");
        reveal_strlit("8");
        reveal_strlit("9");
        assert(s@ =~= seq![digit_char(d as int)]);
    }
    s
}

/// Renders a number in decimal.
pub fn decimal_string(n: u64) -> (s: String)
    ensures
        s@ == spec_decimal(n as int),
    decreases n,
{
    if n < 10 {
        let s = String::from_str(digit_str(n));
        proof {
            assert(s@ =~= spec_decimal(n as int));
        }
        s
    } else {
        let prefix = decimal_string(n / 10);
        let s = prefix.concat(digit_str(n % 10));
        proof {
            assert(s@ =~= spec_decimal(n as int));
        }
        s
    }
}

/// Builds an indexed player identifier such as a prefix followed by the
/// decimal index.
fn player_label(prefix: &str, index: u64) -> (s: String)
    ensures
        s@ == prefix@ + spec_decimal(index as int),
{
    let digits = decimal_string(index);
    String::from_str(prefix).concat(digits.as_str())
}

/// Everything the learning algorithm needs: one exact feature row per
/// example, paired positionally with its label.
#[derive(Debug)]
pub struct TrainingPlan {
    /// One feature row per example: hit rate first, headshot rate second,
    /// matching the feature order used at prediction time.
    pub features: FeatureMatrix,
    /// One label per example, in example order.
    pub labels: Vec<TrainingLabel>,
}

/// The training plan that belongs to a labeled batch: one feature pair
/// per example, in input order, with the labels carried over unchanged.
pub open spec fn training_plan_for(
    plan: TrainingPlan,
    stats: Seq<PlayerStats<DefaultPlayerData>>,
    labels: Seq<TrainingLabel>,
) -> bool {
    &&& plan.features.rows@.len() == stats.len()
    &&& forall|i: int|
        0 <= i < stats.len() ==> (#[trigger] plan.features.rows@[i])@ == seq![
            stats[i].data.accuracy_rate_spec(),
            stats[i].data.headshot_ratio_spec(),
        ]
    &&& plan.labels@ == labels
}

/// Validates a labeled training set and engineers its feature rows.
///
/// Fails with `InvalidTrainingData` exactly when the batch and label
/// lengths differ or the batch is empty, and with `Overflow` exactly
/// when a record's summed counters do not fit the feature table.
pub fn prepare_training(
    stats: &Vec<PlayerStats<DefaultPlayerData>>,
    labels: &Vec<TrainingLabel>,
) -> (r: Result<TrainingPlan, AnalysisError>)
    ensures
        (r matches Err(e) && e == AnalysisError::InvalidTrainingData) <==> (stats@.len()
            != labels@.len() || stats@.len() == 0),
        (r matches Err(e) && e == AnalysisError::Overflow) <==> (stats@.len() == labels@.len()
            && stats@.len() > 0 && !sums_fit(stats@)),
        r is Ok <==> (stats@.len() == labels@.len() && stats@.len() > 0 && sums_fit(stats@)),
        r matches Ok(p) ==> training_plan_for(p, stats@, labels@),
{
    if stats.len() != labels.len() {
        return Err(AnalysisError::InvalidTrainingData);
    }
    if stats.len() == 0 {
        return Err(AnalysisError::InvalidTrainingData);
    }
    let plan = match prepare_analysis(stats) {
        Ok(p) => p,
        Err(e) => {
            return Err(e);
        },
    };
    let mut out_labels: Vec<TrainingLabel> = Vec::new();
    let mut i: usize = 0;
    while i < labels.len()
        invariant
            i <= labels@.len(),
            out_labels@.len() == i,
            forall|k: int| 0 <= k < i ==> #[trigger] out_labels@[k] == labels@[k],
        decreases labels@.len() - i,
    {
        out_labels.push(labels[i]);
        i = i + 1;
    }
    proof {
        assert(out_labels@ =~= labels@);
    }
    Ok(TrainingPlan { features: plan.features, labels: out_labels })
}

/// Shot count of the `i`-th synthetic profile of either class.
pub open spec fn profile_shot_count(i: int) -> int {
    100 + i
}

/// Rifle hit count of the `i`-th synthetic normal profile: accuracy
/// sweeps the low-to-moderate range of forty to sixty-four percent.
pub open spec fn normal_hit_count(i: int) -> int {
    profile_shot_count(i) * (40 + i % 25) / 100
}

/// Headshot count of the `i`-th synthetic normal profile: ten to
/// twenty-four percent of the rifle hits.
pub open spec fn normal_headshot_count(i: int) -> int {
    normal_hit_count(i) * (10 + i % 15) / 100
}

/// Rifle hit count of the `i`-th synthetic cheater profile: accuracy
/// sweeps the high range of eighty to ninety-seven percent.
pub open spec fn cheater_hit_count(i: int) -> int {
    profile_shot_count(i) * (80 + i % 18) / 100
}

/// Headshot count of the `i`-th synthetic cheater profile: forty to
/// seventy-nine percent of the rifle hits.
pub open spec fn cheater_headshot_count(i: int) -> int {
    cheater_hit_count(i) * (40 + i % 40) / 100
}

/// The shape of one synthetic profile: an indexed identifier, a rifle
/// and a pistol entry (the pistol firing and hitting half as often), the
/// given headshot count, and the given label.
pub open spec fn default_profile(
    rec: PlayerStats<DefaultPlayerData>,
    id_prefix: Seq<char>,
    i: int,
    hit_count: int,
    headshots: int,
    label: TrainingLabel,
) -> bool {
    &&& rec.player_id@ == id_prefix + spec_decimal(i)
    &&& rec.data.shots_fired@.len() == 2
    &&& rec.data.shots_fired@[0].0@ == "rifle"@
    &&& rec.data.shots_fired@[0].1 == profile_shot_count(i)
    &&& rec.data.shots_fired@[1].0@ == "pistol"@
    &&& rec.data.shots_fired@[1].1 == profile_shot_count(i) / 2
    &&& rec.data.hits@.len() == 2
    &&& rec.data.hits@[0].0@ == "rifle"@
    &&& rec.data.hits@[0].1 == hit_count
    &&& rec.data.hits@[1].0@ == "pistol"@
    &&& rec.data.hits@[1].1 == hit_count / 2
    &&& rec.data.headshots == headshots
    &&& rec.data.shot_timestamps_ms is None
    &&& rec.data.training_label == Some(label)
}

/// The deterministic built-in dataset: fifty normal profiles labeled
/// legitimate followed by fifty cheater profiles labeled cheater, each
/// parameterized by its index so values vary smoothly.
pub open spec fn is_default_batch(
    recs: Seq<PlayerStats<DefaultPlayerData>>,
    labels: Seq<TrainingLabel>,
) -> bool {
    &&& recs.len() == 100
    &&& labels.len() == 100
    &&& forall|i: int|
        0 <= i < 50 ==> default_profile(
            #[trigger] recs[i],
            "normal_player_"@,
            i,
            normal_hit_count(i),
            normal_headshot_count(i),
            TrainingLabel::Legitimate,
        )
    &&& forall|i: int|
        50 <= i < 100 ==> default_profile(
            #[trigger] recs[i],
            "cheater_"@,
            i - 50,
            cheater_hit_count(i - 50),
            cheater_headshot_count(i - 50),
            TrainingLabel::Cheater,
        )
    &&& forall|i: int| 0 <= i < 50 ==> #[trigger] labels[i] == TrainingLabel::Legitimate
    &&& forall|i: int| 50 <= i < 100 ==> #[trigger] labels[i] == TrainingLabel::Cheater
}

/// Builds one synthetic profile.
fn synth_profile(
    id_prefix: &str,
    i: u32,
    hit_count: u32,
    headshots: u32,
    label: TrainingLabel,
) -> (rec: PlayerStats<DefaultPlayerData>)
    requires
        i < 50,
        hit_count <= u32::MAX / 2,
    ensures
        default_profile(
            rec,
            id_prefix@,
            i as int,
            hit_count as int,
            headshots as int,
            label,
        ),
{
    let shot_count: u32 = 100 + i;
    let mut shots_fired: Vec<(String, u32)> = Vec::new();
    shots_fired.push((String::from_str("rifle"), shot_count));
    shots_fired.push((String::from_str("pistol"), shot_count / 2));
    let mut hits: Vec<(String, u32)> = Vec::new();
    hits.push((String::from_str("rifle"), hit_count));
    hits.push((String::from_str("pistol"), hit_count / 2));
    PlayerStats {
        player_id: player_label(id_prefix, i as u64),
        data: DefaultPlayerData {
            shots_fired,
            hits,
            headshots,
            shot_timestamps_ms: None,
            training_label: Some(label),
        },
    }
}

/// Synthesizes the deterministic built-in dataset: two balanced classes
/// of fifty profiles each, normal profiles first, every value an exact
/// function of the profile's index.
pub fn default_training_batch() -> (r: (Vec<PlayerStats<DefaultPlayerData>>, Vec<TrainingLabel>))
    ensures
        is_default_batch(r.0@, r.1@),
{
    let mut recs: Vec<PlayerStats<DefaultPlayerData>> = Vec::new();
    let mut labels: Vec<TrainingLabel> = Vec::new();
    let mut i: u32 = 0;
    while i < 50
        invariant
            i <= 50,
            recs@.len() == i,
            labels@.len() == i,
            forall|k: int|
                0 <= k < i ==> default_profile(
                    #[trigger] recs@[k],
                    "normal_player_"@,
                    k,
                    normal_hit_count(k),
                    normal_headshot_count(k),
                    TrainingLabel::Legitimate,
                ),
            forall|k: int| 0 <= k < i ==> #[trigger] labels@[k] == TrainingLabel::Legitimate,
        decreases 50 - i,
    {
        let shot_count: u32 = 100 + i;
        let accuracy_pct: u32 = 40 + i % 25;
        proof {
            assert(shot_count * accuracy_pct <= 149 * 64) by (nonlinear_arith)
                requires
                    shot_count <= 149,
                    accuracy_pct <= 64,
            ;
        }
        let hit_count: u32 = shot_count * accuracy_pct / 100;
        let headshot_pct: u32 = 10 + i % 15;
        proof {
            assert(hit_count * headshot_pct <= 96 * 24) by (nonlinear_arith)
                requires
                    hit_count <= 96,
                    headshot_pct <= 24,
            ;
        }
        let headshots: u32 = hit_count * headshot_pct / 100;
        let rec = synth_profile("normal_player_", i, hit_count, headshots,
            TrainingLabel::Legitimate);
        recs.push(rec);
        labels.push(TrainingLabel::Legitimate);
        i = i + 1;
    }
    let mut i: u32 = 0;
    while i < 50
        invariant
            i <= 50,
            recs@.len() == 50 + i,
            labels@.len() == 50 + i,
            forall|k: int|
                0 <= k < 50 ==> default_profile(
                    #[trigger] recs@[k],
                    "normal_player_"@,
                    k,
                    normal_hit_count(k),
                    normal_headshot_count(k),
                    TrainingLabel::Legitimate,
                ),
            forall|k: int| 0 <= k < 50 ==> #[trigger] labels@[k] == TrainingLabel::Legitimate,
            forall|k: int|
                50 <= k < 50 + i ==> default_profile(
                    #[trigger] recs@[k],
                    "cheater_"@,
                    k - 50,
                    cheater_hit_count(k - 50),
                    cheater_headshot_count(k - 50),
                    TrainingLabel::Cheater,
                ),
            forall|k: int| 50 <= k < 50 + i ==> #[trigger] labels@[k] == TrainingLabel::Cheater,
        decreases 50 - i,
    {
        let shot_count: u32 = 100 + i;
        let accuracy_pct: u32 = 80 + i % 18;
        proof {
            assert(shot_count * accuracy_pct <= 149 * 97) by (nonlinear_arith)
                requires
                    shot_count <= 149,
                    accuracy_pct <= 97,
            ;
        }
        let hit_count: u32 = shot_count * accuracy_pct / 100;
        let headshot_pct: u32 = 40 + i % 40;
        proof {
            assert(hit_count * headshot_pct <= 145 * 79) by (nonlinear_arith)
                requires
                    hit_count <= 145,
                    headshot_pct <= 79,
            ;
        }
        let headshots: u32 = hit_count * headshot_pct / 100;
        let rec = synth_profile("cheater_", i, hit_count, headshots, TrainingLabel::Cheater);
        recs.push(rec);
        labels.push(TrainingLabel::Cheater);
        i = i + 1;
    }
    (recs, labels)
}

} // verus!
