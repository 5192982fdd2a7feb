//! Data model: player statistics, analysis results, and the `Analyzable`
//! capability that decouples the pipeline from any particular payload shape.

use vstd::prelude::*;

use crate::ratio::{ratio_exceeds, ratio_of, zero_ratio, Ratio};

verus! {

/// Accuracy rate strictly above `4 / 5` is considered suspicious.
pub const ACCURACY_SUSPICION_NUM: u64 = 4;
/// Denominator of the suspicious accuracy threshold.
pub const ACCURACY_SUSPICION_DEN: u64 = 5;
/// Headshot ratio strictly above `1 / 2` is considered suspicious.
pub const HEADSHOT_SUSPICION_NUM: u64 = 1;
/// Denominator of the suspicious headshot threshold.
pub const HEADSHOT_SUSPICION_DEN: u64 = 2;

/// Training label of one example: was the player a cheater or not.
#[derive(Clone, Copy, Debug, PartialEq, Eq, Structural)]
pub enum TrainingLabel {
    /// The example shows legitimate play.
    Legitimate,
    /// The example shows cheating.
    Cheater,
}

/// Sub-cause of a model load failure.
#[derive(Clone, Copy, Debug, PartialEq, Eq, Structural)]
pub enum ModelFault {
    /// The model artifact does not exist.
    Missing,
    /// The model artifact exists but cannot be decoded.
    Malformed,
}

/// Every failure the analysis library can report.
///
/// Zero denominators are never errors: they are defined as the zero ratio.
/// Only structural problems (mismatched training sets, counter overflow,
/// misuse of the feature extractor, unusable model artifacts) are reported.
#[derive(Clone, Debug, PartialEq)]
pub enum AnalysisError {
    /// Training rows and labels have different lengths, or both are empty.
    InvalidTrainingData,
    /// Summing per-weapon counters exceeded the table's numeric width.
    Overflow,
    /// A requested feature column does not exist; carries the column name.
    ColumnNotFound(String),
    /// A requested feature column is not numeric; carries the column name.
    TypeMismatch(String),
    /// The classifier artifact is missing at analysis time.
    ModelUnavailable,
    /// The classifier artifact could not be loaded.
    ModelLoad(ModelFault),
    /// The classifier artifact could not be written.
    ModelSave,
    /// The underlying inference faulted on a row.
    Prediction,
}

/// A classifier score in millionths, so that `1_000_000` stands for `1.0`.
///
/// The classifier itself is an outside service working in floating point;
/// its output enters the verified world quantised to this fixed-point form.
#[derive(Clone, Copy, Debug, PartialEq, Eq, Structural)]
pub struct Score {
    /// Score numerator over the fixed denominator of one million.
    pub micros: u64,
}

/// One player's raw statistics for an analysis batch, paired with the
/// player's identifier.  Generic over the statistics payload `D`.
#[derive(Clone, Debug)]
pub struct PlayerStats<D> {
    /// Identifier of the player; not required to be unique within a batch.
    pub player_id: String,
    /// Game-specific statistics payload.
    pub data: D,
}

impl<D> PlayerStats<D> {
    /// Pairs a player identifier with a statistics payload.
    pub fn new(player_id: String, data: D) -> (r: PlayerStats<D>)
        ensures
            r.player_id == player_id,
            r.data == data,
    {
        PlayerStats { player_id, data }
    }

    /// Maps the payload through a caller-supplied pure function while
    /// preserving the player identifier.  No validation is performed on
    /// the converted payload.
    pub fn convert<U, F: FnOnce(&D) -> U>(&self, converter: F) -> (r: PlayerStats<U>)
        requires
            converter.requires((&self.data,)),
        ensures
            r.player_id == self.player_id,
            converter.ensures((&self.data,), r.data),
    {
        PlayerStats { player_id: self.player_id.clone(), data: converter(&self.data) }
    }
}

/// The canonical statistics payload: per-weapon shot and hit counters,
/// a headshot counter, and optional extras kept for future analyses.
#[derive(Clone, Debug)]
pub struct DefaultPlayerData {
    /// Shots fired per weapon name.
    pub shots_fired: Vec<(String, u32)>,
    /// Successful hits per weapon name.
    pub hits: Vec<(String, u32)>,
    /// Total headshots of the round.
    pub headshots: u32,
    /// Optional raw shot timestamps in milliseconds, kept for future
    /// timing analysis; unused by feature engineering.
    pub shot_timestamps_ms: Option<Vec<u64>>,
    /// Optional training label; absent for unlabeled records.
    pub training_label: Option<TrainingLabel>,
}

/// Mathematical sum of the counters of a per-weapon list.
pub open spec fn sum_counts(s: Seq<(String, u32)>) -> int
    decreases s.len(),
{
    if s.len() == 0 {
        0
    } else {
        sum_counts(s.drop_last()) + s.last().1
    }
}

/// The sum of a counter list is non-negative and at most
/// `len * u32::MAX`.
pub proof fn lemma_sum_counts_bounds(s: Seq<(String, u32)>)
    ensures
        0 <= sum_counts(s) <= s.len() * u32::MAX,
    decreases s.len(),
{
    if s.len() == 0 {
    } else {
        lemma_sum_counts_bounds(s.drop_last());
        assert((s.len() - 1) * (u32::MAX as int) + u32::MAX == s.len() * (u32::MAX as int))
            by (nonlinear_arith);
    }
}

/// A counter list short enough to sit in a `Vec` has a sum small enough
/// that every threshold cross product of this library fits in `u128`.
pub proof fn lemma_sum_counts_small(s: Seq<(String, u32)>)
    requires
        s.len() <= 0x1_0000_0000_0000_0000,
    ensures
        0 <= sum_counts(s),
        sum_counts(s) * 8 <= u128::MAX,
{
    lemma_sum_counts_bounds(s);
    assert(sum_counts(s) * 8 <= u128::MAX) by (nonlinear_arith)
        requires
            0 <= sum_counts(s) <= s.len() * (u32::MAX as int),
            s.len() <= 0x1_0000_0000_0000_0000,
    ;
}

/// Extending a prefix by one entry adds that entry's counter to the sum.
pub proof fn lemma_sum_counts_take_step(s: Seq<(String, u32)>, i: int)
    requires
        0 <= i < s.len(),
    ensures
        sum_counts(s.take(i + 1)) == sum_counts(s.take(i)) + s[i].1,
{
    assert(s.take(i + 1).drop_last() =~= s.take(i));
    assert(s.take(i + 1).last() == s[i]);
}

/// Sums the counters of a per-weapon list.  The accumulator is wide enough
/// that no counter list a `Vec` can hold may overflow it.
pub fn total_count(entries: &Vec<(String, u32)>) -> (total: u128)
    ensures
        total == sum_counts(entries@),
        entries@.len() <= usize::MAX,
        total <= entries@.len() * u32::MAX,
{
    let mut total: u128 = 0;
    let mut idx: usize = 0;
    while idx < entries.len()
        invariant
            idx <= entries@.len(),
            total == sum_counts(entries@.take(idx as int)),
            total <= idx * u32::MAX,
        decreases entries@.len() - idx,
    {
        proof {
            lemma_sum_counts_take_step(entries@, idx as int);
            assert((idx + 1) * (u32::MAX as int) == idx * (u32::MAX as int) + u32::MAX)
                by (nonlinear_arith);
            assert((idx + 1) * (u32::MAX as int) < u128::MAX) by (nonlinear_arith)
                requires
                    idx + 1 <= 0x1_0000_0000_0000_0000,
            ;
        }
        total = total + (entries[idx].1 as u128);
        idx = idx + 1;
    }
    proof {
        assert(entries@.take(entries@.len() as int) =~= entries@);
    }
    total
}

/// The capability a statistics payload needs for analysis: two engineered
/// ratios, a feature vector, and a rule-based suspicion pre-filter.
pub trait Analyzable {
    /// The payload's accuracy rate as an exact ratio.
    spec fn accuracy_rate_spec(&self) -> Ratio;

    /// The payload's headshot ratio as an exact ratio.
    spec fn headshot_ratio_spec(&self) -> Ratio;

    /// The ordered feature vector consumed by the classifier.
    spec fn features_spec(&self) -> Seq<Ratio>;

    /// The rule-based suspicion verdict.
    spec fn suspicious_spec(&self) -> bool;

    /// Computes the accuracy rate.  Never fails; a zero denominator yields
    /// the zero ratio.
    fn calculate_accuracy_rate(&self) -> (r: Ratio)
        ensures
            r == self.accuracy_rate_spec(),
            r.wf(),
    ;

    /// Computes the headshot ratio.  Never fails; a zero denominator
    /// yields the zero ratio.
    fn calculate_headshot_ratio(&self) -> (r: Ratio)
        ensures
            r == self.headshot_ratio_spec(),
            r.wf(),
    ;

    /// Extracts the ordered feature vector.  The ordering is part of this
    /// type's contract and must match the ordering used at training time.
    fn extract_features(&self) -> (r: Vec<Ratio>)
        ensures
            r@ == self.features_spec(),
    ;

    /// Applies the rule-based pre-filter, independent of any model.
    fn is_suspicious(&self) -> (r: bool)
        ensures
            r == self.suspicious_spec(),
    ;
}

impl Analyzable for DefaultPlayerData {
    /// Total hits over total shots, zero when no shot was fired.
    open spec fn accuracy_rate_spec(&self) -> Ratio {
        ratio_of(sum_counts(self.hits@), sum_counts(self.shots_fired@))
    }

    /// Headshots over total hits, zero when no hit was recorded.
    open spec fn headshot_ratio_spec(&self) -> Ratio {
        ratio_of(self.headshots as int, sum_counts(self.hits@))
    }

    /// Accuracy rate first, headshot ratio second.
    open spec fn features_spec(&self) -> Seq<Ratio> {
        seq![self.accuracy_rate_spec(), self.headshot_ratio_spec()]
    }

    /// Suspicious when either ratio strictly exceeds its threshold.
    open spec fn suspicious_spec(&self) -> bool {
        ||| ratio_exceeds(
            self.accuracy_rate_spec(),
            ACCURACY_SUSPICION_NUM as int,
            ACCURACY_SUSPICION_DEN as int,
        )
        ||| ratio_exceeds(
            self.headshot_ratio_spec(),
            HEADSHOT_SUSPICION_NUM as int,
            HEADSHOT_SUSPICION_DEN as int,
        )
    }

    fn calculate_accuracy_rate(&self) -> (r: Ratio)
        ensures
            r == self.accuracy_rate_spec(),
            r.wf(),
            sum_counts(self.shots_fired@) == 0 ==> r == zero_ratio(),
    {
        let shots = total_count(&self.shots_fired);
        let hits = total_count(&self.hits);
        if shots == 0 {
            Ratio { num: 0, den: 1 }
        } else {
            Ratio { num: hits, den: shots }
        }
    }

    fn calculate_headshot_ratio(&self) -> (r: Ratio)
        ensures
            r == self.headshot_ratio_spec(),
            r.wf(),
            sum_counts(self.hits@) == 0 ==> r == zero_ratio(),
    {
        let hits = total_count(&self.hits);
        if hits == 0 {
            Ratio { num: 0, den: 1 }
        } else {
            Ratio { num: self.headshots as u128, den: hits }
        }
    }

    fn extract_features(&self) -> (r: Vec<Ratio>)
        ensures
            r@ == self.features_spec(),
    {
        let mut r: Vec<Ratio> = Vec::new();
        r.push(self.calculate_accuracy_rate());
        r.push(self.calculate_headshot_ratio());
        proof {
            assert(r@ =~= self.features_spec());
        }
        r
    }

    fn is_suspicious(&self) -> (r: bool)
        ensures
            r == self.suspicious_spec(),
    {
        let accuracy = self.calculate_accuracy_rate();
        let headshot = self.calculate_headshot_ratio();
        // The counter lists sit in vectors, so their ghost lengths are
        // bounded by usize::MAX; the bound feeds the overflow argument.
        let hits_len: usize = self.hits.len();
        let shots_len: usize = self.shots_fired.len();
        proof {
            lemma_sum_counts_small(self.hits@);
            lemma_sum_counts_small(self.shots_fired@);
            assert(accuracy.num * ACCURACY_SUSPICION_DEN <= u128::MAX);
            assert(ACCURACY_SUSPICION_NUM * accuracy.den <= u128::MAX);
            assert(headshot.num * HEADSHOT_SUSPICION_DEN <= u128::MAX);
            assert(HEADSHOT_SUSPICION_NUM * headshot.den <= u128::MAX);
        }
        let high_accuracy = accuracy.exceeds(ACCURACY_SUSPICION_NUM, ACCURACY_SUSPICION_DEN);
        let high_headshot = headshot.exceeds(HEADSHOT_SUSPICION_NUM, HEADSHOT_SUSPICION_DEN);
        high_accuracy || high_headshot
    }
}

/// Analysis result for one player: the identifier paired with a generic
/// result payload.
#[derive(Debug, PartialEq)]
pub struct PlayerResult<R> {
    /// Identifier of the player, as given in the analyzed record.
    pub player_id: String,
    /// Analysis result payload.
    pub data: R,
}

impl<R> PlayerResult<R> {
    /// Pairs a player identifier with a result payload.
    pub fn new(player_id: String, data: R) -> (r: PlayerResult<R>)
        ensures
            r.player_id == player_id,
            r.data == data,
    {
        PlayerResult { player_id, data }
    }
}

/// The canonical analysis result payload: the classifier's suspicion score
/// and the rule-based flags raised for the player.
#[derive(Debug, PartialEq)]
pub struct DefaultAnalysisResult {
    /// Likelihood of cheating reported by the classifier.
    pub suspicion_score: Score,
    /// Names of the rule-based anomalies detected for the player.
    pub flags: Vec<String>,
}

/// Response wrapper with one result per analyzed player, in input order.
#[derive(Debug, PartialEq)]
pub struct AnalysisResponse<R> {
    /// Analysis results, positionally matching the analyzed batch.
    pub results: Vec<PlayerResult<R>>,
}

} // verus!
