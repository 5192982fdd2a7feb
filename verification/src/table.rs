//! Columnar batch representation used by the feature pipeline.
//!
//! A batch of stat records is summarised into a small named-column table
//! (identifier, shot, hit and headshot totals), ratio columns are derived
//! from pairs of count columns with an explicit zero-denominator rule, and
//! named numeric columns are projected into a dense row-major matrix for
//! the classifier.  Row order is preserved end to end: row `i` of every
//! structure corresponds to input record `i`.

use vstd::prelude::*;
use vstd::string::StringExecFns;

use crate::ratio::{ratio_of, zero_ratio, Ratio};
use crate::types::{sum_counts, total_count, AnalysisError, DefaultPlayerData, PlayerStats};

verus! {

/// The values of one column.
#[derive(Clone, Debug)]
pub enum ColumnData {
    /// A text column, such as the player identifiers.
    Text(Vec<String>),
    /// An unsigned count column, such as the shot totals.
    Counts(Vec<u32>),
    /// A derived exact-ratio column, such as the hit rate.
    Rates(Vec<Ratio>),
}

impl ColumnData {
    /// Number of cells in the column.
    pub open spec fn len(&self) -> nat {
        match self {
            ColumnData::Text(v) => v@.len(),
            ColumnData::Counts(v) => v@.len(),
            ColumnData::Rates(v) => v@.len(),
        }
    }

    /// A column is numeric when it can be projected into the feature
    /// matrix: counts and rates are numeric, text is not.
    pub open spec fn is_numeric(&self) -> bool {
        !(self is Text)
    }

    /// Whether the column holds counts; the shape `with_ratio_column`
    /// accepts as a ratio source.
    pub open spec fn is_numeric_counts(&self) -> bool {
        self is Counts
    }
}

/// A named column.
#[derive(Clone, Debug)]
pub struct Column {
    /// Name the column is addressed by.
    pub name: String,
    /// The column's values.
    pub data: ColumnData,
}

/// First column of `cols` whose name reads `name`, if any.
pub open spec fn lookup(cols: Seq<Column>, name: Seq<char>) -> Option<ColumnData>
    decreases cols.len(),
{
    if cols.len() == 0 {
        None
    } else if cols[0].name@ == name {
        Some(cols[0].data)
    } else {
        lookup(cols.drop_first(), name)
    }
}

/// Whether `cols` holds a count column named `name` (first match decides).
pub open spec fn has_counts(cols: Seq<Column>, name: Seq<char>) -> bool {
    lookup(cols, name) matches Some(ColumnData::Counts(_))
}

/// The values of the count column named `name`; the empty sequence when
/// there is no such column.
pub open spec fn counts_of(cols: Seq<Column>, name: Seq<char>) -> Seq<u32> {
    match lookup(cols, name) {
        Some(ColumnData::Counts(v)) => v@,
        _ => Seq::empty(),
    }
}

/// A found column is one of the columns of the table.
pub proof fn lemma_lookup_index(cols: Seq<Column>, name: Seq<char>)
    ensures
        lookup(cols, name) matches Some(d) ==> exists|i: int|
            0 <= i < cols.len() && #[trigger] cols[i].data == d && cols[i].name@ == name,
    decreases cols.len(),
{
    if cols.len() == 0 {
    } else if cols[0].name@ == name {
        assert(cols[0].data == cols[0].data);
    } else {
        lemma_lookup_index(cols.drop_first(), name);
        match lookup(cols, name) {
            Some(d) => {
                let j = choose|j: int|
                    0 <= j < cols.drop_first().len() && #[trigger] cols.drop_first()[j].data == d
                        && cols.drop_first()[j].name@ == name;
                assert(cols[j + 1].data == d);
            },
            None => {},
        }
    }
}

/// Appending a column does not change what earlier names resolve to, and
/// resolves a previously unknown name exactly when it is the new column's.
pub proof fn lemma_lookup_push(cols: Seq<Column>, c: Column, name: Seq<char>)
    ensures
        lookup(cols.push(c), name) == (if lookup(cols, name) is Some {
            lookup(cols, name)
        } else if c.name@ == name {
            Some(c.data)
        } else {
            None::<ColumnData>
        }),
    decreases cols.len(),
{
    if cols.len() == 0 {
        assert(cols.push(c)[0] == c);
        assert(cols.push(c).drop_first() =~= Seq::<Column>::empty());
    } else {
        assert(cols.push(c)[0] == cols[0]);
        assert(cols.push(c).drop_first() =~= cols.drop_first().push(c));
        lemma_lookup_push(cols.drop_first(), c, name);
    }
}

/// The cell at row `i` of the column named `name`, as an exact ratio:
/// a count `n` reads as `n / 1`, a rate reads as itself.
pub open spec fn cell(cols: Seq<Column>, name: Seq<char>, i: int) -> Ratio {
    match lookup(cols, name) {
        Some(ColumnData::Counts(v)) => ratio_of(v@[i] as int, 1),
        Some(ColumnData::Rates(v)) => v@[i],
        _ => zero_ratio(),
    }
}

/// The ratio column derived from a numerator and a denominator column,
/// cell by cell, with the zero-denominator rule applied.
pub open spec fn ratio_column(nums: Seq<u32>, dens: Seq<u32>) -> Seq<Ratio> {
    Seq::new(nums.len(), |i: int| ratio_of(nums[i] as int, dens[i] as int))
}

/// A columnar batch: named columns of equal height.
#[derive(Debug)]
pub struct StatTable {
    /// Number of rows; every column has exactly this many cells.
    pub height: usize,
    /// The named columns, in insertion order.
    pub columns: Vec<Column>,
}

impl StatTable {
    /// Every column has exactly `height` cells.
    pub open spec fn wf(&self) -> bool {
        forall|i: int|
            0 <= i < self.columns@.len() ==> (#[trigger] self.columns@[i]).data.len()
                == self.height
    }

    /// Number of rows.
    pub fn height(&self) -> (h: usize)
        ensures
            h == self.height,
    {
        self.height
    }

    /// Number of columns.
    pub fn width(&self) -> (w: usize)
        ensures
            w == self.columns@.len(),
    {
        self.columns.len()
    }

    /// Finds the first column named `name`.
    pub fn column<'a>(&'a self, name: &String) -> (r: Option<&'a Column>)
        ensures
            match r {
                Some(c) => lookup(self.columns@, name@) == Some(c.data) && c.name@ == name@,
                None => lookup(self.columns@, name@) is None,
            },
    {
        proof {
            assert(self.columns@.skip(0) =~= self.columns@);
        }
        let mut i: usize = 0;
        while i < self.columns.len()
            invariant
                i <= self.columns@.len(),
                lookup(self.columns@, name@) == lookup(
                    self.columns@.skip(i as int),
                    name@,
                ),
            decreases self.columns@.len() - i,
        {
            proof {
                assert(self.columns@.skip(i as int)[0] == self.columns@[i as int]);
            }
            if self.columns[i].name.eq(name) {
                return Some(&self.columns[i]);
            }
            proof {
                assert(self.columns@.skip(i as int).drop_first() =~= self.columns@.skip(
                    i as int + 1,
                ));
            }
            i = i + 1;
        }
        None
    }

    /// Appends a ratio column named `name`, derived cell by cell as
    /// numerator over denominator with the zero-denominator rule.  Both
    /// source columns must exist and hold counts; the first missing or
    /// non-count name is reported, numerator first.
    pub fn with_ratio_column(self, name: String, num_col: &String, den_col: &String) -> (r:
        Result<StatTable, AnalysisError>)
        requires
            self.wf(),
        ensures
            r is Ok <==> has_counts(self.columns@, num_col@) && has_counts(
                self.columns@,
                den_col@,
            ),
            r matches Ok(t) ==> ({
                &&& t.wf()
                &&& t.height == self.height
                &&& t.columns@.len() == self.columns@.len() + 1
                &&& forall|i: int|
                    0 <= i < self.columns@.len() ==> #[trigger] t.columns@[i]
                        == self.columns@[i]
                &&& t.columns@.last().name@ == name@
                &&& t.columns@.last().data matches ColumnData::Rates(rates) && rates@
                    == ratio_column(
                    counts_of(self.columns@, num_col@),
                    counts_of(self.columns@, den_col@),
                )
            }),
            lookup(self.columns@, num_col@) is None ==> (r matches Err(e) && e matches
                AnalysisError::ColumnNotFound(c) && c@ == num_col@),
            (lookup(self.columns@, num_col@) matches Some(d) && !d.is_numeric_counts())
                ==> (r matches Err(e) && e matches AnalysisError::TypeMismatch(c) && c@
                == num_col@),
            (has_counts(self.columns@, num_col@) && lookup(self.columns@, den_col@) is None)
                ==> (r matches Err(e) && e matches AnalysisError::ColumnNotFound(c) && c@
                == den_col@),
            (has_counts(self.columns@, num_col@) && (lookup(self.columns@, den_col@) matches
                Some(d) && !d.is_numeric_counts())) ==> (r matches Err(e) && e matches
                AnalysisError::TypeMismatch(c) && c@ == den_col@),
    {
        let mut table = self;
        let nums = match find_counts(&table.columns, num_col) {
            Ok(v) => v,
            Err(e) => {
                return Err(e);
            },
        };
        let dens = match find_counts(&table.columns, den_col) {
            Ok(v) => v,
            Err(e) => {
                return Err(e);
            },
        };
        proof {
            lemma_lookup_index(table.columns@, num_col@);
            lemma_lookup_index(table.columns@, den_col@);
        }
        let mut rates: Vec<Ratio> = Vec::new();
        let mut i: usize = 0;
        while i < nums.len()
            invariant
                i <= nums@.len(),
                nums@.len() == dens@.len(),
                rates@.len() == i,
                forall|k: int|
                    0 <= k < i ==> #[trigger] rates@[k] == ratio_of(
                        nums@[k] as int,
                        dens@[k] as int,
                    ),
            decreases nums@.len() - i,
        {
            let rt = Ratio::new(nums[i] as u64, dens[i] as u64);
            rates.push(rt);
            i = i + 1;
        }
        proof {
            assert(rates@ =~= ratio_column(nums@, dens@));
        }
        let new_column = Column { name, data: ColumnData::Rates(rates) };
        table.columns.push(new_column);
        Ok(StatTable { height: table.height, columns: table.columns })
    }
}

/// Finds the count column named `name`, reporting a missing name as
/// `ColumnNotFound` and a non-count column as `TypeMismatch`.
fn find_counts<'a>(cols: &'a Vec<Column>, name: &String) -> (r: Result<
    &'a Vec<u32>,
    AnalysisError,
>)
    ensures
        match r {
            Ok(v) => lookup(cols@, name@) == Some(ColumnData::Counts(*v)) && counts_of(
                cols@,
                name@,
            ) == v@,
            Err(e) => match lookup(cols@, name@) {
                None => e matches AnalysisError::ColumnNotFound(c) && c@ == name@,
                Some(d) => !d.is_numeric_counts() && (e matches AnalysisError::TypeMismatch(c)
                    && c@ == name@),
            },
        },
{
    proof {
        assert(cols@.skip(0) =~= cols@);
    }
    let mut i: usize = 0;
    while i < cols.len()
        invariant
            i <= cols@.len(),
            lookup(cols@, name@) == lookup(cols@.skip(i as int), name@),
        decreases cols@.len() - i,
    {
        proof {
            assert(cols@.skip(i as int)[0] == cols@[i as int]);
        }
        if cols[i].name.eq(name) {
            match &cols[i].data {
                ColumnData::Counts(v) => {
                    return Ok(v);
                },
                _ => {
                    return Err(AnalysisError::TypeMismatch(name.clone()));
                },
            }
        }
        proof {
            assert(cols@.skip(i as int).drop_first() =~= cols@.skip(i as int + 1));
        }
        i = i + 1;
    }
    Err(AnalysisError::ColumnNotFound(name.clone()))
}

/// Whether every record's shot and hit totals fit the table's `u32` cells.
pub open spec fn sums_fit(stats: Seq<PlayerStats<DefaultPlayerData>>) -> bool {
    forall|i: int|
        0 <= i < stats.len() ==> sum_counts(#[trigger] stats[i].data.shots_fired@) <= u32::MAX
            && sum_counts(stats[i].data.hits@) <= u32::MAX
}

/// The table built from a batch: one row per record, in input order, with
/// the identifier column and the three summed count columns.
pub open spec fn is_base_table(t: StatTable, stats: Seq<PlayerStats<DefaultPlayerData>>) -> bool {
    &&& t.wf()
    &&& t.height == stats.len()
    &&& t.columns@.len() == 4
    &&& t.columns@[0].name@ == "player_id"@
    &&& t.columns@[1].name@ == "shots"@
    &&& t.columns@[2].name@ == "hits"@
    &&& t.columns@[3].name@ == "headshots"@
    &&& t.columns@[0].data matches ColumnData::Text(ids) && ids@.len() == stats.len() && (forall|
        i: int,
    |
        0 <= i < stats.len() ==> (#[trigger] ids@[i])@ == stats[i].player_id@)
    &&& t.columns@[1].data matches ColumnData::Counts(shots) && shots@.len() == stats.len() && (
    forall|i: int|
        0 <= i < stats.len() ==> #[trigger] shots@[i] == sum_counts(stats[i].data.shots_fired@))
    &&& t.columns@[2].data matches ColumnData::Counts(hits) && hits@.len() == stats.len() && (
    forall|i: int|
        0 <= i < stats.len() ==> #[trigger] hits@[i] == sum_counts(stats[i].data.hits@))
    &&& t.columns@[3].data matches ColumnData::Counts(heads) && heads@.len() == stats.len() && (
    forall|i: int| 0 <= i < stats.len() ==> #[trigger] heads@[i] == stats[i].data.headshots)
}

/// Builds the columnar batch from a batch of stat records.
///
/// One row per record, in input order; the `shots` and `hits` cells are
/// the record's per-weapon sums.  Fails with `Overflow` exactly when some
/// record's sum does not fit a `u32` cell; an empty batch yields a valid
/// empty table.
pub fn build_dataframe(stats: &Vec<PlayerStats<DefaultPlayerData>>) -> (r: Result<
    StatTable,
    AnalysisError,
>)
    ensures
        r is Ok <==> sums_fit(stats@),
        r matches Ok(t) ==> is_base_table(t, stats@),
        r matches Err(e) ==> e == AnalysisError::Overflow,
{
    let mut ids: Vec<String> = Vec::new();
    let mut shots: Vec<u32> = Vec::new();
    let mut hits: Vec<u32> = Vec::new();
    let mut heads: Vec<u32> = Vec::new();
    let mut i: usize = 0;
    while i < stats.len()
        invariant
            i <= stats@.len(),
            ids@.len() == i,
            shots@.len() == i,
            hits@.len() == i,
            heads@.len() == i,
            forall|k: int| 0 <= k < i ==> (#[trigger] ids@[k])@ == stats@[k].player_id@,
            forall|k: int|
                0 <= k < i ==> #[trigger] shots@[k] == sum_counts(stats@[k].data.shots_fired@),
            forall|k: int| 0 <= k < i ==> #[trigger] hits@[k] == sum_counts(stats@[k].data.hits@),
            forall|k: int| 0 <= k < i ==> #[trigger] heads@[k] == stats@[k].data.headshots,
            forall|k: int|
                0 <= k < i ==> sum_counts(#[trigger] stats@[k].data.shots_fired@) <= u32::MAX
                    && sum_counts(stats@[k].data.hits@) <= u32::MAX,
        decreases stats@.len() - i,
    {
        let shot_total = total_count(&stats[i].data.shots_fired);
        let hit_total = total_count(&stats[i].data.hits);
        if shot_total > u32::MAX as u128 || hit_total > u32::MAX as u128 {
            return Err(AnalysisError::Overflow);
        }
        ids.push(stats[i].player_id.clone());
        shots.push(shot_total as u32);
        hits.push(hit_total as u32);
        heads.push(stats[i].data.headshots);
        i = i + 1;
    }
    let height = stats.len();
    let mut columns: Vec<Column> = Vec::new();
    columns.push(Column { name: String::from_str("player_id"), data: ColumnData::Text(ids) });
    columns.push(Column { name: String::from_str("shots"), data: ColumnData::Counts(shots) });
    columns.push(Column { name: String::from_str("hits"), data: ColumnData::Counts(hits) });
    columns.push(Column { name: String::from_str("headshots"), data: ColumnData::Counts(heads) });
    Ok(StatTable { height, columns })
}

/// A dense row-major matrix of exact ratios, one row per table row.
#[derive(Debug)]
pub struct FeatureMatrix {
    /// The rows; all have the same width.
    pub rows: Vec<Vec<Ratio>>,
}

/// Projects the named numeric columns of `t` into a dense row-major
/// matrix, in the given stable column order.
///
/// Count cells `n` are read as the ratio `n / 1`, rate cells as
/// themselves.  Fails with `ColumnNotFound` for the first requested name
/// that is absent, and with `TypeMismatch` for the first requested column
/// that is not numeric.
pub fn df_to_ndarray(t: &StatTable, cols: &Vec<String>) -> (r: Result<
    FeatureMatrix,
    AnalysisError,
>)
    requires
        t.wf(),
    ensures
        r is Ok <==> (forall|j: int|
            0 <= j < cols@.len() ==> (lookup(t.columns@, (#[trigger] cols@[j])@) matches Some(d)
                && d.is_numeric())),
        r matches Ok(m) ==> ({
            &&& m.rows@.len() == t.height
            &&& forall|i: int|
                0 <= i < t.height ==> (#[trigger] m.rows@[i])@.len() == cols@.len()
            &&& forall|i: int, j: int|
                0 <= i < t.height && 0 <= j < cols@.len() ==> (#[trigger] m.rows@[i]@[j]) == cell(
                    t.columns@,
                    cols@[j]@,
                    i,
                )
        }),
        r matches Err(e) ==> exists|j: int|
            ({
                &&& 0 <= j < cols@.len()
                &&& forall|k: int|
                    0 <= k < j ==> (lookup(t.columns@, (#[trigger] cols@[k])@) matches Some(d)
                        && d.is_numeric())
                &&& match lookup(t.columns@, (#[trigger] cols@[j])@) {
                    None => e matches AnalysisError::ColumnNotFound(c) && c@ == cols@[j]@,
                    Some(d) => !d.is_numeric() && (e matches AnalysisError::TypeMismatch(c) && c@
                        == cols@[j]@),
                }
            }),
{
    let mut j: usize = 0;
    while j < cols.len()
        invariant
            j <= cols@.len(),
            t.wf(),
            forall|k: int|
                0 <= k < j ==> (lookup(t.columns@, (#[trigger] cols@[k])@) matches Some(d)
                    && d.is_numeric()),
        decreases cols@.len() - j,
    {
        match t.column(&cols[j]) {
            None => {
                return Err(AnalysisError::ColumnNotFound(cols[j].clone()));
            },
            Some(c) => {
                match &c.data {
                    ColumnData::Text(_) => {
                        return Err(AnalysisError::TypeMismatch(cols[j].clone()));
                    },
                    _ => {},
                }
            },
        }
        j = j + 1;
    }
    let mut rows: Vec<Vec<Ratio>> = Vec::new();
    let mut i: usize = 0;
    while i < t.height
        invariant
            i <= t.height,
            t.wf(),
            rows@.len() == i,
            forall|k: int|
                0 <= k < cols@.len() ==> (lookup(t.columns@, (#[trigger] cols@[k])@) matches Some(
                    d,
                ) && d.is_numeric()),
            forall|k: int| 0 <= k < i ==> (#[trigger] rows@[k])@.len() == cols@.len(),
            forall|k: int, j: int|
                0 <= k < i && 0 <= j < cols@.len() ==> (#[trigger] rows@[k]@[j]) == cell(
                    t.columns@,
                    cols@[j]@,
                    k,
                ),
        decreases t.height - i,
    {
        let mut row: Vec<Ratio> = Vec::new();
        let mut j: usize = 0;
        while j < cols.len()
            invariant
                j <= cols@.len(),
                t.wf(),
                i < t.height,
                row@.len() == j,
                forall|k: int|
                    0 <= k < cols@.len() ==> (lookup(t.columns@, (#[trigger] cols@[k])@) matches
                        Some(d) && d.is_numeric()),
                forall|k: int|
                    0 <= k < j ==> (#[trigger] row@[k]) == cell(t.columns@, cols@[k]@, i as int),
            decreases cols@.len() - j,
        {
            proof {
                lemma_lookup_index(t.columns@, cols@[j as int]@);
            }
            let cell_ratio = match t.column(&cols[j]) {
                Some(c) => match &c.data {
                    ColumnData::Counts(v) => Ratio { num: v[i] as u128, den: 1 },
                    ColumnData::Rates(v) => v[i],
                    ColumnData::Text(_) => {
                        proof {
                            assert(false);
                        }
                        Ratio { num: 0, den: 1 }
                    },
                },
                None => {
                    proof {
                        assert(false);
                    }
                    Ratio { num: 0, den: 1 }
                },
            };
            row.push(cell_ratio);
            j = j + 1;
        }
        rows.push(row);
        i = i + 1;
    }
    Ok(FeatureMatrix { rows })
}

/// In a base table the three count columns resolve by name to the summed
/// counters of the batch, record by record.
pub proof fn lemma_base_table_lookups(t: StatTable, stats: Seq<PlayerStats<DefaultPlayerData>>)
    requires
        is_base_table(t, stats),
    ensures
        has_counts(t.columns@, "shots"@),
        has_counts(t.columns@, "hits"@),
        has_counts(t.columns@, "headshots"@),
        counts_of(t.columns@, "shots"@).len() == stats.len(),
        counts_of(t.columns@, "hits"@).len() == stats.len(),
        counts_of(t.columns@, "headshots"@).len() == stats.len(),
        forall|i: int|
            0 <= i < stats.len() ==> counts_of(t.columns@, "shots"@)[i] == sum_counts(
                (#[trigger] stats[i]).data.shots_fired@,
            ),
        forall|i: int|
            0 <= i < stats.len() ==> counts_of(t.columns@, "hits"@)[i] == sum_counts(
                (#[trigger] stats[i]).data.hits@,
            ),
        forall|i: int|
            0 <= i < stats.len() ==> counts_of(t.columns@, "headshots"@)[i] == (
            #[trigger] stats[i]).data.headshots,
{
    reveal_strlit("player_id");
    reveal_strlit("shots");
    reveal_strlit("hits");
    reveal_strlit("headshots");
    assert("player_id"@.len() == 9);
    assert("shots"@.len() == 5);
    assert("hits"@.len() == 4);
    assert("headshots"@.len() == 9);
    assert("player_id"@[0] == 'p');
    assert("headshots"@[0] == 'h');
    reveal_with_fuel(lookup, 6);
    let cols = t.columns@;
    assert(cols.drop_first()[0] == cols[1]);
    assert(cols.drop_first().drop_first() =~= cols.skip(2));
    assert(cols.skip(2)[0] == cols[2]);
    assert(cols.skip(2).drop_first() =~= cols.skip(3));
    assert(cols.skip(3)[0] == cols[3]);
    assert(lookup(cols, "shots"@) == Some(cols[1].data));
    assert(lookup(cols, "hits"@) == Some(cols[2].data));
    assert(lookup(cols, "headshots"@) == Some(cols[3].data));
}

/// In a table extending a base table with the two derived rate columns,
/// the rate columns resolve by name to the appended columns.
pub proof fn lemma_feature_table_lookups(
    base: StatTable,
    t: StatTable,
    stats: Seq<PlayerStats<DefaultPlayerData>>,
)
    requires
        is_base_table(base, stats),
        t.columns@.len() == base.columns@.len() + 2,
        forall|i: int| 0 <= i < base.columns@.len() ==> #[trigger] t.columns@[i] == base.columns@[i],
        t.columns@[4].name@ == "hit_rate"@,
        t.columns@[5].name@ == "headshot_rate"@,
    ensures
        lookup(t.columns@, "hit_rate"@) == Some(t.columns@[4].data),
        lookup(t.columns@, "headshot_rate"@) == Some(t.columns@[5].data),
{
    reveal_strlit("player_id");
    reveal_strlit("shots");
    reveal_strlit("hits");
    reveal_strlit("headshots");
    reveal_strlit("hit_rate");
    reveal_strlit("headshot_rate");
    assert("player_id"@.len() == 9);
    assert("shots"@.len() == 5);
    assert("hits"@.len() == 4);
    assert("headshots"@.len() == 9);
    assert("hit_rate"@.len() == 8);
    assert("headshot_rate"@.len() == 13);
    assert("player_id"@[0] == 'p');
    assert("headshots"@[0] == 'h');
    assert("hit_rate"@[3] == '_');
    assert("headshots"@[3] == 'd');
    reveal_with_fuel(lookup, 8);
    let cols = t.columns@;
    assert(cols.drop_first()[0] == cols[1]);
    assert(cols.drop_first().drop_first() =~= cols.skip(2));
    assert(cols.skip(2)[0] == cols[2]);
    assert(cols.skip(2).drop_first() =~= cols.skip(3));
    assert(cols.skip(3)[0] == cols[3]);
    assert(cols.skip(3).drop_first() =~= cols.skip(4));
    assert(cols.skip(4)[0] == cols[4]);
    assert(cols.skip(4).drop_first() =~= cols.skip(5));
    assert(cols.skip(5)[0] == cols[5]);
    assert(lookup(cols, "hit_rate"@) == Some(cols[4].data));
    assert(lookup(cols, "headshot_rate"@) == Some(cols[5].data));
}

/// Adds the two engineered ratio columns to a base table:
/// `hit_rate = hits / shots` and `headshot_rate = headshots / hits`,
/// cell by cell, each with the zero-denominator rule.  Row order is kept:
/// no cell moves, the two columns are appended at the end.
pub fn derive_ratios(t: StatTable) -> (r: Result<StatTable, AnalysisError>)
    requires
        t.wf(),
    ensures
        r is Ok <==> (has_counts(t.columns@, "hits"@) && has_counts(t.columns@, "shots"@)
            && has_counts(t.columns@, "headshots"@)),
        r matches Ok(t2) ==> ({
            &&& t2.wf()
            &&& t2.height == t.height
            &&& t2.columns@.len() == t.columns@.len() + 2
            &&& forall|i: int|
                0 <= i < t.columns@.len() ==> #[trigger] t2.columns@[i] == t.columns@[i]
            &&& t2.columns@[t.columns@.len() as int].name@ == "hit_rate"@
            &&& (t2.columns@[t.columns@.len() as int].data matches ColumnData::Rates(v) && v@
                == ratio_column(counts_of(t.columns@, "hits"@), counts_of(t.columns@, "shots"@)))
            &&& t2.columns@.last().name@ == "headshot_rate"@
            &&& (t2.columns@.last().data matches ColumnData::Rates(v) && v@ == ratio_column(
                counts_of(t.columns@, "headshots"@),
                counts_of(t.columns@, "hits"@),
            ))
        }),
        lookup(t.columns@, "hits"@) is None ==> (r matches Err(e) && e matches
            AnalysisError::ColumnNotFound(c) && c@ == "hits"@),
        (lookup(t.columns@, "hits"@) matches Some(d) && !d.is_numeric_counts()) ==> (r matches
            Err(e) && e matches AnalysisError::TypeMismatch(c) && c@ == "hits"@),
        (has_counts(t.columns@, "hits"@) && lookup(t.columns@, "shots"@) is None) ==> (r matches
            Err(e) && e matches AnalysisError::ColumnNotFound(c) && c@ == "shots"@),
        (has_counts(t.columns@, "hits"@) && (lookup(t.columns@, "shots"@) matches Some(d)
            && !d.is_numeric_counts())) ==> (r matches Err(e) && e matches
            AnalysisError::TypeMismatch(c) && c@ == "shots"@),
        (has_counts(t.columns@, "hits"@) && has_counts(t.columns@, "shots"@) && lookup(
            t.columns@,
            "headshots"@,
        ) is None) ==> (r matches Err(e) && e matches AnalysisError::ColumnNotFound(c) && c@
            == "headshots"@),
        (has_counts(t.columns@, "hits"@) && has_counts(t.columns@, "shots"@) && (lookup(
            t.columns@,
            "headshots"@,
        ) matches Some(d) && !d.is_numeric_counts())) ==> (r matches Err(e) && e matches
            AnalysisError::TypeMismatch(c) && c@ == "headshots"@),
{
    let ghost base = t.columns@;
    let hits_name = String::from_str("hits");
    let shots_name = String::from_str("shots");
    let heads_name = String::from_str("headshots");
    let t1 = match t.with_ratio_column(String::from_str("hit_rate"), &hits_name, &shots_name) {
        Ok(t1) => t1,
        Err(e) => {
            return Err(e);
        },
    };
    proof {
        reveal_strlit("hits");
        reveal_strlit("shots");
        reveal_strlit("headshots");
        reveal_strlit("hit_rate");
        assert(t1.columns@ =~= base.push(t1.columns@.last()));
        lemma_lookup_push(base, t1.columns@.last(), "headshots"@);
        lemma_lookup_push(base, t1.columns@.last(), "hits"@);
        assert("hit_rate"@.len() == 8);
        assert("headshots"@.len() == 9);
        assert("hits"@.len() == 4);
        assert(!("hit_rate"@ == "headshots"@));
        assert(!("hit_rate"@ == "hits"@));
    }
    let t2 = match t1.with_ratio_column(
        String::from_str("headshot_rate"),
        &heads_name,
        &hits_name,
    ) {
        Ok(t2) => t2,
        Err(e) => {
            return Err(e);
        },
    };
    Ok(t2)
}

} // verus!
