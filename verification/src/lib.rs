//! Anti-cheat analysis library for multiplayer games.
//!
//! Player statistics (shots fired, hits, headshots per weapon) are turned
//! into exact rational features (hit rate, headshot rate) through a small
//! columnar table, and handed to a binary classifier that scores each
//! player's likelihood of cheating.  All ratio arithmetic is exact: a zero
//! denominator always yields the zero ratio, never an undefined value.

pub mod analysis;
pub mod boundary;
pub mod ratio;
pub mod table;
pub mod training;
pub mod types;

pub use analysis::{attach_scores, prepare_analysis, AnalysisPlan};
pub use ratio::Ratio;
pub use table::{build_dataframe, df_to_ndarray, Column, ColumnData, FeatureMatrix, StatTable};
pub use training::{default_training_batch, prepare_training, TrainingPlan};
