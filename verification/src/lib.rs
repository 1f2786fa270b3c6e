//! Directed-fuzzing feedback and power-scheduling core.
//!
//! The crate decides which executions of a fuzzing campaign are interesting
//! with respect to one or more target program locations, keeps restart-durable
//! running statistics about the accepted executions, and computes the data a
//! time-annealed power schedule needs to bias mutation budget toward entries
//! close to the targets. Scalars are kept as exact rationals over the
//! fixed-resolution integer samples delivered by the instrumentation, so every
//! decision in here is exact arithmetic.

pub mod average;
pub mod dafl;
pub mod distance;
pub mod feedback;
pub mod metric;
pub mod score;
pub mod similarity;
pub mod window;

pub use feedback::{
    CoolingSchedule, DistanceFeedback, DistanceMetadata, DistanceObserver,
    DistanceTestcaseMetadata, FeedbackError, Progress, SimilarityFeedback, SimilarityMetadata,
    SimilarityObserver, SimilarityTestcaseMetadata,
};
pub use metric::{MetricValue, NormalizedValue};
pub use score::{DistancePowerTestcaseScore, ScoreDecision, SimilarityBand};
