//! Estimates how likely a short piece of prose was machine-written.
//!
//! The library turns raw (possibly Markdown) text into a fixed-shape record of
//! stylistic counts and rates, maps that record to a feature vector, and
//! scores the vector against a two-centroid cluster model to produce a
//! confidence split between "machine-like" and "human-like".  All numeric work
//! is done in exact fixed-point arithmetic (see [`fx`]), so a given text,
//! model and lexicon set always produce the same prediction.
//!
//! The pipeline: [`metrics::TextMetricFactory::calculate`] turns text into a
//! [`metrics::TextMetrics`] record; [`vectorize::features_from_metrics`] maps
//! records to feature rows; [`model::transform`] applies the fitted scaler;
//! [`model::point_confidence`] scores a row against the two centroids; and
//! [`predict::predict`] runs the whole chain.  The [`net`] and [`corpus`]
//! modules hold the decisions of the training-corpus fetch; the fetch itself
//! (HTTP, sleeping, artifact decoding) belongs to the host.

pub mod chars;
pub mod corpus;
pub mod fx;
pub mod grapheme;
pub mod lexicon;
pub mod markdown;
pub mod metrics;
pub mod model;
pub mod net;
pub mod predict;
pub mod scan;
pub mod text;
pub mod vectorize;

pub use corpus::{Devlog, Devlogs, Project, Projects, corpus_texts};
pub use fx::SCALE;
pub use lexicon::LexiconMatcher;
pub use metrics::{TextCounts, TextMetricFactory, TextMetrics, metrics_from_counts};
pub use model::{BP_FULL, ClusterModel, DistanceKind, LinearScaler, point_confidence, transform};
pub use net::{
    FetchAction, FetchOutcome, Pagination, backoff_ms, initial_pending, parse_retry_after,
    remaining_pages, retry_decision,
};
pub use predict::{Detector, Prediction, predict};
pub use vectorize::{N_FEATURES, features_from_metrics, vectorize};
