//! The prediction boundary: one call from raw text to a confidence split.
//!
//! The three trained artifacts and the compiled lexicon set are bundled in a
//! [`Detector`], built once at startup and passed by read-only reference into
//! every call; scoring holds no other state.
use vstd::prelude::*;
use crate::fx::SCALED_BOUND;
use crate::metrics::{TextMetrics, full_metrics_spec, metrics_bounded, metrics_match,
    TextMetricFactory};
use crate::model::{
    BP_FULL, ClusterModel, LinearScaler, distance_spec, ints_of, lemma_distance_bounds,
    lemma_share_adj_bounds, point_confidence, scaled_features, share0_adj, transform,
};
use crate::vectorize::{N_FEATURES, features_of, lemma_match_is_view, metrics_view, vectorize};

verus! {

/// Everything a prediction needs: the compiled lexicons, the fitted scaler,
/// the trained two-centroid model, and the calibrated index of the
/// machine-like centroid.
pub struct Detector {
    pub factory: TextMetricFactory,
    pub scaler: LinearScaler,
    pub model: ClusterModel,
    /// Which centroid is the machine-like one: 0 or 1, fixed at training time.
    pub ai_cluster: usize,
}

impl Detector {
    pub open spec fn wf(&self) -> bool {
        &&& self.factory.wf()
        &&& self.scaler.wf()
        &&& self.model.wf()
        &&& self.ai_cluster < 2
    }
}

/// A scored text: the confidence split in basis points, and the metric record
/// it was derived from.
#[derive(Clone, Copy, Debug, PartialEq, Eq, Structural)]
pub struct Prediction {
    /// Confidence that the text is machine-written, in basis points.
    pub chance_ai: i128,
    /// Confidence that the text is human-written: the rest of the scale.
    pub chance_human: i128,
    /// The metric record of the text.
    pub metrics: TextMetrics,
}

/// The scaled feature row of a text.
pub open spec fn scaled_row_spec(text: Seq<char>, scaler: LinearScaler) -> Seq<int> {
    scaled_features(features_of(full_metrics_spec(text)), scaler)
}

/// The distance of a text's scaled row to centroid `k`.
pub open spec fn dist_spec(
    text: Seq<char>,
    scaler: LinearScaler,
    model: ClusterModel,
    k: int,
) -> int {
    distance_spec(model.distance, scaled_row_spec(text, scaler), ints_of(model.centroids@[k]@))
}

/// The machine-likeness confidence of a text, in basis points: the calibrated
/// centroid's share of the normalized similarity distribution.
pub open spec fn chance_ai_spec(
    text: Seq<char>,
    scaler: LinearScaler,
    model: ClusterModel,
    ai: int,
) -> int {
    let s0 = share0_adj(dist_spec(text, scaler, model, 0), dist_spec(text, scaler, model, 1));
    if ai == 0 {
        s0
    } else {
        BP_FULL - s0
    }
}

/// Every scaled coordinate lies within the scaled-space bound: the transform
/// clamps.
proof fn lemma_scaled_row_bounded(text: Seq<char>, scaler: LinearScaler)
    ensures
        scaled_row_spec(text, scaler).len() == N_FEATURES,
        forall|i: int| 0 <= i < N_FEATURES ==> -SCALED_BOUND
            <= #[trigger] scaled_row_spec(text, scaler)[i] <= SCALED_BOUND,
{
}

/// The probability invariant: for every text and every well-formed model, the
/// two confidences are within the scale and sum to exactly the whole of it.
pub proof fn lemma_probability_invariant(
    text: Seq<char>,
    scaler: LinearScaler,
    model: ClusterModel,
    ai: int,
)
    requires
        model.wf(),
        0 <= ai < 2,
    ensures
        0 <= chance_ai_spec(text, scaler, model, ai) <= BP_FULL,
        chance_ai_spec(text, scaler, model, ai) + (BP_FULL - chance_ai_spec(
            text,
            scaler,
            model,
            ai,
        )) == BP_FULL,
{
    lemma_scaled_row_bounded(text, scaler);
    let row = scaled_row_spec(text, scaler);
    lemma_distance_bounds(model.distance, row, ints_of(model.centroids@[0]@));
    lemma_distance_bounds(model.distance, row, ints_of(model.centroids@[1]@));
    lemma_share_adj_bounds(
        dist_spec(text, scaler, model, 0),
        dist_spec(text, scaler, model, 1),
    );
}

/// Determinism: the whole pipeline is specified as a function of the text and
/// the loaded artifacts alone, so equal texts under equal artifacts score
/// identically, across calls and across processes.
pub proof fn lemma_predict_deterministic(
    t1: Seq<char>,
    t2: Seq<char>,
    scaler: LinearScaler,
    model: ClusterModel,
    ai: int,
)
    requires
        t1 == t2,
    ensures
        full_metrics_spec(t1) == full_metrics_spec(t2),
        chance_ai_spec(t1, scaler, model, ai) == chance_ai_spec(t2, scaler, model, ai),
{
}

/// Scores one text against the detector's artifacts.
///
/// The result is total: any text, the empty one included, yields a well-formed
/// prediction whose confidences sum to exactly [`BP_FULL`].
pub fn predict(detector: &Detector, devlog: &str) -> (p: Prediction)
    requires
        detector.wf(),
    ensures
        metrics_match(p.metrics, full_metrics_spec(devlog@)),
        metrics_bounded(p.metrics),
        p.chance_ai == chance_ai_spec(
            devlog@,
            detector.scaler,
            detector.model,
            detector.ai_cluster as int,
        ),
        p.chance_human == BP_FULL - p.chance_ai,
        p.chance_ai + p.chance_human == BP_FULL,
        0 <= p.chance_ai <= BP_FULL,
        0 <= p.chance_human <= BP_FULL,
{
    let metrics = detector.factory.calculate(devlog);
    proof {
        lemma_match_is_view(metrics, full_metrics_spec(devlog@));
    }
    let features = vectorize(&metrics);
    proof {
        assert(ints_of(features@) =~= features_of(full_metrics_spec(devlog@)));
    }
    let scaled = transform(&detector.scaler, &features);
    proof {
        assert(ints_of(scaled@) =~= scaled_row_spec(devlog@, detector.scaler));
    }
    let (_distances, sims) = point_confidence(&detector.model, &scaled);
    let chance_ai = if detector.ai_cluster == 0 {
        sims[0]
    } else {
        sims[1]
    };
    let chance_human = BP_FULL - chance_ai;
    Prediction { chance_ai, chance_human, metrics }
}

} // verus!
