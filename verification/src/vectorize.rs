//! Maps a metric record to a fixed-dimension feature vector.
//!
//! The column order and the per-column weights are a contract shared with the
//! trained scaler and cluster model: reordering or reweighting invalidates
//! previously trained artifacts.  In this contract version every weight is 1.
use vstd::prelude::*;
use crate::fx::METRIC_BOUND;
use crate::metrics::{SpecMetrics, TextMetrics, metrics_match};

verus! {

/// The dimension of a feature vector.
pub const N_FEATURES: usize = 15;

/// The mathematical value of each metric field.
pub open spec fn metrics_view(m: TextMetrics) -> SpecMetrics {
    SpecMetrics {
        emoji_rate: m.emoji_rate as int,
        buzzword_rate: m.buzzword_rate as int,
        not_just_count: m.not_just_count as int,
        html_escape_count: m.html_escape_count as int,
        devlog_count: m.devlog_count as int,
        backstory_count: m.backstory_count as int,
        incorrect_perspective: m.incorrect_perspective as int,
        human_informality: m.human_informality as int,
        irregular_ellipsis: m.irregular_ellipsis as int,
        irregular_quotations: m.irregular_quotations as int,
        irregular_dashes: m.irregular_dashes as int,
        irregular_markdown: m.irregular_markdown as int,
        irregular_arrows: m.irregular_arrows as int,
        labels: m.labels as int,
        hashtags: m.hashtags as int,
    }
}

/// Metrics that match a specification are exactly its view.
pub proof fn lemma_match_is_view(m: TextMetrics, s: SpecMetrics)
    requires
        metrics_match(m, s),
    ensures
        metrics_view(m) == s,
{
}

/// The metric that feeds column `i`: the column order contract.
pub open spec fn spec_column(s: SpecMetrics, i: int) -> int {
    if i == 0 {
        s.emoji_rate
    } else if i == 1 {
        s.buzzword_rate
    } else if i == 2 {
        s.irregular_dashes
    } else if i == 3 {
        s.irregular_quotations
    } else if i == 4 {
        s.labels
    } else if i == 5 {
        s.irregular_ellipsis
    } else if i == 6 {
        s.html_escape_count
    } else if i == 7 {
        s.not_just_count
    } else if i == 8 {
        s.devlog_count
    } else if i == 9 {
        s.irregular_markdown
    } else if i == 10 {
        s.hashtags
    } else if i == 11 {
        s.human_informality
    } else if i == 12 {
        s.incorrect_perspective
    } else if i == 13 {
        s.backstory_count
    } else {
        s.irregular_arrows
    }
}

/// The manual weight of column `i`; unit for every column in this contract
/// version.
pub open spec fn column_weight(i: int) -> int {
    1
}

/// The feature vector of a metric record: column `i` holds the metric of
/// [`spec_column`] multiplied by [`column_weight`].
pub open spec fn features_of(s: SpecMetrics) -> Seq<int> {
    Seq::new(N_FEATURES as nat, |i: int| column_weight(i) * spec_column(s, i))
}

/// Builds the feature vector of one metric record.  Reading back column `i`
/// yields exactly the metric of that column times its weight.
pub fn vectorize(m: &TextMetrics) -> (r: Vec<i128>)
    ensures
        r@.len() == N_FEATURES,
        forall|i: int| 0 <= i < N_FEATURES ==> r@[i] == column_weight(i) * spec_column(
            metrics_view(*m),
            i,
        ),
        forall|i: int| 0 <= i < N_FEATURES ==> r@[i] == features_of(metrics_view(*m))[i],
        crate::metrics::metrics_bounded(*m) ==> forall|i: int| 0 <= i < N_FEATURES ==>
            -METRIC_BOUND <= #[trigger] r@[i] <= METRIC_BOUND,
{
    let r: Vec<i128> = vec![
        m.emoji_rate,
        m.buzzword_rate,
        m.irregular_dashes,
        m.irregular_quotations,
        m.labels,
        m.irregular_ellipsis,
        m.html_escape_count,
        m.not_just_count,
        m.devlog_count,
        m.irregular_markdown,
        m.hashtags,
        m.human_informality,
        m.incorrect_perspective,
        m.backstory_count,
        m.irregular_arrows,
    ];
    r
}

/// Builds the feature matrix of a batch of metric records, one row per record.
pub fn features_from_metrics(data: &Vec<TextMetrics>) -> (r: Vec<Vec<i128>>)
    ensures
        r@.len() == data@.len(),
        forall|k: int| 0 <= k < r@.len() ==> #[trigger] r@[k]@.len() == N_FEATURES,
        forall|k: int, i: int| 0 <= k < r@.len() && 0 <= i < N_FEATURES ==> #[trigger] r@[k]@[i]
            == features_of(metrics_view(data@[k]))[i],
{
    let mut r: Vec<Vec<i128>> = Vec::new();
    let mut k: usize = 0;
    while k < data.len()
        invariant
            k <= data@.len(),
            r@.len() == k,
            forall|t: int| 0 <= t < k ==> #[trigger] r@[t]@.len() == N_FEATURES,
            forall|t: int, i: int| 0 <= t < k && 0 <= i < N_FEATURES ==> #[trigger] r@[t]@[i]
                == features_of(metrics_view(data@[t]))[i],
        decreases data@.len() - k,
    {
        let row = vectorize(&data[k]);
        r.push(row);
        k += 1;
    }
    r
}

} // verus!
