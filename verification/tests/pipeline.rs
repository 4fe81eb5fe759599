//! End-to-end tests of the metric pipeline and the scorer, run against the
//! real matcher, Markdown, segmentation and emoji crates.
use sonai::chars::chars_of;
use sonai::metrics::{TextCounts, TextMetricFactory, TextMetrics, metrics_from_counts};
use sonai::model::{BP_FULL, ClusterModel, DistanceKind, LinearScaler, point_confidence, transform};
use sonai::predict::{Detector, predict};
use sonai::scan::{count_hashtags, sentence_scan};
use sonai::text::count_pattern;
use sonai::vectorize::vectorize;
use sonai::SCALE;
use sonai::fx::{SCALED_BOUND, SCALE_PARAM_BOUND};

fn identity_scaler() -> LinearScaler {
    LinearScaler {
        scales: vec![SCALE; 15],
        offsets: vec![0; 15],
    }
}

fn test_model(kind: DistanceKind) -> ClusterModel {
    ClusterModel {
        centroids: vec![vec![0; 15], vec![2 * SCALE; 15]],
        distance: kind,
    }
}

fn test_detector() -> Detector {
    Detector {
        factory: TextMetricFactory::new().unwrap(),
        scaler: identity_scaler(),
        model: test_model(DistanceKind::Euclidean),
        ai_cluster: 0,
    }
}

fn zero_counts() -> TextCounts {
    TextCounts {
        sentence_count: 1,
        noncap_sentences: 0,
        emoji: 0,
        html_escapes: 0,
        bullet_glyphs: 0,
        markdown_events: 0,
        labels: 0,
        hashtags: 0,
        irregular_dashes: 0,
        irregular_quotes: 0,
        irregular_arrows: 0,
        irregular_ellipses: 0,
        buzzword_pos: 0,
        buzzword_neg: 0,
        not_just: 0,
        devlog: 0,
        backstory_pos: 0,
        backstory_neg: 0,
        incorrect_perspective: 0,
        broken_english: 0,
        overly_formal: 0,
        trailing_comma: false,
    }
}

#[test]
fn predict_is_deterministic() {
    let detector = test_detector();
    let text = "Day 1 of my devlog! We built a modern, seamless app \u{2014} it's not just a tool\u{2026} #hype 😀";
    let first = predict(&detector, text);
    let second = predict(&detector, text);
    assert_eq!(first, second);
}

#[test]
fn empty_text_gets_sentence_floor() {
    let detector = test_detector();
    let counts = detector.factory.counts("");
    assert_eq!(counts.sentence_count, 1);
    let p = predict(&detector, "");
    assert_eq!(p.chance_ai + p.chance_human, BP_FULL);
}

#[test]
fn unpunctuated_text_gets_one_sentence() {
    let detector = test_detector();
    let counts = detector.factory.counts("no terminal punctuation");
    assert_eq!(counts.sentence_count, 1);
    assert_eq!(counts.noncap_sentences, 1);
    let p = predict(&detector, "no terminal punctuation");
    assert_eq!(p.chance_ai + p.chance_human, BP_FULL);
}

#[test]
fn chances_sum_to_full_scale() {
    let detector = test_detector();
    for text in ["", "hi.", "We built this! It's not just code\u{2026}", "plz #wow 😀 😀"] {
        let p = predict(&detector, text);
        assert_eq!(p.chance_ai + p.chance_human, BP_FULL);
        assert!(0 <= p.chance_ai && p.chance_ai <= BP_FULL);
        assert!(0 <= p.chance_human && p.chance_human <= BP_FULL);
    }
}

#[test]
fn matching_centroid_takes_the_larger_share() {
    for kind in [DistanceKind::Euclidean, DistanceKind::Chebyshev] {
        let model = test_model(kind);
        let row = vec![0; 15];
        let (distances, sims) = point_confidence(&model, &row);
        assert_eq!(distances[0], 0);
        assert!(distances[1] >= 1);
        assert!(sims[0] > sims[1]);
    }
}

#[test]
fn multi_code_point_emoji_counts_once() {
    let detector = test_detector();
    let counts = detector.factory.counts("🇺🇸");
    assert_eq!(counts.emoji, 1);
}

#[test]
fn allowlisted_emoji_does_not_count() {
    let detector = test_detector();
    assert_eq!(detector.factory.counts("😭").emoji, 0);
    assert_eq!(detector.factory.counts("😀").emoji, 1);
}

#[test]
fn label_line_counts_once() {
    let factory = TextMetricFactory::new().unwrap();
    let counts = factory.counts("Day:\nRest of text");
    assert_eq!(counts.labels, 1);
    let m = factory.calculate("Day:\nRest of text");
    assert_eq!(m.labels, SCALE);
}

#[test]
fn url_scheme_is_not_a_label() {
    let factory = TextMetricFactory::new().unwrap();
    assert_eq!(factory.counts("https:\n").labels, 0);
    assert_eq!(factory.counts("http:\n").labels, 0);
}

#[test]
fn buzzword_correction_nets_out() {
    let factory = TextMetricFactory::new().unwrap();
    let neutral = factory.calculate("a modern english course.");
    assert_eq!(neutral.buzzword_rate, 0);
    let loaded = factory.calculate("modern tools.");
    assert_eq!(loaded.buzzword_rate, SCALE);
}

#[test]
fn buzzword_net_may_go_negative() {
    let mut counts = zero_counts();
    counts.buzzword_pos = 1;
    counts.buzzword_neg = 2;
    let m = metrics_from_counts(&counts);
    assert_eq!(m.buzzword_rate, -SCALE);
}

#[test]
fn vectorize_reads_back_each_field() {
    let m = TextMetrics {
        emoji_rate: 1,
        buzzword_rate: -2,
        not_just_count: 3,
        html_escape_count: 4,
        devlog_count: 5,
        backstory_count: -6,
        incorrect_perspective: 7,
        human_informality: 8,
        irregular_ellipsis: 9,
        irregular_quotations: 10,
        irregular_dashes: 11,
        irregular_markdown: 12,
        irregular_arrows: 13,
        labels: 14,
        hashtags: 15,
    };
    let row = vectorize(&m);
    assert_eq!(row[0], m.emoji_rate);
    assert_eq!(row[1], m.buzzword_rate);
    assert_eq!(row[2], m.irregular_dashes);
    assert_eq!(row[3], m.irregular_quotations);
    assert_eq!(row[4], m.labels);
    assert_eq!(row[5], m.irregular_ellipsis);
    assert_eq!(row[6], m.html_escape_count);
    assert_eq!(row[7], m.not_just_count);
    assert_eq!(row[8], m.devlog_count);
    assert_eq!(row[9], m.irregular_markdown);
    assert_eq!(row[10], m.hashtags);
    assert_eq!(row[11], m.human_informality);
    assert_eq!(row[12], m.incorrect_perspective);
    assert_eq!(row[13], m.backstory_count);
    assert_eq!(row[14], m.irregular_arrows);
}

#[test]
fn sentence_scan_counts_segments_and_caps() {
    let text = chars_of("Hello there! this is fine. ok");
    let (sentences, noncap) = sentence_scan(&text);
    assert_eq!(sentences, 3);
    assert_eq!(noncap, 2);
}

#[test]
fn hashtags_need_a_hash_and_length() {
    let text = chars_of("#one two #three # #x");
    assert_eq!(count_hashtags(&text), 3);
}

#[test]
fn html_escapes_are_counted_raw() {
    let factory = TextMetricFactory::new().unwrap();
    let counts = factory.counts("&amp;&amp; and more");
    assert_eq!(counts.html_escapes, 2);
    let pat = chars_of("&amp;");
    assert_eq!(count_pattern(&chars_of("&amp;&amp;x"), &pat), 2);
}

#[test]
fn markdown_styling_is_counted() {
    let factory = TextMetricFactory::new().unwrap();
    let counts = factory.counts("# Head\n\n**bold** and _em_\n\n> quote\n\n---\n");
    assert_eq!(counts.markdown_events, 5);
    assert_eq!(counts.bullet_glyphs, 0);
}

#[test]
fn bullet_glyphs_count_as_markdown() {
    let factory = TextMetricFactory::new().unwrap();
    let counts = factory.counts("\u{2022} one\n\u{25cf} two");
    assert_eq!(counts.bullet_glyphs, 2);
}

#[test]
fn code_blocks_are_suppressed() {
    let factory = TextMetricFactory::new().unwrap();
    let counts = factory.counts("```\nhidden 😀 text. more! lines?\n```");
    assert_eq!(counts.emoji, 0);
    assert_eq!(counts.sentence_count, 1);
}

#[test]
fn typographic_irregularities_are_counted() {
    let factory = TextMetricFactory::new().unwrap();
    let counts = factory.counts("x\u{2014}y and a \u{2192} b and \u{201c}quoted\u{201d}");
    assert_eq!(counts.irregular_dashes, 1);
    assert_eq!(counts.irregular_arrows, 1);
    assert_eq!(counts.irregular_quotes, 2);
}

#[test]
fn hyphen_counts_only_before_nonspace() {
    let factory = TextMetricFactory::new().unwrap();
    assert_eq!(factory.counts("a - b").irregular_dashes, 0);
    assert_eq!(factory.counts("a -b").irregular_dashes, 1);
}

#[test]
fn ellipses_are_counted() {
    let factory = TextMetricFactory::new().unwrap();
    let counts = factory.counts("wait\u{2026} no more");
    assert_eq!(counts.irregular_ellipses, 1);
    let dots = factory.counts("hold on");
    assert_eq!(dots.irregular_ellipses, 0);
}

#[test]
fn trailing_comma_marks_informality() {
    let factory = TextMetricFactory::new().unwrap();
    let counts = factory.counts("So I kept going,");
    assert!(counts.trailing_comma);
    let counts = factory.counts("So I kept going.");
    assert!(!counts.trailing_comma);
}

#[test]
fn informality_rate_follows_the_formula() {
    let mut counts = zero_counts();
    counts.sentence_count = 2;
    counts.noncap_sentences = 1;
    counts.broken_english = 1;
    counts.trailing_comma = true;
    counts.overly_formal = 1;
    // (2 * 1 + 2 * 1 + 3 * 1 - 2 * 1) / (2 * 2) sentences = 5 / 4.
    let m = metrics_from_counts(&counts);
    assert_eq!(m.human_informality, 5 * SCALE / 4);
}

#[test]
fn identity_scaler_keeps_features() {
    let scaler = identity_scaler();
    let features = vec![7 * SCALE; 15];
    let scaled = transform(&scaler, &features);
    assert_eq!(scaled, features);
}

#[test]
fn chebyshev_and_euclidean_distances() {
    let model = test_model(DistanceKind::Chebyshev);
    let row = vec![0; 15];
    let (distances, _) = point_confidence(&model, &row);
    assert_eq!(distances[1], 2 * SCALE);
    let model = test_model(DistanceKind::Euclidean);
    let (distances, _) = point_confidence(&model, &row);
    // isqrt(15 * (2 * SCALE)^2) = floor(2 * SCALE * sqrt(15)).
    assert_eq!(distances[1], 7_745_966);
}

#[test]
fn near_tie_breaks_toward_the_nearer_centroid() {
    // One fixed-point unit between the centroids: the raw shares would tie at
    // half the scale, and the tie-break hands the basis point to the nearer.
    let mut far = vec![0i128; 15];
    far[0] = 1;
    let model = ClusterModel {
        centroids: vec![vec![0; 15], far],
        distance: DistanceKind::Euclidean,
    };
    let row = vec![0; 15];
    let (distances, sims) = point_confidence(&model, &row);
    assert_eq!(distances, vec![0, 1]);
    assert_eq!(sims, vec![BP_FULL / 2 + 1, BP_FULL / 2 - 1]);
}

#[test]
fn equal_centroids_split_evenly() {
    // The degenerate model: both centroids at the row itself.  Fixed-point
    // distances are finite, so the shares still normalize, to an even split.
    let model = ClusterModel {
        centroids: vec![vec![0; 15], vec![0; 15]],
        distance: DistanceKind::Euclidean,
    };
    let row = vec![0; 15];
    let (distances, sims) = point_confidence(&model, &row);
    assert_eq!(distances, vec![0, 0]);
    assert_eq!(sims, vec![BP_FULL / 2, BP_FULL / 2]);
}

#[test]
fn transform_clamps_extreme_values() {
    let scaler = LinearScaler {
        scales: vec![SCALE_PARAM_BOUND; 15],
        offsets: vec![0; 15],
    };
    let features = vec![1_000_000_000_000_000; 15];
    let scaled = transform(&scaler, &features);
    assert_eq!(scaled, vec![SCALED_BOUND; 15]);
}

#[test]
fn ai_cluster_index_selects_the_share() {
    let factory0 = TextMetricFactory::new().unwrap();
    let factory1 = TextMetricFactory::new().unwrap();
    let d0 = Detector {
        factory: factory0,
        scaler: identity_scaler(),
        model: test_model(DistanceKind::Euclidean),
        ai_cluster: 0,
    };
    let d1 = Detector {
        factory: factory1,
        scaler: identity_scaler(),
        model: test_model(DistanceKind::Euclidean),
        ai_cluster: 1,
    };
    let text = "some plain text.";
    let p0 = predict(&d0, text);
    let p1 = predict(&d1, text);
    assert_eq!(p0.chance_ai, p1.chance_human);
    assert_eq!(p0.chance_human, p1.chance_ai);
}
