//! Tests of the fetch decisions and the corpus cleaning, run against the real
//! date-parsing crate.
use sonai::corpus::{Devlog, Project, clean_body, clean_description, corpus_texts};
use sonai::net::{
    FetchAction, FetchOutcome, backoff_ms, initial_pending, parse_retry_after, remaining_pages,
    retry_decision,
};

#[test]
fn backoff_doubles_from_half_a_second() {
    assert_eq!(backoff_ms(0), 500);
    assert_eq!(backoff_ms(1), 500);
    assert_eq!(backoff_ms(2), 1000);
    assert_eq!(backoff_ms(3), 2000);
    assert_eq!(backoff_ms(11), 512_000);
}

#[test]
fn backoff_saturates() {
    assert_eq!(backoff_ms(200), u64::MAX);
}

#[test]
fn rate_limit_with_header_waits_without_spending_an_attempt() {
    let (attempt, action) = retry_decision(3, 5, &FetchOutcome::RateLimited(Some(7)));
    assert_eq!(attempt, 3);
    assert_eq!(action, FetchAction::Sleep(7000));
}

#[test]
fn fetched_is_accepted() {
    let (attempt, action) = retry_decision(2, 5, &FetchOutcome::Fetched);
    assert_eq!(attempt, 2);
    assert_eq!(action, FetchAction::Accept);
}

#[test]
fn errors_spend_attempts_then_give_up() {
    let (attempt, action) = retry_decision(0, 5, &FetchOutcome::BodyError);
    assert_eq!(attempt, 1);
    assert_eq!(action, FetchAction::Sleep(500));
    let (attempt, action) = retry_decision(1, 5, &FetchOutcome::TransportError);
    assert_eq!(attempt, 2);
    assert_eq!(action, FetchAction::Sleep(1000));
    let (attempt, action) = retry_decision(4, 5, &FetchOutcome::RateLimited(None));
    assert_eq!(attempt, 5);
    assert_eq!(action, FetchAction::GiveUp);
}

#[test]
fn retry_after_seconds_parse() {
    assert_eq!(parse_retry_after("120", 1_000_000), Some(120));
    assert_eq!(parse_retry_after("0", 1_000_000), Some(0));
    assert_eq!(parse_retry_after("not a number", 1_000_000), None);
    assert_eq!(parse_retry_after("", 1_000_000), None);
}

#[test]
fn retry_after_http_date_counts_from_now() {
    // One second before the year 2000: 946684799 seconds after the epoch.
    let header = "Fri, 31 Dec 1999 23:59:59 GMT";
    assert_eq!(parse_retry_after(header, 946_684_789), Some(10));
    assert_eq!(parse_retry_after(header, 946_684_799), Some(0));
    // A date already past asks for nothing.
    assert_eq!(parse_retry_after(header, 946_684_800), None);
}

#[test]
fn pending_pages_follow_the_flags() {
    assert_eq!(initial_pending(5), vec![2, 3, 4, 5]);
    assert_eq!(initial_pending(1), Vec::<usize>::new());
    let fetched = vec![true, false, true, false, false];
    assert_eq!(remaining_pages(&fetched), vec![2, 4, 5]);
}

#[test]
fn description_boilerplate_is_stripped() {
    let cleaned = clean_description("This is my first project on Flavortown. A real description.");
    assert_eq!(cleaned.as_deref(), Some("A real description."));
    assert_eq!(clean_description("This is my first project on Flavortown."), None);
    assert_eq!(clean_description("   "), None);
}

#[test]
fn body_boilerplate_is_stripped() {
    let cleaned = clean_body(
        "I'm working on my first project! This is so exciting. I can't wait to share more updates as I build. Day two went well.",
    );
    assert_eq!(cleaned.as_deref(), Some("Day two went well."));
    assert_eq!(
        clean_body(
            "I'm working on my first project! This is so exciting. I can't wait to share more updates as I build.",
        ),
        None,
    );
}

#[test]
fn corpus_keeps_descriptions_then_bodies() {
    let projects = vec![
        Project { description: "First project text.".to_string() },
        Project { description: "This is my first project on Flavortown.".to_string() },
        Project { description: "Second project text.".to_string() },
    ];
    let devlogs = vec![
        Devlog { body: "A devlog body.".to_string() },
        Devlog { body: "   ".to_string() },
    ];
    let texts = corpus_texts(&projects, &devlogs);
    assert_eq!(
        texts,
        vec![
            "First project text.".to_string(),
            "Second project text.".to_string(),
            "A devlog body.".to_string(),
        ],
    );
}
