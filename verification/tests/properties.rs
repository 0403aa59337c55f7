//! Concrete checks of the service's stated behaviour: titles and ids on
//! creation, tallies, referential integrity, read absence, and the
//! error taxonomy.

use poll_service::service::PollService;
use poll_service::store::{Store, StoreError};
use poll_service::types::{BeError, CandidatePost, PollPost};

#[test]
fn created_poll_keeps_title_and_gets_fresh_id() {
    let mut service = PollService::new();
    let first = service
        .create_poll(PollPost {
            title: String::from("Breakfast"),
        })
        .unwrap();
    let second = service
        .create_poll(PollPost {
            title: String::from("Lunch"),
        })
        .unwrap();
    assert_eq!(first.title, "Breakfast");
    assert_eq!(second.title, "Lunch");
    assert_eq!(first.id, 1);
    assert_eq!(second.id, 2);
    assert_ne!(first.id, second.id);
    assert!(first.candidate_ids.is_empty());
    assert!(!first.creation_time.is_empty());
}

#[test]
fn empty_title_is_a_validation_error() {
    let mut service = PollService::new();
    let response = service.create_poll(PollPost {
        title: String::new(),
    });
    assert_eq!(response.unwrap_err(), BeError::ValidationError);
    assert!(service.get_poll(1).is_none());
}

#[test]
fn candidate_with_no_votes_reads_zero_tally() {
    let mut service = PollService::new();
    let poll = service
        .create_poll(PollPost {
            title: String::from("Pets"),
        })
        .unwrap();
    let candidate = service
        .create_candidate(CandidatePost {
            url: String::from("https://example.com/cat.png"),
            poll_id: poll.id,
        })
        .unwrap();
    assert_eq!(candidate.num_votes, 0);
    let read = service.get_candidate_with_tally(candidate.id).unwrap();
    assert_eq!(read.num_votes, 0);
}

#[test]
fn best_logo_scenario_three_votes() {
    let mut service = PollService::new();
    let poll = service
        .create_poll(PollPost {
            title: String::from("Best Logo"),
        })
        .unwrap();
    assert_eq!(poll.title, "Best Logo");
    let candidate = service
        .create_candidate(CandidatePost {
            url: String::from("https://example.com/a.png"),
            poll_id: poll.id,
        })
        .unwrap();
    assert_eq!(candidate.url, "https://example.com/a.png");
    for _ in 0..3 {
        service
            .cast_vote(candidate.id, String::from("203.0.113.7:1234"))
            .unwrap();
    }
    let read = service.get_candidate_with_tally(candidate.id).unwrap();
    assert_eq!(read.num_votes, 3);
    assert_eq!(read.url, "https://example.com/a.png");
    assert_eq!(read.poll_id, poll.id);
}

#[test]
fn candidate_for_missing_poll_is_a_reference_error() {
    let mut service = PollService::new();
    let response = service.create_candidate(CandidatePost {
        url: String::from("https://example.com/b.png"),
        poll_id: 12,
    });
    assert_eq!(response.unwrap_err(), BeError::ReferenceError);
}

#[test]
fn vote_for_missing_candidate_is_a_reference_error() {
    let mut service = PollService::new();
    let response = service.cast_vote(5, String::from("198.51.100.2:80"));
    assert_eq!(response.unwrap_err(), BeError::ReferenceError);
}

#[test]
fn malformed_and_relative_urls_are_validation_errors() {
    let mut service = PollService::new();
    let poll = service
        .create_poll(PollPost {
            title: String::from("Icons"),
        })
        .unwrap();
    let garbled = service.create_candidate(CandidatePost {
        url: String::from("not a url"),
        poll_id: poll.id,
    });
    assert_eq!(garbled.unwrap_err(), BeError::ValidationError);
    let relative = service.create_candidate(CandidatePost {
        url: String::from("/a.png"),
        poll_id: poll.id,
    });
    assert_eq!(relative.unwrap_err(), BeError::ValidationError);
}

#[test]
fn stored_url_is_the_normalized_rendering() {
    let mut service = PollService::new();
    let poll = service
        .create_poll(PollPost {
            title: String::from("Sites"),
        })
        .unwrap();
    // The parser lowercases scheme and host and adds the root path: the
    // stored text differs from the submitted text.
    let candidate = service
        .create_candidate(CandidatePost {
            url: String::from("HTTPS://Example.COM"),
            poll_id: poll.id,
        })
        .unwrap();
    assert_eq!(candidate.url, "https://example.com/");
    let read = service.get_candidate_with_tally(candidate.id).unwrap();
    assert_eq!(read.url, "https://example.com/");
}

#[test]
fn get_poll_for_never_created_id_is_none() {
    let mut service = PollService::new();
    assert!(service.get_poll(42).is_none());
    assert!(service.get_candidate_with_tally(42).is_none());
    let _ = service
        .create_poll(PollPost {
            title: String::from("Exists"),
        })
        .unwrap();
    assert!(service.get_poll(1).is_some());
    assert!(service.get_poll(2).is_none());
    assert!(service.get_poll(0).is_none());
    assert!(service.get_poll(-1).is_none());
}

#[test]
fn casting_twice_records_two_distinct_votes() {
    let mut service = PollService::new();
    let poll = service
        .create_poll(PollPost {
            title: String::from("Repeats"),
        })
        .unwrap();
    let candidate = service
        .create_candidate(CandidatePost {
            url: String::from("https://example.com/c.png"),
            poll_id: poll.id,
        })
        .unwrap();
    let source = String::from("192.0.2.1:4444");
    let first = service.cast_vote(candidate.id, source.clone()).unwrap();
    let second = service.cast_vote(candidate.id, source).unwrap();
    assert_ne!(first.id, second.id);
    let read = service.get_candidate_with_tally(candidate.id).unwrap();
    assert_eq!(read.num_votes, 2);
}

#[test]
fn tallies_are_kept_apart_per_candidate() {
    let mut service = PollService::new();
    let poll = service
        .create_poll(PollPost {
            title: String::from("Two options"),
        })
        .unwrap();
    let a = service
        .create_candidate(CandidatePost {
            url: String::from("https://example.com/a.png"),
            poll_id: poll.id,
        })
        .unwrap();
    let b = service
        .create_candidate(CandidatePost {
            url: String::from("https://example.com/b.png"),
            poll_id: poll.id,
        })
        .unwrap();
    service.cast_vote(a.id, String::from("192.0.2.8:1")).unwrap();
    service.cast_vote(b.id, String::from("192.0.2.8:2")).unwrap();
    service.cast_vote(a.id, String::from("192.0.2.8:3")).unwrap();
    assert_eq!(service.get_candidate_with_tally(a.id).unwrap().num_votes, 2);
    assert_eq!(service.get_candidate_with_tally(b.id).unwrap().num_votes, 1);
}

#[test]
fn store_enforces_the_foreign_keys() {
    let mut store = Store::new();
    let violation = store.insert_candidate(1, String::from("https://example.com/x.png"));
    assert_eq!(violation.unwrap_err(), StoreError::ConstraintViolation);
    let poll = store
        .insert_poll(String::from("Direct"), String::from("2024-01-01T00:00:00+00:00"))
        .unwrap();
    assert_eq!(poll.id, 1);
    let candidate = store
        .insert_candidate(poll.id, String::from("https://example.com/x.png"))
        .unwrap();
    let missing_vote = store.insert_vote(
        candidate.id + 1,
        String::from("192.0.2.9:7"),
        String::from("2024-01-01T00:00:01+00:00"),
    );
    assert_eq!(missing_vote.unwrap_err(), StoreError::ConstraintViolation);
    let vote = store
        .insert_vote(
            candidate.id,
            String::from("192.0.2.9:7"),
            String::from("2024-01-01T00:00:02+00:00"),
        )
        .unwrap();
    assert_eq!(vote.candidate_id, candidate.id);
    assert_eq!(store.count_votes_for(candidate.id), 1);
    assert_eq!(store.count_votes_for(candidate.id + 1), 0);
    assert_eq!(store.find_poll(1).unwrap().title, "Direct");
    assert!(store.find_poll(2).is_none());
    assert!(store.find_candidate(2).is_none());
}
