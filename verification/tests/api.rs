//! The service exercised through its facade, as the transport layer would.

use poll_service::service::PollService;
use poll_service::types::{CandidatePost, PollPost};

#[test]
fn test_post_poll() {
    let mut service = PollService::new();
    let response = service.create_poll(PollPost {
        title: String::from("Test title #1"),
    });
    assert!(response.is_ok());
}

#[test]
fn test_get_candidate() {
    let mut service = PollService::new();
    let poll = service
        .create_poll(PollPost {
            title: String::from("Test poll #4"),
        })
        .unwrap();
    let fetched = service.get_poll(poll.id);
    assert!(fetched.is_some());
}

#[test]
fn test_post_candidate() {
    let mut service = PollService::new();
    let poll = service
        .create_poll(PollPost {
            title: String::from("Test poll #2"),
        })
        .unwrap();
    let response = service.create_candidate(CandidatePost {
        url: String::from("https://localhost:8080/im1.png"),
        poll_id: poll.id,
    });
    assert!(response.is_ok());
}

#[test]
fn test_vote() {
    let mut service = PollService::new();
    let poll = service
        .create_poll(PollPost {
            title: String::from("Test poll #3"),
        })
        .unwrap();
    let candidate = service
        .create_candidate(CandidatePost {
            url: String::from("https://localhost:8080/im1.png"),
            poll_id: poll.id,
        })
        .unwrap();
    println!("Voting...");
    let vote = service.cast_vote(candidate.id, String::from("127.0.0.1:9999"));
    assert!(vote.is_ok());
    assert_eq!(vote.unwrap().candidate_id, candidate.id);
}
