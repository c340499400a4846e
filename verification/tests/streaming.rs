use chunk_source::lines::all_lines;
use chunk_source::source::{
    collect_delayed, collect_simple, DelayedBody, DelayedPollOutcome, PollOutcome, SimpleBody,
};

#[test]
fn single_zero_lines() {
    assert_eq!(all_lines(0), Vec::<u8>::new());
}

#[test]
fn single_some_lines() {
    assert_eq!(all_lines(3), b"Hello 1\nHello 2\nHello 3".to_vec());
}

#[test]
fn single_one_line() {
    assert_eq!(all_lines(1), b"Hello 1".to_vec());
}

#[test]
fn single_two_digit_lines() {
    let out = all_lines(11);
    let text = String::from_utf8(out).unwrap();
    assert!(text.ends_with("Hello 9\nHello 10\nHello 11"));
    assert!(!text.ends_with("\n"));
}

#[test]
fn body_zero_lines() {
    let mut body = SimpleBody::new(0);
    assert!(matches!(body.poll_step(), PollOutcome::Done));
    let mut body = SimpleBody::new(0);
    assert_eq!(collect_simple(&mut body), Vec::<u8>::new());
}

#[test]
fn body_some_lines() {
    let mut body = SimpleBody::new(3);
    assert_eq!(collect_simple(&mut body), b"Hello 1\nHello 2\nHello 3".to_vec());
}

#[test]
fn body_polls_alternate() {
    let mut body = SimpleBody::new(2);
    assert!(matches!(body.poll_step(), PollOutcome::Pending));
    match body.poll_step() {
        PollOutcome::Chunk(c) => assert_eq!(c, b"Hello 1\n".to_vec()),
        _ => panic!("expected the first chunk"),
    }
    assert!(matches!(body.poll_step(), PollOutcome::Pending));
    match body.poll_step() {
        PollOutcome::Chunk(c) => assert_eq!(c, b"Hello 2".to_vec()),
        _ => panic!("expected the last chunk"),
    }
    assert!(matches!(body.poll_step(), PollOutcome::Done));
}

#[test]
fn body_done_stays_done() {
    let mut body = SimpleBody::new(1);
    let _ = collect_simple(&mut body);
    assert!(matches!(body.poll_step(), PollOutcome::Done));
    assert!(matches!(body.poll_step(), PollOutcome::Done));
    assert!(matches!(body.poll_step(), PollOutcome::Done));
}

#[test]
fn delayed_zero_lines() {
    let mut body = DelayedBody::new(0);
    assert!(matches!(body.poll_step(), DelayedPollOutcome::Done));
    let mut body = DelayedBody::new(0);
    assert_eq!(collect_delayed(&mut body), Vec::<u8>::new());
}

#[test]
fn delayed_some_lines() {
    let mut body = DelayedBody::new(3);
    assert_eq!(collect_delayed(&mut body), b"Hello 1\nHello 2\nHello 3".to_vec());
}

#[test]
fn delayed_matches_counted() {
    for n in [0usize, 1, 2, 7, 12] {
        let mut counted = SimpleBody::new(n);
        let mut delayed = DelayedBody::new(n);
        assert_eq!(collect_simple(&mut counted), collect_delayed(&mut delayed));
    }
}

#[test]
fn delayed_polls_request_one_timer_per_line() {
    let mut body = DelayedBody::new(2);
    assert!(matches!(body.poll_step(), DelayedPollOutcome::StartTimer));
    match body.poll_step() {
        DelayedPollOutcome::Chunk(c) => assert_eq!(c, b"Hello 1\n".to_vec()),
        _ => panic!("expected the first chunk"),
    }
    assert!(matches!(body.poll_step(), DelayedPollOutcome::StartTimer));
    match body.poll_step() {
        DelayedPollOutcome::Chunk(c) => assert_eq!(c, b"Hello 2".to_vec()),
        _ => panic!("expected the last chunk"),
    }
    assert!(matches!(body.poll_step(), DelayedPollOutcome::Done));
}

#[test]
fn delayed_done_stays_done() {
    let mut body = DelayedBody::new(1);
    let _ = collect_delayed(&mut body);
    assert!(matches!(body.poll_step(), DelayedPollOutcome::Done));
    assert!(matches!(body.poll_step(), DelayedPollOutcome::Done));
    assert!(matches!(body.poll_step(), DelayedPollOutcome::Done));
}
