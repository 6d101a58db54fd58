use tpi::json::Json;
use tpi::progress::{
    Display, Field, Outcome, Poll, ProgressMonitor, INITIAL_DELAY_MS, UPDATE_PERIOD_MS,
};

fn transferring(id: u64, size: u64, written: u64) -> Vec<u8> {
    format!("{{\"Transferring\":{{\"id\":{id},\"size\":{size},\"bytes_written\":{written}}}}}")
        .into_bytes()
}

#[test]
fn watch_of_four_chunks_verifies_once_then_is_done() {
    let mut m = ProgressMonitor::new(7);
    assert_eq!(
        m.on_poll(200, &transferring(7, 200_000, 65_535)),
        Poll::Continue(Display::Begin { size: 200_000 })
    );
    assert_eq!(
        m.on_poll(200, &transferring(7, 200_000, 131_070)),
        Poll::Continue(Display::Position(131_070))
    );
    assert_eq!(
        m.on_poll(200, &transferring(7, 200_000, 196_605)),
        Poll::Continue(Display::Position(196_605))
    );
    assert!(!m.verifying);
    assert_eq!(
        m.on_poll(200, &transferring(7, 200_000, 200_000)),
        Poll::Continue(Display::Verifying)
    );
    assert!(m.verifying);
    assert_eq!(
        m.on_poll(200, &transferring(7, 200_000, 200_000)),
        Poll::Continue(Display::Unchanged)
    );
    assert_eq!(m.on_poll(200, b"{\"Done\":null}"), Poll::Stop(Outcome::Done));
    assert!(m.finished());
    assert_eq!(m.outcome, Some(Outcome::Done));
}

#[test]
fn done_stays_done() {
    let mut m = ProgressMonitor::new(1);
    assert_eq!(m.on_poll(200, b"{\"Done\":\"\"}"), Poll::Stop(Outcome::Done));
    assert_eq!(m.on_poll(200, b"{\"Done\":\"\"}"), Poll::Stop(Outcome::Done));
    assert_eq!(m.on_poll(200, &transferring(1, 10, 5)), Poll::Stop(Outcome::Done));
    assert_eq!(m.on_poll(500, b"garbage"), Poll::Stop(Outcome::Done));
    assert!(m.outcome.as_ref().unwrap().is_done());
}

#[test]
fn error_never_resumes() {
    let mut m = ProgressMonitor::new(1);
    let failed = Poll::Stop(Outcome::Error(String::from("\"sd card removed\"")));
    assert_eq!(m.on_poll(200, b"{\"Error\":\"sd card removed\"}"), failed);
    assert_eq!(m.on_poll(200, &transferring(1, 10, 5)), failed);
    assert_eq!(m.on_poll(200, b"{\"Done\":null}"), failed);
    assert!(!m.bar);
    assert!(!m.outcome.as_ref().unwrap().is_done());
}

#[test]
fn foreign_handle_is_fatal() {
    let mut m = ProgressMonitor::new(7);
    assert_eq!(
        m.on_poll(200, &transferring(8, 10, 5)),
        Poll::Stop(Outcome::HandleMismatch { expected: 7, found: 8 })
    );
}

#[test]
fn transferring_needs_its_numbers() {
    let mut m = ProgressMonitor::new(7);
    assert_eq!(
        m.on_poll(200, b"{\"Transferring\":{\"size\":1}}"),
        Poll::Stop(Outcome::MissingField(Field::Id))
    );
    let mut m = ProgressMonitor::new(7);
    assert_eq!(
        m.on_poll(200, b"{\"Transferring\":{\"id\":7}}"),
        Poll::Stop(Outcome::MissingField(Field::Size))
    );
    let mut m = ProgressMonitor::new(7);
    assert_eq!(
        m.on_poll(200, b"{\"Transferring\":{\"id\":7,\"size\":10}}"),
        Poll::Continue(Display::Begin { size: 10 })
    );
    assert_eq!(
        m.on_poll(200, b"{\"Transferring\":{\"id\":7,\"size\":10}}"),
        Poll::Stop(Outcome::MissingField(Field::BytesWritten))
    );
    let mut m = ProgressMonitor::new(7);
    assert_eq!(
        m.on_poll(200, b"{\"Transferring\":{\"id\":\"7\",\"size\":10}}"),
        Poll::Stop(Outcome::MissingField(Field::Id))
    );
}

#[test]
fn refused_poll_ends_the_watch() {
    let mut m = ProgressMonitor::new(7);
    assert_eq!(
        m.on_poll(500, b"{\"response\":[{\"result\":\"busy\"}]}"),
        Poll::Stop(Outcome::Status {
            code: 500,
            detail: Some(String::from("[{\"result\":\"busy\"}]"))
        })
    );
    let mut m = ProgressMonitor::new(7);
    assert_eq!(
        m.on_poll(404, b"{}"),
        Poll::Stop(Outcome::Status { code: 404, detail: None })
    );
}

#[test]
fn unknown_shape_and_bad_body_end_the_watch() {
    let mut m = ProgressMonitor::new(7);
    assert_eq!(
        m.on_poll(200, b"{\"Paused\": 1}"),
        Poll::Stop(Outcome::Unexpected(String::from("{\"Paused\":1}")))
    );
    let mut m = ProgressMonitor::new(7);
    assert_eq!(m.on_poll(200, b"<html>"), Poll::Stop(Outcome::Malformed));
}

#[test]
fn reply_that_is_parsed_elsewhere_reads_the_same() {
    let body = transferring(3, 100, 40);
    let mut a = ProgressMonitor::new(3);
    let mut b = ProgressMonitor::new(3);
    assert_eq!(a.on_poll(200, &body), b.on_reply(200, Json::parse(&body)));
    assert_eq!(a.on_poll(200, &body), b.on_reply(200, Json::parse(&body)));
    assert_eq!(a, b);
    assert_eq!(b.on_reply(200, None), Poll::Stop(Outcome::Malformed));
}

#[test]
fn watch_starts_blank_and_polls_on_a_fixed_cadence() {
    let m = ProgressMonitor::new(9);
    assert_eq!(m.handle, 9);
    assert!(!m.bar && !m.verifying && !m.finished());
    assert_eq!(INITIAL_DELAY_MS, 3000);
    assert_eq!(UPDATE_PERIOD_MS, 500);
}
