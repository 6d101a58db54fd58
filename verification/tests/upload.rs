use tpi::upload::{stream, ReaderStep, UploadError, UploadPipeline, QUEUE_CAPACITY, WINDOW_SIZE};

fn pattern(n: usize) -> Vec<u8> {
    (0..n).map(|i| (i % 251) as u8).collect()
}

#[test]
fn two_hundred_thousand_bytes_go_in_four_chunks() {
    let data = pattern(200_000);
    let chunks = stream(&data, WINDOW_SIZE).unwrap();
    assert_eq!(chunks.len(), 4);
    assert_eq!(chunks[0].len(), 65535);
    assert_eq!(chunks[1].len(), 65535);
    assert_eq!(chunks[2].len(), 65535);
    assert_eq!(chunks[3].len(), 3395);
    assert_eq!(chunks.concat(), data);
}

#[test]
fn empty_source_sends_no_chunk() {
    let chunks = stream(&[], WINDOW_SIZE).unwrap();
    assert!(chunks.is_empty());
    let mut p = UploadPipeline::new(0, WINDOW_SIZE).unwrap();
    assert_eq!(p.reader_step(), ReaderStep::Finished);
    assert!(p.complete());
    assert_eq!(p.next_chunk(), None);
    assert_eq!(p.sent, 0);
}

#[test]
fn chunks_joined_are_the_source_for_many_sizes() {
    for (size, chunk) in [(1usize, 1usize), (10, 3), (9, 3), (65535, 65535), (65536, 65535), (1000, 7)] {
        let data = pattern(size);
        let chunks = stream(&data, chunk).unwrap();
        assert_eq!(chunks.len(), (size + chunk - 1) / chunk);
        assert!(chunks.iter().all(|c| !c.is_empty() && c.len() <= chunk));
        assert_eq!(chunks.iter().map(|c| c.len()).sum::<usize>(), size);
        assert_eq!(chunks.concat(), data);
    }
}

#[test]
fn chunk_size_must_be_within_the_window() {
    assert!(stream(&[1, 2, 3], 0).is_none());
    assert!(stream(&[1, 2, 3], WINDOW_SIZE + 1).is_none());
    assert!(UploadPipeline::new(10, 0).is_none());
    assert!(UploadPipeline::new(10, WINDOW_SIZE + 1).is_none());
    assert!(UploadPipeline::new(10, WINDOW_SIZE).is_some());
}

#[test]
fn sender_gets_chunks_in_the_order_read() {
    let mut p = UploadPipeline::new(10, 4).unwrap();
    assert_eq!(p.reader_step(), ReaderStep::Read(4));
    assert!(p.on_chunk(vec![0, 1, 2, 3]));
    assert_eq!(p.reader_step(), ReaderStep::Read(4));
    assert!(p.on_chunk(vec![4, 5, 6, 7]));
    assert_eq!(p.reader_step(), ReaderStep::Read(2));
    assert!(p.on_chunk(vec![8, 9]));
    assert_eq!(p.reader_step(), ReaderStep::Finished);
    assert!(!p.complete());
    assert!(!p.finished());
    assert_eq!(p.next_chunk(), Some(vec![0, 1, 2, 3]));
    assert_eq!(p.next_chunk(), Some(vec![4, 5, 6, 7]));
    assert_eq!(p.next_chunk(), Some(vec![8, 9]));
    assert_eq!(p.next_chunk(), None);
    assert!(p.complete());
    assert!(p.finished());
    assert_eq!(p.read, 10);
    assert_eq!(p.sent, 10);
}

#[test]
fn reader_waits_while_the_queue_is_full() {
    let mut p = UploadPipeline::new(1_000_000, 1).unwrap();
    for i in 0..QUEUE_CAPACITY {
        assert_eq!(p.reader_step(), ReaderStep::Read(1));
        assert!(p.on_chunk(vec![i as u8]));
    }
    assert_eq!(p.reader_step(), ReaderStep::Wait);
    assert!(!p.on_chunk(vec![9]));
    assert_eq!(p.read, QUEUE_CAPACITY as u64);
    assert_eq!(p.next_chunk(), Some(vec![0]));
    assert_eq!(p.reader_step(), ReaderStep::Read(1));
}

#[test]
fn oversized_chunk_is_refused() {
    let mut p = UploadPipeline::new(10, 4).unwrap();
    assert!(!p.on_chunk(vec![0; 5]));
    assert_eq!(p.read, 0);
    assert_eq!(p.queue.len(), 0);
}

#[test]
fn short_source_ends_the_read_early() {
    let mut p = UploadPipeline::new(10, 4).unwrap();
    assert!(p.on_chunk(vec![1, 2, 3]));
    assert!(p.on_chunk(vec![]));
    assert_eq!(p.reader_step(), ReaderStep::Finished);
    assert_eq!(p.next_chunk(), Some(vec![1, 2, 3]));
    assert!(p.complete());
    assert_eq!(p.sent, 3);
}

#[test]
fn first_refusal_fails_the_upload() {
    let mut p = UploadPipeline::new(10, 4).unwrap();
    assert!(p.on_chunk(vec![1, 2, 3, 4]));
    assert!(p.on_chunk(vec![5, 6, 7, 8]));
    assert_eq!(p.next_chunk(), Some(vec![1, 2, 3, 4]));
    p.on_response(200, String::from("ok"));
    assert!(!p.has_failed());
    assert_eq!(p.next_chunk(), Some(vec![5, 6, 7, 8]));
    p.on_response(500, String::from("flash busy"));
    assert!(p.has_failed());
    assert_eq!(
        p.failed,
        Some(UploadError::Rejected { status: 500, text: String::from("flash busy") })
    );
    p.on_response(404, String::from("later"));
    p.on_read_error(String::from("later still"));
    assert_eq!(
        p.failed,
        Some(UploadError::Rejected { status: 500, text: String::from("flash busy") })
    );
    assert_eq!(p.reader_step(), ReaderStep::Finished);
    assert_eq!(p.next_chunk(), None);
    assert!(!p.complete());
}

#[test]
fn chunk_that_does_not_arrive_fails_the_upload() {
    let mut p = UploadPipeline::new(10, 4).unwrap();
    assert!(p.on_chunk(vec![1, 2, 3, 4]));
    assert_eq!(p.next_chunk(), Some(vec![1, 2, 3, 4]));
    p.on_send_error(String::from("connection reset"));
    assert_eq!(p.failed, Some(UploadError::Transport(String::from("connection reset"))));
    p.on_response(500, String::from("later"));
    assert_eq!(p.failed, Some(UploadError::Transport(String::from("connection reset"))));
    assert_eq!(p.reader_step(), ReaderStep::Finished);
}

#[test]
fn read_error_fails_the_upload() {
    let mut p = UploadPipeline::new(10, 4).unwrap();
    assert!(p.on_chunk(vec![1, 2, 3, 4]));
    p.on_read_error(String::from("disk gone"));
    assert!(p.finished());
    assert_eq!(p.failed, Some(UploadError::Read(String::from("disk gone"))));
    assert_eq!(p.next_chunk(), None);
    assert!(!p.complete());
}
