use chunk_source::file::{split_file_bytes, FileChunkSource, FilePollOutcome, ReadEvent};
use chunk_source::status::{response_status, ServeError};

#[test]
fn split_exact_multiple() {
    let data: Vec<u8> = (0u8..8).collect();
    let chunks = split_file_bytes(&data, 4);
    assert_eq!(chunks.len(), 2);
    assert_eq!(chunks[0].len(), 4);
    assert_eq!(chunks[1].len(), 4);
    let flat: Vec<u8> = chunks.concat();
    assert_eq!(flat, data);
}

#[test]
fn split_with_remainder() {
    let data: Vec<u8> = (0u8..10).collect();
    let chunks = split_file_bytes(&data, 4);
    assert_eq!(chunks.len(), 3);
    assert_eq!(chunks[0].len(), 4);
    assert_eq!(chunks[1].len(), 4);
    assert_eq!(chunks[2].len(), 2);
    let flat: Vec<u8> = chunks.concat();
    assert_eq!(flat, data);
}

#[test]
fn split_small_file_is_one_chunk() {
    let data: Vec<u8> = vec![1, 2, 3];
    let chunks = split_file_bytes(&data, 64);
    assert_eq!(chunks.len(), 1);
    assert_eq!(chunks[0], data);
}

#[test]
fn split_empty_file_has_no_chunks() {
    let data: Vec<u8> = Vec::new();
    let chunks = split_file_bytes(&data, 4);
    assert_eq!(chunks.len(), 0);
}

#[test]
fn file_source_passes_reads_through() {
    let mut src = FileChunkSource::new(4);
    match src.on_read(ReadEvent::Data(vec![9, 8, 7, 6])) {
        FilePollOutcome::Chunk(c) => assert_eq!(c, vec![9, 8, 7, 6]),
        _ => panic!("expected a chunk"),
    }
    match src.on_read(ReadEvent::Data(vec![5, 4])) {
        FilePollOutcome::Chunk(c) => assert_eq!(c, vec![5, 4]),
        _ => panic!("expected a chunk"),
    }
    assert!(!src.is_done());
    assert!(matches!(src.on_read(ReadEvent::Data(Vec::new())), FilePollOutcome::Done));
    assert!(src.is_done());
}

#[test]
fn file_source_done_stays_done() {
    let mut src = FileChunkSource::new(4);
    assert!(matches!(src.on_read(ReadEvent::Data(Vec::new())), FilePollOutcome::Done));
    assert!(matches!(src.on_read(ReadEvent::Data(vec![1])), FilePollOutcome::Done));
    assert!(matches!(src.on_read(ReadEvent::Data(vec![2])), FilePollOutcome::Done));
    assert!(matches!(src.on_read(ReadEvent::Failure), FilePollOutcome::Done));
}

#[test]
fn file_source_read_failure_is_fatal() {
    let mut src = FileChunkSource::new(4);
    match src.on_read(ReadEvent::Data(vec![1, 2, 3, 4])) {
        FilePollOutcome::Chunk(_) => {},
        _ => panic!("expected a chunk"),
    }
    assert!(matches!(src.on_read(ReadEvent::Failure), FilePollOutcome::Fatal));
    assert!(src.is_done());
    assert!(matches!(src.on_read(ReadEvent::Data(vec![5])), FilePollOutcome::Done));
}

#[test]
fn missing_file_maps_to_not_found() {
    assert_eq!(response_status(&ServeError::NotFound), Some(404));
}

#[test]
fn broken_response_maps_to_server_error() {
    assert_eq!(response_status(&ServeError::BodyConstructionFailure), Some(500));
}

#[test]
fn mid_stream_failure_has_no_status() {
    assert_eq!(response_status(&ServeError::StreamReadFailure), None);
}
