use bytes::Bytes;
use cobalt_s3::body::{chunk_len, translate_poll, BodyCollector, BodyPoll};
use cobalt_s3::errors::{ServiceErrorKind, TransportError};
use cobalt_s3::retrieval::resolve_retrieval;

#[test]
fn test_non_existant_bucket() {
    let outcome: Result<Bytes, (Option<String>, String)> = Err((
        Some("NoSuchBucket".to_string()),
        "The specified bucket does not exist".to_string(),
    ));
    match resolve_retrieval(outcome) {
        Ok(_) => panic!("Expected an error, but got Ok"),
        Err(e) => {
            assert!(matches!(e.kind, ServiceErrorKind::NoSuchBucket));
            assert!(e.is_not_found());
            assert_eq!(e.detail, "The specified bucket does not exist");
        }
    }
}

#[test]
fn test_non_existant_key() {
    let outcome: Result<Bytes, (Option<String>, String)> = Err((
        Some("NoSuchKey".to_string()),
        "The specified key does not exist".to_string(),
    ));
    match resolve_retrieval(outcome) {
        Ok(_) => panic!("Expected an error, but got Ok"),
        Err(e) => {
            assert!(matches!(e.kind, ServiceErrorKind::NoSuchKey));
            assert!(e.is_not_found());
        }
    }
}

#[test]
fn test_unknown_error_code() {
    let outcome: Result<Bytes, (Option<String>, String)> =
        Err((Some("SlowDown".to_string()), "Reduce your request rate".to_string()));
    match resolve_retrieval(outcome) {
        Ok(_) => panic!("Expected an error, but got Ok"),
        Err(e) => {
            assert!(matches!(e.kind, ServiceErrorKind::Other));
            assert!(!e.is_not_found());
            assert_eq!(e.detail, "Reduce your request rate");
        }
    }
}

#[test]
fn test_missing_error_code() {
    let outcome: Result<Bytes, (Option<String>, String)> =
        Err((None, "transport interrupted".to_string()));
    match resolve_retrieval(outcome) {
        Ok(_) => panic!("Expected an error, but got Ok"),
        Err(e) => assert!(matches!(e.kind, ServiceErrorKind::Other)),
    }
}

#[test]
fn test_successful_response_hands_body_through() {
    let outcome: Result<Bytes, (Option<String>, String)> =
        Ok(Bytes::from_static(b"test data\n"));
    match resolve_retrieval(outcome) {
        Ok(body) => assert_eq!(body.as_ref(), b"test data\n"),
        Err(_) => panic!("Expected Ok, but got an error"),
    }
}

#[test]
fn test_existing_key() {
    // The stored object "test.txt" holds "test data\n", delivered in
    // two chunks; reading to the end must round-trip byte for byte.
    let chunks = vec![Bytes::from_static(b"test "), Bytes::from_static(b"data\n")];
    let mut collector = BodyCollector::new();
    for c in chunks {
        match translate_poll(BodyPoll::Chunk(c)) {
            Some(Ok(b)) => assert!(collector.push_chunk_checked(&b)),
            _ => panic!("a data chunk must pass through unchanged"),
        }
    }
    assert!(translate_poll(BodyPoll::End).is_none());
    assert_eq!(collector.byte_count(), 10);
    let buffer = String::from_utf8(collector.into_bytes()).unwrap();
    assert_eq!(buffer, "test data\n");
}

#[test]
fn test_transport_failure_is_wrapped() {
    match translate_poll(BodyPoll::Fail("connection reset".to_string())) {
        Some(Err(TransportError { cause })) => assert_eq!(cause, "connection reset"),
        _ => panic!("a transport failure must surface as one opaque error"),
    }
}

#[test]
fn test_chunk_len_counts_bytes() {
    assert_eq!(chunk_len(&Bytes::from_static(b"test data\n")), 10);
    assert_eq!(chunk_len(&Bytes::from_static(b"")), 0);
}

#[test]
fn test_empty_body_collects_nothing() {
    let collector = BodyCollector::new();
    assert_eq!(collector.byte_count(), 0);
    assert!(collector.into_bytes().is_empty());
}
