use zulu::response::{response_complete, ReadEvent, ResponseReader};

fn run(events: Vec<ReadEvent>) -> (Vec<u8>, usize) {
    let mut reader = ResponseReader::new();
    let mut used = 0;
    for e in events {
        if reader.is_done() {
            break;
        }
        reader.on_event(e);
        used += 1;
    }
    (reader.into_response(), used)
}

#[test]
fn unquoted_reply_then_timeout() {
    let (r, used) = run(vec![ReadEvent::Data(b"OK".to_vec()), ReadEvent::TimedOut]);
    assert_eq!(r, b"OK".to_vec());
    assert_eq!(used, 2);
}

#[test]
fn quoted_reply_ends_after_its_chunk() {
    let mut reader = ResponseReader::new();
    reader.on_event(ReadEvent::Data(b"\"on\"".to_vec()));
    assert!(reader.is_done());
    assert_eq!(reader.into_response(), b"\"on\"".to_vec());
}

#[test]
fn quoted_reply_ignores_later_reads() {
    let (r, used) = run(vec![
        ReadEvent::Data(b"\"on\"".to_vec()),
        ReadEvent::Data(b"more".to_vec()),
    ]);
    assert_eq!(r, b"\"on\"".to_vec());
    assert_eq!(used, 1);
}

#[test]
fn eof_without_data_is_empty_response() {
    let (r, used) = run(vec![ReadEvent::Data(Vec::new())]);
    assert!(r.is_empty());
    assert_eq!(used, 1);
}

#[test]
fn single_quote_byte_does_not_end_response() {
    let mut reader = ResponseReader::new();
    reader.on_event(ReadEvent::Data(b"\"abc".to_vec()));
    assert!(!reader.is_done());
    reader.on_event(ReadEvent::Data(b"\"".to_vec()));
    assert!(!reader.is_done());
    reader.on_event(ReadEvent::Data(Vec::new()));
    assert!(reader.is_done());
    assert_eq!(reader.into_response(), b"\"abc\"".to_vec());
}

#[test]
fn chunks_accumulate_until_quote() {
    let (r, used) = run(vec![
        ReadEvent::Data(b"\"12".to_vec()),
        ReadEvent::Data(b"3".to_vec()),
        ReadEvent::Data(b"45\"".to_vec()),
        ReadEvent::TimedOut,
    ]);
    assert_eq!(r, b"\"12345\"".to_vec());
    assert_eq!(used, 3);
}

#[test]
fn immediate_timeout_is_empty_response() {
    let (r, _) = run(vec![ReadEvent::TimedOut]);
    assert!(r.is_empty());
}

#[test]
fn completion_predicate() {
    assert!(response_complete(b"\"\""));
    assert!(response_complete(b"x\""));
    assert!(!response_complete(b"\""));
    assert!(!response_complete(b"\"x"));
    assert!(!response_complete(b""));
}
