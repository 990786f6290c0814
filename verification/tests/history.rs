use bytes::Bytes;
use frun::history::{History, HISTORY_LIMIT};

fn chunk(number: usize) -> Bytes {
    Bytes::from(format!("chunk {};", number))
}

#[test]
fn history_starts_empty() {
    assert!(History::new().snapshot().is_empty());
}

#[test]
fn history_gives_back_what_was_pushed() {
    let mut history = History::new();
    history.push(Bytes::from_static(b"ab"));
    history.push(Bytes::new());
    history.push(Bytes::from_static(b"\xff\x00c"));
    assert_eq!(
        history.snapshot(),
        vec![Bytes::from_static(b"ab"), Bytes::new(), Bytes::from_static(b"\xff\x00c")]
    );
}

#[test]
fn history_is_full_at_its_limit() {
    assert_eq!(HISTORY_LIMIT, 5000);
    let mut history = History::new();
    for number in 0..5000 {
        history.push(chunk(number));
    }
    let snapshot = history.snapshot();
    assert_eq!(snapshot.len(), 5000);
    assert_eq!(snapshot[0], chunk(0));
    assert_eq!(snapshot[4999], chunk(4999));
}

#[test]
fn history_forgets_the_oldest_beyond_its_limit() {
    let mut history = History::new();
    for number in 0..5003 {
        history.push(chunk(number));
    }
    let snapshot = history.snapshot();
    assert_eq!(snapshot.len(), 5000);
    for (i, kept) in snapshot.iter().enumerate() {
        assert_eq!(*kept, chunk(i + 3));
    }
}

#[test]
fn history_replays_the_whole_stream_up_to_its_limit() {
    let mut history = History::new();
    let mut stream: Vec<u8> = Vec::new();
    for number in 0..100 {
        history.push(chunk(number));
        stream.extend_from_slice(&chunk(number));
    }
    let replayed: Vec<u8> = history.snapshot().iter().flat_map(|c| c.to_vec()).collect();
    assert_eq!(replayed, stream);
}
