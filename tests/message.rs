use tchat::message::{classify_read, ReadOutcome, ReadStep, MAX_MESSAGE_SIZE};

fn delivered(outcome: ReadOutcome) -> Option<String> {
    match classify_read(outcome) {
        ReadStep::Deliver(s) => Some(s),
        _ => None,
    }
}

#[test]
fn utf8_bytes_become_one_message() {
    assert_eq!(delivered(ReadOutcome::Data(b"hello".to_vec())), Some("hello".to_string()));
    assert_eq!(
        delivered(ReadOutcome::Data("grüß".as_bytes().to_vec())),
        Some("grüß".to_string())
    );
}

#[test]
fn empty_read_closes() {
    assert!(matches!(classify_read(ReadOutcome::Data(Vec::new())), ReadStep::Close));
}

#[test]
fn invalid_utf8_closes() {
    assert!(matches!(classify_read(ReadOutcome::Data(vec![0xff, 0x41])), ReadStep::Close));
    // a character cut in two by the read boundary
    assert!(matches!(classify_read(ReadOutcome::Data(vec![0xc3])), ReadStep::Close));
}

#[test]
fn would_block_is_idle() {
    assert!(matches!(classify_read(ReadOutcome::WouldBlock), ReadStep::Idle));
}

#[test]
fn failed_read_closes() {
    assert!(matches!(classify_read(ReadOutcome::Failed), ReadStep::Close));
}

#[test]
fn max_size_message_reassembles_from_reads() {
    let sent: Vec<u8> = (0..MAX_MESSAGE_SIZE).map(|i| b'a' + (i % 26) as u8).collect();
    assert_eq!(sent.len(), MAX_MESSAGE_SIZE);
    for cut in [vec![MAX_MESSAGE_SIZE], vec![100, MAX_MESSAGE_SIZE], vec![1, 2, 200, MAX_MESSAGE_SIZE]] {
        let mut got: Vec<u8> = Vec::new();
        let mut start = 0;
        for end in cut {
            let m = delivered(ReadOutcome::Data(sent[start..end].to_vec())).unwrap();
            got.extend_from_slice(m.as_bytes());
            start = end;
        }
        assert_eq!(got, sent);
    }
}
