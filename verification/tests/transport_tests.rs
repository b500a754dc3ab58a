use msir::chunk::transport::{Transport, TransportError, BUFFER_SIZE};

#[test]
fn reads_what_was_filled() {
    let mut t = Transport::new();
    assert_eq!(t.buf_len(), 0);
    assert_eq!(t.room(), BUFFER_SIZE);
    t.fill(&[1, 2, 3, 4, 5, 6, 7]).unwrap();
    assert_eq!(t.buf_len(), 7);
    assert_eq!(t.peek(), &[1, 2, 3, 4, 5, 6, 7]);
    assert_eq!(t.read_u8(), Some(1));
    assert_eq!(t.read_u32(), Some(0x02030405));
    assert_eq!(t.read_exact(2).unwrap().unwrap(), &[6, 7]);
    assert_eq!(t.read_u8(), None);
    assert_eq!(t.get_recv_bytes(), 7);
    assert_eq!(t.room(), BUFFER_SIZE);
}

#[test]
fn a_short_read_reads_nothing() {
    let mut t = Transport::new();
    t.fill(&[1, 2, 3]).unwrap();
    assert_eq!(t.read_u32(), None);
    assert!(t.read_exact(4).unwrap().is_none());
    assert_eq!(t.buf_len(), 3);
    assert_eq!(t.get_recv_bytes(), 0);
    t.fill(&[4]).unwrap();
    assert_eq!(t.read_u32(), Some(0x01020304));
}

#[test]
fn a_mark_rewinds_what_was_not_committed() {
    let mut t = Transport::new();
    t.fill(&[1, 2, 3, 4]).unwrap();
    t.safe_guard();
    assert_eq!(t.read_u8(), Some(1));
    assert_eq!(t.read_u8(), Some(2));
    assert_eq!(t.buf_len(), 2);
    t.safe_guard();
    assert_eq!(t.buf_len(), 4);
    assert_eq!(t.read_u8(), Some(1));
    t.safe_flush();
    assert_eq!(t.buf_len(), 3);
    t.safe_guard();
    assert_eq!(t.read_u8(), Some(2));
    assert_eq!(t.room(), BUFFER_SIZE - 3);
    t.safe_flush();
    assert_eq!(t.room(), BUFFER_SIZE - 2);
    assert_eq!(t.peek(), &[3, 4]);
}

#[test]
fn filling_moves_uncommitted_bytes_to_the_front() {
    let mut t = Transport::new();
    let block = vec![7u8; BUFFER_SIZE - 10];
    t.fill(&block).unwrap();
    assert!(t.read_exact(BUFFER_SIZE - 20).unwrap().is_some());
    assert_eq!(t.buf_len(), 10);
    let more: Vec<u8> = (0..100u8).collect();
    t.fill(&more).unwrap();
    assert_eq!(t.buf_len(), 110);
    let got = t.read_exact(110).unwrap().unwrap().to_vec();
    assert_eq!(&got[..10], &[7u8; 10]);
    assert_eq!(&got[10..], &more[..]);
}

#[test]
fn a_marked_buffer_keeps_what_was_read_when_it_compacts() {
    let mut t = Transport::new();
    t.fill(&vec![1u8; BUFFER_SIZE - 4]).unwrap();
    assert!(t.read_exact(BUFFER_SIZE - 8).unwrap().is_some());
    t.safe_guard();
    assert_eq!(t.read_u8(), Some(1));
    t.fill(&[9, 9, 9, 9, 9, 9]).unwrap();
    assert_eq!(t.buf_len(), 9);
    t.safe_guard();
    assert_eq!(t.buf_len(), 10);
    assert_eq!(t.read_exact(10).unwrap().unwrap(), &[1, 1, 1, 1, 9, 9, 9, 9, 9, 9]);
}

#[test]
fn no_space_is_an_error_and_changes_nothing() {
    let mut t = Transport::new();
    t.fill(&vec![0u8; BUFFER_SIZE - 1]).unwrap();
    assert_eq!(t.fill(&[1, 2]), Err(TransportError::BufNoSpace));
    assert_eq!(t.buf_len(), BUFFER_SIZE - 1);
    t.fill(&[1]).unwrap();
    assert_eq!(t.room(), 0);
    assert!(matches!(t.read_exact(BUFFER_SIZE + 1), Err(TransportError::BufNoSpace)));
    assert!(t.read_exact(BUFFER_SIZE).unwrap().is_some());
}

#[test]
fn written_bytes_are_counted() {
    let mut t = Transport::new();
    t.write_all(10);
    t.write_all(5);
    assert_eq!(t.get_send_bytes(), 15);
    assert_eq!(t.get_recv_bytes(), 0);
}
