use simple_socket::{close_frame, encode_frame, RecvBuffer, ServerCore, SocketStatus};

#[test]
fn payload_accumulates_across_chunks() {
    let payload: Vec<u8> = vec![10, 20, 30, 40, 50];
    let frame = encode_frame(&payload);
    let header: Vec<u8> = frame[..8].to_vec();

    let mut buf = RecvBuffer::new();
    let st = buf.start_frame(&header);
    assert!(matches!(st, SocketStatus::Alive));

    // The peer's stream yields the payload in three polling iterations.
    assert!(!buf.accept_chunk(&frame[8..10].to_vec()));
    assert!(!buf.accept_chunk(&frame[10..12].to_vec()));
    assert!(buf.accept_chunk(&frame[12..].to_vec()));

    let got = buf.take_payload();
    assert_eq!(got, payload);
}

#[test]
fn empty_chunk_makes_no_progress() {
    let payload: Vec<u8> = vec![1, 2];
    let frame = encode_frame(&payload);
    let mut buf = RecvBuffer::new();
    buf.start_frame(&frame[..8].to_vec());
    assert_eq!(buf.remaining(), 2);
    assert!(!buf.accept_chunk(&Vec::new()));
    assert_eq!(buf.remaining(), 2);
    assert!(buf.accept_chunk(&frame[8..].to_vec()));
    assert_eq!(buf.remaining(), 0);
}

#[test]
fn buffer_is_reusable_after_a_frame() {
    let first: Vec<u8> = vec![1];
    let second: Vec<u8> = vec![2, 3];
    let mut buf = RecvBuffer::new();

    let f1 = encode_frame(&first);
    buf.start_frame(&f1[..8].to_vec());
    assert!(buf.accept_chunk(&f1[8..].to_vec()));
    assert_eq!(buf.take_payload(), first);

    let f2 = encode_frame(&second);
    buf.start_frame(&f2[..8].to_vec());
    assert!(buf.accept_chunk(&f2[8..].to_vec()));
    assert_eq!(buf.take_payload(), second);
}

#[test]
fn zero_length_frame_reports_closed() {
    // A close signal is reported as Closed and leaves the buffer idle, so no
    // payload is ever taken and no handler ever runs for it.
    let mut buf = RecvBuffer::new();
    let st = buf.start_frame(&close_frame());
    assert!(matches!(st, SocketStatus::Closed));
    assert!(buf.size.is_none());
}

#[test]
fn closed_endpoint_leaves_the_collection_same_iteration() {
    let mut core = ServerCore::new();
    core.add_connection();
    core.add_connection();
    assert_eq!(core.num_connections(), 2);

    // Connection 1 signals close; the serving pass observes it and removes
    // exactly that endpoint before the iteration ends.
    let st = core.start_frame_at(1, &close_frame());
    assert!(matches!(st, SocketStatus::Closed));
    core.remove_connection(1);
    assert_eq!(core.num_connections(), 1);
    assert!(core.has_connections());
}

#[test]
fn sweep_removes_exactly_the_closed_connections() {
    // Of five open connections, the second and fifth signal close in one
    // iteration: exactly those two are removed and the other three remain
    // serviceable, in order.
    let mut core = ServerCore::new();
    for _ in 0..5 {
        core.add_connection();
    }
    // Leave a fingerprint on each connection so survivors are identifiable:
    // connection i expects a payload of length i + 1.
    for i in 0..5 {
        let frame = encode_frame(&vec![0u8; i + 1]);
        let st = core.start_frame_at(i, &frame[..8].to_vec());
        assert!(matches!(st, SocketStatus::Alive));
    }
    let closed: Vec<bool> = vec![false, true, false, false, true];
    core.sweep(&closed);
    assert_eq!(core.num_connections(), 3);
    assert_eq!(core.conns[0].size, Some(1));
    assert_eq!(core.conns[1].size, Some(3));
    assert_eq!(core.conns[2].size, Some(4));

    // The survivors stay serviceable on the next iteration.
    assert!(core.accept_chunk_at(0, &vec![7u8]));
    assert_eq!(core.take_payload_at(0), vec![7u8]);
}

#[test]
fn sweep_of_all_open_keeps_everything() {
    let mut core = ServerCore::new();
    for _ in 0..3 {
        core.add_connection();
    }
    core.sweep(&vec![false, false, false]);
    assert_eq!(core.num_connections(), 3);
}

#[test]
fn sweep_of_all_closed_empties_the_server() {
    let mut core = ServerCore::new();
    for _ in 0..3 {
        core.add_connection();
    }
    core.sweep(&vec![true, true, true]);
    assert_eq!(core.num_connections(), 0);
    assert!(!core.has_connections());
}
