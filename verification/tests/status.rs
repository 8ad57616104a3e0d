use ploirc::{ConnectionError, Link, Refusal, StreamStatus};

#[test]
fn error_messages() {
    assert_eq!(ConnectionError::AlreadyClosed.message(), "Connection is already closed.");
    assert_eq!(ConnectionError::AlreadyDisconnected.message(), "Connection is already disconnected.");
    assert_eq!(ConnectionError::Closed.message(), "Connection was manually closed.");
    assert_eq!(ConnectionError::Disconnected.message(), "Connection was dropped.");
}

#[test]
fn fresh_connection_is_available() {
    let st = StreamStatus::connected(1u8);
    assert!(!st.is_closed());
    assert_eq!(st.check_available(), Ok(()));
    assert_eq!(st.io_refusal(), None);
    assert_eq!(st.link(), Link::Connected);
}

#[test]
fn close_hands_back_transport_and_second_close_fails() {
    let mut st = StreamStatus::connected(String::from("socket"));
    assert_eq!(st.close(), Ok(Some(String::from("socket"))));
    assert!(st.is_closed());
    assert_eq!(st.close(), Err(ConnectionError::AlreadyClosed));
    assert!(st.is_closed());
}

#[test]
fn close_of_disconnected_succeeds_without_transport() {
    let mut st: StreamStatus<u8> = StreamStatus::Disconnected;
    assert_eq!(st.close(), Ok(None));
    assert!(st.is_closed());
}

#[test]
fn closed_connection_is_final() {
    let mut st: StreamStatus<u8> = StreamStatus::Closed;
    assert_eq!(st.disconnect(), Err(ConnectionError::Closed));
    assert!(st.is_closed());
    assert_eq!(st.close(), Err(ConnectionError::AlreadyClosed));
    assert!(st.is_closed());
    assert_eq!(st.finish_write(true), (Err(ConnectionError::Closed), None));
    assert_eq!(st.finish_write(false), (Err(ConnectionError::Closed), None));
    assert!(st.is_closed());
    assert_eq!(st.check_available(), Err(ConnectionError::Closed));
    assert!(matches!(st.stream_mut(), Err(ConnectionError::Closed)));
    assert_eq!(st.io_refusal(), Some((Refusal::NotConnected, ConnectionError::Closed)));
}

#[test]
fn disconnect_hands_back_transport_once() {
    let mut st = StreamStatus::connected(9u32);
    assert_eq!(st.disconnect(), Ok(9));
    assert_eq!(st.link(), Link::Disconnected);
    assert_eq!(st.disconnect(), Err(ConnectionError::AlreadyDisconnected));
    assert_eq!(st.link(), Link::Disconnected);
    assert_eq!(st.check_available(), Err(ConnectionError::Disconnected));
    assert_eq!(st.io_refusal(), Some((Refusal::ConnectionReset, ConnectionError::Disconnected)));
}

#[test]
fn write_through_transport() {
    let mut st = StreamStatus::connected(Vec::<u8>::new());
    match st.stream_mut() {
        Ok(buf) => buf.extend_from_slice(b"PING :x\r\n"),
        Err(e) => panic!("unexpected {:?}", e),
    }
    assert_eq!(st.finish_write(true), (Ok(()), None));
    match &st {
        StreamStatus::Connected(buf) => assert_eq!(buf.as_slice(), b"PING :x\r\n"),
        _ => panic!("should stay connected"),
    }
}

#[test]
fn failed_write_drops_connection() {
    let mut st = StreamStatus::connected(3i64);
    assert_eq!(st.finish_write(false), (Err(ConnectionError::Disconnected), Some(3)));
    assert_eq!(st.link(), Link::Disconnected);
    assert!(matches!(st.stream_mut(), Err(ConnectionError::Disconnected)));
    assert_eq!(st.finish_write(true), (Err(ConnectionError::Disconnected), None));
}

#[test]
fn set_disconnected_keeps_closed() {
    let mut a = StreamStatus::connected('x');
    assert_eq!(a.set_disconnected(), Ok(Some('x')));
    assert_eq!(a.link(), Link::Disconnected);
    assert_eq!(a.set_disconnected(), Ok(None));
    assert_eq!(a.link(), Link::Disconnected);
    let mut b: StreamStatus<char> = StreamStatus::Closed;
    assert_eq!(b.set_disconnected(), Err(ConnectionError::Closed));
    assert_eq!(b.link(), Link::Closed);
    assert!(b.is_closed());
}

#[test]
fn restore_reconnects_unless_closed() {
    let mut a = StreamStatus::connected(1u16);
    assert_eq!(a.disconnect(), Ok(1));
    assert_eq!(a.restore(2), Ok(None));
    assert_eq!(a.link(), Link::Connected);
    assert_eq!(a.check_available(), Ok(()));
    assert_eq!(a.finish_write(true), (Ok(()), None));
    assert_eq!(a.restore(3), Ok(Some(2)));
    assert_eq!(a.close(), Ok(Some(3)));
    assert_eq!(a.restore(4), Err(4));
    assert!(a.is_closed());
    assert_eq!(a.close(), Err(ConnectionError::AlreadyClosed));
}
