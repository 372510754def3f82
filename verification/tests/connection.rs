//! The connection handle's logical core: ordering of sends, round trips
//! through the read half, and the independence of the two directions.

use tide_websockets::connection::WebSocketConnection;
use tide_websockets::message::Message;
use tide_websockets::response::Error;

#[test]
fn round_trip_text_message() {
    let mut conn = WebSocketConnection::new();
    conn.deliver(Message::Text("abc".to_string()));
    let got = conn.next();
    assert_eq!(got, Some(Message::Text("abc".to_string())));
    assert!(conn.next().is_none());
}

#[test]
fn round_trip_keeps_payloads_intact() {
    let mut conn = WebSocketConnection::new();
    conn.deliver(Message::Binary(vec![0, 255, 7]));
    conn.deliver(Message::Ping(vec![1]));
    conn.deliver(Message::Close(None));
    assert_eq!(conn.next(), Some(Message::Binary(vec![0, 255, 7])));
    assert_eq!(conn.next(), Some(Message::Ping(vec![1])));
    assert_eq!(conn.next(), Some(Message::Close(None)));
    assert_eq!(conn.next(), None);
}

#[test]
fn sends_are_serialized_in_call_order() {
    let mut conn = WebSocketConnection::new();
    let n = 5;
    for i in 0..n {
        conn.send_string(format!("message {}", i)).unwrap();
    }
    assert_eq!(conn.outgoing.len(), n);
    for i in 0..n {
        assert_eq!(
            conn.outgoing[i],
            Message::Text(format!("message {}", i))
        );
    }
}

#[test]
fn send_bytes_sends_binary_frames() {
    let mut conn = WebSocketConnection::new();
    conn.send_bytes(vec![1, 2, 3]).unwrap();
    conn.send(Message::Pong(vec![9])).unwrap();
    assert_eq!(conn.outgoing[0], Message::Binary(vec![1, 2, 3]));
    assert_eq!(conn.outgoing[1], Message::Pong(vec![9]));
}

#[test]
fn blocked_reader_does_not_stop_the_writer() {
    let mut conn = WebSocketConnection::new();
    // Nothing has arrived: a receive yields nothing...
    assert_eq!(conn.next(), None);
    // ...and the writer still makes progress,
    conn.send_string("out".to_string()).unwrap();
    assert_eq!(conn.outgoing.len(), 1);
    // while a send never consumes or reorders pending inbound frames.
    conn.deliver(Message::Text("in".to_string()));
    conn.send_string("out again".to_string()).unwrap();
    assert_eq!(conn.next(), Some(Message::Text("in".to_string())));
}

#[test]
fn failed_serialization_writes_nothing() {
    let mut conn = WebSocketConnection::new();
    conn.send_string("before".to_string()).unwrap();
    let r = conn.send_json(Err("key must be a string".to_string()));
    match r {
        Err(Error::Serialization(reason)) => assert_eq!(reason, "key must be a string"),
        _ => panic!("a failed serialization must surface as an error"),
    }
    // No partial write: the traffic is exactly as before the call,
    assert_eq!(conn.outgoing.len(), 1);
    // and the connection stays usable.
    conn.send_string("after".to_string()).unwrap();
    assert_eq!(conn.outgoing[1], Message::Text("after".to_string()));
}

#[test]
fn successful_serialization_goes_out_as_text() {
    let mut conn = WebSocketConnection::new();
    let serialized = serde_json::to_string(&vec![1, 2, 3]).map_err(|e| e.to_string());
    conn.send_json(serialized).unwrap();
    assert_eq!(conn.outgoing[0], Message::Text("[1,2,3]".to_string()));
}
