use std::collections::VecDeque;

use socket_bridge::datagram::{bind, UdpSocket};
use socket_bridge::error::{Error, ErrorKind};
use socket_bridge::transfer::Outcome;

/// A stand-in for the receive queue of a datagram socket.
struct Queue {
    pending: VecDeque<Vec<u8>>,
}

impl Queue {
    fn copy(datagram: &[u8], buf: &mut [u8]) -> usize {
        let count = datagram.len().min(buf.len());
        buf[..count].copy_from_slice(&datagram[..count]);
        count
    }

    fn peek(&self, buf: &mut [u8]) -> Outcome {
        match self.pending.front() {
            Some(datagram) => Ok(Queue::copy(datagram, buf)),
            None => Err(String::from("would block")),
        }
    }

    fn recv(&mut self, buf: &mut [u8]) -> Outcome {
        match self.pending.pop_front() {
            Some(datagram) => Ok(Queue::copy(&datagram, buf)),
            None => Err(String::from("would block")),
        }
    }
}

fn bound() -> Box<UdpSocket<u32>> {
    bind(Ok(3)).unwrap()
}

fn failed(kind: ErrorKind, message: &str) -> Error {
    Error { kind, message: String::from(message) }
}

#[test]
fn bind_hands_over_the_socket_without_a_peer() {
    let socket = bind(Ok(12u32)).unwrap();
    assert_eq!(*socket.socket(), 12);
    assert_eq!(socket.default_peer(), None);
}

#[test]
fn bind_failure_is_a_bind_error() {
    let result = bind::<u32>(Err(String::from("address already in use")));
    assert_eq!(result.unwrap_err(), failed(ErrorKind::BindError, "address already in use"));
}

#[test]
fn connect_sets_and_replaces_the_default_peer() {
    let mut socket = bound();
    assert_eq!(socket.connect(String::from("127.0.0.1:4000"), Ok(())), Ok(()));
    assert_eq!(socket.default_peer(), Some(&String::from("127.0.0.1:4000")));
    assert_eq!(socket.connect(String::from("127.0.0.1:4001"), Ok(())), Ok(()));
    assert_eq!(socket.default_peer(), Some(&String::from("127.0.0.1:4001")));
    assert_eq!(*socket.socket(), 3);
}

#[test]
fn connect_failure_is_an_address_error_and_keeps_the_peer() {
    let mut socket = bound();
    assert_eq!(
        socket.connect(String::from("not an address"), Err(String::from("invalid socket address"))),
        Err(failed(ErrorKind::AddressError, "invalid socket address"))
    );
    assert_eq!(socket.default_peer(), None);
    assert_eq!(socket.connect(String::from("127.0.0.1:4000"), Ok(())), Ok(()));
    assert_eq!(
        socket.connect(String::from("nowhere"), Err(String::from("failed to lookup address"))),
        Err(failed(ErrorKind::AddressError, "failed to lookup address"))
    );
    assert_eq!(socket.default_peer(), Some(&String::from("127.0.0.1:4000")));
}

#[test]
fn send_without_connect_is_not_connected() {
    let socket = bound();
    let refused = failed(ErrorKind::NotConnectedError, "no default peer has been set");
    assert_eq!(socket.send(1, Err(String::from("destination address required"))), Err(refused));
    assert_eq!(socket.send(1, Ok(1)).unwrap_err().kind, ErrorKind::NotConnectedError);
    assert_eq!(socket.send(0, Ok(0)).unwrap_err().kind, ErrorKind::NotConnectedError);
}

#[test]
fn send_after_connect_sends_one_datagram() {
    let mut socket = bound();
    let mut peer_queue = Queue { pending: VecDeque::new() };
    assert_eq!(socket.send(1, Ok(1)).unwrap_err().kind, ErrorKind::NotConnectedError);
    assert_eq!(socket.connect(String::from("127.0.0.1:4000"), Ok(())), Ok(()));
    let datagram = b"x";
    peer_queue.pending.push_back(datagram.to_vec());
    assert_eq!(socket.send(datagram.len(), Ok(datagram.len())), Ok(1));
    assert_eq!(peer_queue.pending.len(), 1);
    let mut buf = [0u8; 8];
    let outcome = peer_queue.recv(&mut buf);
    assert_eq!(socket.recv(buf.len(), outcome), Ok(1));
    assert_eq!(&buf[..1], b"x");
    assert!(peer_queue.pending.is_empty());
}

#[test]
fn send_failure_after_connect_is_an_io_error() {
    let mut socket = bound();
    assert_eq!(socket.connect(String::from("127.0.0.1:4000"), Ok(())), Ok(()));
    assert_eq!(
        socket.send(4, Err(String::from("message too long"))),
        Err(failed(ErrorKind::IoError, "message too long"))
    );
    assert_eq!(socket.send(4, Ok(5)).unwrap_err().kind, ErrorKind::IoError);
}

#[test]
fn peek_then_recv_see_the_same_datagram_once() {
    let socket = bound();
    let mut queue = Queue { pending: VecDeque::new() };
    queue.pending.push_back(b"ping".to_vec());

    let mut peeked = [0u8; 16];
    let outcome = queue.peek(&mut peeked);
    assert_eq!(socket.peek(peeked.len(), outcome), Ok(4));
    assert_eq!(&peeked[..4], b"ping");

    let mut received = [0u8; 16];
    let outcome = queue.recv(&mut received);
    assert_eq!(socket.recv(received.len(), outcome), Ok(4));
    assert_eq!(&received[..4], b"ping");

    let mut again = [0u8; 16];
    let outcome = queue.recv(&mut again);
    assert_eq!(
        socket.recv(again.len(), outcome),
        Err(failed(ErrorKind::IoError, "would block"))
    );
    assert_ne!(&again[..4], b"ping");
}

#[test]
fn recv_into_a_short_buffer_returns_what_fitted() {
    let socket = bound();
    let mut queue = Queue { pending: VecDeque::new() };
    queue.pending.push_back(b"truncated".to_vec());
    queue.pending.push_back(b"next".to_vec());
    let mut buf = [0u8; 4];
    let outcome = queue.recv(&mut buf);
    assert_eq!(socket.recv(buf.len(), outcome), Ok(4));
    assert_eq!(&buf, b"trun");
    let outcome = queue.recv(&mut buf);
    assert_eq!(socket.recv(buf.len(), outcome), Ok(4));
    assert_eq!(&buf, b"next");
}

#[test]
fn peek_and_recv_never_return_more_than_the_buffer_holds() {
    let socket = bound();
    for capacity in 0..5usize {
        for count in 0..8usize {
            for result in [socket.peek(capacity, Ok(count)), socket.recv(capacity, Ok(count))] {
                match result {
                    Ok(returned) => assert!(returned == count && returned <= capacity),
                    Err(error) => {
                        assert!(count > capacity);
                        assert_eq!(error.kind, ErrorKind::IoError);
                    }
                }
            }
        }
    }
}
