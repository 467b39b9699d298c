//! The stream socket handle: one connected, bidirectional byte stream.

use vstd::prelude::*;

use crate::error::{failure, seen, Error, ErrorKind};
use crate::gather::{ReadToEnd, ReadToString};
use crate::transfer::{progress, settle, settled, start, Direction, Exact, Outcome, Step};

verus! {

/// A connected stream socket.
///
/// The handle owns the operating-system socket `S` and is the only way to
/// it. It exists only where a connection has been made, it is never copied,
/// and the socket is released when the handle is. The handle keeps nothing
/// else from one call to the next: each operation is decided by what the
/// socket reports.
#[derive(Debug)]
pub struct TcpStream<S> {
    socket: S,
}

/// Makes the handle of a stream from what the blocking connect reported: the
/// connected socket, or the message of its failure. Nothing is retried.
pub fn connect<S>(opened: Result<S, String>) -> (result: Result<Box<TcpStream<S>>, Error>)
    ensures
        match opened {
            Ok(socket) => result matches Ok(stream) && stream.held() == socket,
            Err(message) => result matches Err(error) && error@ == failure(
                ErrorKind::ConnectionError,
                message@,
            ),
        },
{
    match opened {
        Ok(socket) => Ok(Box::new(TcpStream { socket })),
        Err(message) => Err(Error::new(ErrorKind::ConnectionError, message)),
    }
}

impl<S> TcpStream<S> {
    /// The socket that the handle owns.
    pub closed spec fn held(&self) -> S {
        self.socket
    }

    /// The socket, for the driver to make its blocking calls on.
    pub fn socket(&self) -> (socket: &S)
        ensures
            *socket == self.held(),
    {
        &self.socket
    }

    /// Decides what a read returns from the outcome of one blocking read
    /// into a buffer of `capacity` bytes: the count of bytes read, which is
    /// never more than the buffer holds; zero where the stream has ended.
    pub fn read(&self, capacity: usize, outcome: Outcome) -> (result: Result<usize, Error>)
        ensures
            seen(result) == settled(capacity, outcome),
            result matches Ok(count) ==> count <= capacity,
    {
        settle(capacity, outcome)
    }

    /// Decides what a write returns from the outcome of one blocking write
    /// of a buffer of `len` bytes: the count of bytes written, which may be
    /// fewer than the buffer holds.
    pub fn write(&self, len: usize, outcome: Outcome) -> (result: Result<usize, Error>)
        ensures
            seen(result) == settled(len, outcome),
            result matches Ok(count) ==> count <= len,
    {
        settle(len, outcome)
    }

    /// Decides what a flush returns from the outcome of the blocking flush:
    /// a failure of the transport is passed on.
    pub fn flush(&self, outcome: Result<(), String>) -> (result: Result<(), Error>)
        ensures
            match outcome {
                Ok(_) => result is Ok,
                Err(message) => result matches Err(error) && error@ == failure(
                    ErrorKind::IoError,
                    message@,
                ),
            },
    {
        match outcome {
            Ok(_) => Ok(()),
            Err(message) => Err(Error::new(ErrorKind::IoError, message)),
        }
    }

    /// Begins a read that fills a buffer of `len` bytes or fails.
    pub fn read_exact(&self, len: usize) -> (step: Step<Exact, Result<(), Error>>)
        ensures
            progress(step) == start(len as nat),
            step matches Step::Pending(op) ==> op.direction() == Direction::Read && op.len() == len,
    {
        Exact::begin(Direction::Read, len)
    }

    /// Begins a write of every byte of a buffer of `len` bytes.
    pub fn write_all(&self, len: usize) -> (step: Step<Exact, Result<(), Error>>)
        ensures
            progress(step) == start(len as nat),
            step matches Step::Pending(op) ==> op.direction() == Direction::Write && op.len()
                == len,
    {
        Exact::begin(Direction::Write, len)
    }

    /// Begins a read to the end of the stream that appends to `buffer`.
    pub fn read_to_end(&self, buffer: Vec<u8>) -> (op: ReadToEnd)
        ensures
            op.held() == buffer@,
            op.start() == buffer@.len(),
    {
        ReadToEnd::begin(buffer)
    }

    /// Begins a read of text to the end of the stream.
    pub fn read_to_string(&self) -> (op: ReadToString)
        ensures
            op.held() == Seq::<u8>::empty(),
    {
        ReadToString::begin()
    }
}

} // verus!
