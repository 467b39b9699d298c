//! The datagram socket handle: one bound socket, with a default peer or none.

use vstd::prelude::*;

use crate::error::{failure, seen, Error, ErrorKind, ErrorView, NO_PEER};
use crate::transfer::{settle, settled, Outcome};

verus! {

/// A bound datagram socket.
///
/// The handle owns the operating-system socket `S` and is the only way to
/// it. It exists only where the socket has been bound, and it remembers the
/// default peer that the last successful connect gave it.
#[derive(Debug)]
pub struct UdpSocket<S> {
    socket: S,
    peer: Option<String>,
}

/// Makes the handle of a datagram socket from what the blocking bind
/// reported: the bound socket, or the message of its failure. The new socket
/// has no default peer.
pub fn bind<S>(opened: Result<S, String>) -> (result: Result<Box<UdpSocket<S>>, Error>)
    ensures
        match opened {
            Ok(socket) => result matches Ok(bound) && bound.held() == socket && bound.peer()
                is None,
            Err(message) => result matches Err(error) && error@ == failure(
                ErrorKind::BindError,
                message@,
            ),
        },
{
    match opened {
        Ok(socket) => Ok(Box::new(UdpSocket { socket, peer: None })),
        Err(message) => Err(Error::new(ErrorKind::BindError, message)),
    }
}

/// The default peer of a socket whose peer was `peer`, after a connect to
/// `addr` that reported `outcome`: the new address where the connect
/// succeeded, the old peer where it failed.
pub open spec fn connected(peer: Option<Seq<char>>, addr: Seq<char>, outcome: Result<(), String>)
    -> Option<Seq<char>> {
    match outcome {
        Ok(_) => Some(addr),
        Err(_) => peer,
    }
}

/// What a send of `len` bytes returns on a socket whose default peer is
/// `peer`: without a peer it fails, whatever the socket reported; with one
/// it is the datagram's transfer.
pub open spec fn sent(peer: Option<Seq<char>>, len: usize, outcome: Outcome) -> Result<
    usize,
    ErrorView,
> {
    match peer {
        None => Err(failure(ErrorKind::NotConnectedError, NO_PEER@)),
        Some(_) => settled(len, outcome),
    }
}

impl<S> UdpSocket<S> {
    /// The socket that the handle owns.
    pub closed spec fn held(&self) -> S {
        self.socket
    }

    /// The default peer: the address of the last successful connect, if any.
    pub closed spec fn peer(&self) -> Option<Seq<char>> {
        match self.peer {
            Some(addr) => Some(addr@),
            None => None,
        }
    }

    /// The socket, for the driver to make its blocking calls on.
    pub fn socket(&self) -> (socket: &S)
        ensures
            *socket == self.held(),
    {
        &self.socket
    }

    /// The default peer, if one has been set.
    pub fn default_peer(&self) -> (peer: Option<&String>)
        ensures
            match peer {
                Some(addr) => self.peer() == Some(addr@),
                None => self.peer() is None,
            },
    {
        self.peer.as_ref()
    }

    /// Takes the outcome of a blocking connect to `addr`. Where it succeeded,
    /// `addr` is the default peer from now on, in place of any earlier one.
    /// Where it failed, the default peer is what it was.
    pub fn connect(&mut self, addr: String, outcome: Result<(), String>) -> (result: Result<
        (),
        Error,
    >)
        ensures
            final(self).held() == old(self).held(),
            final(self).peer() == connected(old(self).peer(), addr@, outcome),
            match outcome {
                Ok(_) => result is Ok,
                Err(message) => result matches Err(error) && error@ == failure(
                    ErrorKind::AddressError,
                    message@,
                ),
            },
    {
        match outcome {
            Ok(_) => {
                self.peer = Some(addr);
                Ok(())
            },
            Err(message) => Err(Error::new(ErrorKind::AddressError, message)),
        }
    }

    /// Decides what a peek returns from the outcome of one blocking peek
    /// into a buffer of `capacity` bytes: the count of bytes of the pending
    /// datagram that were copied, the datagram itself left in the queue.
    pub fn peek(&self, capacity: usize, outcome: Outcome) -> (result: Result<usize, Error>)
        ensures
            seen(result) == settled(capacity, outcome),
            result matches Ok(count) ==> count <= capacity,
    {
        settle(capacity, outcome)
    }

    /// Decides what a receive returns from the outcome of one blocking
    /// receive into a buffer of `capacity` bytes: the count of bytes taken
    /// from the next datagram. What of a longer datagram did not fit is lost:
    /// no later call sees it.
    pub fn recv(&self, capacity: usize, outcome: Outcome) -> (result: Result<usize, Error>)
        ensures
            seen(result) == settled(capacity, outcome),
            result matches Ok(count) ==> count <= capacity,
    {
        settle(capacity, outcome)
    }

    /// Decides what a send returns from the outcome of one blocking send of
    /// a datagram of `len` bytes to the default peer.
    pub fn send(&self, len: usize, outcome: Outcome) -> (result: Result<usize, Error>)
        ensures
            seen(result) == sent(self.peer(), len, outcome),
    {
        match self.peer {
            None => Err(Error::fixed(ErrorKind::NotConnectedError, NO_PEER)),
            Some(_) => settle(len, outcome),
        }
    }
}

/// A send on a socket without a default peer fails as not connected,
/// whatever the socket reported. Once a connect has succeeded, a send is the
/// datagram's transfer: it succeeds with the count that the socket reported
/// for it.
pub proof fn send_needs_peer(
    peer: Option<Seq<char>>,
    addr: Seq<char>,
    len: usize,
    outcome: Outcome,
)
    ensures
        sent(None, len, outcome) == Err::<usize, ErrorView>(
            failure(ErrorKind::NotConnectedError, NO_PEER@),
        ),
        sent(connected(peer, addr, Ok(())), len, outcome) == settled(len, outcome),
        outcome matches Ok(count) ==> (count <= len ==> sent(
            connected(peer, addr, Ok(())),
            len,
            outcome,
        ) == Ok::<usize, ErrorView>(count)),
{
}

} // verus!
