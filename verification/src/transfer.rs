//! Transfers: what one blocking call on a socket reported, and the operations
//! that take several such calls to move an exact number of bytes.

use vstd::prelude::*;

use crate::error::{failure, seen, Error, ErrorKind, ErrorView, OVERRUN, UNEXPECTED_EOF, WRITE_ZERO};

verus! {

/// What one blocking call on the socket came back with: the number of bytes
/// it moved, or the message of its failure.
pub type Outcome = Result<usize, String>;

/// Where an operation of several transfers stands: it waits for the outcome
/// of its next transfer, or it is over and this is what it returns.
#[derive(Debug, PartialEq, Eq)]
pub enum Step<Op, R> {
    /// The operation goes on: it waits for the outcome of its next call.
    Pending(Op),
    /// The operation is over, and this is what it returns.
    Done(R),
}

/// What a single transfer that was offered `limit` bytes amounts to: the
/// count it reported, unless that count is more than it was offered, or the
/// call failed.
pub open spec fn settled(limit: usize, outcome: Outcome) -> Result<usize, ErrorView> {
    match outcome {
        Ok(count) => if count <= limit {
            Ok(count)
        } else {
            Err(failure(ErrorKind::IoError, OVERRUN@))
        },
        Err(message) => Err(failure(ErrorKind::IoError, message@)),
    }
}

/// Decides what a single transfer that was offered `limit` bytes returns.
pub fn settle(limit: usize, outcome: Outcome) -> (result: Result<usize, Error>)
    ensures
        seen(result) == settled(limit, outcome),
        result matches Ok(count) ==> count <= limit,
{
    match outcome {
        Ok(count) => if count <= limit {
            Ok(count)
        } else {
            Err(Error::fixed(ErrorKind::IoError, OVERRUN))
        },
        Err(message) => Err(Error::new(ErrorKind::IoError, message)),
    }
}

/// Which way an exact transfer moves its bytes.
#[derive(Clone, Copy, Debug, PartialEq, Eq, Structural)]
pub enum Direction {
    /// From the socket into the caller's buffer.
    Read,
    /// From the caller's buffer into the socket.
    Write,
}

/// The failure of an exact transfer whose socket moved no byte at all: a read
/// has met the end of the stream, a write can make no further progress.
pub open spec fn stalled(direction: Direction) -> ErrorView {
    match direction {
        Direction::Read => failure(ErrorKind::UnexpectedEofError, UNEXPECTED_EOF@),
        Direction::Write => failure(ErrorKind::IoError, WRITE_ZERO@),
    }
}

/// How far an exact transfer has come.
pub enum Progress {
    /// So many bytes have moved, fewer than the buffer holds.
    Partial(nat),
    /// Every byte of the buffer has moved.
    Complete,
    /// The transfer has failed.
    Failed(ErrorView),
}

/// An exact transfer of `len` bytes before its first call: over at once if
/// there is nothing to move.
pub open spec fn start(len: nat) -> Progress {
    if len == 0 {
        Progress::Complete
    } else {
        Progress::Partial(0)
    }
}

/// An exact transfer of `len` bytes, `done` of them moved, after one more call.
pub open spec fn advance(direction: Direction, len: nat, done: nat, outcome: Outcome) -> Progress {
    match outcome {
        Err(message) => Progress::Failed(failure(ErrorKind::IoError, message@)),
        Ok(count) => if count == 0 {
            Progress::Failed(stalled(direction))
        } else if done + count > len {
            Progress::Failed(failure(ErrorKind::IoError, OVERRUN@))
        } else if done + count == len {
            Progress::Complete
        } else {
            Progress::Partial(done + count as nat)
        },
    }
}

/// One transfer for the driver to perform: a single blocking call on the
/// bytes of the caller's buffer from `offset`, `limit` of them.
#[derive(Clone, Copy, Debug, PartialEq, Eq, Structural)]
pub struct Window {
    /// The place in the buffer of the first byte that the call may move.
    pub offset: usize,
    /// The number of bytes that the call may move at most.
    pub limit: usize,
}

/// An exact transfer that waits for the outcome of its next call.
#[derive(Debug, PartialEq, Eq)]
pub struct Exact {
    direction: Direction,
    len: usize,
    done: usize,
}

/// A step of an exact transfer as contracts see it.
pub open spec fn progress(step: Step<Exact, Result<(), Error>>) -> Progress {
    match step {
        Step::Pending(op) => Progress::Partial(op.done()),
        Step::Done(Ok(_)) => Progress::Complete,
        Step::Done(Err(error)) => Progress::Failed(error@),
    }
}

impl Exact {
    #[verifier::type_invariant]
    spec fn unfinished(&self) -> bool {
        self.done < self.len
    }

    /// Which way the bytes move.
    pub closed spec fn direction(&self) -> Direction {
        self.direction
    }

    /// The number of bytes to move in all.
    pub closed spec fn len(&self) -> nat {
        self.len as nat
    }

    /// The number of bytes moved so far.
    pub closed spec fn done(&self) -> nat {
        self.done as nat
    }

    /// Begins an exact transfer of `len` bytes.
    pub(crate) fn begin(direction: Direction, len: usize) -> (step: Step<Exact, Result<(), Error>>)
        ensures
            progress(step) == start(len as nat),
            step matches Step::Pending(op) ==> op.direction() == direction && op.len() == len,
    {
        if len == 0 {
            Step::Done(Ok(()))
        } else {
            Step::Pending(Exact { direction, len, done: 0 })
        }
    }

    /// The call to perform next: it starts where the last one stopped and is
    /// offered all that is left, which is at least one byte.
    pub fn window(&self) -> (window: Window)
        ensures
            window.offset == self.done(),
            window.offset + window.limit == self.len(),
            window.limit > 0,
    {
        proof {
            use_type_invariant(self);
        }
        Window { offset: self.done, limit: self.len - self.done }
    }

    /// Takes the outcome of the call that [`Exact::window`] asked for.
    pub fn step(self, outcome: Outcome) -> (step: Step<Exact, Result<(), Error>>)
        ensures
            progress(step) == advance(self.direction(), self.len(), self.done(), outcome),
            step matches Step::Pending(op) ==> op.direction() == self.direction() && op.len()
                == self.len(),
    {
        proof {
            use_type_invariant(&self);
        }
        let left = self.len - self.done;
        match outcome {
            Err(message) => Step::Done(Err(Error::new(ErrorKind::IoError, message))),
            Ok(count) => if count == 0 {
                match self.direction {
                    Direction::Read => Step::Done(
                        Err(Error::fixed(ErrorKind::UnexpectedEofError, UNEXPECTED_EOF)),
                    ),
                    Direction::Write => Step::Done(Err(Error::fixed(ErrorKind::IoError, WRITE_ZERO))),
                }
            } else if count > left {
                Step::Done(Err(Error::fixed(ErrorKind::IoError, OVERRUN)))
            } else if count == left {
                Step::Done(Ok(()))
            } else {
                Step::Pending(
                    Exact { direction: self.direction, len: self.len, done: self.done + count },
                )
            },
        }
    }
}

/// An exact transfer of `len` bytes after the calls that reported `outcomes`,
/// in that order. Once the transfer is over, further outcomes change nothing.
pub open spec fn run(direction: Direction, len: nat, outcomes: Seq<Outcome>) -> Progress
    decreases outcomes.len(),
{
    if outcomes.len() == 0 {
        start(len)
    } else {
        match run(direction, len, outcomes.drop_last()) {
            Progress::Partial(done) => advance(direction, len, done, outcomes.last()),
            over => over,
        }
    }
}

/// The number of bytes that an outcome reports as moved.
pub open spec fn moved(outcome: Outcome) -> nat {
    match outcome {
        Ok(count) => count as nat,
        Err(_) => 0,
    }
}

/// The number of bytes that the first `k` outcomes report as moved.
pub open spec fn total(outcomes: Seq<Outcome>, k: int) -> nat
    decreases k,
{
    if k <= 0 {
        0
    } else {
        total(outcomes, k - 1) + moved(outcomes[k - 1])
    }
}

/// Each of the first `k` outcomes is a call that moved at least one byte.
pub open spec fn all_moved(outcomes: Seq<Outcome>, k: int) -> bool {
    forall|i: int| 0 <= i < k ==> moved(#[trigger] outcomes[i]) > 0
}

/// The first `k` outcomes are calls that each moved at least one byte and
/// together moved exactly `len` bytes.
pub open spec fn fills(outcomes: Seq<Outcome>, len: nat, k: int) -> bool {
    &&& 0 <= k <= outcomes.len()
    &&& all_moved(outcomes, k)
    &&& total(outcomes, k) == len
}

proof fn total_grows(outcomes: Seq<Outcome>, j: int, k: int)
    requires
        0 <= j <= k,
    ensures
        total(outcomes, j) <= total(outcomes, k),
    decreases k,
{
    if j < k {
        total_grows(outcomes, j, k - 1);
    }
}

proof fn total_agrees(a: Seq<Outcome>, b: Seq<Outcome>, k: int)
    requires
        forall|i: int| 0 <= i < k ==> a[i] == b[i],
    ensures
        total(a, k) == total(b, k),
    decreases k,
{
    if k > 0 {
        total_agrees(a, b, k - 1);
    }
}

proof fn run_by_totals(direction: Direction, len: nat, outcomes: Seq<Outcome>)
    ensures
        run(direction, len, outcomes) matches Progress::Partial(done) ==> done == total(
            outcomes,
            outcomes.len() as int,
        ),
        run(direction, len, outcomes) is Partial <==> all_moved(outcomes, outcomes.len() as int)
            && total(outcomes, outcomes.len() as int) < len,
        run(direction, len, outcomes) is Complete <==> exists|k: int| fills(outcomes, len, k),
    decreases outcomes.len(),
{
    let n = outcomes.len() as int;
    if n == 0 {
        if len == 0 {
            assert(fills(outcomes, len, 0));
        }
    } else {
        let earlier = outcomes.drop_last();
        run_by_totals(direction, len, earlier);
        assert forall|i: int| 0 <= i < n - 1 implies earlier[i] == outcomes[i] by {}
        assert forall|k: int| 0 <= k < n implies {
            &&& total(earlier, k) == total(outcomes, k)
            &&& all_moved(earlier, k) <==> all_moved(outcomes, k)
        } by {
            total_agrees(earlier, outcomes, k);
        }
        assert(all_moved(outcomes, n) ==> moved(outcomes[n - 1]) > 0);
        if exists|k: int| fills(earlier, len, k) {
            let k = choose|k: int| fills(earlier, len, k);
            assert(fills(outcomes, len, k));
            total_grows(earlier, k, n - 1);
        } else {
            assert forall|k: int| fills(outcomes, len, k) implies k == n by {
                if k < n {
                    assert(fills(earlier, len, k));
                }
            }
            if run(direction, len, outcomes) is Complete {
                assert(fills(outcomes, len, n));
            }
        }
    }
}

/// An exact read succeeds when the buffer has been filled and only then:
/// when some first calls each moved at least one byte and together moved as
/// many bytes as the buffer holds. It never succeeds on a buffer that is
/// filled in part; while it is under way, it has moved what the calls so
/// far report, which is less than the buffer holds.
pub proof fn read_exact_succeeds_iff_filled(len: nat, outcomes: Seq<Outcome>)
    ensures
        run(Direction::Read, len, outcomes) is Complete <==> exists|k: int|
            fills(outcomes, len, k),
        run(Direction::Read, len, outcomes) matches Progress::Partial(done) ==> done < len
            && done == total(outcomes, outcomes.len() as int),
{
    run_by_totals(Direction::Read, len, outcomes);
}

/// Writing a whole buffer succeeds when the transport has accepted every
/// byte of it and only then: when some first calls each accepted at least
/// one byte and together accepted as many bytes as the buffer holds. While
/// the write is under way, the transport has accepted what the calls so far
/// report, which is less than the buffer holds.
pub proof fn write_all_succeeds_iff_accepted(len: nat, outcomes: Seq<Outcome>)
    ensures
        run(Direction::Write, len, outcomes) is Complete <==> exists|k: int|
            fills(outcomes, len, k),
        run(Direction::Write, len, outcomes) matches Progress::Partial(done) ==> done < len
            && done == total(outcomes, outcomes.len() as int),
{
    run_by_totals(Direction::Write, len, outcomes);
}

/// The bytes of `buffer` that the first `k` calls moved, call after call:
/// each call starts at the byte after all that moved before it, and moves
/// as many bytes as it reports.
pub open spec fn carried(buffer: Seq<u8>, outcomes: Seq<Outcome>, k: int) -> Seq<u8>
    decreases k,
{
    if k <= 0 {
        Seq::empty()
    } else {
        carried(buffer, outcomes, k - 1) + buffer.subrange(
            total(outcomes, k - 1) as int,
            total(outcomes, k) as int,
        )
    }
}

/// An exact transfer moves the bytes of its buffer in their order, each of
/// them once: what the first `k` calls moved, one call after another, is the
/// buffer from its beginning up to the number of bytes moved. When the calls
/// fill the buffer, that is the whole of it.
pub proof fn exact_transfer_keeps_order(buffer: Seq<u8>, outcomes: Seq<Outcome>, k: int)
    requires
        0 <= k <= outcomes.len(),
        total(outcomes, k) <= buffer.len(),
    ensures
        carried(buffer, outcomes, k) == buffer.subrange(0, total(outcomes, k) as int),
        fills(outcomes, buffer.len(), k) ==> carried(buffer, outcomes, k) == buffer,
    decreases k,
{
    if k > 0 {
        total_grows(outcomes, k - 1, k);
        exact_transfer_keeps_order(buffer, outcomes, k - 1);
    }
}

} // verus!
