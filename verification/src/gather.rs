//! Reading until the stream ends: into a byte buffer, or into text.

use vstd::prelude::*;
use vstd::slice::slice_subrange;
use vstd::utf8::{decode_utf8, encode_utf8_decode_utf8, valid_utf8};

use crate::error::{failure, seen, Error, ErrorKind, ErrorView, INVALID_TEXT};
use crate::text::text_of;
use crate::transfer::{settle, settled, Outcome, Step};

verus! {

/// What a read to the end hands back when it is over: the buffer, with all
/// that was appended to it, and the operation's result. The bytes appended
/// before a failure stay in the buffer.
#[derive(Debug, PartialEq, Eq)]
pub struct Gathered {
    /// The buffer that the operation was begun with, and what it appended.
    pub buffer: Vec<u8>,
    /// The number of bytes appended, or the failure that ended the operation.
    pub result: Result<usize, Error>,
}

/// A read to the end as contracts see it.
pub enum Gathering {
    /// It holds these bytes and waits for the next chunk.
    More(Seq<u8>),
    /// It is over: the bytes it hands back, and its result.
    Over(Seq<u8>, Result<usize, ErrorView>),
}

/// A read to the end that holds `held`, of which `start` bytes were there
/// before it began, after one more call that read into `chunk`.
///
/// A call that moved bytes has them appended. A call that was offered at
/// least one byte and moved none has met the end of the stream, and the
/// result is the number of bytes appended since the beginning; of an empty
/// chunk such a call says nothing, and the operation goes on. A call that
/// failed ends the operation with what was appended left in place.
pub open spec fn gather(held: Seq<u8>, start: nat, chunk: Seq<u8>, outcome: Outcome) -> Gathering {
    match settled(chunk.len() as usize, outcome) {
        Ok(count) => if count > 0 {
            Gathering::More(held + chunk.subrange(0, count as int))
        } else if chunk.len() == 0 {
            Gathering::More(held)
        } else {
            Gathering::Over(held, Ok((held.len() - start) as usize))
        },
        Err(error) => Gathering::Over(held, Err(error)),
    }
}

/// A read to the end that waits for the outcome of its next call.
#[derive(Debug, PartialEq, Eq)]
pub struct ReadToEnd {
    buffer: Vec<u8>,
    start: usize,
}

/// A step of a read to the end as contracts see it.
pub open spec fn gathering(step: Step<ReadToEnd, Gathered>) -> Gathering {
    match step {
        Step::Pending(op) => Gathering::More(op.held()),
        Step::Done(gathered) => Gathering::Over(gathered.buffer@, seen(gathered.result)),
    }
}

impl ReadToEnd {
    #[verifier::type_invariant]
    spec fn grown(&self) -> bool {
        self.start <= self.buffer@.len()
    }

    /// The bytes in the buffer now.
    pub closed spec fn held(&self) -> Seq<u8> {
        self.buffer@
    }

    /// The number of bytes that were in the buffer before the operation began.
    pub closed spec fn start(&self) -> nat {
        self.start as nat
    }

    /// Begins a read to the end that appends to `buffer`.
    pub(crate) fn begin(buffer: Vec<u8>) -> (op: ReadToEnd)
        ensures
            op.held() == buffer@,
            op.start() == buffer@.len(),
    {
        let start = buffer.len();
        ReadToEnd { buffer, start }
    }

    /// Takes the outcome of one blocking read into `chunk`.
    pub fn step(self, chunk: &[u8], outcome: Outcome) -> (step: Step<ReadToEnd, Gathered>)
        ensures
            self.start() <= self.held().len(),
            gathering(step) == gather(self.held(), self.start(), chunk@, outcome),
            step matches Step::Pending(op) ==> op.start() == self.start(),
    {
        proof {
            use_type_invariant(&self);
        }
        let ReadToEnd { mut buffer, start } = self;
        match settle(chunk.len(), outcome) {
            Ok(count) => if count > 0 {
                buffer.extend_from_slice(slice_subrange(chunk, 0, count));
                assert(buffer@ == self.held() + chunk@.subrange(0, count as int));
                Step::Pending(ReadToEnd { buffer, start })
            } else if chunk.len() == 0 {
                Step::Pending(ReadToEnd { buffer, start })
            } else {
                let appended = buffer.len() - start;
                Step::Done(Gathered { buffer, result: Ok(appended) })
            },
            Err(error) => Step::Done(Gathered { buffer, result: Err(error) }),
        }
    }
}

/// What a read of text leaves behind when the stream is over: the text that
/// `out` then holds, and the operation's result.
///
/// Bytes that are valid UTF-8 are appended as text, whether the stream ended
/// or failed. Bytes that are not leave `out` as it was, and the result is a
/// failure: the transport's, if there was one, else an encoding error.
pub open spec fn deliver(out: Seq<char>, bytes: Seq<u8>, result: Result<usize, ErrorView>) -> (
    Seq<char>,
    Result<usize, ErrorView>,
) {
    if valid_utf8(bytes) {
        (out + decode_utf8(bytes), result)
    } else {
        (
            out,
            match result {
                Ok(_) => Err(failure(ErrorKind::EncodingError, INVALID_TEXT@)),
                Err(error) => Err(error),
            },
        )
    }
}

/// A read of text to the end of the stream that waits for the outcome of its
/// next call.
#[derive(Debug, PartialEq, Eq)]
pub struct ReadToString {
    bytes: ReadToEnd,
}

impl ReadToString {
    #[verifier::type_invariant]
    spec fn fresh(&self) -> bool {
        self.bytes.start == 0 && self.bytes.grown()
    }

    /// The bytes read so far.
    pub closed spec fn held(&self) -> Seq<u8> {
        self.bytes.held()
    }

    /// Begins a read of text.
    pub(crate) fn begin() -> (op: ReadToString)
        ensures
            op.held() == Seq::<u8>::empty(),
    {
        ReadToString { bytes: ReadToEnd::begin(Vec::new()) }
    }

    /// Takes the outcome of one blocking read into `chunk`. When that ends
    /// the operation, the text is appended to `out`; until then `out` is left
    /// alone.
    pub fn step(self, out: &mut String, chunk: &[u8], outcome: Outcome) -> (step: Step<
        ReadToString,
        Result<usize, Error>,
    >)
        ensures
            match gather(self.held(), 0, chunk@, outcome) {
                Gathering::More(held) => step matches Step::Pending(op) && op.held() == held
                    && final(out)@ == old(out)@,
                Gathering::Over(held, result) => step matches Step::Done(returned) && (
                    final(out)@,
                    seen(returned),
                ) == deliver(old(out)@, held, result),
            },
    {
        proof {
            use_type_invariant(&self);
        }
        match self.bytes.step(chunk, outcome) {
            Step::Pending(bytes) => Step::Pending(ReadToString { bytes }),
            Step::Done(gathered) => {
                match text_of(gathered.buffer.as_slice()) {
                    Some(text) => {
                        proof {
                            encode_utf8_decode_utf8(text@);
                        }
                        out.append(text);
                        Step::Done(gathered.result)
                    },
                    None => match gathered.result {
                        Ok(_) => Step::Done(Err(Error::fixed(ErrorKind::EncodingError, INVALID_TEXT))),
                        Err(error) => Step::Done(Err(error)),
                    },
                }
            },
        }
    }
}

} // verus!
