//! Resize and retry: run an operation that writes into the room left in a
//! buffer; if it reports that the room is too small and the buffer can grow,
//! make the buffer exactly as large as it asks for and run it once more.

use crate::buffer::{BufferModel, TlsBuffer};
use vstd::prelude::*;

verus! {

/// What one run of a writing operation reports.
#[derive(Debug)]
pub enum WriteOutcome<E> {
    /// So many bytes were written at the front of the room offered.
    Written(usize),
    /// The room offered was too small: so many bytes of room are required.
    NeedsMore(usize),
    /// The operation failed for another reason.
    Failed(E),
}

/// Why resize and retry gave up.
#[derive(Debug)]
pub enum WriteFailure<E> {
    /// The operation still asks for room: after the one retry, or at once
    /// where the buffer cannot grow or `used + required_size` is more than
    /// a buffer can hold.
    InsufficientSize { required_size: usize },
    /// The operation failed for a reason that more room would not mend.
    Operation(E),
}

/// What follows from the first run.
#[derive(Debug)]
pub enum Attempt<E> {
    /// The bytes written were taken in: nothing more to do.
    Done(usize),
    /// The buffer was resized: run the operation once more.
    Retry,
    /// The failure is final.
    Failed(WriteFailure<E>),
}

/// An operation that writes into a slice of bytes: the encoding of a
/// handshake record, the encryption of a payload.
pub trait RecordWriter {
    type Error;

    /// Writes at the front of `dest` and says how much was written, or why
    /// nothing was.
    fn write_into(&mut self, dest: &mut [u8]) -> (r: WriteOutcome<Self::Error>)
        ensures
            final(dest)@.len() == old(dest)@.len(),
            r matches WriteOutcome::Written(n) ==> n <= old(dest)@.len(),
    ;
}

/// One run of a writing operation: the room that it was offered, as it was
/// when offered; the same room as the run left it; and what it reported.
pub struct Run<E> {
    pub offered: Seq<u8>,
    pub left: Seq<u8>,
    pub outcome: WriteOutcome<E>,
}

/// A writing operation together with the record of its runs.
pub struct Recorded<W: RecordWriter> {
    writer: W,
    runs: Ghost<Seq<Run<W::Error>>>,
}

impl<W: RecordWriter> Recorded<W> {
    /// The operation itself.
    pub closed spec fn writer(&self) -> W {
        self.writer
    }

    /// The runs of the operation since it was put on record, the latest
    /// last.
    pub closed spec fn runs(&self) -> Seq<Run<W::Error>> {
        self.runs@
    }

    /// Puts `writer` on record, with no run so far.
    pub fn new(writer: W) -> (r: Self)
        ensures
            r.writer() == writer,
            r.runs() == Seq::<Run<W::Error>>::empty(),
    {
        Recorded { writer, runs: Ghost(Seq::empty()) }
    }

    /// The operation, as its runs have left it.
    pub fn get_ref(&self) -> (r: &W)
        ensures
            *r == self.writer(),
    {
        &self.writer
    }

    /// Gives the operation back.
    pub fn into_inner(self) -> (r: W)
        ensures
            r == self.writer(),
    {
        self.writer
    }

    /// Runs the operation once against `dest` and records the run: what
    /// `dest` held when it was offered, what the run left in it, and the
    /// outcome, which is also returned.
    pub fn run(&mut self, dest: &mut [u8]) -> (r: WriteOutcome<W::Error>)
        ensures
            final(dest)@.len() == old(dest)@.len(),
            outcome_fits(r, old(dest)@.len()),
            final(self).runs() == old(self).runs().push(
                Run { offered: old(dest)@, left: final(dest)@, outcome: r },
            ),
    {
        let ghost offered = dest@;
        let r = self.writer.write_into(dest);
        self.runs = Ghost(self.runs@.push(Run { offered, left: dest@, outcome: r }));
        r
    }
}

/// The total length that a buffer needs where its operation asks for
/// `required_size` bytes of room behind the `used` ones.
pub open spec fn required_length(used: nat, required_size: nat) -> nat {
    used + required_size
}

/// The buffer and the verdict after the first run reported `outcome`.
pub open spec fn after_first_attempt<E>(buffer: BufferModel, outcome: WriteOutcome<E>) -> (
    BufferModel,
    Attempt<E>,
) {
    match outcome {
        WriteOutcome::Written(n) => (buffer.advance(n as nat), Attempt::Done(n)),
        WriteOutcome::NeedsMore(required_size) => if buffer.growable && required_length(
            buffer.used,
            required_size as nat,
        ) <= usize::MAX {
            (buffer.resize(required_length(buffer.used, required_size as nat)), Attempt::Retry)
        } else {
            (buffer, Attempt::Failed(WriteFailure::InsufficientSize { required_size }))
        },
        WriteOutcome::Failed(e) => (buffer, Attempt::Failed(WriteFailure::Operation(e))),
    }
}

/// The buffer and the result after the second run reported `outcome`.
pub open spec fn after_retry<E>(buffer: BufferModel, outcome: WriteOutcome<E>) -> (
    BufferModel,
    Result<usize, WriteFailure<E>>,
) {
    match outcome {
        WriteOutcome::Written(n) => (buffer.advance(n as nat), Ok(n)),
        WriteOutcome::NeedsMore(required_size) => (
            buffer,
            Err(WriteFailure::InsufficientSize { required_size }),
        ),
        WriteOutcome::Failed(e) => (buffer, Err(WriteFailure::Operation(e))),
    }
}

/// An outcome that a run against `room` bytes can have reported.
pub open spec fn outcome_fits<E>(outcome: WriteOutcome<E>, room: nat) -> bool {
    outcome matches WriteOutcome::Written(n) ==> n <= room
}

/// Takes in what the first run against `outgoing.unfilled()` reported.
///
/// Bytes written are marked as filled. Where the room was too small, a
/// buffer that can grow is resized to `used + required_size` bytes, so that
/// the room is exactly what was asked for; for one that cannot, the
/// shortfall is final. Any other failure is final.
pub fn settle_first_attempt<E>(outgoing: &mut TlsBuffer<'_>, outcome: WriteOutcome<E>) -> (r:
    Attempt<E>)
    requires
        old(outgoing).wf(),
        outcome_fits(outcome, old(outgoing)@.unfilled().len()),
    ensures
        final(outgoing).wf(),
        (final(outgoing)@, r) == after_first_attempt(old(outgoing)@, outcome),
{
    match outcome {
        WriteOutcome::Written(n) => {
            outgoing.advance(n);
            Attempt::Done(n)
        },
        WriteOutcome::NeedsMore(required_size) => {
            let used: usize = outgoing.used();
            let capacity: usize = outgoing.capacity();
            if !outgoing.is_growable() || required_size > usize::MAX - used {
                Attempt::Failed(WriteFailure::InsufficientSize { required_size })
            } else {
                let new_length: usize = used + required_size;
                if new_length > capacity {
                    outgoing.reserve(new_length - capacity);
                } else {
                    outgoing.resize(new_length);
                }
                Attempt::Retry
            }
        },
        WriteOutcome::Failed(e) => Attempt::Failed(WriteFailure::Operation(e)),
    }
}

/// Takes in what the second run against `outgoing.unfilled()` reported.
/// Whatever is not a success is handed on as the failure it is.
pub fn settle_retry<E>(outgoing: &mut TlsBuffer<'_>, outcome: WriteOutcome<E>) -> (r: Result<
    usize,
    WriteFailure<E>,
>)
    requires
        old(outgoing).wf(),
        outcome_fits(outcome, old(outgoing)@.unfilled().len()),
    ensures
        final(outgoing).wf(),
        (final(outgoing)@, r) == after_retry(old(outgoing)@, outcome),
{
    match outcome {
        WriteOutcome::Written(n) => {
            outgoing.advance(n);
            Ok(n)
        },
        WriteOutcome::NeedsMore(required_size) => Err(
            WriteFailure::InsufficientSize { required_size },
        ),
        WriteOutcome::Failed(e) => Err(WriteFailure::Operation(e)),
    }
}

/// What resize and retry makes of a buffer and of the runs of its
/// operation. The first run leaves its bytes in the room of the buffer, and
/// settles the matter unless the buffer is resized for it; then the second
/// run leaves its bytes in the new room, and settles it.
pub open spec fn resized_and_retried<E>(buffer: BufferModel, runs: Seq<Run<E>>) -> (
    BufferModel,
    Result<usize, WriteFailure<E>>,
) {
    let first = after_first_attempt(buffer.with_unfilled(runs[0].left), runs[0].outcome);
    match first.1 {
        Attempt::Done(n) => (first.0, Ok(n)),
        Attempt::Failed(failure) => (first.0, Err(failure)),
        Attempt::Retry => after_retry(first.0.with_unfilled(runs[1].left), runs[1].outcome),
    }
}

/// How often resize and retry runs an operation whose first run reports
/// `first`: twice if the buffer is resized for it, else once.
pub open spec fn runs_needed<E>(buffer: BufferModel, first: WriteOutcome<E>) -> nat {
    if after_first_attempt(buffer, first).1 is Retry {
        2
    } else {
        1
    }
}

/// Runs `op` against the room left in `outgoing`; where that is too small
/// and the buffer can grow, resizes the buffer and runs `op` once more.
///
/// The first run is offered the room that is left. If it writes, what it
/// wrote counts as filled; if it fails for a reason of its own, that is the
/// failure; in both cases there is no second run, nor is there one where
/// the buffer cannot grow. If it asks for room, the buffer is resized to
/// `used + required_size` and a second run is offered the room of the
/// resized buffer, which is exactly as large as the first asked for: what
/// was there before, and zero bytes behind. What the second run reports is
/// final. The buffer and the result are what `resized_and_retried` makes of
/// the runs on record.
pub fn try_or_resize_and_retry<W: RecordWriter>(
    op: &mut Recorded<W>,
    outgoing: &mut TlsBuffer<'_>,
) -> (r: Result<usize, WriteFailure<W::Error>>)
    requires
        old(outgoing).wf(),
    ensures
        final(outgoing).wf(),
        final(outgoing)@.growable == old(outgoing)@.growable,
        final(outgoing)@.used >= old(outgoing)@.used,
        final(outgoing)@.filled().subrange(0, old(outgoing)@.used as int) == old(
            outgoing,
        )@.filled(),
        old(op).runs().is_prefix_of(final(op).runs()),
        ({
            let runs = final(op).runs().skip(old(op).runs().len() as int);
            &&& runs.len() == runs_needed(old(outgoing)@, runs[0].outcome)
            &&& runs[0].offered == old(outgoing)@.unfilled()
            &&& runs.len() == 2 ==> runs[1].offered == after_first_attempt(
                old(outgoing)@.with_unfilled(runs[0].left),
                runs[0].outcome,
            ).0.unfilled()
            &&& forall|i: int|
                0 <= i < runs.len() ==> (#[trigger] runs[i]).left.len() == runs[i].offered.len()
            &&& (final(outgoing)@, r) == resized_and_retried(old(outgoing)@, runs)
        }),
{
    let ghost before = outgoing@;
    let ghost earlier = op.runs();
    let first = op.run(outgoing.unfilled());
    let ghost first_run = op.runs().last();
    let ghost offered = outgoing@;
    assert(offered == before.with_unfilled(first_run.left));
    assert(offered.filled() =~= before.filled());
    assert(op.runs().skip(earlier.len() as int) =~= seq![first_run]);
    let r = match settle_first_attempt(outgoing, first) {
        Attempt::Done(n) => Ok(n),
        Attempt::Failed(failure) => Err(failure),
        Attempt::Retry => {
            let ghost resized = outgoing@;
            assert(resized.filled() =~= before.filled());
            let second = op.run(outgoing.unfilled());
            let ghost second_run = op.runs().last();
            let ghost retried = outgoing@;
            assert(retried == resized.with_unfilled(second_run.left));
            assert(retried.filled() =~= before.filled());
            assert(op.runs().skip(earlier.len() as int) =~= seq![first_run, second_run]);
            settle_retry(outgoing, second)
        },
    };
    assert(outgoing@.filled().subrange(0, before.used as int) =~= before.filled());
    r
}

/// Resize and retry never grows a buffer whose operation succeeds at once,
/// nor one that cannot grow. After a shortfall of `required_size` a buffer
/// that can grow holds exactly `used + required_size` bytes: the bytes in
/// use are untouched, and where it grew, what was there stayed and the new
/// bytes are zero. A second run that does not succeed always ends in an
/// error.
pub proof fn lemma_resize_and_retry<E>(
    buffer: BufferModel,
    first: WriteOutcome<E>,
    second: WriteOutcome<E>,
)
    requires
        buffer.wf(),
    ensures
        first is Written ==> after_first_attempt(buffer, first).0.capacity() == buffer.capacity(),
        first is Failed ==> after_first_attempt(buffer, first).0 == buffer,
        !buffer.growable ==> after_first_attempt(buffer, first).0.capacity() == buffer.capacity()
            && !(after_first_attempt(buffer, first).1 is Retry),
        match first {
            WriteOutcome::NeedsMore(s) => buffer.growable && buffer.used + s <= usize::MAX ==> {
                let resized = after_first_attempt(buffer, first).0;
                let grown = buffer.used + s - buffer.capacity();
                &&& after_first_attempt(buffer, first).1 is Retry
                &&& resized.capacity() == buffer.used + s
                &&& resized.used == buffer.used
                &&& resized.filled() == buffer.filled()
                &&& resized.unfilled().len() == s
                &&& grown >= 0 ==> resized.bytes == buffer.bytes + Seq::new(
                    grown as nat,
                    |i: int| 0u8,
                )
                &&& grown >= 0 ==> resized.unfilled() == buffer.unfilled() + Seq::new(
                    grown as nat,
                    |i: int| 0u8,
                )
                &&& after_retry(resized, second).0.capacity() == buffer.used + s
            },
            _ => true,
        },
        after_retry(buffer, second).1 is Ok <==> second is Written,
        second matches WriteOutcome::NeedsMore(s) ==> after_retry(buffer, second).1 == Err::<
            usize,
            WriteFailure<E>,
        >(WriteFailure::InsufficientSize { required_size: s }),
        second matches WriteOutcome::Failed(e) ==> after_retry(buffer, second).1 == Err::<
            usize,
            WriteFailure<E>,
        >(WriteFailure::Operation(e)),
{
    if let WriteOutcome::NeedsMore(s) = first {
        if buffer.growable && buffer.used + s <= usize::MAX {
            let resized = after_first_attempt(buffer, first).0;
            assert(resized.filled() =~= buffer.filled());
            let grown = buffer.used + s - buffer.capacity();
            if grown >= 0 {
                let zeros = Seq::new(grown as nat, |i: int| 0u8);
                assert(resized.bytes =~= buffer.bytes + zeros);
                assert(resized.unfilled() =~= buffer.unfilled() + zeros);
            }
        }
    }
}

} // verus!
