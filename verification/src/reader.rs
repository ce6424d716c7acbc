//! The bookkeeping of the reader callback that streams a chunk into the VM.
//!
//! `lua_load` pulls: it calls the reader again and again, and each call hands
//! it the next piece of the chunk as a pointer and a size. The callback lends
//! the VM the byte source's own buffer, without a copy, so the buffer must
//! stay where it is until the VM asks again. Only then is the source told
//! that the piece has been consumed.
//!
//! A [`Reader`] keeps what the callback has to remember between two pulls:
//! how many bytes it lent out last, and whether the source has failed. The
//! host does the reading. For each pull it
//!
//! 1. asks [`Reader::pending`] and, if bytes are pending, tells the source
//!    that they are consumed;
//! 2. asks the source for its buffer;
//! 3. reports the answer with [`Reader::filled`], and hands the VM what the
//!    returned [`Pull`] says.

use vstd::prelude::*;

verus! {

/// What the byte source answered when it was asked for its buffer.
#[derive(Clone, Copy, Debug, PartialEq, Eq, Structural)]
pub enum Fill {
    /// It lent a buffer of this many bytes. An empty buffer means that the
    /// input has ended.
    Ready(usize),
    /// It reported a read failure.
    Failed,
}

/// What the callback hands the VM for one pull.
#[derive(Clone, Copy, Debug, PartialEq, Eq, Structural)]
pub struct Pull {
    /// The size to store in the VM's size slot.
    pub size: usize,
    /// Whether to return a null pointer. If not, the callback returns the
    /// start of the buffer that the source lent.
    pub null: bool,
}

impl Pull {
    /// Whether the VM takes this answer for the end of the chunk: it does so
    /// for a null pointer and for a size of zero.
    pub open spec fn ends_chunk(self) -> bool {
        self.null || self.size == 0
    }
}

/// The mathematical model of a [`Reader`].
pub struct Bridge {
    /// The size of the piece that is lent to the VM, which the source has not
    /// yet been told is consumed.
    pub advance: nat,
    /// Whether the source has reported a read failure.
    pub failed: bool,
}

impl Bridge {
    /// The reader at the start of a load: nothing lent, nothing failed.
    pub open spec fn fresh() -> Bridge {
        Bridge { advance: 0, failed: false }
    }

    /// The reader after the source's answer to one pull. A buffer becomes the
    /// piece that is lent out. A failure leaves nothing lent and is kept.
    pub open spec fn step(self, fill: Fill) -> Bridge {
        match fill {
            Fill::Ready(len) => Bridge { advance: len as nat, failed: self.failed },
            Fill::Failed => Bridge { advance: 0, failed: true },
        }
    }
}

/// What the VM is handed for the source's answer: the buffer with its size,
/// or a null pointer with size zero after a failure.
pub open spec fn report(fill: Fill) -> Pull {
    match fill {
        Fill::Ready(len) => Pull { size: len, null: false },
        Fill::Failed => Pull { size: 0, null: true },
    }
}

/// What the reader callback remembers between two pulls of one load.
#[derive(Debug)]
pub struct Reader {
    advance: usize,
    failed: bool,
}

impl View for Reader {
    type V = Bridge;

    closed spec fn view(&self) -> Bridge {
        Bridge { advance: self.advance as nat, failed: self.failed }
    }
}

impl Reader {
    /// A reader for a load that is about to start.
    pub fn new() -> (reader: Reader)
        ensures
            reader@ == Bridge::fresh(),
    {
        Reader { advance: 0, failed: false }
    }

    /// The number of bytes that the source must be told are consumed before
    /// it is asked for its buffer again: the size of the piece lent out at
    /// the previous pull. `None` if nothing is lent, in which case the source
    /// is not told anything.
    pub fn pending(&self) -> (consume: Option<usize>)
        ensures
            self@.advance == 0 ==> consume is None,
            self@.advance > 0 ==> consume == Some(self@.advance as usize),
    {
        if self.advance > 0 {
            Some(self.advance)
        } else {
            None
        }
    }

    /// Takes the source's answer to this pull and says what to hand the VM.
    ///
    /// A buffer is lent to the VM as it is, with its size, and an empty one
    /// tells the VM that the chunk has ended. A failure is remembered, and
    /// the VM is handed a null pointer with size zero, so that it reads
    /// nothing and stops. The VM cannot tell the two ends apart: only the
    /// reader knows of the failure.
    pub fn filled(&mut self, fill: Fill) -> (pull: Pull)
        ensures
            final(self)@ == old(self)@.step(fill),
            pull == report(fill),
            pull.null ==> pull.size == 0,
            pull.ends_chunk() <==> fill is Failed || fill == Fill::Ready(0),
    {
        match fill {
            Fill::Ready(len) => {
                self.advance = len;
                Pull { size: len, null: false }
            },
            Fill::Failed => {
                self.advance = 0;
                self.failed = true;
                Pull { size: 0, null: true }
            },
        }
    }

    /// The size of the piece that is lent to the VM at the moment.
    pub fn advance(&self) -> (advance: usize)
        ensures
            advance == self@.advance,
    {
        self.advance
    }

    /// Whether the source has reported a read failure during this load.
    pub fn failed(&self) -> (failed: bool)
        ensures
            failed == self@.failed,
    {
        self.failed
    }
}

/// The reader after the pulls of a load so far, given the source's answers
/// in the order in which they came.
pub open spec fn run(fills: Seq<Fill>) -> Bridge
    decreases fills.len(),
{
    if fills.len() == 0 {
        Bridge::fresh()
    } else {
        run(fills.drop_last()).step(fills.last())
    }
}

/// The number of bytes that the VM has been handed over these pulls.
pub open spec fn lent(fills: Seq<Fill>) -> nat
    decreases fills.len(),
{
    if fills.len() == 0 {
        0
    } else {
        lent(fills.drop_last()) + report(fills.last()).size as nat
    }
}

/// The number of bytes that the source has been told are consumed over these
/// pulls: at each pull, what was pending from the one before.
pub open spec fn consumed(fills: Seq<Fill>) -> nat
    decreases fills.len(),
{
    if fills.len() == 0 {
        0
    } else {
        consumed(fills.drop_last()) + run(fills.drop_last()).advance
    }
}

/// The bytes that the VM has seen over these pulls, put together, if the
/// source reads `data` and lends, at each pull, bytes that follow those it
/// has been told are consumed.
pub open spec fn streamed(data: Seq<u8>, fills: Seq<Fill>) -> Seq<u8>
    decreases fills.len(),
{
    if fills.len() == 0 {
        Seq::empty()
    } else {
        streamed(data, fills.drop_last()) + data.subrange(
            consumed(fills) as int,
            consumed(fills) + report(fills.last()).size,
        )
    }
}

/// A read failure is never forgotten: after any pulls, the reader has failed
/// exactly if one of the source's answers was a failure.
pub proof fn lemma_failure_is_kept(fills: Seq<Fill>)
    ensures
        run(fills).failed <==> exists|i: int| 0 <= i < fills.len() && fills[i] is Failed,
    decreases fills.len(),
{
    if fills.len() > 0 {
        let before = fills.drop_last();
        lemma_failure_is_kept(before);
        if run(before).failed {
            let i: int = choose|i: int| 0 <= i < before.len() && before[i] is Failed;
            assert(fills[i] is Failed);
        } else if fills.last() is Failed {
            assert(fills[fills.len() - 1] is Failed);
        } else {
            assert forall|i: int| 0 <= i < fills.len() implies !(fills[i] is Failed) by {
                if i < before.len() {
                    assert(before[i] == fills[i]);
                }
            }
        }
    }
}

/// What is pending after a pull is the piece handed out at that pull, and
/// nothing is pending before the first.
pub proof fn lemma_pending_is_last_piece(fills: Seq<Fill>)
    ensures
        fills.len() == 0 ==> run(fills).advance == 0,
        fills.len() > 0 ==> run(fills).advance == report(fills.last()).size,
{
}

/// Every byte that the VM is handed is marked consumed exactly once, at the
/// pull that follows: what the source has been told to consume is what the VM
/// has been handed, less the piece that is lent out at the moment. So each
/// piece starts where the one before it ended.
pub proof fn lemma_lent_is_consumed_or_pending(fills: Seq<Fill>)
    ensures
        lent(fills) == consumed(fills) + run(fills).advance,
    decreases fills.len(),
{
    if fills.len() > 0 {
        lemma_lent_is_consumed_or_pending(fills.drop_last());
    }
}

/// The VM sees the source's bytes in order, with no gap and none twice: as
/// long as the source lends no more than it has, the pieces put together are
/// the start of `data`, as long as all that was lent.
pub proof fn lemma_streamed_is_the_source(data: Seq<u8>, fills: Seq<Fill>)
    requires
        lent(fills) <= data.len(),
    ensures
        streamed(data, fills) == data.subrange(0, lent(fills) as int),
    decreases fills.len(),
{
    if fills.len() > 0 {
        let before = fills.drop_last();
        lemma_streamed_is_the_source(data, before);
        lemma_lent_is_consumed_or_pending(before);
        assert(consumed(fills) == lent(before));
    }
}

} // verus!
