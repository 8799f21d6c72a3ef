use vstd::prelude::*;

verus! {

/// Interval between two polls of the serial line, in milliseconds.
pub const POLL_INTERVAL_MS: u64 = 10;

/// Size of the buffer that one read fills at most, in bytes.
pub const READ_BUF_LEN: usize = 128;

/// What one attempt to read the serial line gave.
#[derive(Clone, Copy, Debug, PartialEq, Eq, Structural)]
pub enum ReadOutcome {
    /// No data was ready, or the readiness query failed.
    NotReady,
    /// The read itself failed.
    Failed,
    /// The read succeeded with this many bytes, placed at the start of the buffer.
    Received(usize),
}

/// What the ingest loop does next.
#[derive(Clone, Copy, Debug, PartialEq, Eq, Structural)]
pub enum IngestAction {
    /// Release the line and wait for the next tick.
    WaitForTick,
    /// Publish the first `len` bytes of the buffer tagged with `seq`.
    Publish { seq: u16, len: usize },
    /// Take the line again and read once more within the same tick.
    ReadAgain,
}

/// The sequence number that follows `seq`, wrapping from 65535 to 0.
pub open spec fn next_seq(seq: u16) -> u16 {
    ((seq + 1) % 0x1_0000) as u16
}

/// One transition on a read outcome: the new counter and the action.
pub open spec fn read_step(seq: u16, outcome: ReadOutcome) -> (u16, IngestAction) {
    match outcome {
        ReadOutcome::Received(n) if n > 0 => (
            next_seq(seq),
            IngestAction::Publish { seq: next_seq(seq), len: n },
        ),
        _ => (seq, IngestAction::WaitForTick),
    }
}

/// The counter after a run of read outcomes, published or not.
pub open spec fn seq_after(seq: u16, outcomes: Seq<ReadOutcome>) -> u16
    decreases outcomes.len(),
{
    if outcomes.len() == 0 {
        seq
    } else {
        seq_after(read_step(seq, outcomes[0]).0, outcomes.drop_first())
    }
}

/// The sequence numbers of the frames published over a run of read outcomes, in order.
pub open spec fn published_seqs(seq: u16, outcomes: Seq<ReadOutcome>) -> Seq<u16>
    decreases outcomes.len(),
{
    if outcomes.len() == 0 {
        seq![]
    } else {
        let (s2, a) = read_step(seq, outcomes[0]);
        let head: Seq<u16> = match a {
            IngestAction::Publish { seq: p, len: _ } => seq![p],
            _ => seq![],
        };
        head + published_seqs(s2, outcomes.drop_first())
    }
}

/// State of the serial ingest task: the sequence number of the last published frame.
pub struct SerialIngest {
    pub seq_no: u16,
}

impl SerialIngest {
    /// A fresh ingest state; the first frame gets sequence number 1.
    pub fn new() -> (s: SerialIngest)
        ensures
            s.seq_no == 0,
    {
        SerialIngest { seq_no: 0 }
    }

    /// The sequence number of the last published frame (0 before any).
    pub fn seq_no(&self) -> (r: u16)
        ensures
            r == self.seq_no,
    {
        self.seq_no
    }

    /// Decides on the outcome of one read: a non-empty chunk takes the next sequence number
    /// and is published; not ready, a failed read and an empty read all wait for the next tick
    /// and leave the counter as it was.
    pub fn on_read(&mut self, outcome: ReadOutcome) -> (a: IngestAction)
        requires
            outcome matches ReadOutcome::Received(n) ==> n <= READ_BUF_LEN,
        ensures
            (final(self).seq_no, a) == read_step(old(self).seq_no, outcome),
    {
        match outcome {
            ReadOutcome::Received(n) => {
                if n == 0 {
                    IngestAction::WaitForTick
                } else {
                    self.seq_no = self.seq_no.wrapping_add(1);
                    IngestAction::Publish { seq: self.seq_no, len: n }
                }
            },
            _ => IngestAction::WaitForTick,
        }
    }

    /// Decides after a publish, whether or not it was delivered: the frame is never retried,
    /// nothing fails, and the loop reads again in the same tick.
    pub fn on_published(&self, _delivered: bool) -> (a: IngestAction)
        ensures
            a == IngestAction::ReadAgain,
    {
        IngestAction::ReadAgain
    }
}

/// The frame of a read: exactly the `len` bytes that it placed at the start of the buffer.
pub fn frame_data(buf: &[u8], len: usize) -> (data: &[u8])
    requires
        len <= buf@.len(),
    ensures
        data@ == buf@.subrange(0, len as int),
{
    buf.split_at(len).0
}

/// Over any run of read outcomes, with not-ready, failed and empty reads anywhere in it,
/// the published frames carry the sequence numbers that follow the starting one, one by one,
/// modulo 65536: no gap and no repeat; and the counter ends after the last of them.
pub proof fn lemma_published_seqs_consecutive(seq: u16, outcomes: Seq<ReadOutcome>)
    ensures
        forall|i: int|
            0 <= i < published_seqs(seq, outcomes).len() ==> #[trigger] published_seqs(
                seq,
                outcomes,
            )[i] == (seq + i + 1) % 0x1_0000,
        seq_after(seq, outcomes) == (seq + published_seqs(seq, outcomes).len()) % 0x1_0000,
    decreases outcomes.len(),
{
    if outcomes.len() > 0 {
        let (s2, a) = read_step(seq, outcomes[0]);
        let rest = outcomes.drop_first();
        lemma_published_seqs_consecutive(s2, rest);
        let tail = published_seqs(s2, rest);
        let all = published_seqs(seq, outcomes);
        match a {
            IngestAction::Publish { seq: p, len: _ } => {
                assert(s2 == next_seq(seq));
                assert(all == seq![p] + tail);
                assert forall|i: int| 0 <= i < all.len() implies #[trigger] all[i] == (seq + i
                    + 1) % 0x1_0000 by {
                    if i > 0 {
                        assert(all[i] == tail[i - 1]);
                        assert((s2 + (i - 1) + 1) % 0x1_0000 == (seq + i + 1) % 0x1_0000) by {
                            vstd::arithmetic::div_mod::lemma_add_mod_noop(seq + 1, i, 0x1_0000);
                            vstd::arithmetic::div_mod::lemma_mod_twice(seq + 1, 0x1_0000);
                            vstd::arithmetic::div_mod::lemma_add_mod_noop(
                                (seq + 1) % 0x1_0000,
                                i,
                                0x1_0000,
                            );
                        }
                    }
                }
                assert((s2 + tail.len()) % 0x1_0000 == (seq + all.len()) % 0x1_0000) by {
                    vstd::arithmetic::div_mod::lemma_add_mod_noop(seq + 1, tail.len() as int, 0x1_0000);
                    vstd::arithmetic::div_mod::lemma_mod_twice(seq + 1, 0x1_0000);
                    vstd::arithmetic::div_mod::lemma_add_mod_noop(
                        (seq + 1) % 0x1_0000,
                        tail.len() as int,
                        0x1_0000,
                    );
                }
            },
            _ => {
                assert(s2 == seq);
                assert(all =~= tail);
            },
        }
    }
}

/// A read of zero bytes publishes nothing and leaves the counter as it was.
pub proof fn lemma_empty_read_publishes_nothing(seq: u16)
    ensures
        read_step(seq, ReadOutcome::Received(0)) == (seq, IngestAction::WaitForTick),
{
}

} // verus!
