use vstd::prelude::*;

verus! {

/// The line terminator byte.
pub const LINE_FEED: u8 = 10;

/// The carriage-return byte, stripped when it ends a terminated line.
pub const CARRIAGE_RETURN: u8 = 13;

/// A terminated line with one trailing carriage return removed. This is the
/// decoder's documented choice for `\r\n` sources: the terminator and an
/// immediately preceding carriage return both belong to the framing, not to
/// the line.
pub open spec fn strip_trailing_cr(line: Seq<u8>) -> Seq<u8> {
    if line.len() > 0 && line[line.len() - 1] == CARRIAGE_RETURN {
        line.drop_last()
    } else {
        line
    }
}

/// One byte advances the decoder state: a line feed completes the pending
/// bytes as one line, any other byte extends them.
pub open spec fn feed_byte(lines: Seq<Seq<u8>>, pending: Seq<u8>, byte: u8) -> (
    Seq<Seq<u8>>,
    Seq<u8>,
) {
    if byte == LINE_FEED {
        (lines.push(strip_trailing_cr(pending)), Seq::<u8>::empty())
    } else {
        (lines, pending.push(byte))
    }
}

/// The decoder state after consuming a whole byte sequence, front to back.
pub open spec fn feed_bytes(lines: Seq<Seq<u8>>, pending: Seq<u8>, bytes: Seq<u8>) -> (
    Seq<Seq<u8>>,
    Seq<u8>,
)
    decreases bytes.len(),
{
    if bytes.len() == 0 {
        (lines, pending)
    } else {
        let stepped = feed_byte(lines, pending, bytes[0]);
        feed_bytes(stepped.0, stepped.1, bytes.drop_first())
    }
}

/// Chunk boundaries do not matter: feeding a byte stream in two pieces
/// yields exactly the lines and leftover of feeding it whole. A source may
/// therefore hand the decoder data in chunks of arbitrary size without
/// changing what is decoded.
pub proof fn lemma_feed_bytes_append(
    lines: Seq<Seq<u8>>,
    pending: Seq<u8>,
    left: Seq<u8>,
    right: Seq<u8>,
)
    ensures
        feed_bytes(lines, pending, left + right) == ({
            let mid = feed_bytes(lines, pending, left);
            feed_bytes(mid.0, mid.1, right)
        }),
    decreases left.len(),
{
    if left.len() == 0 {
        assert(left + right =~= right);
    } else {
        let stepped = feed_byte(lines, pending, left[0]);
        assert((left + right)[0] == left[0]);
        assert((left + right).drop_first() =~= left.drop_first() + right);
        lemma_feed_bytes_append(stepped.0, stepped.1, left.drop_first(), right);
    }
}

/// Consuming one more byte is one more decoder step.
pub proof fn lemma_feed_bytes_snoc(
    lines: Seq<Seq<u8>>,
    pending: Seq<u8>,
    bytes: Seq<u8>,
    byte: u8,
)
    ensures
        feed_bytes(lines, pending, bytes.push(byte)) == ({
            let mid = feed_bytes(lines, pending, bytes);
            feed_byte(mid.0, mid.1, byte)
        }),
{
    assert(bytes.push(byte) =~= bytes + seq![byte]);
    lemma_feed_bytes_append(lines, pending, bytes, seq![byte]);
    let mid = feed_bytes(lines, pending, bytes);
    let single = seq![byte];
    let stepped = feed_byte(mid.0, mid.1, single[0]);
    assert(single.drop_first() =~= Seq::<u8>::empty());
    assert(feed_bytes(stepped.0, stepped.1, single.drop_first()) == (stepped.0, stepped.1));
}

/// The decoder never revises lines it has already produced: earlier output
/// stands as a prefix, so each source's own order is preserved end to end.
pub proof fn lemma_feed_bytes_extends(lines: Seq<Seq<u8>>, pending: Seq<u8>, bytes: Seq<u8>)
    ensures
        feed_bytes(lines, pending, bytes).0 == lines + feed_bytes(
            Seq::<Seq<u8>>::empty(),
            pending,
            bytes,
        ).0,
    decreases bytes.len(),
{
    if bytes.len() == 0 {
        assert(feed_bytes(lines, pending, bytes).0 =~= lines + feed_bytes(
            Seq::<Seq<u8>>::empty(),
            pending,
            bytes,
        ).0);
    } else {
        let stepped = feed_byte(lines, pending, bytes[0]);
        let stepped0 = feed_byte(Seq::<Seq<u8>>::empty(), pending, bytes[0]);
        lemma_feed_bytes_extends(stepped.0, stepped.1, bytes.drop_first());
        lemma_feed_bytes_extends(stepped0.0, stepped0.1, bytes.drop_first());
        assert(stepped.1 == stepped0.1);
        assert(stepped.0 =~= lines + stepped0.0);
        assert(lines + stepped0.0 + feed_bytes(
            Seq::<Seq<u8>>::empty(),
            stepped0.1,
            bytes.drop_first(),
        ).0 =~= lines + (stepped0.0 + feed_bytes(
            Seq::<Seq<u8>>::empty(),
            stepped0.1,
            bytes.drop_first(),
        ).0));
    }
}

/// Turns a raw sequential byte source into decoded text lines: bytes are
/// buffered until a terminator is discovered, and each completed line is
/// handed out exactly once, in order. The view is the undecoded pending
/// tail.
pub struct LineBuffer {
    pending: Vec<u8>,
}

impl View for LineBuffer {
    type V = Seq<u8>;

    closed spec fn view(&self) -> Seq<u8> {
        self.pending@
    }
}

impl LineBuffer {
    pub fn new() -> (buffer: LineBuffer)
        ensures
            buffer@ == Seq::<u8>::empty(),
    {
        LineBuffer { pending: Vec::new() }
    }

    /// Feeds one chunk, of arbitrary size, and returns every line it
    /// completed; bytes after the last terminator stay pending.
    pub fn feed(&mut self, chunk: &[u8]) -> (lines: Vec<Vec<u8>>)
        ensures
            lines.deep_view() == feed_bytes(Seq::<Seq<u8>>::empty(), old(self)@, chunk@).0,
            final(self)@ == feed_bytes(Seq::<Seq<u8>>::empty(), old(self)@, chunk@).1,
    {
        let mut lines: Vec<Vec<u8>> = Vec::new();
        let mut i: usize = 0;
        proof {
            assert(chunk@.take(0) =~= Seq::<u8>::empty());
        }
        while i < chunk.len()
            invariant
                i <= chunk.len(),
                lines.deep_view() == feed_bytes(
                    Seq::<Seq<u8>>::empty(),
                    old(self)@,
                    chunk@.take(i as int),
                ).0,
                self@ == feed_bytes(Seq::<Seq<u8>>::empty(), old(self)@, chunk@.take(i as int)).1,
            decreases chunk.len() - i,
        {
            let ghost prefix = chunk@.take(i as int);
            let ghost pre_lines = lines.deep_view();
            let ghost pre_pending = self@;
            let byte = chunk[i];
            if byte == LINE_FEED {
                let pending_len = self.pending.len();
                if pending_len > 0 && self.pending[pending_len - 1] == CARRIAGE_RETURN {
                    self.pending.pop();
                }
                proof {
                    assert(self@ =~= strip_trailing_cr(pre_pending));
                }
                let mut line: Vec<u8> = Vec::new();
                core::mem::swap(&mut line, &mut self.pending);
                lines.push(line);
                proof {
                    assert(line.deep_view() =~= line@);
                    assert(lines.deep_view() =~= pre_lines.push(line.deep_view()));
                    assert(self@ =~= Seq::<u8>::empty());
                }
            } else {
                self.pending.push(byte);
                proof {
                    assert(self@ =~= pre_pending.push(byte));
                }
            }
            i = i + 1;
            proof {
                assert(chunk@.take(i as int) =~= prefix.push(byte));
                lemma_feed_bytes_snoc(Seq::<Seq<u8>>::empty(), old(self)@, prefix, byte);
                assert(lines.deep_view() == feed_bytes(
                    Seq::<Seq<u8>>::empty(),
                    old(self)@,
                    chunk@.take(i as int),
                ).0);
            }
        }
        proof {
            assert(chunk@.take(chunk@.len() as int) =~= chunk@);
        }
        lines
    }

    /// Ends the source: any undecoded trailing bytes with no terminator are
    /// handed out unchanged as one last line, matching the end-of-sequence
    /// behaviour of the underlying line-reading primitive.
    pub fn finish(&mut self) -> (tail: Option<Vec<u8>>)
        ensures
            final(self)@ == Seq::<u8>::empty(),
            old(self)@.len() == 0 ==> tail is None,
            old(self)@.len() > 0 ==> (tail matches Some(t) && t@ == old(self)@),
    {
        if self.pending.len() == 0 {
            None
        } else {
            let mut line: Vec<u8> = Vec::new();
            core::mem::swap(&mut line, &mut self.pending);
            Some(line)
        }
    }
}

} // verus!
