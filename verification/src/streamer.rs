//! Live output streaming for a detached worker: raw bytes read from one
//! output channel are split into lines, and each complete line becomes a
//! log event with a per-channel sequence number.
//!
//! The two channels of a process are read by independent readers, so
//! ordering is preserved within a channel only; consumers must not
//! assume any interleaving between stdout and stderr events.

use vstd::prelude::*;
use vstd::string::StringExecFns;

verus! {

/// Which output channel of the worker an event came from.
#[derive(Clone, Copy, Debug, PartialEq, Eq, Structural)]
pub enum StreamKind {
    Stdout,
    Stderr,
}

/// One complete line of worker output.  `sequence` increases strictly
/// with each event of the same channel.
#[derive(Debug)]
pub struct LogEvent {
    pub stream: StreamKind,
    pub text: String,
    pub sequence: u64,
}

/// A line with a trailing carriage return loses it, so that CRLF and LF
/// endings read the same.
pub open spec fn strip_cr(line: Seq<u8>) -> Seq<u8> {
    if line.len() > 0 && line.last() == 13 {
        line.drop_last()
    } else {
        line
    }
}

/// The complete lines delivered when `chunk` arrives while `cur` is the
/// partial line carried over: every newline ends a line made of the
/// carried bytes and the chunk bytes before it.
pub open spec fn spec_lines_delivered(chunk: Seq<u8>, cur: Seq<u8>) -> Seq<Seq<u8>>
    decreases chunk.len(),
{
    if chunk.len() == 0 {
        seq![]
    } else if chunk[0] == 10 {
        seq![strip_cr(cur)] + spec_lines_delivered(chunk.skip(1), seq![])
    } else {
        spec_lines_delivered(chunk.skip(1), cur.push(chunk[0]))
    }
}

/// The partial line carried over after `chunk` arrived while `cur` was
/// carried over before.
pub open spec fn spec_pending_after(chunk: Seq<u8>, cur: Seq<u8>) -> Seq<u8>
    decreases chunk.len(),
{
    if chunk.len() == 0 {
        cur
    } else if chunk[0] == 10 {
        spec_pending_after(chunk.skip(1), seq![])
    } else {
        spec_pending_after(chunk.skip(1), cur.push(chunk[0]))
    }
}

/// Reading a stream in two chunks delivers exactly the lines of reading
/// it in one: no line is lost or reordered at a chunk boundary.
pub proof fn lemma_chunked_reading_loses_nothing(a: Seq<u8>, b: Seq<u8>, cur: Seq<u8>)
    ensures
        spec_lines_delivered(a + b, cur) =~= spec_lines_delivered(a, cur)
            + spec_lines_delivered(b, spec_pending_after(a, cur)),
        spec_pending_after(a + b, cur) =~= spec_pending_after(b, spec_pending_after(a, cur)),
    decreases a.len(),
{
    if a.len() == 0 {
        assert(a + b =~= b);
    } else {
        assert((a + b).skip(1) =~= a.skip(1) + b);
        if a[0] == 10 {
            lemma_chunked_reading_loses_nothing(a.skip(1), b, seq![]);
        } else {
            lemma_chunked_reading_loses_nothing(a.skip(1), b, cur.push(a[0]));
        }
    }
}

/// Splits one output channel's byte stream into lines, across chunk
/// boundaries.
pub struct LineSplitter {
    pending: Vec<u8>,
}

impl View for LineSplitter {
    type V = Seq<u8>;

    closed spec fn view(&self) -> Seq<u8> {
        self.pending@
    }
}

fn strip_cr_owned(line: Vec<u8>) -> (r: Vec<u8>)
    ensures
        r@ == strip_cr(line@),
{
    let mut line = line;
    let n: usize = line.len();
    if n > 0 && line[n - 1] == 13 {
        line.pop();
    }
    line
}

impl LineSplitter {
    /// A splitter with no bytes carried over.
    pub fn new() -> (r: LineSplitter)
        ensures
            r@ == Seq::<u8>::empty(),
    {
        LineSplitter { pending: Vec::new() }
    }

    /// Takes the next chunk read from the channel and delivers the
    /// complete lines it closes, carrying any trailing partial line
    /// over to the next chunk.
    pub fn feed(&mut self, chunk: &[u8]) -> (lines: Vec<Vec<u8>>)
        ensures
            lines.deep_view() == spec_lines_delivered(chunk@, old(self)@),
            final (self)@ == spec_pending_after(chunk@, old(self)@),
    {
        let ghost cur0: Seq<u8> = self.pending@;
        let mut lines: Vec<Vec<u8>> = Vec::new();
        let n: usize = chunk.len();
        let mut i: usize = 0;
        proof {
            assert(chunk@.skip(0) =~= chunk@);
            assert(lines.deep_view() =~= Seq::<Seq<u8>>::empty());
            assert(lines.deep_view() + spec_lines_delivered(chunk@, cur0)
                =~~= spec_lines_delivered(chunk@, cur0));
        }
        while i < n
            invariant
                n == chunk@.len(),
                0 <= i <= n,
                spec_lines_delivered(chunk@, cur0) =~~= lines.deep_view()
                    + spec_lines_delivered(chunk@.skip(i as int), self.pending@),
                spec_pending_after(chunk@, cur0) == spec_pending_after(
                    chunk@.skip(i as int),
                    self.pending@,
                ),
            decreases n - i,
        {
            let ghost rest: Seq<u8> = chunk@.skip(i as int);
            let ghost p: Seq<u8> = self.pending@;
            let ghost lv: Seq<Seq<u8>> = lines.deep_view();
            let b: u8 = chunk[i];
            proof {
                assert(rest[0] == b);
                assert(rest.skip(1) =~= chunk@.skip(i + 1));
            }
            if b == 10 {
                let closed_line = self.pending.clone();
                self.pending.clear();
                let stripped = strip_cr_owned(closed_line);
                lines.push(stripped);
                proof {
                    assert(lines.deep_view() =~~= lv.push(strip_cr(p)));
                    assert(spec_lines_delivered(rest, p) =~= seq![strip_cr(p)]
                        + spec_lines_delivered(rest.skip(1), Seq::<u8>::empty()));
                    assert(lv.push(strip_cr(p)) + spec_lines_delivered(
                        rest.skip(1),
                        Seq::<u8>::empty(),
                    ) =~~= lv + spec_lines_delivered(rest, p));
                    assert(self.pending@ =~= Seq::<u8>::empty());
                }
            } else {
                self.pending.push(b);
                proof {
                    assert(self.pending@ =~= p.push(b));
                    assert(spec_lines_delivered(rest, p) == spec_lines_delivered(
                        rest.skip(1),
                        p.push(b),
                    ));
                    assert(spec_pending_after(rest, p) == spec_pending_after(
                        rest.skip(1),
                        p.push(b),
                    ));
                }
            }
            proof {
                assert(spec_lines_delivered(chunk@, cur0) =~~= lines.deep_view()
                    + spec_lines_delivered(chunk@.skip(i + 1), self.pending@));
            }
            i = i + 1;
        }
        proof {
            assert(chunk@.skip(n as int) =~= Seq::<u8>::empty());
            assert(lines.deep_view() =~~= spec_lines_delivered(chunk@, cur0));
        }
        lines
    }

    /// Hands out the unterminated final line once the channel reached
    /// end-of-stream, leaving the splitter empty.
    pub fn take_pending(&mut self) -> (r: Option<Vec<u8>>)
        ensures
            final (self)@ == Seq::<u8>::empty(),
            match r {
                Some(line) => line@ == old(self)@ && old(self)@.len() > 0,
                None => old(self)@.len() == 0,
            },
    {
        if self.pending.len() == 0 {
            return None;
        }
        let line = self.pending.clone();
        self.pending.clear();
        Some(line)
    }
}

/// Assigns the per-channel sequence numbers of one output channel's
/// events.
pub struct ChannelStreamer {
    pub stream: StreamKind,
    pub next_sequence: u64,
}

impl ChannelStreamer {
    /// A streamer for one channel, starting at sequence zero.
    pub fn new(stream: StreamKind) -> (r: ChannelStreamer)
        ensures
            r.stream == stream,
            r.next_sequence == 0,
    {
        ChannelStreamer { stream, next_sequence: 0 }
    }

    /// Wraps one complete line as the channel's next event.
    pub fn make_event(&mut self, text: String) -> (e: LogEvent)
        requires
            old(self).next_sequence < u64::MAX,
        ensures
            e.stream == old(self).stream,
            e.text == text,
            e.sequence == old(self).next_sequence,
            final (self).stream == old(self).stream,
            final (self).next_sequence == old(self).next_sequence + 1,
    {
        let e = LogEvent { stream: self.stream, text, sequence: self.next_sequence };
        self.next_sequence = self.next_sequence + 1;
        e
    }
}

/// Ordering within a channel is preserved: of two events drawn in turn
/// from the same streamer, the earlier carries the smaller sequence
/// number.
pub proof fn lemma_per_channel_order(
    s0: ChannelStreamer,
    s1: ChannelStreamer,
    e1: LogEvent,
    e2: LogEvent,
)
    requires
        e1.sequence == s0.next_sequence,
        s1.next_sequence == s0.next_sequence + 1,
        e2.sequence == s1.next_sequence,
    ensures
        e1.sequence < e2.sequence,
{
}

/// The payload published to the observing shell for one event:
/// `"stdout: <line>"` or `"stderr: <line>"`, by the event's channel.
pub open spec fn spec_event_payload(stream: StreamKind, text: Seq<char>) -> Seq<char> {
    match stream {
        StreamKind::Stdout => "stdout: "@ + text,
        StreamKind::Stderr => "stderr: "@ + text,
    }
}

/// Renders the payload published for `e`.
pub fn format_event_payload(e: &LogEvent) -> (r: String)
    ensures
        r@ == spec_event_payload(e.stream, e.text@),
{
    match e.stream {
        StreamKind::Stdout => String::from_str("stdout: ").concat(e.text.as_str()),
        StreamKind::Stderr => String::from_str("stderr: ").concat(e.text.as_str()),
    }
}

} // verus!
