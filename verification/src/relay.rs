//! The relay engine's decision core. A session runs two pumps, one per
//! direction (stdin to endpoint, endpoint to stdout). Each pump repeats a
//! blocking read and reacts to its outcome; the session ends only when
//! both pumps have stopped. The blocking calls themselves happen outside
//! the library; everything decided about their outcomes is here.

use vstd::prelude::*;

verus! {

/// The outcome of one blocking read on a pump's source: a non-empty chunk
/// of bytes, end of stream (a zero-byte read), or a read error.
#[derive(Clone, Debug, PartialEq, Eq)]
pub enum ReadEvent {
    /// The read produced `n > 0` bytes; the payload is exactly those bytes.
    Chunk(Vec<u8>),
    /// The read returned zero bytes: end of stream.
    End,
    /// The read failed.
    Failed,
}

/// What a pump does in reaction to one read outcome.
#[derive(Clone, Debug, PartialEq, Eq)]
pub enum PumpAction {
    /// Write exactly these bytes downstream (and flush, on the stdout side).
    Forward(Vec<u8>),
    /// Leave the pump loop; this direction is finished.
    Stop,
}

/// The first `n` bytes of `buffer`: the exact chunk that one read call
/// filled, and nothing of what an earlier read left behind it.
pub fn chunk_of(buffer: &[u8], n: usize) -> (chunk: Vec<u8>)
    requires
        n <= buffer@.len(),
    ensures
        chunk@ == buffer@.subrange(0, n as int),
{
    let mut chunk: Vec<u8> = Vec::new();
    let mut i: usize = 0;
    while i < n
        invariant
            i <= n,
            n <= buffer@.len(),
            chunk@ == buffer@.subrange(0, i as int),
        decreases n - i,
    {
        chunk.push(buffer[i]);
        i = i + 1;
        proof {
            assert(chunk@ =~= buffer@.subrange(0, i as int));
        }
    }
    chunk
}

/// One decision of a relay pump: a chunk is forwarded unchanged, end of
/// stream and read errors both stop the pump. No other action exists: a
/// pump never drops, reorders or rewrites bytes, and a mid-session error
/// ends only this direction, silently.
pub fn pump_step(event: ReadEvent) -> (action: PumpAction)
    ensures
        action == (match event {
            ReadEvent::Chunk(data) => PumpAction::Forward(data),
            ReadEvent::End => PumpAction::Stop,
            ReadEvent::Failed => PumpAction::Stop,
        }),
{
    match event {
        ReadEvent::Chunk(data) => PumpAction::Forward(data),
        ReadEvent::End => PumpAction::Stop,
        ReadEvent::Failed => PumpAction::Stop,
    }
}

/// The bytes a pump writes downstream when its reads produce `events` in
/// order: the payloads of the chunks before the first end or error,
/// concatenated in arrival order. Nothing after the first terminal event
/// is read, because the pump has left its loop.
pub open spec fn delivered(events: Seq<ReadEvent>) -> Seq<u8>
    decreases events.len(),
{
    if events.len() == 0 {
        Seq::empty()
    } else {
        match events[0] {
            ReadEvent::Chunk(data) => data@ + delivered(events.skip(1)),
            ReadEvent::End => Seq::empty(),
            ReadEvent::Failed => Seq::empty(),
        }
    }
}

/// How many downstream writes a pump issues on `events`: exactly one per
/// chunk before the first end or error.
pub open spec fn writes_issued(events: Seq<ReadEvent>) -> nat
    decreases events.len(),
{
    if events.len() == 0 {
        0
    } else {
        match events[0] {
            ReadEvent::Chunk(data) => 1 + writes_issued(events.skip(1)),
            ReadEvent::End => 0,
            ReadEvent::Failed => 0,
        }
    }
}

/// Runs one whole pump direction over a recorded sequence of read
/// outcomes: the loop of the relay engine with the blocking reads and
/// writes abstracted into `events`. Returns the bytes written downstream,
/// in order, and the number of writes issued.
pub fn pump_all(events: &Vec<ReadEvent>) -> (r: (Vec<u8>, usize))
    ensures
        r.0@ == delivered(events@),
        r.1 == writes_issued(events@),
{
    let mut out: Vec<u8> = Vec::new();
    let mut writes: usize = 0;
    let mut i: usize = 0;
    let mut running = true;
    proof {
        assert(events@.skip(0) =~= events@);
    }
    while i < events.len()
        invariant
            i <= events@.len(),
            writes <= i,
            delivered(events@) == out@ + (if running {
                delivered(events@.skip(i as int))
            } else {
                Seq::<u8>::empty()
            }),
            writes_issued(events@) == writes + (if running {
                writes_issued(events@.skip(i as int))
            } else {
                0nat
            }),
        decreases events@.len() - i,
    {
        if running {
            proof {
                assert(events@.skip(i as int)[0] == events@[i as int]);
            }
            match &events[i] {
                ReadEvent::Chunk(data) => {
                    proof {
                        assert(events@.skip(i as int).skip(1) =~= events@.skip(i as int + 1));
                    }
                    let ghost prev = out@;
                    out.extend_from_slice(data.as_slice());
                    writes = writes + 1;
                    proof {
                        assert(out@ =~= prev + data@);
                    }
                }
                ReadEvent::End => {
                    running = false;
                }
                ReadEvent::Failed => {
                    running = false;
                }
            }
        }
        i = i + 1;
    }
    proof {
        if running {
            assert(events@.skip(i as int) =~= Seq::<ReadEvent>::empty());
        }
    }
    (out, writes)
}

/// The payloads of the chunk events of `events`, concatenated in order.
pub open spec fn concat_chunks(events: Seq<ReadEvent>) -> Seq<u8>
    decreases events.len(),
{
    if events.len() == 0 {
        Seq::empty()
    } else {
        (match events[0] {
            ReadEvent::Chunk(data) => data@,
            ReadEvent::End => Seq::empty(),
            ReadEvent::Failed => Seq::empty(),
        }) + concat_chunks(events.skip(1))
    }
}

/// Everything read before the stream ends is delivered exactly: a pump
/// whose reads produce some chunks and then a terminal event writes the
/// chunk payloads downstream in order, complete, with no duplication and
/// no reordering, one write per chunk. This is the per-direction relay
/// guarantee, for the stdin-to-peer pump and the peer-to-stdout pump
/// alike.
pub proof fn lemma_pump_delivers_all_input(events: Seq<ReadEvent>)
    requires
        events.len() > 0,
        !(events.last() is Chunk),
        forall|i: int| 0 <= i < events.len() - 1 ==> events[i] is Chunk,
    ensures
        delivered(events) == concat_chunks(events.take(events.len() - 1)),
        writes_issued(events) == events.len() - 1,
    decreases events.len(),
{
    if events.len() == 1 {
        assert(events.take(0) =~= Seq::<ReadEvent>::empty());
    } else {
        let rest = events.skip(1);
        assert(events[0] is Chunk);
        assert(rest.last() == events.last());
        assert(forall|i: int| 0 <= i < rest.len() - 1 ==> rest[i] == events[i + 1]);
        lemma_pump_delivers_all_input(rest);
        let head = events.take(events.len() - 1);
        assert(head[0] == events[0]);
        assert(head.skip(1) =~= rest.take(rest.len() - 1));
        assert(delivered(events) =~= concat_chunks(head));
    }
}

/// An immediate end of input stops the pump before any write: a pump
/// whose very first read reports end-of-stream or an error delivers
/// nothing and never issues a downstream write.
pub proof fn lemma_immediate_end_writes_nothing(events: Seq<ReadEvent>)
    requires
        events.len() > 0,
        !(events[0] is Chunk),
    ensures
        delivered(events) == Seq::<u8>::empty(),
        writes_issued(events) == 0,
{
}

/// Which of a session's two pump directions have stopped. The session
/// owns exactly two pumps; neither is ever cancelled, each runs to its
/// own natural end.
#[derive(Clone, Copy, Debug, PartialEq, Eq, Structural)]
pub struct SessionProgress {
    /// The stdin-to-endpoint pump has left its loop.
    pub input_stopped: bool,
    /// The endpoint-to-stdout pump has left its loop.
    pub output_stopped: bool,
}

/// The whole-session lifecycle: both pumps running, exactly one stopped,
/// both stopped. The process exits only from the last state.
#[derive(Clone, Copy, Debug, PartialEq, Eq, Structural)]
pub enum SessionState {
    BothRunning,
    OneStopped,
    BothStopped,
}

/// The lifecycle state that a progress record is in.
pub open spec fn session_state(p: SessionProgress) -> SessionState {
    if p.input_stopped && p.output_stopped {
        SessionState::BothStopped
    } else if p.input_stopped || p.output_stopped {
        SessionState::OneStopped
    } else {
        SessionState::BothRunning
    }
}

impl SessionProgress {
    /// A fresh session: both pumps still running.
    pub fn new() -> (p: SessionProgress)
        ensures
            !p.input_stopped,
            !p.output_stopped,
            session_state(p) is BothRunning,
    {
        SessionProgress { input_stopped: false, output_stopped: false }
    }

    /// Records that the stdin-to-endpoint pump finished. The other
    /// direction is untouched: it keeps delivering inbound bytes until
    /// its own end of stream or error.
    pub fn note_input_stopped(&mut self)
        ensures
            final(self).input_stopped,
            final(self).output_stopped == old(self).output_stopped,
    {
        self.input_stopped = true;
    }

    /// Records that the endpoint-to-stdout pump finished. The other
    /// direction is untouched.
    pub fn note_output_stopped(&mut self)
        ensures
            final(self).output_stopped,
            final(self).input_stopped == old(self).input_stopped,
    {
        self.output_stopped = true;
    }

    /// Whether the process may exit: exactly when both directions have
    /// stopped, whichever stopped first.
    pub fn may_exit(&self) -> (b: bool)
        ensures
            b == (session_state(*self) is BothStopped),
    {
        self.input_stopped && self.output_stopped
    }
}

/// The session exits only after both pumps have stopped, in either
/// order: the lifecycle reaches `BothStopped` exactly when both
/// directions are done, and as long as neither has stopped it is still
/// `BothRunning`.
pub proof fn lemma_exit_needs_both(p: SessionProgress)
    ensures
        (session_state(p) is BothStopped) <==> (p.input_stopped && p.output_stopped),
        (session_state(p) is BothRunning) <==> (!p.input_stopped && !p.output_stopped),
{
}

} // verus!
