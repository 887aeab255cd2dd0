//! Socket channel: frame-oriented, ordered message exchange over one
//! connection.
//!
//! The channel owns the read-buffer state for a single bidirectional byte
//! stream. The caller performs the blocking reads and writes and hands the
//! channel what each read produced (a chunk of text, end of stream, or a read
//! failure); the channel decides whether a complete frame has arrived, whether
//! the peer vanished before or in the middle of a frame, and what the frame
//! decodes to. Frames are newline-terminated JSON text fragments, strictly
//! ordered: bytes are consumed from the front of the buffer only.
use vstd::prelude::*;
use vstd::string::StrSliceExecFns;
use vstd::string::StringExecFns;

use crate::codec;
use crate::codec::CodecError;
use crate::codec::json_parse_of;
use crate::codec::json_text_of;

verus! {

/// The index of the first newline character in `s`, if one occurs.
pub open spec fn newline_pos(s: Seq<char>) -> Option<int>
    decreases s.len(),
{
    if s.len() == 0 {
        None
    } else if s[0] == '\n' {
        Some(0int)
    } else {
        match newline_pos(s.drop_first()) {
            Some(i) => Some(i + 1),
            None => None,
        }
    }
}

/// `newline_pos` finds exactly the first newline: the character there is a
/// newline, everything before it is not, and a `None` means the whole
/// sequence is newline-free.
pub proof fn lemma_newline_pos(s: Seq<char>)
    ensures
        match newline_pos(s) {
            Some(i) => 0 <= i < s.len() && s[i] == '\n' && (forall|k: int|
                0 <= k < i ==> s[k] != '\n'),
            None => forall|k: int| 0 <= k < s.len() ==> s[k] != '\n',
        },
    decreases s.len(),
{
    if s.len() > 0 && s[0] != '\n' {
        let t = s.drop_first();
        lemma_newline_pos(t);
        match newline_pos(t) {
            Some(j) => {
                assert(s[j + 1] == t[j]);
                assert forall|k: int| 0 <= k < j + 1 implies s[k] != '\n' by {
                    if k > 0 {
                        assert(s[k] == t[k - 1]);
                    }
                }
            },
            None => {
                assert forall|k: int| 0 <= k < s.len() implies s[k] != '\n' by {
                    if k > 0 {
                        assert(s[k] == t[k - 1]);
                    }
                }
            },
        }
    }
}

/// A newline at `i` with none before it pins `newline_pos` to `i`.
pub proof fn lemma_newline_pos_at(s: Seq<char>, i: int)
    requires
        0 <= i < s.len(),
        s[i] == '\n',
        forall|k: int| 0 <= k < i ==> s[k] != '\n',
    ensures
        newline_pos(s) == Some(i),
{
    lemma_newline_pos(s);
    match newline_pos(s) {
        Some(j) => {
            if j < i {
                assert(s[j] != '\n');
            }
            if i < j {
                assert(s[i] != '\n');
            }
        },
        None => {
            assert(s[i] != '\n');
        },
    }
}

/// Everything that can go wrong on a channel. A decoding failure and a write
/// failure keep the offending text for diagnostics.
#[derive(Debug)]
pub enum ChannelError {
    /// The peer closed the stream before sending any byte of a frame.
    EmptyMessage,
    /// The peer closed the stream in the middle of a frame.
    TruncatedMessage,
    /// A complete frame arrived but its text was not a valid message.
    DecodingError { raw: String },
    /// The outgoing message could not be serialized.
    EncodingError { detail: String },
    /// The underlying write did not complete.
    WriteError { attempted: String },
    /// The underlying read itself failed.
    ReadError { detail: String },
}

/// What one blocking read of the underlying connection produced.
pub enum ReadEvent {
    /// The read returned this text.
    Chunk(String),
    /// The read observed end of stream.
    Eof,
    /// The read itself failed.
    Failed(String),
}

/// What one step of the receive loop decided.
#[derive(Debug)]
pub enum ReceiveStep {
    /// No complete frame is buffered yet; read again.
    NeedMore,
    /// A complete frame arrived and decoded to this message.
    Received(serde_json::Value),
    /// This connection's receive attempt is over.
    Fail(ChannelError),
}

/// The buffer contents after the channel absorbs an event: a chunk is
/// appended, anything else leaves the buffer as it stands.
pub open spec fn buffer_after_event(buf: Seq<char>, ev: ReadEvent) -> Seq<char> {
    match ev {
        ReadEvent::Chunk(c) => buf + c@,
        _ => buf,
    }
}

/// What a delivered frame must have become: the value the frame text parses
/// to, exactly where it parses (and the one the text encodes, where it
/// encodes one), and otherwise a decoding failure carrying the frame text
/// verbatim.
pub open spec fn frame_delivered(r: ReceiveStep, frame: Seq<char>) -> bool {
    &&& match json_parse_of(frame) {
        Some(v) => r == ReceiveStep::Received(v),
        None => r matches ReceiveStep::Fail(e) && e matches ChannelError::DecodingError { raw }
            && raw@ == frame,
    }
    &&& (r matches ReceiveStep::Received(w) ==> forall|v: serde_json::Value|
        frame == #[trigger] json_text_of(v) ==> w == v)
}

/// What receiving a framed copy of `v` must yield: `v` itself whenever its
/// own text parses back (which only the parser's recursion limit can
/// prevent), and otherwise the decoding failure carrying that text.
pub open spec fn message_delivered(r: ReceiveStep, v: serde_json::Value) -> bool {
    match json_parse_of(json_text_of(v)) {
        Some(_) => r == ReceiveStep::Received(v),
        None => r matches ReceiveStep::Fail(e) && e matches ChannelError::DecodingError { raw }
            && raw@ == json_text_of(v),
    }
}

/// The stateful wrapper around one connection: bytes already read from the
/// stream but not yet consumed as a complete frame. Created empty when a
/// connection is wrapped; a consumed frame's text, terminator included, is
/// removed from the front on each delivery.
pub struct Channel {
    buf: String,
}

impl View for Channel {
    type V = Seq<char>;

    closed spec fn view(&self) -> Seq<char> {
        self.buf@
    }
}

/// Locate the first newline character of `s`, by index.
fn find_newline(s: &str) -> (r: Option<usize>)
    ensures
        match r {
            Some(i) => newline_pos(s@) == Some(i as int),
            None => newline_pos(s@) is None,
        },
{
    let n = s.unicode_len();
    let mut i: usize = 0;
    while i < n
        invariant
            0 <= i <= n,
            n == s@.len(),
            forall|k: int| 0 <= k < i ==> s@[k] != '\n',
        decreases n - i,
    {
        if s.get_char(i) == '\n' {
            proof {
                lemma_newline_pos_at(s@, i as int);
            }
            return Some(i);
        }
        i = i + 1;
    }
    proof {
        lemma_newline_pos(s@);
        match newline_pos(s@) {
            Some(j) => {
                assert(s@[j] != '\n');
            },
            None => {},
        }
    }
    None
}

impl Channel {
    /// Wrap a fresh connection: the read buffer starts empty.
    pub fn new() -> (c: Channel)
        ensures
            c@ == Seq::<char>::empty(),
    {
        Channel { buf: String::new() }
    }

    /// Append text that arrived from the connection to the read buffer.
    pub fn feed(&mut self, chunk: &str)
        ensures
            final(self)@ == old(self)@ + chunk@,
    {
        self.buf.append(chunk);
    }

    /// Remove and return the first complete frame, without its terminator.
    /// The frame's text and the terminator leave the buffer; a buffer with no
    /// terminator is left untouched.
    pub fn take_frame(&mut self) -> (r: Option<String>)
        ensures
            match newline_pos(old(self)@) {
                Some(i) => r matches Some(f) && f@ == old(self)@.subrange(0, i)
                    && !f@.contains('\n') && final(self)@ == old(self)@.subrange(
                    i + 1,
                    old(self)@.len() as int,
                ),
                None => r is None && final(self)@ == old(self)@,
            },
    {
        proof {
            lemma_newline_pos(self@);
        }
        match find_newline(self.buf.as_str()) {
            Some(i) => {
                let n = self.buf.as_str().unicode_len();
                let frame = String::from_str(self.buf.as_str().substring_char(0, i));
                let rest = String::from_str(self.buf.as_str().substring_char(i + 1, n));
                proof {
                    assert forall|k: int| 0 <= k < frame@.len() implies frame@[k] != '\n' by {
                        assert(frame@[k] == old(self)@[k]);
                    }
                }
                self.buf = rest;
                Some(frame)
            },
            None => None,
        }
    }

    /// The terminal error for a stream that ended with no complete frame
    /// buffered: an untouched buffer means the peer never sent a byte, a
    /// non-empty one means it stopped mid-frame.
    pub fn end_of_stream(&self) -> (e: ChannelError)
        ensures
            self@.len() == 0 ==> e is EmptyMessage,
            self@.len() > 0 ==> e is TruncatedMessage,
    {
        if self.buf.as_str().unicode_len() == 0 {
            ChannelError::EmptyMessage
        } else {
            ChannelError::TruncatedMessage
        }
    }

    /// Decode one complete frame into a message: the parsed value exactly
    /// where the frame text parses, and otherwise a failure carrying the
    /// frame text verbatim.
    pub fn decode_frame(frame: String) -> (r: ReceiveStep)
        ensures
            frame_delivered(r, frame@),
    {
        match codec::decode(frame) {
            Ok(w) => ReceiveStep::Received(w),
            Err(e) => match e {
                CodecError::DecodingError { raw } => ReceiveStep::Fail(
                    ChannelError::DecodingError { raw },
                ),
                CodecError::EncodingError { detail } => ReceiveStep::Fail(
                    ChannelError::DecodingError { raw: detail },
                ),
            },
        }
    }

    /// One step of the blocking receive loop. The caller performs a read and
    /// hands the outcome in; the channel absorbs it and decides: deliver the
    /// first complete buffered frame, ask for another read, or fail — with
    /// `EmptyMessage` when the stream ended on an empty buffer and
    /// `TruncatedMessage` when it ended mid-frame.
    pub fn receive_step(&mut self, ev: ReadEvent) -> (r: ReceiveStep)
        ensures
            ev matches ReadEvent::Failed(m) ==> final(self)@ == old(self)@ && (
            r matches ReceiveStep::Fail(e) && e matches ChannelError::ReadError { detail }
                && detail@ == m@),
            !(ev is Failed) ==> ({
                let b = buffer_after_event(old(self)@, ev);
                match newline_pos(b) {
                    Some(i) => frame_delivered(r, b.subrange(0, i)) && final(self)@ == b.subrange(
                        i + 1,
                        b.len() as int,
                    ),
                    None => final(self)@ == b && (match ev {
                        ReadEvent::Chunk(_) => r is NeedMore,
                        _ => (b.len() == 0 ==> r == ReceiveStep::Fail(ChannelError::EmptyMessage))
                            && (b.len() > 0 ==> r == ReceiveStep::Fail(
                            ChannelError::TruncatedMessage,
                        )),
                    }),
                }
            }),
    {
        match ev {
            ReadEvent::Failed(m) => ReceiveStep::Fail(ChannelError::ReadError { detail: m }),
            ReadEvent::Chunk(c) => {
                self.feed(c.as_str());
                match self.take_frame() {
                    Some(f) => Self::decode_frame(f),
                    None => ReceiveStep::NeedMore,
                }
            },
            ReadEvent::Eof => {
                match self.take_frame() {
                    Some(f) => Self::decode_frame(f),
                    None => ReceiveStep::Fail(self.end_of_stream()),
                }
            },
        }
    }
}

/// Frame an outgoing message for the wire: its JSON text fragment followed by
/// the single newline terminator. Framing always succeeds — every message
/// value is representable — and the fragment itself holds no newline, so the
/// terminator is the frame's first and only one.
pub fn encode_message(v: &serde_json::Value) -> (r: Result<String, ChannelError>)
    ensures
        r is Ok,
        r matches Ok(s) ==> s@ == json_text_of(*v).push('\n') && newline_pos(s@) == Some(
            json_text_of(*v).len() as int,
        ),
{
    match codec::encode(v) {
        Ok(mut s) => {
            proof {
                reveal_strlit("\n");
            }
            s.append("\n");
            proof {
                let t = json_text_of(*v);
                assert(s@ =~= t.push('\n'));
                assert forall|k: int| 0 <= k < t.len() implies s@[k] != '\n' by {
                    assert(t[k] != '\n');
                }
                lemma_newline_pos_at(s@, t.len() as int);
            }
            Ok(s)
        },
        Err(e) => match e {
            CodecError::EncodingError { detail } => Err(
                ChannelError::EncodingError { detail },
            ),
            CodecError::DecodingError { raw } => Err(ChannelError::EncodingError { detail: raw }),
        },
    }
}

/// Law: the wire round-trips a message. Framing a message, feeding the framed
/// line to a fresh channel and taking one receive step hands the very message
/// back whenever its text parses (which only the parser's recursion limit can
/// prevent), and otherwise the decoding failure carrying that exact text; the
/// framing itself never loses or distorts it (no `NeedMore`, no
/// `EmptyMessage`, no `TruncatedMessage`).
pub fn wire_round_trip(v: serde_json::Value) -> (r: ReceiveStep)
    ensures
        message_delivered(r, v),
{
    match encode_message(&v) {
        Ok(line) => {
            let ghost t = json_text_of(v);
            let mut ch = Channel::new();
            let r = ch.receive_step(ReadEvent::Chunk(line));
            proof {
                let b = t.push('\n');
                assert(b.subrange(0, t.len() as int) =~= t);
                assert(frame_delivered(r, t));
            }
            r
        },
        Err(e) => {
            // framing always succeeds, so this branch cannot be taken
            proof {
                assert(false);
            }
            ReceiveStep::Fail(e)
        },
    }
}

/// Law: frames come out in the order they went in. A channel fed two framed
/// payloads back-to-back yields exactly those two payloads, first one first,
/// and consumes the whole buffer.
pub fn two_frame_fifo(first: &str, second: &str) -> (r: (Option<String>, Option<String>))
    requires
        !first@.contains('\n'),
        !second@.contains('\n'),
    ensures
        r.0 matches Some(f) && f@ == first@,
        r.1 matches Some(s) && s@ == second@,
{
    let mut ch = Channel::new();
    ch.feed(first);
    ch.feed("\n");
    ch.feed(second);
    ch.feed("\n");
    proof {
        reveal_strlit("\n");
        let a = first@;
        let b = second@;
        let wire = ch@;
        assert(wire =~= a + seq!['\n'] + b + seq!['\n']);
        assert forall|k: int| 0 <= k < a.len() implies wire[k] != '\n' by {
            assert(wire[k] == a[k]);
            assert(!a.contains('\n') ==> a[k] != '\n');
        }
        lemma_newline_pos_at(wire, a.len() as int);
        assert(wire.subrange(0, a.len() as int) =~= a);
        assert(wire.subrange(a.len() as int + 1, wire.len() as int) =~= b + seq!['\n']);
    }
    let f1 = ch.take_frame();
    proof {
        let b = second@;
        let rest = ch@;
        assert(rest =~= b + seq!['\n']);
        assert forall|k: int| 0 <= k < b.len() implies rest[k] != '\n' by {
            assert(rest[k] == b[k]);
            assert(!b.contains('\n') ==> b[k] != '\n');
        }
        lemma_newline_pos_at(rest, b.len() as int);
        assert(rest.subrange(0, b.len() as int) =~= b);
    }
    let f2 = ch.take_frame();
    (f1, f2)
}

/// Law: messages come out in the order they were sent. Two messages framed
/// and written back-to-back onto one channel are received in the same order:
/// the first receive yields the first message and the second the second,
/// each owed whenever its own text parses back, and never lost to a frame
/// boundary.
pub fn two_message_fifo(v1: serde_json::Value, v2: serde_json::Value) -> (r: (
    ReceiveStep,
    ReceiveStep,
))
    ensures
        message_delivered(r.0, v1),
        message_delivered(r.1, v2),
{
    let line1 = match encode_message(&v1) {
        Ok(s) => s,
        Err(_) => {
            // framing always succeeds, so this branch cannot be taken
            proof {
                assert(false);
            }
            return (ReceiveStep::NeedMore, ReceiveStep::NeedMore);
        },
    };
    let line2 = match encode_message(&v2) {
        Ok(s) => s,
        Err(_) => {
            // framing always succeeds, so this branch cannot be taken
            proof {
                assert(false);
            }
            return (ReceiveStep::NeedMore, ReceiveStep::NeedMore);
        },
    };
    let ghost t1 = json_text_of(v1);
    let ghost t2 = json_text_of(v2);
    let mut ch = Channel::new();
    ch.feed(line1.as_str());
    ch.feed(line2.as_str());
    proof {
        let wire = ch@;
        lemma_newline_pos(line1@);
        assert(wire =~= t1.push('\n') + t2.push('\n'));
        assert forall|k: int| 0 <= k < t1.len() implies wire[k] != '\n' by {
            assert(line1@[k] != '\n');
            assert(wire[k] == line1@[k]);
        }
        assert(wire[t1.len() as int] == '\n');
        lemma_newline_pos_at(wire, t1.len() as int);
        assert(wire.subrange(0, t1.len() as int) =~= t1);
        assert(wire.subrange(t1.len() as int + 1, wire.len() as int) =~= t2.push('\n'));
    }
    let s1 = match ch.take_frame() {
        Some(f) => Channel::decode_frame(f),
        None => {
            // a terminator is buffered, so this branch cannot be taken
            proof {
                assert(false);
            }
            return (ReceiveStep::NeedMore, ReceiveStep::NeedMore);
        },
    };
    proof {
        let rest = ch@;
        lemma_newline_pos(line2@);
        assert(rest =~= t2.push('\n'));
        assert forall|k: int| 0 <= k < t2.len() implies rest[k] != '\n' by {
            assert(line2@[k] != '\n');
            assert(rest[k] == line2@[k]);
        }
        lemma_newline_pos_at(rest, t2.len() as int);
        assert(rest.subrange(0, t2.len() as int) =~= t2);
    }
    let s2 = match ch.take_frame() {
        Some(f) => Channel::decode_frame(f),
        None => {
            // a terminator is buffered, so this branch cannot be taken
            proof {
                assert(false);
            }
            return (ReceiveStep::NeedMore, ReceiveStep::NeedMore);
        },
    };
    (s1, s2)
}

} // verus!
