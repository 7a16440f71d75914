//! Writing a packet to the peer and waiting for its acknowledgement.
//!
//! A packet goes out as one frame. The peer answers each frame with a single
//! byte outside any frame: `+` to accept it, `-` to have it sent again. What
//! else arrives meanwhile belongs to the peer's next frame and stays in the
//! receive buffer for whoever reads after the writer.
//!
//! The connection itself is not touched here. [`Writer`] says what to do
//! next, and is told what happened:
//!
//! ```text
//! Send --sent--> AwaitAck --'-' received--> Send
//!                AwaitAck --'+' received--> Done
//! ```

use vstd::prelude::*;
use crate::search::{first_index, is_first, lemma_first_index, lemma_is_first_unique};
use crate::packet::{
    escape, lemma_escape_concat, lemma_escape_plain, lemma_escape_single, marker, needs_escape,
    CheckedPacket, Kind, ESCAPE, ESCAPE_MASK, NOTIFICATION_MARKER, PACKET_MARKER, REPEAT,
    TERMINATOR,
};

verus! {

/// `memchr::memchr` returns the index of the first byte of `haystack` that
/// equals `needle`, or `None` when no byte of it does.
pub assume_specification[ memchr::memchr ](needle: u8, haystack: &[u8]) -> (found: Option<usize>)
    ensures
        match found {
            Some(i) => i < haystack@.len() && haystack@[i as int] == needle
                && forall|j: int| 0 <= j < i ==> haystack@[j] != needle,
            None => forall|j: int| 0 <= j < haystack@.len() ==> haystack@[j] != needle,
        },
;

/// `memchr::memchr3` returns the index of the first byte of `haystack` that
/// equals one of the three needles, or `None` when no byte of it does.
pub assume_specification[ memchr::memchr3 ](
    needle1: u8,
    needle2: u8,
    needle3: u8,
    haystack: &[u8],
) -> (found: Option<usize>)
    ensures
        match found {
            Some(i) => i < haystack@.len() && (haystack@[i as int] == needle1 || haystack@[i as int]
                == needle2 || haystack@[i as int] == needle3) && forall|j: int|
                0 <= j < i ==> haystack@[j] != needle1 && haystack@[j] != needle2 && haystack@[j]
                    != needle3,
            None => forall|j: int|
                0 <= j < haystack@.len() ==> haystack@[j] != needle1 && haystack@[j] != needle2
                    && haystack@[j] != needle3,
        },
;

/// Appends the frame of `packet` to `w`: the marker of its kind, the payload
/// with every `#`, `$`, `}` and `*` escaped, a `#`, and the checksum as it is.
pub fn encode(packet: &CheckedPacket, w: &mut Vec<u8>)
    ensures
        final(w)@ == old(w)@ + packet.wire(),
        final(w)@[old(w)@.len() as int] == marker(packet.kind),
{
    let ghost head = w@ + seq![marker(packet.kind)];
    w.push(
        match packet.kind {
            Kind::Notification => NOTIFICATION_MARKER,
            Kind::Packet => PACKET_MARKER,
        },
    );
    let mut remaining: &[u8] = packet.data.as_slice();
    let ghost mut done: Seq<u8> = Seq::empty();
    assert(done + remaining@ =~= packet.data@);
    assert(w@ =~= head + escape(done));
    while !remaining.is_empty()
        invariant
            done + remaining@ == packet.data@,
            w@ == head + escape(done),
        decreases remaining@.len(),
    {
        let escape1 = memchr::memchr3(TERMINATOR, PACKET_MARKER, ESCAPE, remaining);
        let escape2 = memchr::memchr(REPEAT, remaining);
        let first1: usize = match escape1 {
            Some(i) => i,
            None => remaining.len(),
        };
        let first2: usize = match escape2 {
            Some(i) => i,
            None => remaining.len(),
        };
        let plain: usize = if first1 < first2 {
            first1
        } else {
            first2
        };
        let ghost before = remaining@;
        let ghost run = before.subrange(0, plain as int);
        assert(forall|j: int| 0 <= j < plain ==> !needs_escape(#[trigger] before[j]));
        assert(plain < before.len() ==> needs_escape(before[plain as int]));
        w.extend_from_slice(&remaining[0..plain]);
        remaining = &remaining[plain..remaining.len()];
        proof {
            assert(w@ =~= head + escape(done) + run);
            lemma_plain_run(done, run);
            assert(done + run + remaining@ =~= packet.data@);
            done = done + run;
        }
        if remaining.len() > 0 {
            let byte: u8 = remaining[0];
            assert(byte == before[plain as int]);
            w.push(ESCAPE);
            w.push(byte ^ ESCAPE_MASK);
            let ghost rest = remaining@.subrange(1, remaining@.len() as int);
            remaining = &remaining[1..remaining.len()];
            proof {
                assert(w@ =~= head + escape(done) + seq![ESCAPE, byte ^ ESCAPE_MASK]);
                lemma_reserved_byte(done, byte);
                assert(done + seq![byte] + rest =~= packet.data@);
                done = done + seq![byte];
            }
        }
    }
    w.push(TERMINATOR);
    w.push(packet.checksum[0]);
    w.push(packet.checksum[1]);
    proof {
        assert(done =~= packet.data@);
        assert(packet.checksum@ =~= seq![packet.checksum@[0], packet.checksum@[1]]);
        assert(w@ =~= old(w)@ + packet.wire());
    }
}

/// Escaping what is done and a run of bytes that need no escape after it.
proof fn lemma_plain_run(done: Seq<u8>, run: Seq<u8>)
    requires
        forall|j: int| 0 <= j < run.len() ==> !needs_escape(#[trigger] run[j]),
    ensures
        escape(done + run) == escape(done) + run,
{
    lemma_escape_plain(run);
    lemma_escape_concat(done, run);
}

/// Escaping what is done and one reserved byte after it.
proof fn lemma_reserved_byte(done: Seq<u8>, byte: u8)
    requires
        needs_escape(byte),
    ensures
        escape(done + seq![byte]) == escape(done) + seq![ESCAPE, byte ^ ESCAPE_MASK],
{
    lemma_escape_single(byte);
    lemma_escape_concat(done, seq![byte]);
}

/// `+`, with which the peer accepts a frame.
pub const ACK: u8 = 0x2b;

/// `-`, with which the peer asks for the frame again.
pub const NACK: u8 = 0x2d;

/// The peer's answer to a frame.
#[derive(Clone, Copy, Debug, PartialEq, Eq, Structural)]
pub enum Reply {
    /// The frame was accepted.
    Ack,
    /// The frame was rejected and is to be sent again.
    Nack,
}

/// True of the two bytes that answer a frame.
pub open spec fn is_reply(byte: u8) -> bool {
    byte == ACK || byte == NACK
}

/// Where the first answer stands in `buffer`, if it holds one.
pub open spec fn first_reply(buffer: Seq<u8>) -> Option<int> {
    first_index(buffer, |byte: u8| is_reply(byte))
}

/// The first answer that `buffer` holds, wherever in it.
pub open spec fn reply_in(buffer: Seq<u8>) -> Option<Reply> {
    match first_reply(buffer) {
        Some(i) => Some(
            if buffer[i] == ACK {
                Reply::Ack
            } else {
                Reply::Nack
            },
        ),
        None => None,
    }
}

/// `buffer` with its first answer taken out and every other byte in place.
pub open spec fn without_reply(buffer: Seq<u8>) -> Seq<u8> {
    match first_reply(buffer) {
        Some(i) => buffer.remove(i),
        None => buffer,
    }
}

/// An answer that follows bytes which hold none is the first one: it is what
/// the buffer is read as, and taking it out leaves the bytes around it.
pub proof fn lemma_reply_after_inert(inert: Seq<u8>, answer: u8, rest: Seq<u8>)
    requires
        forall|i: int| 0 <= i < inert.len() ==> !is_reply(#[trigger] inert[i]),
        is_reply(answer),
    ensures
        first_reply(inert + seq![answer] + rest) == Some(inert.len() as int),
        reply_in(inert + seq![answer] + rest) == Some(
            if answer == ACK {
                Reply::Ack
            } else {
                Reply::Nack
            },
        ),
        without_reply(inert + seq![answer] + rest) == inert + rest,
{
    let buffer = inert + seq![answer] + rest;
    let wanted = |byte: u8| is_reply(byte);
    assert(buffer[inert.len() as int] == answer);
    assert forall|j: int| 0 <= j < inert.len() implies !wanted(#[trigger] buffer[j]) by {
        assert(buffer[j] == inert[j]);
    }
    assert(is_first(buffer, wanted, inert.len() as int));
    lemma_is_first_unique(buffer, wanted, inert.len() as int);
    assert(buffer.remove(inert.len() as int) =~= inert + rest);
}

/// A buffer without an answer is left as it is.
pub proof fn lemma_no_reply(buffer: Seq<u8>)
    requires
        forall|i: int| 0 <= i < buffer.len() ==> !is_reply(#[trigger] buffer[i]),
    ensures
        reply_in(buffer) is None,
        without_reply(buffer) == buffer,
{
    lemma_first_index(buffer, |byte: u8| is_reply(byte));
}

/// Takes the first `+` or `-` out of `buffer`, wherever it stands, and says
/// which it was. Every other byte stays where it is; a buffer that holds
/// neither is not changed.
pub fn take_reply(buffer: &mut Vec<u8>) -> (reply: Option<Reply>)
    ensures
        reply == reply_in(old(buffer)@),
        final(buffer)@ == without_reply(old(buffer)@),
{
    let ghost wanted = |byte: u8| is_reply(byte);
    let mut i: usize = 0;
    while i < buffer.len()
        invariant
            i <= buffer@.len(),
            buffer@ == old(buffer)@,
            wanted == (|byte: u8| is_reply(byte)),
            forall|j: int| 0 <= j < i ==> !wanted(#[trigger] buffer@[j]),
        decreases buffer@.len() - i,
    {
        let byte: u8 = buffer[i];
        if byte == ACK || byte == NACK {
            proof {
                assert(is_first(buffer@, wanted, i as int));
                lemma_is_first_unique(buffer@, wanted, i as int);
            }
            buffer.remove(i);
            return Some(
                if byte == ACK {
                    Reply::Ack
                } else {
                    Reply::Nack
                },
            );
        }
        i += 1;
    }
    proof {
        lemma_first_index(buffer@, wanted);
    }
    None
}

/// Where the writer stands with its packet.
#[derive(Clone, Copy, Debug, PartialEq, Eq, Structural)]
pub enum Stage {
    /// The frame is to be sent, for the first time or again.
    Send,
    /// The frame is out and the peer has not answered it yet.
    AwaitAck,
    /// The peer has accepted the frame.
    Done,
}

/// What the connection is to do next for the writer.
#[derive(Clone, Copy, Debug, PartialEq, Eq, Structural)]
pub enum Action {
    /// Write the frame to the peer and flush.
    Send,
    /// Read what the peer has sent.
    Read,
    /// The packet is delivered: go on to read the peer's next frame.
    Proceed,
}

/// The stage that a writer awaiting its answer is in once `buffer` has been
/// looked through.
pub open spec fn stage_after(buffer: Seq<u8>) -> Stage {
    match reply_in(buffer) {
        Some(Reply::Ack) => Stage::Done,
        Some(Reply::Nack) => Stage::Send,
        None => Stage::AwaitAck,
    }
}

/// The delivery of one packet: its frame, and how far the exchange has come.
#[derive(Debug)]
pub struct Writer {
    frame: Vec<u8>,
    stage: Stage,
}

impl Writer {
    /// The frame that this writer sends, the same at every attempt.
    pub closed spec fn wire(&self) -> Seq<u8> {
        self.frame@
    }

    /// The stage that this writer is in.
    pub closed spec fn spec_stage(&self) -> Stage {
        self.stage
    }

    /// A writer for `packet`, with its frame encoded and yet to be sent.
    pub fn new(packet: &CheckedPacket) -> (writer: Writer)
        ensures
            writer.wire() == packet.wire(),
            writer.spec_stage() == Stage::Send,
    {
        let mut frame: Vec<u8> = Vec::new();
        encode(packet, &mut frame);
        assert(frame@ =~= packet.wire());
        Writer { frame, stage: Stage::Send }
    }

    /// The bytes to write to the peer at each attempt.
    pub fn frame(&self) -> (bytes: &[u8])
        ensures
            bytes@ == self.wire(),
    {
        self.frame.as_slice()
    }

    /// The stage that this writer is in.
    #[verifier::when_used_as_spec(spec_stage)]
    pub fn stage(&self) -> (stage: Stage)
        ensures
            stage == self.spec_stage(),
    {
        self.stage
    }

    /// What the connection is to do next.
    pub fn action(&self) -> (action: Action)
        ensures
            action == match self.spec_stage() {
                Stage::Send => Action::Send,
                Stage::AwaitAck => Action::Read,
                Stage::Done => Action::Proceed,
            },
    {
        match self.stage {
            Stage::Send => Action::Send,
            Stage::AwaitAck => Action::Read,
            Stage::Done => Action::Proceed,
        }
    }

    /// Records that the frame has been written and flushed: a writer that was
    /// to send now awaits the answer. In any other stage nothing changes.
    pub fn sent(&mut self)
        ensures
            final(self).wire() == old(self).wire(),
            final(self).spec_stage() == if old(self).spec_stage() == Stage::Send {
                Stage::AwaitAck
            } else {
                old(self).spec_stage()
            },
    {
        if let Stage::Send = self.stage {
            self.stage = Stage::AwaitAck;
        }
    }

    /// Takes in what a read has brought, which may be nothing. The bytes are
    /// added to `buffer`. A writer awaiting its answer then takes the first
    /// `+` or `-` out of the buffer: after `+` it is done, after `-` the frame
    /// is to be sent again, and with neither it goes on waiting. In any other
    /// stage the bytes are only kept.
    pub fn received(&mut self, bytes: &[u8], buffer: &mut Vec<u8>)
        ensures
            final(self).wire() == old(self).wire(),
            old(self).spec_stage() == Stage::AwaitAck ==> {
                &&& final(buffer)@ == without_reply(old(buffer)@ + bytes@)
                &&& final(self).spec_stage() == stage_after(old(buffer)@ + bytes@)
            },
            old(self).spec_stage() != Stage::AwaitAck ==> {
                &&& final(buffer)@ == old(buffer)@ + bytes@
                &&& final(self).spec_stage() == old(self).spec_stage()
            },
    {
        buffer.extend_from_slice(bytes);
        assert(buffer@ =~= old(buffer)@ + bytes@);
        if let Stage::AwaitAck = self.stage {
            match take_reply(buffer) {
                Some(Reply::Ack) => {
                    self.stage = Stage::Done;
                },
                Some(Reply::Nack) => {
                    self.stage = Stage::Send;
                },
                None => {},
            }
        }
    }
}

/// A frame that the peer rejects once and then accepts is sent twice, and the
/// writer is done only after the `+`: whatever inert bytes stand before the
/// `-` and the `+`, all of them are still in the buffer afterwards, in the
/// order they came in.
pub proof fn lemma_rejected_then_accepted(pending: Seq<u8>, first: Seq<u8>, second: Seq<u8>)
    requires
        forall|i: int| 0 <= i < pending.len() ==> !is_reply(#[trigger] pending[i]),
        forall|i: int| 0 <= i < first.len() ==> !is_reply(#[trigger] first[i]),
        forall|i: int| 0 <= i < second.len() ==> !is_reply(#[trigger] second[i]),
    ensures
        stage_after(pending + (first + seq![NACK])) == Stage::Send,
        without_reply(pending + (first + seq![NACK])) == pending + first,
        stage_after((pending + first) + (second + seq![ACK])) == Stage::Done,
        without_reply((pending + first) + (second + seq![ACK])) == pending + first + second,
{
    let empty = Seq::<u8>::empty();
    lemma_reply_after_inert(pending + first, NACK, empty);
    assert(pending + (first + seq![NACK]) =~= (pending + first) + seq![NACK] + empty);
    assert((pending + first) + empty =~= pending + first);
    lemma_reply_after_inert(pending + first + second, ACK, empty);
    assert((pending + first) + (second + seq![ACK]) =~= (pending + first + second) + seq![ACK]
        + empty);
    assert((pending + first + second) + empty =~= pending + first + second);
}

} // verus!
