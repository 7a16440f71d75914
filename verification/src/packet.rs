//! Remote serial protocol packets and the shape of their frames on the wire.
//!
//! A frame is a marker byte, the payload with its reserved bytes escaped, a
//! `#`, and the checksum trailer:
//!
//! ```text
//! $payload#c7
//! ```

use vstd::prelude::*;

verus! {

/// `$`, which opens the frame of an ordinary packet.
pub const PACKET_MARKER: u8 = 0x24;

/// `%`, which opens the frame of a notification.
pub const NOTIFICATION_MARKER: u8 = 0x25;

/// `#`, which ends the payload of a frame.
pub const TERMINATOR: u8 = 0x23;

/// `}`, which introduces an escaped payload byte.
pub const ESCAPE: u8 = 0x7d;

/// `*`, which introduces a run length on the wire.
pub const REPEAT: u8 = 0x2a;

/// The mask that is xor-ed onto a byte that follows [`ESCAPE`].
pub const ESCAPE_MASK: u8 = 0x20;

/// What a frame carries, told apart on the wire by its first byte.
#[derive(Clone, Copy, Debug, PartialEq, Eq, Hash, Structural)]
pub enum Kind {
    /// A notification, which opens with `%`.
    Notification,
    /// An ordinary packet, which opens with `$`.
    Packet,
}

/// A packet whose checksum trailer has already been computed over its
/// unescaped payload.
#[derive(Clone, Debug, PartialEq, Eq)]
pub struct CheckedPacket {
    /// Whether this is a packet or a notification.
    pub kind: Kind,
    /// The payload, unescaped.
    pub data: Vec<u8>,
    /// The two checksum characters that close the frame.
    pub checksum: [u8; 2],
}

/// The byte that opens a frame of the given kind.
pub open spec fn marker(kind: Kind) -> u8 {
    match kind {
        Kind::Notification => NOTIFICATION_MARKER,
        Kind::Packet => PACKET_MARKER,
    }
}

/// True of the four bytes that may not appear unescaped in a payload:
/// `#`, `$`, `}` and `*`.
pub open spec fn needs_escape(byte: u8) -> bool {
    byte == TERMINATOR || byte == PACKET_MARKER || byte == ESCAPE || byte == REPEAT
}

/// One payload byte as it goes onto the wire.
pub open spec fn escape_byte(byte: u8) -> Seq<u8> {
    if needs_escape(byte) {
        seq![ESCAPE, byte ^ ESCAPE_MASK]
    } else {
        seq![byte]
    }
}

/// A payload as it goes onto the wire: every reserved byte is replaced by
/// [`ESCAPE`] and the byte xor [`ESCAPE_MASK`], every other byte stands as it is.
pub open spec fn escape(data: Seq<u8>) -> Seq<u8>
    decreases data.len(),
{
    if data.len() == 0 {
        Seq::empty()
    } else {
        escape(data.drop_last()) + escape_byte(data.last())
    }
}

/// The payload that an escaped byte string stands for: each [`ESCAPE`] is
/// dropped and the byte after it is xor-ed with [`ESCAPE_MASK`].
pub open spec fn unescape(wire: Seq<u8>) -> Seq<u8>
    decreases wire.len(),
{
    if wire.len() == 0 {
        Seq::empty()
    } else if wire[0] == ESCAPE && wire.len() >= 2 {
        seq![wire[1] ^ ESCAPE_MASK] + unescape(wire.skip(2))
    } else {
        seq![wire[0]] + unescape(wire.skip(1))
    }
}

/// The whole frame of a packet: marker, escaped payload, `#`, checksum.
pub open spec fn frame(kind: Kind, data: Seq<u8>, checksum: Seq<u8>) -> Seq<u8> {
    seq![marker(kind)] + escape(data) + seq![TERMINATOR] + checksum
}

/// Escaping distributes over concatenation.
pub proof fn lemma_escape_concat(a: Seq<u8>, b: Seq<u8>)
    ensures
        escape(a + b) == escape(a) + escape(b),
    decreases b.len(),
{
    if b.len() == 0 {
        assert(a + b =~= a);
        assert(escape(a) + escape(b) =~= escape(a));
    } else {
        lemma_escape_concat(a, b.drop_last());
        assert((a + b).drop_last() =~= a + b.drop_last());
        assert((a + b).last() == b.last());
        assert(escape(a + b) =~= escape(a) + escape(b));
    }
}

/// A payload of one byte goes onto the wire as that byte's escape.
pub proof fn lemma_escape_single(byte: u8)
    ensures
        escape(seq![byte]) == escape_byte(byte),
{
    let one = seq![byte];
    assert(one.drop_last() =~= Seq::<u8>::empty());
    assert(escape(one.drop_last()) =~= Seq::<u8>::empty());
    assert(escape(one) =~= escape_byte(byte));
}

/// A payload without reserved bytes goes onto the wire as it is, with no
/// escape byte put in.
pub proof fn lemma_escape_plain(data: Seq<u8>)
    requires
        forall|i: int| 0 <= i < data.len() ==> !needs_escape(#[trigger] data[i]),
    ensures
        escape(data) == data,
    decreases data.len(),
{
    if data.len() > 0 {
        lemma_escape_plain(data.drop_last());
        assert(escape(data) =~= data);
    }
}

/// The frame of a payload without reserved bytes is the marker, the payload
/// as it is, `#`, and the checksum.
pub proof fn lemma_plain_frame(kind: Kind, data: Seq<u8>, checksum: Seq<u8>)
    requires
        forall|i: int| 0 <= i < data.len() ==> !needs_escape(#[trigger] data[i]),
    ensures
        frame(kind, data, checksum) == seq![marker(kind)] + data + seq![TERMINATOR] + checksum,
{
    lemma_escape_plain(data);
}

/// A frame opens with the marker of its kind: `%` for a notification, `$`
/// for a packet.
pub proof fn lemma_frame_opens_with_marker(kind: Kind, data: Seq<u8>, checksum: Seq<u8>)
    ensures
        frame(kind, data, checksum)[0] == marker(kind),
        kind == Kind::Notification ==> frame(kind, data, checksum)[0] == 0x25,
        kind == Kind::Packet ==> frame(kind, data, checksum)[0] == 0x24,
{
}

/// Undoing the escape of one byte in front of `tail` gives the byte back and
/// goes on with `tail`.
proof fn lemma_unescape_step(byte: u8, tail: Seq<u8>)
    ensures
        unescape(escape_byte(byte) + tail) == seq![byte] + unescape(tail),
{
    let wire = escape_byte(byte) + tail;
    if needs_escape(byte) {
        assert(wire[0] == ESCAPE);
        assert(wire[1] == byte ^ ESCAPE_MASK);
        assert((byte ^ 0x20) ^ 0x20 == byte) by (bit_vector);
        assert(wire.skip(2) =~= tail);
    } else {
        assert(wire[0] == byte);
        assert(wire.skip(1) =~= tail);
    }
}

/// Escaping a payload and then undoing the escapes gives the payload back,
/// whatever bytes it holds.
pub proof fn lemma_unescape_escape(data: Seq<u8>)
    ensures
        unescape(escape(data)) == data,
    decreases data.len(),
{
    if data.len() > 0 {
        let head = data[0];
        let rest = data.skip(1);
        assert(data =~= seq![head] + rest);
        lemma_escape_concat(seq![head], rest);
        lemma_escape_single(head);
        lemma_unescape_step(head, escape(rest));
        lemma_unescape_escape(rest);
    }
}

/// On the wire a payload holds none of `#`, `$` and `*`: the bytes that
/// delimit a frame or start a run length appear only where the frame puts them.
pub proof fn lemma_escape_is_clean(data: Seq<u8>)
    ensures
        forall|i: int|
            0 <= i < escape(data).len() ==> {
                let byte = #[trigger] escape(data)[i];
                byte != TERMINATOR && byte != PACKET_MARKER && byte != REPEAT
            },
    decreases data.len(),
{
    if data.len() > 0 {
        let front = escape(data.drop_last());
        let back = escape_byte(data.last());
        lemma_escape_is_clean(data.drop_last());
        let last = data.last();
        assert(last == 0x23 || last == 0x24 || last == 0x7d || last == 0x2a ==> {
            let masked = last ^ 0x20;
            masked != 0x23 && masked != 0x24 && masked != 0x2a
        }) by (bit_vector);
        assert forall|i: int| 0 <= i < escape(data).len() implies {
            let byte = #[trigger] escape(data)[i];
            byte != TERMINATOR && byte != PACKET_MARKER && byte != REPEAT
        } by {
            if i < front.len() {
                assert(escape(data)[i] == front[i]);
            } else {
                assert(escape(data)[i] == back[i - front.len()]);
            }
        }
    }
}

impl CheckedPacket {
    /// The frame that this packet is sent as.
    pub open spec fn wire(&self) -> Seq<u8> {
        frame(self.kind, self.data@, self.checksum@)
    }
}

} // verus!
