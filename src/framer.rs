use vstd::prelude::*;
use crate::encoding::{EncodedPacket, kind_name, mode_tag};

verus! {

/// The 64 characters of the standard base64 alphabet, in order.
pub open spec fn base64_alphabet() -> Seq<char> {
    "ABCDEFGHIJKLMNOPQRSTUVWXYZabcdefghijklmnopqrstuvwxyz0123456789+/"@
}

pub open spec fn sextet(v: int) -> char {
    base64_alphabet()[v]
}

/// The standard, padded base64 text of some bytes: each group of three bytes
/// becomes four characters of six bits each; a final group of one or two
/// bytes is filled with zero bits and padded with `=` to four characters.
pub open spec fn base64_of(b: Seq<u8>) -> Seq<char>
    decreases b.len(),
{
    if b.len() == 0 {
        Seq::empty()
    } else if b.len() == 1 {
        seq![sextet((b[0] as int) / 4), sextet(((b[0] as int) % 4) * 16), '=', '=']
    } else if b.len() == 2 {
        seq![sextet((b[0] as int) / 4), sextet(((b[0] as int) % 4) * 16 + (b[1] as int) / 16), sextet(((b[1] as int) % 16) * 4), '=']
    } else {
        seq![
            sextet((b[0] as int) / 4),
            sextet(((b[0] as int) % 4) * 16 + (b[1] as int) / 16),
            sextet(((b[1] as int) % 16) * 4 + (b[2] as int) / 64),
            sextet((b[2] as int) % 64),
        ] + base64_of(b.subrange(3, b.len() as int))
    }
}

/// Relies on base64's `encode`: standard alphabet, with padding, four
/// characters for every three bytes or part thereof. It panics when that
/// length overflows `usize`.
#[verifier::external_body]
fn to_base64(b: &Vec<u8>) -> (r: String)
    requires
        4 * ((b@.len() + 2) / 3) <= usize::MAX,
    ensures
        r@ == base64_of(b@),
        r@.len() == 4 * ((b@.len() + 2) / 3),
{
    base64::encode(b)
}

/// How packets are put on the wire; fixed for a deployment.
#[derive(PartialEq, Eq, Structural, Clone, Copy, Debug)]
pub enum WireShape {
    /// A structured envelope with the payload in base64 and its metadata.
    Structured,
    /// The bare payload, one message per encoded unit.
    RawBinary,
}

/// The fields of the structured wire packet. The payload is absent when an
/// encode cycle produced no bytes; the frame type is absent for full frames.
pub struct Envelope {
    pub data: Option<String>,
    pub frame_type: Option<String>,
    pub epoch_secs: u64,
    pub epoch_nanos: u32,
    pub encoding: String,
}

/// The seconds and nanoseconds since the epoch of a time in milliseconds.
pub fn epoch_parts(ms: u64) -> (r: (u64, u32))
    ensures
        r.0 == ms / 1000,
        r.1 == (ms % 1000) * 1_000_000,
{
    (ms / 1000, ((ms % 1000) * 1_000_000) as u32)
}

/// Frames a packet in the structured envelope.
pub fn envelope(packet: &EncodedPacket) -> (r: Envelope)
    requires
        4 * ((packet.payload@.len() + 2) / 3) <= usize::MAX,
    ensures
        (packet.payload@.len() == 0) == (r.data is None),
        r.data is Some ==> r.data->Some_0@ == base64_of(packet.payload@),
        match packet.kind {
            Some(k) => r.frame_type is Some && r.frame_type->Some_0@ == kind_name(k),
            None => r.frame_type is None,
        },
        r.epoch_secs == packet.captured_ms / 1000,
        r.epoch_nanos == (packet.captured_ms % 1000) * 1_000_000,
        r.encoding@ == mode_tag(packet.mode),
{
    let data = if packet.payload.len() == 0 {
        None
    } else {
        Some(to_base64(&packet.payload))
    };
    let frame_type = match packet.kind {
        Some(k) => Some(k.wire_name().to_owned()),
        None => None,
    };
    let (epoch_secs, epoch_nanos) = epoch_parts(packet.captured_ms);
    Envelope { data, frame_type, epoch_secs, epoch_nanos, encoding: packet.mode.tag().to_owned() }
}

/// Frames a packet as its bare payload.
pub fn raw_frame(packet: &EncodedPacket) -> (r: Vec<u8>)
    ensures
        r@ == packet.payload@,
{
    packet.payload.clone()
}

} // verus!
