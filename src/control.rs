//! Control messages and datagram framing.
//!
//! Every datagram ends with one byte naming its channel. Channel 0 carries a
//! control message encoded with bitcode; any other channel carries raw
//! application bytes.
use vstd::prelude::*;

verus! {

/// The channel byte that marks a control message.
pub const CONTROL_CHANNEL: u8 = 0;

/// Protocol-internal messages, carried on channel 0.
#[derive(Clone, Copy, Debug, PartialEq, Eq, Structural)]
pub enum ControlMessage {
    /// Readiness to move to steady state.
    Negotiate,
    /// Liveness probe.
    Ack,
    /// Explicit teardown request.
    Disconnect,
}

/// The tag that stands for a control message on the wire.
pub open spec fn tag_of(m: ControlMessage) -> u8 {
    match m {
        ControlMessage::Negotiate => 0,
        ControlMessage::Ack => 1,
        ControlMessage::Disconnect => 2,
    }
}

/// The control message that a tag stands for, if any.
pub open spec fn message_of_tag(t: u8) -> Option<ControlMessage> {
    if t == 0 {
        Some(ControlMessage::Negotiate)
    } else if t == 1 {
        Some(ControlMessage::Ack)
    } else if t == 2 {
        Some(ControlMessage::Disconnect)
    } else {
        None
    }
}

/// The bytes that bitcode writes for one `u8`.
pub uninterp spec fn bitcode_bytes_of_u8(v: u8) -> Seq<u8>;

/// What bitcode reads back as one `u8` from the given bytes.
pub uninterp spec fn bitcode_u8_from_bytes(bytes: Seq<u8>) -> Option<u8>;

/// Relies on `bitcode::encode` for a `u8`, which never fails for a type
/// without serde fields, and whose output `bitcode::decode` reads back.
#[verifier::external_body]
fn bitcode_encode_u8(v: u8) -> (r: Vec<u8>)
    ensures
        r@ == bitcode_bytes_of_u8(v),
        bitcode_u8_from_bytes(r@) == Some(v),
{
    bitcode::encode(&v).unwrap_or_default()
}

/// Relies on `bitcode::decode` for a `u8`: it reads back what
/// `bitcode::encode` wrote.
#[verifier::external_body]
fn bitcode_decode_u8(bytes: &[u8]) -> (r: Option<u8>)
    ensures
        r == bitcode_u8_from_bytes(bytes@),
        forall|v: u8| bytes@ == bitcode_bytes_of_u8(v) ==> r == Some(v),
{
    bitcode::decode::<u8>(bytes).ok()
}

/// The encoding of a control message.
pub open spec fn spec_encode(m: ControlMessage) -> Seq<u8> {
    bitcode_bytes_of_u8(tag_of(m))
}

/// The control message that some bytes decode to, if any.
pub open spec fn spec_decode(bytes: Seq<u8>) -> Option<ControlMessage> {
    match bitcode_u8_from_bytes(bytes) {
        Some(t) => message_of_tag(t),
        None => None,
    }
}

/// The wire tag of a control message.
pub fn control_tag(m: ControlMessage) -> (r: u8)
    ensures
        r == tag_of(m),
        message_of_tag(r) == Some(m),
{
    match m {
        ControlMessage::Negotiate => 0,
        ControlMessage::Ack => 1,
        ControlMessage::Disconnect => 2,
    }
}

/// The control message named by a decoded tag; `None` for an unknown tag.
pub fn control_from_tag(t: u8) -> (r: Option<ControlMessage>)
    ensures
        r == message_of_tag(t),
        r matches Some(m) ==> tag_of(m) == t,
{
    if t == 0 {
        Some(ControlMessage::Negotiate)
    } else if t == 1 {
        Some(ControlMessage::Ack)
    } else if t == 2 {
        Some(ControlMessage::Disconnect)
    } else {
        None
    }
}

/// Encodes a control message (without its channel byte).
pub fn encode_control(m: ControlMessage) -> (r: Vec<u8>)
    ensures
        r@ == spec_encode(m),
        spec_decode(r@) == Some(m),
{
    bitcode_encode_u8(control_tag(m))
}

/// Decodes a control message (without its channel byte).
///
/// Decoding the encoding of any message gives that message back.
pub fn decode_control(bytes: &[u8]) -> (r: Option<ControlMessage>)
    ensures
        r == spec_decode(bytes@),
        forall|m: ControlMessage| bytes@ == spec_encode(m) ==> r == Some(m),
{
    match bitcode_decode_u8(bytes) {
        Some(t) => control_from_tag(t),
        None => None,
    }
}

/// A datagram: the payload followed by its channel byte.
pub open spec fn framed(payload: Seq<u8>, channel: u8) -> Seq<u8> {
    payload.push(channel)
}

/// The datagram that carries a control message.
pub open spec fn control_datagram(m: ControlMessage) -> Seq<u8> {
    framed(spec_encode(m), CONTROL_CHANNEL)
}

/// Appends the channel byte to a payload.
pub fn frame(payload: Vec<u8>, channel: u8) -> (r: Vec<u8>)
    ensures
        r@ == framed(payload@, channel),
{
    let mut out = payload;
    out.push(channel);
    out
}

/// Builds the datagram that carries a control message.
pub fn frame_control(m: ControlMessage) -> (r: Vec<u8>)
    ensures
        r@ == control_datagram(m),
        r@.len() > 0,
        r@.last() == CONTROL_CHANNEL,
        spec_decode(r@.drop_last()) == Some(m),
{
    let encoded = encode_control(m);
    let r = frame(encoded, CONTROL_CHANNEL);
    assert(r@.drop_last() =~= spec_encode(m));
    r
}

/// Splits a datagram into its payload and its trailing channel byte;
/// `None` for an empty datagram, which has no channel byte.
pub fn split_frame(datagram: &[u8]) -> (r: Option<(&[u8], u8)>)
    ensures
        datagram@.len() == 0 <==> r is None,
        r matches Some((payload, channel)) ==> datagram@ == framed(payload@, channel),
{
    let n = datagram.len();
    if n == 0 {
        None
    } else {
        let (payload, last) = datagram.split_at(n - 1);
        let channel = last[0];
        assert(datagram@ =~= framed(payload@, channel));
        Some((payload, channel))
    }
}

} // verus!
