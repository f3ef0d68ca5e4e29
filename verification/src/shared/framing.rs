//! Frames on the downlink: one byte for the kind of packet, then the packet.

use crate::shared::packets::PacketType;
use vstd::prelude::*;

verus! {

/// The longest frame on the link.
pub const MAX_FRAME_LENGTH: usize = 1024;

/// A frame with its first byte.
pub open spec fn framed(packet_type: PacketType, body: Seq<u8>) -> Seq<u8> {
    seq![packet_type.code_spec()] + body
}

/// Puts the byte for the kind of packet in front of a packet.
pub fn frame(packet_type: PacketType, body: &[u8]) -> (r: Vec<u8>)
    ensures
        r@ == framed(packet_type, body@),
{
    let mut out: Vec<u8> = Vec::new();
    out.push(packet_type.code());
    let mut i: usize = 0;
    while i < body.len()
        invariant
            i <= body@.len(),
            out@ == framed(packet_type, body@.take(i as int)),
        decreases body@.len() - i,
    {
        out.push(body[i]);
        i = i + 1;
        assert(body@.take(i as int) =~= body@.take(i - 1).push(body@[i - 1]));
    }
    assert(body@.take(i as int) =~= body@);
    out
}

/// Where a frame goes.
#[derive(Debug, Clone, Copy, PartialEq, Eq, Structural)]
pub enum Route {
    /// A frame without a byte.
    Empty,
    /// The rest is a fault.
    Fault,
    /// The rest is a sensor reading.
    Sensor,
    /// The first byte stands for nothing that is sent down.
    Unknown(u8),
}

/// Where a frame goes. Its first byte alone decides.
pub open spec fn route_spec(bytes: Seq<u8>) -> Route {
    if bytes.len() == 0 {
        Route::Empty
    } else if bytes[0] == PacketType::FaultNotify.code_spec() {
        Route::Fault
    } else if bytes[0] == PacketType::SensorData.code_spec() {
        Route::Sensor
    } else {
        Route::Unknown(bytes[0])
    }
}

/// Where a frame goes.
pub fn route(bytes: &[u8]) -> (r: Route)
    ensures
        r == route_spec(bytes@),
{
    if bytes.len() == 0 {
        return Route::Empty;
    }
    let packet_type: u8 = bytes[0];
    if packet_type == PacketType::FaultNotify.code() {
        Route::Fault
    } else if packet_type == PacketType::SensorData.code() {
        Route::Sensor
    } else {
        Route::Unknown(packet_type)
    }
}

/// The packet in a frame.
pub fn body(bytes: &[u8]) -> (r: Vec<u8>)
    requires
        bytes@.len() > 0,
    ensures
        r@ == bytes@.skip(1),
{
    let mut out: Vec<u8> = Vec::new();
    let mut i: usize = 1;
    while i < bytes.len()
        invariant
            1 <= i <= bytes@.len(),
            out@ == bytes@.subrange(1, i as int),
        decreases bytes@.len() - i,
    {
        out.push(bytes[i]);
        i = i + 1;
        assert(bytes@.subrange(1, i as int) =~= bytes@.subrange(1, i - 1).push(bytes@[i - 1]));
    }
    assert(bytes@.subrange(1, i as int) =~= bytes@.skip(1));
    out
}

/// What is sent down as a reading or a fault is read as such, byte for byte; every other kind
/// of packet is told apart from both.
pub proof fn law_frame_round_trip(packet_type: PacketType, body: Seq<u8>)
    ensures
        framed(packet_type, body).skip(1) == body,
        route_spec(framed(PacketType::SensorData, body)) == Route::Sensor,
        route_spec(framed(PacketType::FaultNotify, body)) == Route::Fault,
        packet_type != PacketType::SensorData && packet_type != PacketType::FaultNotify
            ==> route_spec(framed(packet_type, body)) == Route::Unknown(packet_type.code_spec()),
{
    assert(framed(packet_type, body).skip(1) =~= body);
}

} // verus!
