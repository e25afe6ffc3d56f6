//! The decoder for the byte stream of the inertial sensor.
//!
//! The sensor sends frames of 11 bytes: a discriminator, four samples of 16 bits
//! each with the low byte first, a checksum, and the byte 0x55, which marks the end
//! of a frame. The checksum is carried but not checked. Three kinds of frame are
//! understood; all measurements come out in 16.16 fixed point, without rounding.

use vstd::prelude::*;
use vstd::slice::slice_subrange;
use bytes::{ByteOrder, BytesMut, LittleEndian};
use crate::inputs::Input;

verus! {

/// The byte that ends a frame.
pub const FRAME_START: u8 = 0x55;

/// The number of bytes of a frame before the marker.
pub const FRAME_LENGTH: usize = 10;

/// Discriminator of a frame that holds an acceleration.
pub const ACCELERATION: u8 = 0x51;

/// Discriminator of a frame that holds an angular velocity.
pub const ANGULAR_VELOCITY: u8 = 0x52;

/// Discriminator of a frame that holds an angle.
pub const ANGLE: u8 = 0x53;

#[verifier::external_type_specification]
#[verifier::external_body]
pub struct ExBytesMut(bytes::BytesMut);

/// The bytes that a buffer holds, first to last.
pub uninterp spec fn buffered(buffer: BytesMut) -> Seq<u8>;

/// `BytesMut::split_to`: hands out the first `at` bytes of the buffer as a buffer of
/// their own and leaves the others. It panics where the buffer holds fewer.
pub assume_specification[ bytes::BytesMut::split_to ](buffer: &mut BytesMut, at: usize) -> (front:
    BytesMut)
    requires
        at <= buffered(*old(buffer)).len(),
    ensures
        buffered(front) == buffered(*old(buffer)).take(at as int),
        buffered(*final(buffer)) == buffered(*old(buffer)).skip(at as int),
;

/// `AsRef<[u8]>::as_ref` of `BytesMut`: the buffer's bytes as a slice.
#[verifier::external_body]
fn as_bytes(buffer: &BytesMut) -> (bytes: &[u8])
    ensures
        bytes@ == buffered(*buffer),
{
    buffer.as_ref()
}

/// The number that two bytes stand for in two's complement, low byte first.
pub open spec fn sample_le(low: u8, high: u8) -> i16 {
    if high < 128 {
        (low + 256 * high) as i16
    } else {
        (low + 256 * high - 65536) as i16
    }
}

/// `ByteOrder::read_i16` of `LittleEndian`: the signed number in the first two bytes
/// of a slice, low byte first. It panics on a slice of fewer than two bytes.
#[verifier::external_body]
fn read_i16(bytes: &[u8]) -> (sample: i16)
    requires
        bytes@.len() >= 2,
    ensures
        sample == sample_le(bytes@[0], bytes@[1]),
{
    LittleEndian::read_i16(bytes)
}

/// One measurement of the inertial sensor, in 16.16 fixed point.
#[derive(Clone, Copy, Debug, PartialEq, Eq)]
pub enum Measurement {
    /// Acceleration along the three axes, in meters per second squared.
    Acceleration { x: i32, y: i32, z: i32 },
    /// Angular velocity about the three axes, in degrees per second, and the
    /// temperature in hundredths of a degree.
    AngularVelocity { x: i32, y: i32, z: i32, temperature: i16 },
    /// Roll, pitch and yaw in degrees, and the temperature in hundredths of a degree.
    Angle { roll: i32, pitch: i32, yaw: i32, temperature: i16 },
}

/// What one call of the decoder found at the front of the buffer.
#[derive(Clone, Copy, Debug, PartialEq, Eq)]
pub enum Decoded {
    /// The buffer holds no marker yet: nothing was taken from it.
    Incomplete,
    /// The bytes before the marker were not 10: they were dropped, `length` of them.
    Discarded { length: usize },
    /// A frame of a kind that is not understood: it was dropped.
    Unknown { discriminator: u8 },
    /// A frame that was understood.
    Frame(Measurement),
}

/// The `index`th sample of a frame's body: the two bytes after the discriminator
/// and after the samples before it.
pub open spec fn sample_at(body: Seq<u8>, index: int) -> int {
    sample_le(body[1 + 2 * index], body[2 + 2 * index]) as int
}

/// What the bytes before a marker stand for. A body of 10 bytes is a frame: its
/// first byte says which kind. An acceleration is a sample times 16 / 32768, an
/// angular velocity a sample times 2000 / 32768, an angle a sample times
/// 180 / 32768; in units of 1 / 65536 these are the sample times 32, 4000 and 360.
pub open spec fn parsed(body: Seq<u8>) -> Decoded {
    if body.len() != FRAME_LENGTH {
        Decoded::Discarded { length: body.len() as usize }
    } else if body[0] == ACCELERATION {
        Decoded::Frame(
            Measurement::Acceleration {
                x: (sample_at(body, 0) * 32) as i32,
                y: (sample_at(body, 1) * 32) as i32,
                z: (sample_at(body, 2) * 32) as i32,
            },
        )
    } else if body[0] == ANGULAR_VELOCITY {
        Decoded::Frame(
            Measurement::AngularVelocity {
                x: (sample_at(body, 0) * 4000) as i32,
                y: (sample_at(body, 1) * 4000) as i32,
                z: (sample_at(body, 2) * 4000) as i32,
                temperature: sample_at(body, 3) as i16,
            },
        )
    } else if body[0] == ANGLE {
        Decoded::Frame(
            Measurement::Angle {
                roll: (sample_at(body, 0) * 360) as i32,
                pitch: (sample_at(body, 1) * 360) as i32,
                yaw: (sample_at(body, 2) * 360) as i32,
                temperature: sample_at(body, 3) as i16,
            },
        )
    } else {
        Decoded::Unknown { discriminator: body[0] }
    }
}

/// What the decoder makes of a buffer, and what it leaves in it. The bytes before
/// the first marker are the body of a frame; they and the marker are taken. Without
/// a marker nothing is taken.
pub open spec fn decoded(bytes: Seq<u8>) -> (Decoded, Seq<u8>) {
    match bytes.index_of_first(FRAME_START) {
        Some(offset) => (parsed(bytes.take(offset)), bytes.skip(offset + 1)),
        None => (Decoded::Incomplete, bytes),
    }
}

/// The event that a measurement is passed on as. The horizontal rate of the head is
/// the angular velocity about the first axis, the vertical rate that about the
/// third. An acceleration is not passed on.
pub open spec fn event_of(measurement: Measurement) -> Option<Input> {
    match measurement {
        Measurement::Acceleration { .. } => None,
        Measurement::AngularVelocity { x, z, .. } => Some(Input::Gyro { x, y: z }),
        Measurement::Angle { roll, pitch, yaw, .. } => Some(Input::HeadAngle { yaw, pitch, roll }),
    }
}

impl Measurement {
    /// The event for the controller that this measurement gives rise to, if any.
    pub fn event(&self) -> (event: Option<Input>)
        ensures
            event == event_of(*self),
    {
        match *self {
            Measurement::Acceleration { .. } => None,
            Measurement::AngularVelocity { x, z, .. } => Some(Input::Gyro { x, y: z }),
            Measurement::Angle { roll, pitch, yaw, .. } => Some(
                Input::HeadAngle { yaw, pitch, roll },
            ),
        }
    }
}

/// Where the first marker stands in `bytes`.
fn find_marker(bytes: &[u8]) -> (offset: Option<usize>)
    ensures
        match offset {
            Some(k) => bytes@.index_of_first(FRAME_START) == Some(k as int),
            None => bytes@.index_of_first(FRAME_START) is None,
        },
{
    let mut i: usize = 0;
    while i < bytes.len()
        invariant
            i <= bytes@.len(),
            forall|j: int| 0 <= j < i ==> bytes@[j] != FRAME_START,
        decreases bytes@.len() - i,
    {
        if bytes[i] == FRAME_START {
            proof {
                bytes@.index_of_first_ensures(FRAME_START);
                assert(bytes@.contains(FRAME_START));
            }
            return Some(i);
        }
        i += 1;
    }
    proof {
        bytes@.index_of_first_ensures(FRAME_START);
    }
    None
}

/// The sample that starts at the byte `at` of a frame's body, times `gain`.
fn scaled_sample(body: &[u8], index: usize, gain: i32) -> (value: i32)
    requires
        body@.len() == FRAME_LENGTH,
        index < 4,
        0 < gain <= 4000,
    ensures
        value == sample_at(body@, index as int) * gain,
{
    let at: usize = 1 + 2 * index;
    let sample: i16 = read_i16(slice_subrange(body, at, at + 2));
    assert(-32768 * 4000 <= sample * gain <= 32768 * 4000) by (nonlinear_arith)
        requires
            -32768 <= sample <= 32767,
            0 < gain <= 4000,
    ;
    sample as i32 * gain
}

/// The temperature that a frame's body ends with, in hundredths of a degree.
fn temperature(body: &[u8]) -> (value: i16)
    requires
        body@.len() == FRAME_LENGTH,
    ensures
        value == sample_at(body@, 3),
{
    read_i16(slice_subrange(body, 7, 9))
}

/// Reads the bytes that stood before a marker.
pub fn parse(body: &[u8]) -> (result: Decoded)
    ensures
        result == parsed(body@),
{
    if body.len() != FRAME_LENGTH {
        return Decoded::Discarded { length: body.len() };
    }
    let discriminator: u8 = body[0];
    if discriminator == ACCELERATION {
        Decoded::Frame(
            Measurement::Acceleration {
                x: scaled_sample(body, 0, 32),
                y: scaled_sample(body, 1, 32),
                z: scaled_sample(body, 2, 32),
            },
        )
    } else if discriminator == ANGULAR_VELOCITY {
        Decoded::Frame(
            Measurement::AngularVelocity {
                x: scaled_sample(body, 0, 4000),
                y: scaled_sample(body, 1, 4000),
                z: scaled_sample(body, 2, 4000),
                temperature: temperature(body),
            },
        )
    } else if discriminator == ANGLE {
        Decoded::Frame(
            Measurement::Angle {
                roll: scaled_sample(body, 0, 360),
                pitch: scaled_sample(body, 1, 360),
                yaw: scaled_sample(body, 2, 360),
                temperature: temperature(body),
            },
        )
    } else {
        Decoded::Unknown { discriminator }
    }
}

/// Takes the next frame from the front of `src`, if there is a marker in it.
///
/// Whatever the bytes are, the call returns; and unless it answers `Incomplete`, it
/// takes at least the marker, so the buffer gets shorter.
pub fn decode(src: &mut BytesMut) -> (result: Decoded)
    ensures
        (result, buffered(*final(src))) == decoded(buffered(*old(src))),
        result is Incomplete || buffered(*final(src)).len() < buffered(*old(src)).len(),
{
    let offset: usize = match find_marker(as_bytes(src)) {
        Some(k) => k,
        None => {
            return Decoded::Incomplete;
        },
    };
    proof {
        buffered(*src).index_of_first_ensures(FRAME_START);
    }
    let frame: BytesMut = src.split_to(offset);
    let _marker: BytesMut = src.split_to(1);
    assert(buffered(*src) == buffered(*old(src)).skip(offset + 1));
    parse(as_bytes(&frame))
}

/// The decoder takes what stands before the first marker for the body of a frame,
/// whatever it holds, and goes on behind that marker: a body of other than 10 bytes
/// is discarded, and the next call starts at the byte that followed the marker.
pub proof fn lemma_decoder_resumes_behind_marker(body: Seq<u8>, rest: Seq<u8>)
    requires
        !body.contains(FRAME_START),
    ensures
        decoded(body + seq![FRAME_START] + rest) == (parsed(body), rest),
        body.len() != FRAME_LENGTH ==> decoded(body + seq![FRAME_START] + rest).0 == (
        Decoded::Discarded { length: body.len() as usize }),
{
    let bytes = body + seq![FRAME_START] + rest;
    bytes.index_of_first_ensures(FRAME_START);
    assert(bytes[body.len() as int] == FRAME_START);
    assert(bytes.contains(FRAME_START));
    let offset = bytes.index_of_first(FRAME_START).unwrap();
    assert(forall|j: int| 0 <= j < body.len() ==> bytes[j] == body[j]);
    if offset < body.len() {
        assert(body[offset] == FRAME_START);
        assert(body.contains(FRAME_START));
    }
    assert(offset == body.len());
    assert(bytes.take(offset) =~= body);
    assert(bytes.skip(offset + 1) =~= rest);
}

} // verus!
