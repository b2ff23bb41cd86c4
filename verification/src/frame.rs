//! Frames as the session carries them, buffers as the pipeline carries them,
//! and the passage from one to the other.
//!
//! Both sides count time in nanoseconds. A buffer marks a unit that cannot be
//! decoded on its own with the delta-unit bit of its flags; a frame says the
//! opposite with `keyframe`. This crate keeps to that one bit: a keyframe has
//! it clear, any other frame has it set, and no other bit is read or changed.

use vstd::prelude::*;
use crate::error::BridgeError;
use crate::text::copy_bytes;

verus! {

/// The flag bit of a buffer that needs an earlier one to be decoded.
pub const DELTA_UNIT: u32 = 0x2000;

/// The largest time a buffer can carry; the value above it means "no time".
pub const CLOCK_TIME_MAX: u64 = 0xffff_ffff_ffff_fffe;

/// The number of nanoseconds in a second.
pub const NANOS_PER_SECOND: u64 = 1_000_000_000;

/// The nanoseconds in a span of whole seconds and a part of a second.
pub open spec fn nanos_of(seconds: u64, subsec_nanos: u32) -> int {
    seconds * 1_000_000_000 + subsec_nanos
}

/// The time stamp for a span given as whole seconds and nanoseconds beyond
/// them; `None` where the span is longer than a time stamp can say.
pub fn timestamp_from_parts(seconds: u64, subsec_nanos: u32) -> (out: Option<u64>)
    ensures
        out == (if nanos_of(seconds, subsec_nanos) <= u64::MAX {
            Some(nanos_of(seconds, subsec_nanos) as u64)
        } else {
            None
        }),
{
    match seconds.checked_mul(NANOS_PER_SECOND) {
        Some(whole) => whole.checked_add(subsec_nanos as u64),
        None => None,
    }
}

/// A time stamp as whole seconds and the nanoseconds beyond them.
pub fn timestamp_parts(timestamp: u64) -> (parts: (u64, u32))
    ensures
        parts.0 == timestamp / 1_000_000_000,
        parts.1 == timestamp % 1_000_000_000,
        nanos_of(parts.0, parts.1) == timestamp,
{
    let seconds = timestamp / NANOS_PER_SECOND;
    let rest = timestamp % NANOS_PER_SECOND;
    (seconds, rest as u32)
}

/// One encoded access unit on the session side.
#[derive(Clone, Debug, PartialEq, Eq)]
pub struct Frame {
    /// Nanoseconds since the start of the stream or since the epoch.
    pub timestamp: u64,
    /// Whether the frame can be decoded without any earlier frame.
    pub keyframe: bool,
    /// The encoded bytes.
    pub payload: Vec<u8>,
}

/// What a frame holds.
pub struct FrameView {
    pub timestamp: u64,
    pub keyframe: bool,
    pub payload: Seq<u8>,
}

impl View for Frame {
    type V = FrameView;

    open spec fn view(&self) -> FrameView {
        FrameView { timestamp: self.timestamp, keyframe: self.keyframe, payload: self.payload@ }
    }
}

/// One buffer on the pipeline side.
#[derive(Clone, Debug, PartialEq, Eq)]
pub struct LocalBuffer {
    /// Presentation time in nanoseconds, where the buffer has one.
    pub pts: Option<u64>,
    /// The buffer's flag bits.
    pub flags: u32,
    /// The encoded bytes.
    pub payload: Vec<u8>,
}

/// What a buffer holds.
pub struct BufferView {
    pub pts: Option<u64>,
    pub flags: u32,
    pub payload: Seq<u8>,
}

impl View for LocalBuffer {
    type V = BufferView;

    open spec fn view(&self) -> BufferView {
        BufferView { pts: self.pts, flags: self.flags, payload: self.payload@ }
    }
}

/// Whether the flags mark a unit that depends on an earlier one.
pub open spec fn is_delta(flags: u32) -> bool {
    flags & DELTA_UNIT != 0
}

/// The flags with the delta-unit bit made to say `!keyframe`.
pub open spec fn marked(flags: u32, keyframe: bool) -> u32 {
    if keyframe {
        flags & !DELTA_UNIT
    } else {
        flags | DELTA_UNIT
    }
}

/// The frame that a buffer turns into; a buffer without a time cannot be sent.
pub open spec fn frame_of(buffer: BufferView) -> Result<FrameView, BridgeError> {
    match buffer.pts {
        Some(pts) => Ok(
            FrameView {
                timestamp: pts,
                keyframe: !is_delta(buffer.flags),
                payload: buffer.payload,
            },
        ),
        None => Err(BridgeError::Flow),
    }
}

/// The buffer that a frame turns into when it is shown at local time `pts`.
pub open spec fn buffer_of(frame: FrameView, pts: u64) -> BufferView {
    BufferView { pts: Some(pts), flags: marked(0, frame.keyframe), payload: frame.payload }
}

/// Marking flags records exactly the keyframe bit: reading it back gives
/// `keyframe`, the delta-unit bit is either wholly set or wholly clear, and
/// every other bit is as before.
pub proof fn lemma_marked_two_states(flags: u32, keyframe: bool)
    ensures
        is_delta(marked(flags, keyframe)) == !keyframe,
        marked(flags, keyframe) & DELTA_UNIT == (if keyframe {
            0u32
        } else {
            DELTA_UNIT
        }),
        marked(flags, keyframe) & !DELTA_UNIT == flags & !DELTA_UNIT,
        marked(flags, true) != marked(flags, false),
{
    assert((flags & !0x2000u32) & 0x2000u32 == 0) by (bit_vector);
    assert((flags | 0x2000u32) & 0x2000u32 == 0x2000u32) by (bit_vector);
    assert((flags & !0x2000u32) & !0x2000u32 == flags & !0x2000u32) by (bit_vector);
    assert((flags | 0x2000u32) & !0x2000u32 == flags & !0x2000u32) by (bit_vector);
}

/// Marking flags that already say the same changes nothing, and marking twice
/// is marking once with the later answer.
pub proof fn lemma_marked_stable(flags: u32, first: bool, second: bool)
    ensures
        marked(marked(flags, first), second) == marked(flags, second),
        is_delta(flags) == !second ==> marked(flags, second) == flags,
{
    assert((flags & !0x2000u32) & !0x2000u32 == flags & !0x2000u32) by (bit_vector);
    assert((flags | 0x2000u32) & !0x2000u32 == flags & !0x2000u32) by (bit_vector);
    assert((flags & !0x2000u32) | 0x2000u32 == flags | 0x2000u32) by (bit_vector);
    assert((flags | 0x2000u32) | 0x2000u32 == flags | 0x2000u32) by (bit_vector);
    assert(flags & 0x2000u32 == 0 ==> flags & !0x2000u32 == flags) by (bit_vector);
    assert(flags & 0x2000u32 != 0 ==> flags | 0x2000u32 == flags) by (bit_vector);
}

/// Whether the flags mark a unit that depends on an earlier one.
pub fn is_delta_unit(flags: u32) -> (delta: bool)
    ensures
        delta == is_delta(flags),
{
    flags & DELTA_UNIT != 0
}

/// Sets or clears the delta-unit bit so that it says `!keyframe`.
pub fn mark_keyframe(flags: u32, keyframe: bool) -> (out: u32)
    ensures
        out == marked(flags, keyframe),
        is_delta(out) == !keyframe,
        out & !DELTA_UNIT == flags & !DELTA_UNIT,
{
    proof {
        lemma_marked_two_states(flags, keyframe);
    }
    if keyframe {
        flags & !DELTA_UNIT
    } else {
        flags | DELTA_UNIT
    }
}

impl Frame {
    /// Turns a buffer into the frame to send: the bytes are copied, the time
    /// is the buffer's presentation time, and the frame is a keyframe unless
    /// the buffer is a delta unit. A buffer without a time is a flow error.
    pub fn from_buffer(buffer: &LocalBuffer) -> (out: Result<Frame, BridgeError>)
        ensures
            match out {
                Ok(frame) => frame_of(buffer@) == Ok::<FrameView, BridgeError>(frame@),
                Err(e) => frame_of(buffer@) == Err::<FrameView, BridgeError>(e),
            },
    {
        match buffer.pts {
            Some(pts) => Ok(
                Frame {
                    timestamp: pts,
                    keyframe: !is_delta_unit(buffer.flags),
                    payload: copy_bytes(&buffer.payload),
                },
            ),
            None => Err(BridgeError::Flow),
        }
    }
}

impl LocalBuffer {
    /// Turns a received frame into the buffer to push at local time `pts`.
    pub fn from_frame(frame: Frame, pts: u64) -> (out: LocalBuffer)
        ensures
            out@ == buffer_of(frame@, pts),
            is_delta(out.flags) == !frame.keyframe,
    {
        proof {
            lemma_marked_two_states(0, frame.keyframe);
        }
        LocalBuffer {
            pts: Some(pts),
            flags: mark_keyframe(0, frame.keyframe),
            payload: frame.payload,
        }
    }
}

/// A frame made from a buffer and turned back at the same time gives a
/// buffer with the same time, bytes and delta-unit bit.
pub proof fn lemma_frame_round_trip(buffer: BufferView)
    ensures
        frame_of(buffer) matches Ok(frame) ==> {
            let back = buffer_of(frame, frame.timestamp);
            &&& back.pts == buffer.pts
            &&& back.payload == buffer.payload
            &&& is_delta(back.flags) == is_delta(buffer.flags)
            &&& frame_of(back) == Ok::<FrameView, BridgeError>(frame)
        },
{
    if let Ok(frame) = frame_of(buffer) {
        lemma_marked_two_states(0, frame.keyframe);
    }
}

} // verus!
