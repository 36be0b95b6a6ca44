//! Frames as they are handed to a frame callback.

use vstd::prelude::*;

verus! {

/// The SDK's code for the layout of the pixels in a frame.
#[derive(Debug, Clone, Copy, PartialEq, Eq, Structural, Hash)]
pub struct PixelFormat(pub u32);

/// One received frame. The bytes are borrowed: they are only there for the
/// duration of the callback.
#[derive(Debug)]
pub struct Frame<'a> {
    pub bytes: &'a [u8],
    pub width: u32,
    pub height: u32,
    pub pixel_format: PixelFormat,
    pub timestamp_ns: u64,
    pub frame_id: u64,
}

impl<'a> Frame<'a> {
    /// A frame with the given content.
    pub fn new(
        bytes: &'a [u8],
        width: u32,
        height: u32,
        pixel_format: PixelFormat,
        timestamp_ns: u64,
        frame_id: u64,
    ) -> (frame: Self)
        ensures
            frame == (Frame { bytes, width, height, pixel_format, timestamp_ns, frame_id }),
    {
        Frame { bytes, width, height, pixel_format, timestamp_ns, frame_id }
    }

    /// A frame whose number is both its ID and its timestamp.
    pub fn numbered(
        bytes: &'a [u8],
        width: u32,
        height: u32,
        pixel_format: PixelFormat,
        number: u64,
    ) -> (frame: Self)
        ensures
            frame == (Frame {
                bytes,
                width,
                height,
                pixel_format,
                timestamp_ns: number,
                frame_id: number,
            }),
    {
        Frame::new(bytes, width, height, pixel_format, number, number)
    }
}

} // verus!
