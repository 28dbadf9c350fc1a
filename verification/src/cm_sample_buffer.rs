use vstd::prelude::*;

use crate::sc_stream_frame_info::{decoded_status, SCFrameStatus, SCStreamFrameInfo};

verus! {

/// A pixel-buffer view derived from a shared image buffer: the same
/// underlying object, read as pixels.
#[derive(Clone, Copy, Debug, PartialEq, Eq, Structural)]
pub struct CVPixelBuffer {
    pub handle: usize,
}

/// One captured unit of video or audio data: the raw sample handle, an
/// optional shared image-buffer reference, an optional pixel-buffer view
/// derived from it, and the decoded frame status. Built fresh for each
/// delivery; it lives for the duration of the output-handler call unless
/// the handler retains the shared reference explicitly.
#[derive(Clone, Copy, Debug, PartialEq, Eq, Structural)]
pub struct CMSampleBuffer {
    pub sys_ref: usize,
    pub image_buf_ref: Option<usize>,
    pub pixel_buffer: Option<CVPixelBuffer>,
    pub frame_status: SCFrameStatus,
}

impl CMSampleBuffer {
    /// Assembles the wrapper from what the native sample handle's borrowing
    /// accessors returned: its optional frame-info metadata and its optional
    /// shared image buffer. The frame status comes from the exhaustive
    /// decoding, with absent metadata meaning idle; a pixel-buffer view is
    /// derived exactly when an image buffer is present. Borrowing accessors
    /// take no ownership, so no retain count moves here.
    pub fn new(
        sys_ref: usize,
        frame_info: Option<SCStreamFrameInfo>,
        image_buf_ref: Option<usize>,
    ) -> (b: CMSampleBuffer)
        ensures
            b.sys_ref == sys_ref,
            b.image_buf_ref == image_buf_ref,
            frame_info matches Some(info) ==> b.frame_status == decoded_status(info.status_code),
            frame_info is None ==> b.frame_status == SCFrameStatus::Idle,
            b.pixel_buffer is Some <==> image_buf_ref is Some,
            image_buf_ref matches Some(h) ==> b.pixel_buffer == Some(CVPixelBuffer { handle: h }),
    {
        let frame_status: SCFrameStatus = match frame_info {
            Option::Some(info) => info.status(),
            Option::None => SCFrameStatus::Idle,
        };
        let pixel_buffer: Option<CVPixelBuffer> = match image_buf_ref {
            Option::Some(h) => Some(CVPixelBuffer { handle: h }),
            Option::None => None,
        };
        CMSampleBuffer { sys_ref, image_buf_ref, pixel_buffer, frame_status }
    }
}

} // verus!
