use vstd::prelude::*;

verus! {

/// Why, or whether, a delivered sample represents new captured content.
///
/// Decoded from an integer code carried in per-sample metadata; the native
/// framework numbers the variants in the order they are declared here,
/// starting at zero.
#[derive(Clone, Copy, Debug, PartialEq, Eq, Structural)]
pub enum SCFrameStatus {
    /// The system successfully generated a new frame.
    Complete,
    /// No new frame was generated because the display did not change.
    Idle,
    /// No new frame was generated because the display is blank.
    Blank,
    /// No new frame was generated because updates were suspended.
    Suspended,
    /// The first frame sent after the stream starts.
    Started,
    /// The frame is in a stopped state.
    Stopped,
}

/// The exhaustive mapping from a raw metadata code to a frame status. Every
/// unrecognized code falls back to [`SCFrameStatus::Idle`], the same defined
/// value an absent code maps to: no code is ever reinterpreted unchecked.
pub open spec fn status_from_code(code: i64) -> SCFrameStatus {
    if code == 0 {
        SCFrameStatus::Complete
    } else if code == 1 {
        SCFrameStatus::Idle
    } else if code == 2 {
        SCFrameStatus::Blank
    } else if code == 3 {
        SCFrameStatus::Suspended
    } else if code == 4 {
        SCFrameStatus::Started
    } else if code == 5 {
        SCFrameStatus::Stopped
    } else {
        SCFrameStatus::Idle
    }
}

/// What a sample's frame-info metadata dictionary says under the well-known
/// status key, decoded: an absent key yields [`SCFrameStatus::Idle`].
pub open spec fn decoded_status(status_code: Option<i64>) -> SCFrameStatus {
    match status_code {
        Option::None => SCFrameStatus::Idle,
        Option::Some(code) => status_from_code(code),
    }
}

/// The per-sample metadata this logic reads: the raw value found under the
/// well-known frame-status key of the sample's info dictionary, if that key
/// was present at all.
#[derive(Clone, Copy, Debug, PartialEq, Eq, Structural)]
pub struct SCStreamFrameInfo {
    pub status_code: Option<i64>,
}

impl SCStreamFrameInfo {
    /// Decodes the frame status: absence of the status key means idle, each
    /// known code maps to its enumerant, and unknown codes take the defined
    /// fallback.
    pub fn status(&self) -> (s: SCFrameStatus)
        ensures
            s == decoded_status(self.status_code),
    {
        match self.status_code {
            Option::None => SCFrameStatus::Idle,
            Option::Some(code) => {
                if code == 0 {
                    SCFrameStatus::Complete
                } else if code == 1 {
                    SCFrameStatus::Idle
                } else if code == 2 {
                    SCFrameStatus::Blank
                } else if code == 3 {
                    SCFrameStatus::Suspended
                } else if code == 4 {
                    SCFrameStatus::Started
                } else if code == 5 {
                    SCFrameStatus::Stopped
                } else {
                    SCFrameStatus::Idle
                }
            },
        }
    }
}

} // verus!
