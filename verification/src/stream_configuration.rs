use vstd::prelude::*;

use crate::retain::RetainLedger;

verus! {

/// Plain-value geometry passed across the foreign boundary unchanged.
#[derive(Clone, Copy, Debug, PartialEq, Eq, Structural)]
pub struct CGPoint {
    pub x: i64,
    pub y: i64,
}

#[derive(Clone, Copy, Debug, PartialEq, Eq, Structural)]
pub struct CGSize {
    pub width: i64,
    pub height: i64,
}

#[derive(Clone, Copy, Debug, PartialEq, Eq, Structural)]
pub struct CGRect {
    pub origin: CGPoint,
    pub size: CGSize,
}

/// Plain-value media timestamp passed across the foreign boundary unchanged.
#[derive(Clone, Copy, Debug, PartialEq, Eq, Structural)]
pub struct CMTime {
    pub value: i64,
    pub timescale: i32,
    pub flags: u32,
    pub epoch: i64,
}

pub open spec fn spec_four_char_code(a: u8, b: u8, c: u8, d: u8) -> u32 {
    ((a as int) * 0x1000000 + (b as int) * 0x10000 + (c as int) * 0x100 + (d as int)) as u32
}

/// Packs four character bytes into the integer code the native framework
/// uses for pixel formats.
pub fn four_char_code(a: u8, b: u8, c: u8, d: u8) -> (code: u32)
    ensures
        code == spec_four_char_code(a, b, c, d),
{
    (a as u32) * 0x1000000 + (b as u32) * 0x10000 + (c as u32) * 0x100 + (d as u32)
}

/// The capture parameters a caller fills in before building a stream. Every
/// field has a stated default; the value is turned into a native
/// configuration handle by [`UnsafeStreamConfiguration::materialize`].
#[derive(Clone, Copy, Debug, PartialEq, Eq, Structural)]
pub struct UnsafeStreamConfiguration {
    pub width: u32,
    pub height: u32,
    pub scales_to_fit: bool,
    pub preserves_aspect_ratio: bool,
    pub source_rect: CGRect,
    pub destination_rect: CGRect,
    pub pixel_format: u32,
    pub shows_cursor: bool,
    pub queue_depth: u32,
    pub minimum_frame_interval: CMTime,
    pub captures_audio: bool,
    pub sample_rate: u32,
    pub channel_count: u32,
    pub excludes_current_process_audio: bool,
}

impl UnsafeStreamConfiguration {
    /// The documented defaults: zero dimensions and rectangles, no scaling,
    /// aspect ratio preserved, the fixed default pixel format, hidden
    /// cursor, zero queue depth and zero audio settings.
    pub open spec fn default_spec() -> UnsafeStreamConfiguration {
        UnsafeStreamConfiguration {
            width: 0,
            height: 0,
            scales_to_fit: false,
            preserves_aspect_ratio: true,
            source_rect: CGRect {
                origin: CGPoint { x: 0, y: 0 },
                size: CGSize { width: 0, height: 0 },
            },
            destination_rect: CGRect {
                origin: CGPoint { x: 0, y: 0 },
                size: CGSize { width: 0, height: 0 },
            },
            pixel_format: spec_four_char_code(0x42, 0x47, 0x52, 0x41),
            shows_cursor: false,
            queue_depth: 0,
            minimum_frame_interval: CMTime { value: 0, timescale: 0, flags: 0, epoch: 0 },
            captures_audio: false,
            sample_rate: 0,
            channel_count: 0,
            excludes_current_process_audio: false,
        }
    }
}

impl Default for UnsafeStreamConfiguration {
    fn default() -> (c: UnsafeStreamConfiguration)
        ensures
            c == UnsafeStreamConfiguration::default_spec(),
    {
        let zero_rect: CGRect = CGRect {
            origin: CGPoint { x: 0, y: 0 },
            size: CGSize { width: 0, height: 0 },
        };
        UnsafeStreamConfiguration {
            width: 0,
            height: 0,
            scales_to_fit: false,
            preserves_aspect_ratio: true,
            source_rect: zero_rect,
            destination_rect: zero_rect,
            pixel_format: four_char_code(0x42, 0x47, 0x52, 0x41),
            shows_cursor: false,
            queue_depth: 0,
            minimum_frame_interval: CMTime { value: 0, timescale: 0, flags: 0, epoch: 0 },
            captures_audio: false,
            sample_rate: 0,
            channel_count: 0,
            excludes_current_process_audio: false,
        }
    }
}

/// Model of the native configuration object: one owned handle plus the
/// property values the setters have applied to it so far.
#[derive(Clone, Copy, Debug, PartialEq, Eq, Structural)]
pub struct UnsafeStreamConfigurationRef {
    pub handle: usize,
    pub width: u32,
    pub height: u32,
    pub scales_to_fit: bool,
    pub preserves_aspect_ratio: bool,
    pub source_rect: CGRect,
    pub destination_rect: CGRect,
    pub pixel_format: u32,
    pub shows_cursor: bool,
    pub queue_depth: u32,
    pub minimum_frame_interval: CMTime,
    pub captures_audio: bool,
    pub sample_rate: u32,
    pub channel_count: u32,
    pub excludes_current_process_audio: bool,
}

impl UnsafeStreamConfigurationRef {
    /// The native object's properties all equal the configuration value.
    pub open spec fn reflects(self, c: UnsafeStreamConfiguration) -> bool {
        &&& self.width == c.width
        &&& self.height == c.height
        &&& self.scales_to_fit == c.scales_to_fit
        &&& self.preserves_aspect_ratio == c.preserves_aspect_ratio
        &&& self.source_rect == c.source_rect
        &&& self.destination_rect == c.destination_rect
        &&& self.pixel_format == c.pixel_format
        &&& self.shows_cursor == c.shows_cursor
        &&& self.queue_depth == c.queue_depth
        &&& self.minimum_frame_interval == c.minimum_frame_interval
        &&& self.captures_audio == c.captures_audio
        &&& self.sample_rate == c.sample_rate
        &&& self.channel_count == c.channel_count
        &&& self.excludes_current_process_audio == c.excludes_current_process_audio
    }

    pub fn set_width(&mut self, width: u32)
        ensures
            *final(self) == (UnsafeStreamConfigurationRef { width, ..*old(self) }),
    {
        self.width = width;
    }

    pub fn set_height(&mut self, height: u32)
        ensures
            *final(self) == (UnsafeStreamConfigurationRef { height, ..*old(self) }),
    {
        self.height = height;
    }

    pub fn set_scales_to_fit(&mut self, scales_to_fit: bool)
        ensures
            *final(self) == (UnsafeStreamConfigurationRef { scales_to_fit, ..*old(self) }),
    {
        self.scales_to_fit = scales_to_fit;
    }

    pub fn set_preserves_aspect_ratio(&mut self, preserves_aspect_ratio: bool)
        ensures
            *final(self) == (UnsafeStreamConfigurationRef {
                preserves_aspect_ratio,
                ..*old(self)
            }),
    {
        self.preserves_aspect_ratio = preserves_aspect_ratio;
    }

    pub fn set_source_rect(&mut self, source_rect: CGRect)
        ensures
            *final(self) == (UnsafeStreamConfigurationRef { source_rect, ..*old(self) }),
    {
        self.source_rect = source_rect;
    }

    pub fn set_destination_rect(&mut self, destination_rect: CGRect)
        ensures
            *final(self) == (UnsafeStreamConfigurationRef { destination_rect, ..*old(self) }),
    {
        self.destination_rect = destination_rect;
    }

    pub fn set_pixel_format(&mut self, pixel_format: u32)
        ensures
            *final(self) == (UnsafeStreamConfigurationRef { pixel_format, ..*old(self) }),
    {
        self.pixel_format = pixel_format;
    }

    pub fn set_shows_cursor(&mut self, shows_cursor: bool)
        ensures
            *final(self) == (UnsafeStreamConfigurationRef { shows_cursor, ..*old(self) }),
    {
        self.shows_cursor = shows_cursor;
    }

    pub fn set_queue_depth(&mut self, queue_depth: u32)
        ensures
            *final(self) == (UnsafeStreamConfigurationRef { queue_depth, ..*old(self) }),
    {
        self.queue_depth = queue_depth;
    }

    pub fn set_minimum_frame_interval(&mut self, minimum_frame_interval: CMTime)
        ensures
            *final(self) == (UnsafeStreamConfigurationRef {
                minimum_frame_interval,
                ..*old(self)
            }),
    {
        self.minimum_frame_interval = minimum_frame_interval;
    }

    pub fn set_captures_audio(&mut self, captures_audio: bool)
        ensures
            *final(self) == (UnsafeStreamConfigurationRef { captures_audio, ..*old(self) }),
    {
        self.captures_audio = captures_audio;
    }

    pub fn set_sample_rate(&mut self, sample_rate: u32)
        ensures
            *final(self) == (UnsafeStreamConfigurationRef { sample_rate, ..*old(self) }),
    {
        self.sample_rate = sample_rate;
    }

    pub fn set_channel_count(&mut self, channel_count: u32)
        ensures
            *final(self) == (UnsafeStreamConfigurationRef { channel_count, ..*old(self) }),
    {
        self.channel_count = channel_count;
    }

    pub fn set_excludes_current_process_audio(&mut self, excludes_current_process_audio: bool)
        ensures
            *final(self) == (UnsafeStreamConfigurationRef {
                excludes_current_process_audio,
                ..*old(self)
            }),
    {
        self.excludes_current_process_audio = excludes_current_process_audio;
    }

    /// Models the configuration wrapper's drop glue: the one owned reference
    /// is given back exactly once.
    pub fn destroy(self, ledger: &mut RetainLedger)
        requires
            old(ledger).live(self.handle as int),
        ensures
            final(ledger)@ == old(ledger)@.update(
                self.handle as int,
                (old(ledger)@[self.handle as int] - 1) as u64,
            ),
    {
        ledger.release(self.handle);
    }
}

impl UnsafeStreamConfiguration {
    /// Materializes the configuration value into one owned native
    /// configuration handle: the handle is allocated, then one setter is
    /// invoked per field, so that the finished object reflects every field
    /// of the input.
    pub fn materialize(self, ledger: &mut RetainLedger) -> (r: UnsafeStreamConfigurationRef)
        requires
            old(ledger)@.len() < usize::MAX,
        ensures
            r.handle == old(ledger)@.len(),
            final(ledger)@ == old(ledger)@.push(1u64),
            r.reflects(self),
    {
        let h: usize = ledger.allocate();
        let mut r: UnsafeStreamConfigurationRef = UnsafeStreamConfigurationRef {
            handle: h,
            width: 0,
            height: 0,
            scales_to_fit: false,
            preserves_aspect_ratio: false,
            source_rect: CGRect {
                origin: CGPoint { x: 0, y: 0 },
                size: CGSize { width: 0, height: 0 },
            },
            destination_rect: CGRect {
                origin: CGPoint { x: 0, y: 0 },
                size: CGSize { width: 0, height: 0 },
            },
            pixel_format: 0,
            shows_cursor: false,
            queue_depth: 0,
            minimum_frame_interval: CMTime { value: 0, timescale: 0, flags: 0, epoch: 0 },
            captures_audio: false,
            sample_rate: 0,
            channel_count: 0,
            excludes_current_process_audio: false,
        };
        r.set_width(self.width);
        r.set_height(self.height);
        r.set_captures_audio(self.captures_audio);
        r.set_source_rect(self.source_rect);
        r.set_destination_rect(self.destination_rect);
        r.set_pixel_format(self.pixel_format);
        r.set_minimum_frame_interval(self.minimum_frame_interval);
        r.set_scales_to_fit(self.scales_to_fit);
        r.set_shows_cursor(self.shows_cursor);
        r.set_channel_count(self.channel_count);
        r.set_sample_rate(self.sample_rate);
        r.set_preserves_aspect_ratio(self.preserves_aspect_ratio);
        r.set_queue_depth(self.queue_depth);
        r.set_excludes_current_process_audio(self.excludes_current_process_audio);
        r
    }
}

} // verus!
