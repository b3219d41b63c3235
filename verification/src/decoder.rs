//! The bookkeeping of a streaming decode: which phase the decoder is in,
//! how much of the input it has taken, and what each outcome of a decoding
//! step means for the caller.
//!
//! The decoding itself is outside work. Before a step the session says
//! what to ask of the decoder; after it, the session is told how many
//! bytes were taken and how the step ended, moves to the next phase and
//! names the event to report.

use crate::conversions::{
    bytes_per_sample, calculate_buffer_size, calculate_bytes_per_row,
    calculate_extra_channel_buffer_size, default_options, image_bytes, pixel_samples, plane_bytes,
    row_bytes, sample_bytes, JxlBasicInfoRaw, JxlDecodeOptions,
};
use crate::types::{JxlDecoderEvent, JxlExtraChannelInfo, JxlPixelFormat, JxlStatus};
use vstd::prelude::*;

verus! {

/// Where a decode stands.
#[derive(Debug, Clone, Copy, PartialEq, Eq, Structural)]
pub enum DecoderPhase {
    /// Nothing is known of the image yet.
    Initialized,
    /// The image header is known; between frames.
    WithImageInfo,
    /// The header of the next frame is known; its pixels can be read.
    WithFrameInfo,
}

/// How a step of the decoder ended.
#[derive(Debug, Clone, Copy, PartialEq, Eq, Structural)]
pub enum StepOutcome {
    /// The step is done.
    Complete,
    /// The input ran out before the step was done.
    NeedsMoreInput,
    /// The input is not valid.
    Failed,
}

/// What to do when the caller asks for the next event.
#[derive(Debug, Clone, Copy, PartialEq, Eq, Structural)]
pub enum ProcessStep {
    /// Have the decoder read the image header.
    ReadImageInfo,
    /// Have the decoder read the header of the next frame.
    ReadFrameInfo,
    /// Ask nothing of the decoder and report this event.
    Report(JxlDecoderEvent),
}

/// Why pixels cannot be read.
#[derive(Debug, Clone, Copy, PartialEq, Eq, Structural)]
pub enum ReadError {
    /// The image header has not been decoded yet.
    BasicInfoMissing,
    /// The buffer has `provided` bytes and `required` are needed; `None`
    /// where a row or the image exceeds what the machine can address.
    BufferTooSmall { provided: usize, required: Option<usize> },
    /// No frame header has been decoded since the last frame.
    NoFrame,
}

/// The geometry of the buffers that the pixels of a frame are written to.
#[derive(Debug, Clone, Copy, PartialEq, Eq, Structural)]
pub struct ReadLayout {
    /// Rows of the image.
    pub height: usize,
    /// Bytes of one row of colour samples.
    pub bytes_per_row: usize,
    /// Bytes of one row of an extra channel, a single plane.
    pub plane_bytes_per_row: usize,
}

/// The state of one decode.
#[derive(Debug, Clone)]
pub struct DecoderSession {
    pub phase: DecoderPhase,
    /// All input given so far.
    pub data: Vec<u8>,
    /// How much of `data` the decoder has taken.
    pub data_offset: usize,
    pub basic_info: Option<JxlBasicInfoRaw>,
    pub extra_channels: Vec<JxlExtraChannelInfo>,
    pub pixel_format: JxlPixelFormat,
    pub options: JxlDecodeOptions,
}

/// The phase after a step that started in `phase`, and the event that
/// reports it. A failure sends the decode back to its start.
pub open spec fn transition(phase: DecoderPhase, outcome: StepOutcome) -> (
    DecoderPhase,
    JxlDecoderEvent,
) {
    match outcome {
        StepOutcome::Failed => (DecoderPhase::Initialized, JxlDecoderEvent::Error),
        StepOutcome::NeedsMoreInput => (phase, JxlDecoderEvent::NeedMoreInput),
        StepOutcome::Complete => match phase {
            DecoderPhase::Initialized => (
                DecoderPhase::WithImageInfo,
                JxlDecoderEvent::HaveBasicInfo,
            ),
            DecoderPhase::WithImageInfo => (
                DecoderPhase::WithFrameInfo,
                JxlDecoderEvent::HaveFrameHeader,
            ),
            DecoderPhase::WithFrameInfo => (
                DecoderPhase::WithImageInfo,
                JxlDecoderEvent::FrameComplete,
            ),
        },
    }
}

/// What a request for the next event leads to in `phase`;
/// `has_more_frames` is what the decoder says between frames.
pub open spec fn step_spec(phase: DecoderPhase, has_more_frames: bool) -> ProcessStep {
    match phase {
        DecoderPhase::Initialized => ProcessStep::ReadImageInfo,
        DecoderPhase::WithImageInfo => if has_more_frames {
            ProcessStep::ReadFrameInfo
        } else {
            ProcessStep::Report(JxlDecoderEvent::Complete)
        },
        DecoderPhase::WithFrameInfo => ProcessStep::Report(JxlDecoderEvent::NeedOutputBuffer),
    }
}

/// The outcome of asking to read the pixels of a frame into a buffer of
/// `buffer_size` bytes.
pub open spec fn read_spec(
    phase: DecoderPhase,
    basic_info: Option<JxlBasicInfoRaw>,
    pixel_format: JxlPixelFormat,
    buffer_size: usize,
) -> Result<ReadLayout, ReadError> {
    match basic_info {
        None => Err(ReadError::BasicInfoMissing),
        Some(info) => if row_bytes(info, pixel_format) > usize::MAX || image_bytes(
            info,
            pixel_format,
        ) > usize::MAX {
            Err(ReadError::BufferTooSmall { provided: buffer_size, required: None })
        } else if buffer_size < image_bytes(info, pixel_format) {
            Err(
                ReadError::BufferTooSmall {
                    provided: buffer_size,
                    required: Some(image_bytes(info, pixel_format) as usize),
                },
            )
        } else if phase != DecoderPhase::WithFrameInfo {
            Err(ReadError::NoFrame)
        } else {
            Ok(
                ReadLayout {
                    height: info.Height as usize,
                    bytes_per_row: row_bytes(info, pixel_format) as usize,
                    plane_bytes_per_row: (info.Width * sample_bytes(pixel_format.DataFormat))
                        as usize,
                },
            )
        },
    }
}

/// Whether the buffer offered for an extra channel is used: it is there
/// and holds a whole plane.
pub open spec fn buffer_usable(size: Option<usize>, plane: Option<usize>) -> bool {
    match (size, plane) {
        (Some(s), Some(p)) => s >= p,
        _ => false,
    }
}

/// The indices below `limit` at which `sizes` offers a usable buffer, in
/// rising order.
pub open spec fn usable_below(sizes: Seq<Option<usize>>, plane: Option<usize>, limit: int) -> Seq<
    usize,
>
    decreases limit,
{
    if limit <= 0 {
        Seq::empty()
    } else if buffer_usable(sizes[limit - 1], plane) {
        usable_below(sizes, plane, limit - 1).push((limit - 1) as usize)
    } else {
        usable_below(sizes, plane, limit - 1)
    }
}

/// The status of a request for metadata box `index` of one kind.
/// `cached` is the number of boxes kept from an earlier request, if there
/// was one; without it the boxes are fetched from the decoder, which has
/// them between frames only, and `available` is their number, if the image
/// has any.
pub open spec fn box_status_spec(
    phase: DecoderPhase,
    cached: Option<usize>,
    available: Option<usize>,
    index: u32,
) -> JxlStatus {
    match cached {
        Some(count) => if index < count {
            JxlStatus::Success
        } else {
            JxlStatus::InvalidArgument
        },
        None => if phase != DecoderPhase::WithImageInfo {
            JxlStatus::InvalidState
        } else {
            match available {
                None => JxlStatus::Error,
                Some(count) => if count == 0 {
                    JxlStatus::Error
                } else if index < count {
                    JxlStatus::Success
                } else {
                    JxlStatus::InvalidArgument
                },
            }
        },
    }
}

/// How many metadata boxes of one kind can be had: those that the
/// decoder has between frames, and none in any other phase.
pub fn metadata_box_count(phase: DecoderPhase, available: Option<usize>) -> (r: usize)
    ensures
        r == match (phase, available) {
            (DecoderPhase::WithImageInfo, Some(count)) => count,
            _ => 0,
        },
{
    match (phase, available) {
        (DecoderPhase::WithImageInfo, Some(count)) => count,
        _ => 0,
    }
}

/// Decides the status of a request for metadata box `index`.
pub fn metadata_box_status(
    phase: DecoderPhase,
    cached: Option<usize>,
    available: Option<usize>,
    index: u32,
) -> (r: JxlStatus)
    ensures
        r == box_status_spec(phase, cached, available, index),
{
    let count: usize = match cached {
        Some(count) => count,
        None => {
            match phase {
                DecoderPhase::WithImageInfo => {},
                _ => {
                    return JxlStatus::InvalidState;
                },
            }
            match available {
                None => {
                    return JxlStatus::Error;
                },
                Some(count) => {
                    if count == 0 {
                        return JxlStatus::Error;
                    }
                    count
                },
            }
        },
    };
    if index as usize >= count {
        JxlStatus::InvalidArgument
    } else {
        JxlStatus::Success
    }
}

impl DecoderSession {
    /// The decoder has taken no more input than there is.
    pub open spec fn wf(&self) -> bool {
        self.data_offset <= self.data@.len()
    }

    /// The input that the decoder has not taken yet.
    pub open spec fn pending_spec(&self) -> Seq<u8> {
        self.data@.skip(self.data_offset as int)
    }

    /// A session with default options.
    pub fn new() -> (r: DecoderSession)
        ensures
            r.wf(),
            r.phase == DecoderPhase::Initialized,
            r.data@.len() == 0,
            r.data_offset == 0,
            r.basic_info.is_none(),
            r.extra_channels@.len() == 0,
            r.pixel_format == default_options().PixelFormat,
            r.options == default_options(),
    {
        DecoderSession::with_options(JxlDecodeOptions::default())
    }

    /// A session with the given options; pixels come in the format that
    /// the options name.
    pub fn with_options(options: JxlDecodeOptions) -> (r: DecoderSession)
        ensures
            r.wf(),
            r.phase == DecoderPhase::Initialized,
            r.data@.len() == 0,
            r.data_offset == 0,
            r.basic_info.is_none(),
            r.extra_channels@.len() == 0,
            r.pixel_format == options.PixelFormat,
            r.options == options,
    {
        DecoderSession {
            phase: DecoderPhase::Initialized,
            data: Vec::new(),
            data_offset: 0,
            basic_info: None,
            extra_channels: Vec::new(),
            pixel_format: options.PixelFormat,
            options,
        }
    }

    /// Forgets the image and the input; options and pixel format stay.
    pub fn reset(&mut self)
        ensures
            final(self).wf(),
            final(self).phase == DecoderPhase::Initialized,
            final(self).data@.len() == 0,
            final(self).data_offset == 0,
            final(self).basic_info.is_none(),
            final(self).extra_channels@.len() == 0,
            final(self).pixel_format == old(self).pixel_format,
            final(self).options == old(self).options,
    {
        self.phase = DecoderPhase::Initialized;
        self.data.clear();
        self.data_offset = 0;
        self.basic_info = None;
        self.extra_channels.clear();
    }

    /// Goes back to the start of the input, which stays.
    pub fn rewind(&mut self)
        ensures
            final(self).wf(),
            final(self).phase == DecoderPhase::Initialized,
            final(self).data@ == old(self).data@,
            final(self).data_offset == 0,
            final(self).basic_info.is_none(),
            final(self).extra_channels@.len() == 0,
            final(self).pixel_format == old(self).pixel_format,
            final(self).options == old(self).options,
    {
        self.phase = DecoderPhase::Initialized;
        self.data_offset = 0;
        self.basic_info = None;
        self.extra_channels.clear();
    }

    /// Adds input behind what is there; nothing else changes.
    pub fn append_input(&mut self, bytes: &[u8])
        requires
            old(self).wf(),
        ensures
            final(self).wf(),
            final(self).data@ == old(self).data@ + bytes@,
            final(self).pending_spec() == old(self).pending_spec() + bytes@,
            final(self).data_offset == old(self).data_offset,
            final(self).phase == old(self).phase,
            final(self).basic_info == old(self).basic_info,
            final(self).extra_channels@ == old(self).extra_channels@,
            final(self).pixel_format == old(self).pixel_format,
            final(self).options == old(self).options,
    {
        self.data.extend_from_slice(bytes);
        assert(self.pending_spec() =~= old(self).pending_spec() + bytes@);
    }

    /// The input that the decoder is to read from next.
    pub fn pending(&self) -> (r: &[u8])
        requires
            self.wf(),
        ensures
            r@ == self.pending_spec(),
    {
        let all = self.data.as_slice();
        let r = &all[self.data_offset..all.len()];
        assert(r@ =~= self.pending_spec());
        r
    }

    /// Says what a request for the next event leads to. Between frames it
    /// depends on whether the decoder has more frames.
    pub fn next_step(&self, has_more_frames: bool) -> (r: ProcessStep)
        ensures
            r == step_spec(self.phase, has_more_frames),
    {
        match self.phase {
            DecoderPhase::Initialized => ProcessStep::ReadImageInfo,
            DecoderPhase::WithImageInfo => {
                if has_more_frames {
                    ProcessStep::ReadFrameInfo
                } else {
                    ProcessStep::Report(JxlDecoderEvent::Complete)
                }
            },
            DecoderPhase::WithFrameInfo => ProcessStep::Report(JxlDecoderEvent::NeedOutputBuffer),
        }
    }

    /// Whether more frames follow: between frames the decoder knows, and
    /// with a frame header at hand there is that frame.
    pub fn has_more_frames(&self, decoder_has_more: bool) -> (r: bool)
        ensures
            r == match self.phase {
                DecoderPhase::Initialized => false,
                DecoderPhase::WithImageInfo => decoder_has_more,
                DecoderPhase::WithFrameInfo => true,
            },
    {
        match self.phase {
            DecoderPhase::WithImageInfo => decoder_has_more,
            DecoderPhase::WithFrameInfo => true,
            DecoderPhase::Initialized => false,
        }
    }

    /// Records how a step of the decoder ended after it took `consumed`
    /// bytes of the pending input, and says which event to report. Reading
    /// the pixels of a frame and skipping a frame are steps like the
    /// reading of a header.
    pub fn finish_step(&mut self, consumed: usize, outcome: StepOutcome) -> (r: JxlDecoderEvent)
        requires
            old(self).wf(),
            consumed <= old(self).pending_spec().len(),
        ensures
            final(self).wf(),
            final(self).phase == transition(old(self).phase, outcome).0,
            r == transition(old(self).phase, outcome).1,
            final(self).data@ == old(self).data@,
            final(self).data_offset == old(self).data_offset + consumed,
            final(self).basic_info == old(self).basic_info,
            final(self).extra_channels@ == old(self).extra_channels@,
            final(self).pixel_format == old(self).pixel_format,
            final(self).options == old(self).options,
    {
        let len: usize = self.data.len();
        assert(self.data_offset + consumed <= len);
        self.data_offset = self.data_offset + consumed;
        match outcome {
            StepOutcome::Failed => {
                self.phase = DecoderPhase::Initialized;
                JxlDecoderEvent::Error
            },
            StepOutcome::NeedsMoreInput => JxlDecoderEvent::NeedMoreInput,
            StepOutcome::Complete => match self.phase {
                DecoderPhase::Initialized => {
                    self.phase = DecoderPhase::WithImageInfo;
                    JxlDecoderEvent::HaveBasicInfo
                },
                DecoderPhase::WithImageInfo => {
                    self.phase = DecoderPhase::WithFrameInfo;
                    JxlDecoderEvent::HaveFrameHeader
                },
                DecoderPhase::WithFrameInfo => {
                    self.phase = DecoderPhase::WithImageInfo;
                    JxlDecoderEvent::FrameComplete
                },
            },
        }
    }

    /// Keeps what the image header says.
    pub fn set_image_info(&mut self, info: JxlBasicInfoRaw, extra_channels: Vec<JxlExtraChannelInfo>)
        ensures
            final(self).basic_info == Some(info),
            final(self).extra_channels@ == extra_channels@,
            final(self).phase == old(self).phase,
            final(self).data@ == old(self).data@,
            final(self).data_offset == old(self).data_offset,
            final(self).pixel_format == old(self).pixel_format,
            final(self).options == old(self).options,
    {
        self.basic_info = Some(info);
        self.extra_channels = extra_channels;
    }

    /// The size of the buffer that the pixels of a frame need; 0 while the
    /// image is not known or where it is beyond what can be addressed.
    pub fn buffer_size(&self) -> (r: usize)
        ensures
            r == match self.basic_info {
                Some(info) => if image_bytes(info, self.pixel_format) <= usize::MAX {
                    image_bytes(info, self.pixel_format) as usize
                } else {
                    0
                },
                None => 0,
            },
    {
        match &self.basic_info {
            Some(info) => match calculate_buffer_size(info, &self.pixel_format) {
                Some(size) => size,
                None => 0,
            },
            None => 0,
        }
    }

    /// The size of the buffer that extra channel `index` needs; 0 while
    /// the image is not known, where it has no such channel, or where the
    /// size is beyond what can be addressed.
    pub fn extra_channel_buffer_size(&self, index: u32) -> (r: usize)
        ensures
            r == match self.basic_info {
                Some(info) => if index < self.extra_channels@.len() && plane_bytes(
                    info,
                    self.pixel_format,
                ) <= usize::MAX {
                    plane_bytes(info, self.pixel_format) as usize
                } else {
                    0
                },
                None => 0,
            },
    {
        match &self.basic_info {
            Some(info) => {
                if index as usize >= self.extra_channels.len() {
                    return 0;
                }
                match calculate_extra_channel_buffer_size(info, &self.pixel_format) {
                    Some(size) => size,
                    None => 0,
                }
            },
            None => 0,
        }
    }

    /// Checks that the pixels of a frame can be read into a buffer of
    /// `buffer_size` bytes, and gives the geometry of that buffer.
    pub fn check_read_pixels(&self, buffer_size: usize) -> (r: Result<ReadLayout, ReadError>)
        ensures
            r == read_spec(self.phase, self.basic_info, self.pixel_format, buffer_size),
    {
        let info = match &self.basic_info {
            Some(info) => info,
            None => {
                return Err(ReadError::BasicInfoMissing);
            },
        };
        let bytes_per_row = match calculate_bytes_per_row(info, &self.pixel_format) {
            Some(row) => row,
            None => {
                return Err(ReadError::BufferTooSmall { provided: buffer_size, required: None });
            },
        };
        let required = calculate_buffer_size(info, &self.pixel_format);
        let enough = match required {
            Some(size) => buffer_size >= size,
            None => false,
        };
        if !enough {
            return Err(ReadError::BufferTooSmall { provided: buffer_size, required });
        }
        match self.phase {
            DecoderPhase::WithFrameInfo => {},
            _ => {
                return Err(ReadError::NoFrame);
            },
        }
        let bps: usize = bytes_per_sample(self.pixel_format.DataFormat);
        let width: usize = info.Width as usize;
        assert(width * bps <= bytes_per_row) by (nonlinear_arith)
            requires
                bytes_per_row == width * pixel_samples(self.pixel_format.ColorType) * bps,
                pixel_samples(self.pixel_format.ColorType) >= 1,
                bps >= 1,
                width >= 0,
        ;
        Ok(ReadLayout { height: info.Height as usize, bytes_per_row, plane_bytes_per_row: width * bps })
    }

    /// Picks, among the buffers offered for the extra channels, those that
    /// are used: `sizes[i]` is the size of the buffer for channel `i`, or
    /// `None` where the caller offers none. Buffers beyond the number of
    /// extra channels are ignored.
    pub fn select_extra_buffers(&self, sizes: &[Option<usize>]) -> (r: Vec<usize>)
        requires
            self.basic_info.is_some(),
        ensures
            r@ == usable_below(
                sizes@,
                if plane_bytes(self.basic_info.unwrap(), self.pixel_format) <= usize::MAX {
                    Some(plane_bytes(self.basic_info.unwrap(), self.pixel_format) as usize)
                } else {
                    None
                },
                if self.extra_channels@.len() < sizes@.len() {
                    self.extra_channels@.len() as int
                } else {
                    sizes@.len() as int
                },
            ),
    {
        let plane = match &self.basic_info {
            Some(info) => calculate_extra_channel_buffer_size(info, &self.pixel_format),
            None => None,
        };
        let limit: usize = if self.extra_channels.len() < sizes.len() {
            self.extra_channels.len()
        } else {
            sizes.len()
        };
        let mut chosen: Vec<usize> = Vec::new();
        let mut i: usize = 0;
        while i < limit
            invariant
                i <= limit <= sizes@.len(),
                chosen@ == usable_below(sizes@, plane, i as int),
            decreases limit - i,
        {
            let usable = match (sizes[i], plane) {
                (Some(s), Some(p)) => s >= p,
                _ => false,
            };
            if usable {
                chosen.push(i);
            }
            i = i + 1;
        }
        chosen
    }
}

} // verus!
