//! Choices of the hardware H.264 encoder: which GPU encoder to use, how it
//! is configured, how frames are timed and keyed, and how the queue of an
//! asynchronous encoder is kept.
use vstd::prelude::*;
use crate::identity::{decode_utf16_lossy, utf16_lossy};
use crate::local::{to_lowercase, unicode_lowercase};
use crate::text::{chars_of, find, spec_find, string_of, trim_by, trim_chars, Strip};

verus! {

/// The GPU encoders the agent knows.
#[derive(Clone, Copy, Debug, PartialEq, Eq, Structural)]
pub enum GpuBackend {
    NvidiaNvenc,
    AmdAmf,
    IntelQuickSync,
    WindowsHardwareMft,
}

impl GpuBackend {
    /// The name the agent reports for the encoder.
    pub fn name(&self) -> (s: &'static str)
        ensures
            s@ == match *self {
                GpuBackend::NvidiaNvenc => "NVIDIA NVENC"@,
                GpuBackend::AmdAmf => "AMD AMF"@,
                GpuBackend::IntelQuickSync => "Intel Quick Sync"@,
                GpuBackend::WindowsHardwareMft => "Windows Hardware MFT"@,
            },
    {
        match self {
            GpuBackend::NvidiaNvenc => "NVIDIA NVENC",
            GpuBackend::AmdAmf => "AMD AMF",
            GpuBackend::IntelQuickSync => "Intel Quick Sync",
            GpuBackend::WindowsHardwareMft => "Windows Hardware MFT",
        }
    }
}

/// Whose display adapter one is.
#[derive(Clone, Copy, Debug, PartialEq, Eq, Structural)]
pub enum AdapterMaker {
    Nvidia,
    Amd,
    Intel,
    Other,
}

/// Whether `pat` occurs in `s`.
pub open spec fn mentions(s: Seq<char>, pat: Seq<char>) -> bool {
    spec_find(s, pat) is Some
}

/// An adapter's description as the agent compares it: the UTF-16 text
/// without surrounding NULs, lowercased.
pub open spec fn adapter_name(description: Seq<u16>) -> Seq<char> {
    unicode_lowercase(trim_by(utf16_lossy(description), Strip::Nul))
}

/// The maker of an adapter, by PCI vendor ID or by a word in its name;
/// NVIDIA is tried first, then AMD, then Intel.
pub open spec fn spec_adapter_maker(vendor_id: u32, name: Seq<char>) -> AdapterMaker {
    if vendor_id == 0x10DE || mentions(name, "nvidia"@) || mentions(name, "geforce"@) {
        AdapterMaker::Nvidia
    } else if vendor_id == 0x1002 || mentions(name, "amd"@) || mentions(name, "radeon"@) {
        AdapterMaker::Amd
    } else if vendor_id == 0x8086 || mentions(name, "intel"@) || mentions(name, "uhd"@) || mentions(
        name,
        "iris"@,
    ) || mentions(name, "arc"@) {
        AdapterMaker::Intel
    } else {
        AdapterMaker::Other
    }
}

fn mentions_exec(s: &[char], pat: &str) -> (b: bool)
    ensures
        b == mentions(s@, pat@),
{
    let p = chars_of(pat);
    find(s, p.as_slice()).is_some()
}

/// The maker of an adapter from its vendor ID and lowercased name.
pub fn maker_of_lowercase_name(vendor_id: u32, lower: &str) -> (m: AdapterMaker)
    ensures
        m == spec_adapter_maker(vendor_id, lower@),
{
    let name = chars_of(lower);
    let n = name.as_slice();
    if vendor_id == 0x10DE || mentions_exec(n, "nvidia") || mentions_exec(n, "geforce") {
        AdapterMaker::Nvidia
    } else if vendor_id == 0x1002 || mentions_exec(n, "amd") || mentions_exec(n, "radeon") {
        AdapterMaker::Amd
    } else if vendor_id == 0x8086 || mentions_exec(n, "intel") || mentions_exec(n, "uhd")
        || mentions_exec(n, "iris") || mentions_exec(n, "arc") {
        AdapterMaker::Intel
    } else {
        AdapterMaker::Other
    }
}

/// The maker of an adapter from its vendor ID and UTF-16 description.
pub fn classify_adapter(vendor_id: u32, description: &[u16]) -> (m: AdapterMaker)
    ensures
        m == spec_adapter_maker(vendor_id, adapter_name(description@)),
{
    let text = decode_utf16_lossy(description);
    let trimmed = trim_chars(chars_of(text.as_str()).as_slice(), Strip::Nul);
    let s = string_of(trimmed.as_slice());
    let lower = to_lowercase(s.as_str());
    maker_of_lowercase_name(vendor_id, lower.as_str())
}

/// The maker of the `i`th adapter of a list of (vendor ID, description).
pub open spec fn maker_at(adapters: Seq<(u32, Vec<u16>)>, i: int) -> AdapterMaker {
    spec_adapter_maker(adapters[i].0, adapter_name(adapters[i].1@))
}

/// Whether some adapter of the list is by `maker`.
pub open spec fn has_maker(adapters: Seq<(u32, Vec<u16>)>, maker: AdapterMaker) -> bool {
    exists|i: int| 0 <= i < adapters.len() && maker_at(adapters, i) == maker
}

/// The encoder chosen: NVIDIA's, else AMD's, else Intel's, else the one
/// Windows provides.
pub open spec fn spec_select_backend(nvidia: bool, amd: bool, intel: bool) -> GpuBackend {
    if nvidia {
        GpuBackend::NvidiaNvenc
    } else if amd {
        GpuBackend::AmdAmf
    } else if intel {
        GpuBackend::IntelQuickSync
    } else {
        GpuBackend::WindowsHardwareMft
    }
}

/// Which encoders the display adapters offer, and the one chosen: whether an
/// NVIDIA, an AMD and an Intel adapter is present, and the selection.
pub fn detect_hardware(adapters: &[(u32, Vec<u16>)]) -> (r: (bool, bool, bool, Option<GpuBackend>))
    ensures
        r.0 == has_maker(adapters@, AdapterMaker::Nvidia),
        r.1 == has_maker(adapters@, AdapterMaker::Amd),
        r.2 == has_maker(adapters@, AdapterMaker::Intel),
        r.3 == Some(spec_select_backend(r.0, r.1, r.2)),
{
    let mut nvidia = false;
    let mut amd = false;
    let mut intel = false;
    let mut i: usize = 0;
    while i < adapters.len()
        invariant
            i <= adapters.len(),
            nvidia == exists|j: int| 0 <= j < i && maker_at(adapters@, j) == AdapterMaker::Nvidia,
            amd == exists|j: int| 0 <= j < i && maker_at(adapters@, j) == AdapterMaker::Amd,
            intel == exists|j: int| 0 <= j < i && maker_at(adapters@, j) == AdapterMaker::Intel,
        decreases adapters.len() - i,
    {
        let m = classify_adapter(adapters[i].0, adapters[i].1.as_slice());
        assert(m == maker_at(adapters@, i as int));
        match m {
            AdapterMaker::Nvidia => {
                nvidia = true;
            },
            AdapterMaker::Amd => {
                amd = true;
            },
            AdapterMaker::Intel => {
                intel = true;
            },
            AdapterMaker::Other => {},
        }
        i += 1;
    }
    let selected = if nvidia {
        GpuBackend::NvidiaNvenc
    } else if amd {
        GpuBackend::AmdAmf
    } else if intel {
        GpuBackend::IntelQuickSync
    } else {
        GpuBackend::WindowsHardwareMft
    };
    (nvidia, amd, intel, Some(selected))
}

/// How the agent configures the encoder for a stream: low-latency, no
/// B-frames, a 120-frame GOP, constant bit rate at the requested mean, and
/// NV12 input of the stream's size.
pub struct EncoderSettings {
    pub low_latency: bool,
    pub b_frames: u32,
    pub gop_size: u32,
    pub mean_bitrate: u32,
    pub constant_bitrate: bool,
    pub width: u32,
    pub height: u32,
    pub fps: u32,
    /// Bytes of one NV12 input frame as the input type announces it.
    pub sample_size: u32,
    /// The input's stride: one byte per pixel of a luma row.
    pub default_stride: u32,
    /// Bytes of the NV12 buffer the agent converts each frame into.
    pub buffer_len: usize,
}

/// The settings for a `width` x `height` stream at `fps` frames a second.
pub fn encoder_settings(width: u32, height: u32, fps: u32, bitrate: u32) -> (c: EncoderSettings)
    requires
        width * height * 3 <= u32::MAX,
    ensures
        c.low_latency,
        c.b_frames == 0,
        c.gop_size == 120,
        c.mean_bitrate == bitrate,
        c.constant_bitrate,
        c.width == width && c.height == height && c.fps == fps,
        c.sample_size == width * height * 3 / 2,
        c.default_stride == width,
        c.buffer_len == width * height * 3 / 2,
{
    let sample_size = width * height * 3 / 2;
    EncoderSettings {
        low_latency: true,
        b_frames: 0,
        gop_size: 120,
        mean_bitrate: bitrate,
        constant_bitrate: true,
        width,
        height,
        fps,
        sample_size,
        default_stride: width,
        buffer_len: sample_size as usize,
    }
}

/// The duration of a frame in 100 ns units, and the time of frame
/// `frame_index`.
pub fn sample_timing(frame_index: u64, fps: u32) -> (r: (i64, i64))
    requires
        fps > 0,
        frame_index * (10_000_000int / fps as int) <= i64::MAX,
    ensures
        r.1 == 10_000_000int / fps as int,
        r.0 == frame_index * r.1,
{
    let duration = (10_000_000u64 / (fps as u64)) as i64;
    if duration == 0 {
        return (0, 0);
    }
    assert(frame_index <= i64::MAX) by (nonlinear_arith)
        requires
            frame_index * duration <= i64::MAX,
            duration >= 1,
    ;
    let time = (frame_index as i64) * duration;
    (time, duration)
}

/// Whether the encoder is told to make this frame a key frame: when asked,
/// and once every `fps` frames.
pub fn forces_keyframe(force: bool, frame_index: u64, fps: u32) -> (b: bool)
    requires
        fps > 0,
    ensures
        b == (force || frame_index as int % fps as int == 0),
{
    force || frame_index % (fps as u64) == 0
}

/// An event of an asynchronous encoder.
#[derive(Clone, Copy, Debug, PartialEq, Eq, Structural)]
pub enum MftEvent {
    /// The encoder asks for another input frame.
    NeedInput,
    /// An output sample is ready to be pulled.
    HaveOutput,
    DrainComplete,
    Marker,
    Other,
}

pub fn classify_mft_event(event_type: u32) -> (e: MftEvent)
    ensures
        e == (if event_type == 140 {
            MftEvent::NeedInput
        } else if event_type == 141 {
            MftEvent::HaveOutput
        } else if event_type == 142 {
            MftEvent::DrainComplete
        } else if event_type == 143 {
            MftEvent::Marker
        } else {
            MftEvent::Other
        }),
{
    if event_type == 140 {
        MftEvent::NeedInput
    } else if event_type == 141 {
        MftEvent::HaveOutput
    } else if event_type == 142 {
        MftEvent::DrainComplete
    } else if event_type == 143 {
        MftEvent::Marker
    } else {
        MftEvent::Other
    }
}

/// The count of inputs an asynchronous encoder has asked for after an
/// event: one more for each request, unchanged otherwise.
pub fn inputs_after_event(needed: usize, e: MftEvent) -> (n: usize)
    requires
        e == MftEvent::NeedInput ==> needed < usize::MAX,
    ensures
        n == (if e == MftEvent::NeedInput {
            needed + 1
        } else {
            needed as int
        }),
{
    if e == MftEvent::NeedInput {
        needed + 1
    } else {
        needed
    }
}

/// The count after the encoder accepted an input frame: one fewer, never
/// below zero.
pub fn inputs_after_accept(needed: usize) -> (n: usize)
    ensures
        n == (if needed > 0 {
            needed - 1
        } else {
            0
        }),
{
    if needed > 0 {
        needed - 1
    } else {
        0
    }
}

} // verus!
