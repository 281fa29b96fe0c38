//! Inference device selection and the placement of detected faces.
use vstd::prelude::*;

verus! {

/// The device that runs the embedding model.
///
/// Priority: NPU, then GPU, then CPU (which always works).
#[derive(Debug, Clone, Copy, PartialEq, Eq, Structural)]
pub enum InferenceDevice {
    Npu,
    Gpu,
    Cpu,
}

impl InferenceDevice {
    /// The preferred device among those that the build supports: the NPU if
    /// available, else the GPU if available, else the CPU.
    pub fn select(npu_available: bool, gpu_available: bool) -> (d: InferenceDevice)
        ensures
            npu_available ==> d == InferenceDevice::Npu,
            !npu_available && gpu_available ==> d == InferenceDevice::Gpu,
            !npu_available && !gpu_available ==> d == InferenceDevice::Cpu,
    {
        if npu_available {
            InferenceDevice::Npu
        } else if gpu_available {
            InferenceDevice::Gpu
        } else {
            InferenceDevice::Cpu
        }
    }

    /// The best device of this build. No NPU or GPU execution provider is
    /// built in, so it is the CPU.
    pub fn best_available() -> (d: InferenceDevice)
        ensures
            d == InferenceDevice::Cpu,
    {
        Self::select(false, false)
    }

    /// The device type name that the execution provider expects.
    pub fn device_type(&self) -> (s: &'static str)
        ensures
            *self == InferenceDevice::Npu ==> s@ == "NPU"@,
            *self == InferenceDevice::Gpu ==> s@ == "GPU"@,
            *self == InferenceDevice::Cpu ==> s@ == "CPU"@,
    {
        match self {
            InferenceDevice::Npu => "NPU",
            InferenceDevice::Gpu => "GPU",
            InferenceDevice::Cpu => "CPU",
        }
    }
}

/// Where a face lies in a frame, in pixels.
#[derive(Debug, Clone, Copy, PartialEq, Eq, Structural)]
pub struct FaceBox {
    pub x: u32,
    pub y: u32,
    pub width: u32,
    pub height: u32,
}

/// The start of a detected edge, moved into the frame: a negative
/// coordinate becomes 0.
pub open spec fn clamp_start(v: i32) -> u32 {
    if v < 0 {
        0
    } else {
        v as u32
    }
}

/// A detected extent cut at the frame's edge.
pub open spec fn clamp_extent(start: u32, extent: u32, limit: u32) -> u32 {
    let room: int = if start <= limit {
        limit - start
    } else {
        0
    };
    if extent <= room {
        extent
    } else {
        room as u32
    }
}

/// The placement of a face that the detector reports at (`bx`, `by`) with
/// size `bw` x `bh`, moved into a `img_w` x `img_h` frame: a detection may
/// start left of or above the frame near its edges, and may reach past it.
/// The box never reaches past the frame: `x + width <= img_w` (and likewise
/// vertically) whenever the box starts inside the frame, and it is empty
/// otherwise.
pub fn clamp_face_box(bx: i32, by: i32, bw: u32, bh: u32, img_w: u32, img_h: u32) -> (r: FaceBox)
    ensures
        r.x == clamp_start(bx),
        r.y == clamp_start(by),
        r.width == clamp_extent(r.x, bw, img_w),
        r.height == clamp_extent(r.y, bh, img_h),
        r.x <= img_w ==> r.x + r.width <= img_w,
        r.x > img_w ==> r.width == 0,
        r.y <= img_h ==> r.y + r.height <= img_h,
        r.y > img_h ==> r.height == 0,
        r.width <= bw,
        r.height <= bh,
{
    let x: u32 = if bx < 0 {
        0
    } else {
        bx as u32
    };
    let y: u32 = if by < 0 {
        0
    } else {
        by as u32
    };
    let room_w = img_w.saturating_sub(x);
    let room_h = img_h.saturating_sub(y);
    let width = if bw <= room_w {
        bw
    } else {
        room_w
    };
    let height = if bh <= room_h {
        bh
    } else {
        room_h
    };
    FaceBox { x, y, width, height }
}

/// A detected face inside the frame keeps its placement; a start left of or
/// above the frame moves to 0; an extent is cut exactly at the frame's edge
/// (or to nothing past it).
pub proof fn lemma_clamp_values(v: i32, start: u32, extent: u32, limit: u32)
    ensures
        v >= 0 ==> clamp_start(v) as int == v as int,
        v < 0 ==> clamp_start(v) == 0,
        start as int + extent as int <= limit as int ==> clamp_extent(start, extent, limit)
            == extent,
        start <= limit && start as int + extent as int > limit as int ==> clamp_extent(
            start,
            extent,
            limit,
        ) as int == limit as int - start as int,
        start > limit ==> clamp_extent(start, extent, limit) == 0,
{
}

} // verus!
