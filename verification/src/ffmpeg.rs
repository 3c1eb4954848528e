//! Types mirroring the media layer's fixed vocabulary: hardware device
//! kinds, pixel formats, log-level thresholds and the per-frame plane-array
//! bound.

use vstd::prelude::*;

verus! {

/// Hardware device kind a codec binds to.
#[allow(non_camel_case_types)]
#[derive(Debug, Clone, Copy, PartialEq, Eq, Structural)]
pub enum AVHWDeviceType {
    AV_HWDEVICE_TYPE_NONE,
    AV_HWDEVICE_TYPE_VDPAU,
    AV_HWDEVICE_TYPE_CUDA,
    AV_HWDEVICE_TYPE_VAAPI,
    AV_HWDEVICE_TYPE_DXVA2,
    AV_HWDEVICE_TYPE_QSV,
    AV_HWDEVICE_TYPE_VIDEOTOOLBOX,
    AV_HWDEVICE_TYPE_D3D11VA,
    AV_HWDEVICE_TYPE_DRM,
    AV_HWDEVICE_TYPE_OPENCL,
    AV_HWDEVICE_TYPE_MEDIACODEC,
    AV_HWDEVICE_TYPE_VULKAN,
}

/// Raw pixel layout of an uncompressed frame. Only the planar and
/// semi-planar 4:2:0 layouts are marshalled; every other value is dropped
/// by the frame marshaller.
#[allow(non_camel_case_types)]
#[derive(Debug, Clone, Copy, PartialEq, Eq, Structural)]
pub enum AVPixelFormat {
    AV_PIX_FMT_NONE,
    AV_PIX_FMT_YUV420P,
    AV_PIX_FMT_YUYV422,
    AV_PIX_FMT_RGB24,
    AV_PIX_FMT_BGR24,
    AV_PIX_FMT_YUV422P,
    AV_PIX_FMT_YUV444P,
    AV_PIX_FMT_NV12,
    AV_PIX_FMT_NV21,
    AV_PIX_FMT_CUDA,
    AV_PIX_FMT_D3D11,
    AV_PIX_FMT_VAAPI,
    AV_PIX_FMT_VIDEOTOOLBOX,
}

/// Log level at which processing errors are reported.
pub const AV_LOG_ERROR: i32 = 16;

/// Log level that silences everything but panics; discovery probes run
/// under it so that expected failures stay quiet.
pub const AV_LOG_PANIC: i32 = 0;

/// Fixed length of the per-frame plane-pointer and stride arrays.
pub const AV_NUM_DATA_POINTERS: usize = 8;

} // verus!
