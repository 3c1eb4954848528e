//! Decode sessions and the frame marshaller: a session owns the output
//! collection of exactly one native decoder instance, replaces it on every
//! call, and the marshaller turns each native callback payload into an
//! owned frame record — or drops it, logging once, when the pixel format
//! is not recognised.

use vstd::prelude::*;

use crate::common::{DataFormat, Driver, Os};
use crate::ffmpeg::{AVHWDeviceType, AVPixelFormat, AV_LOG_ERROR};
use crate::ffram::{civ, push_info, CodecInfo, CodecInfoV, SOFT_SCORE};
use crate::vram::{pair_listed, Available};

verus! {

/// Parameters a decode session is created from.
#[derive(Debug, Clone)]
pub struct DecodeContext {
    pub name: String,
    pub device_type: AVHWDeviceType,
    pub thread_count: i32,
}

/// Mathematical value of a [`DecodeContext`].
pub ghost struct DecodeContextV {
    pub name: Seq<char>,
    pub device_type: AVHWDeviceType,
    pub thread_count: int,
}

impl DeepView for DecodeContext {
    type V = DecodeContextV;

    open spec fn deep_view(&self) -> DecodeContextV {
        DecodeContextV {
            name: self.name@,
            device_type: self.device_type,
            thread_count: self.thread_count as int,
        }
    }
}

/// An owned decoded frame: one independently owned byte buffer per plane,
/// with the per-plane strides and the key-frame flag copied verbatim.
#[derive(Debug, Clone)]
pub struct DecodeFrame {
    pub pixfmt: AVPixelFormat,
    pub width: i32,
    pub height: i32,
    pub data: Vec<Vec<u8>>,
    pub linesize: Vec<i32>,
    pub key: bool,
}

/// Mathematical value of a [`DecodeFrame`].
pub ghost struct DecodeFrameV {
    pub pixfmt: AVPixelFormat,
    pub width: int,
    pub height: int,
    pub data: Seq<Seq<u8>>,
    pub linesize: Seq<int>,
    pub key: bool,
}

impl DeepView for DecodeFrame {
    type V = DecodeFrameV;

    open spec fn deep_view(&self) -> DecodeFrameV {
        DecodeFrameV {
            pixfmt: self.pixfmt,
            width: self.width as int,
            height: self.height as int,
            data: self.data.deep_view(),
            linesize: Seq::new(self.linesize@.len(), |i: int| self.linesize@[i] as int),
            key: self.key,
        }
    }
}

/// The raw payload of one native frame callback: geometry, the fixed
/// stride array, and the native per-plane buffers, valid only for the
/// duration of the callback and therefore already captured as owned bytes.
#[derive(Debug, Clone)]
pub struct NativeFrame {
    pub pixfmt: AVPixelFormat,
    pub width: i32,
    pub height: i32,
    pub linesize: Vec<i32>,
    pub data: Vec<Vec<u8>>,
    pub key: bool,
}

/// Mathematical value of a [`NativeFrame`].
pub ghost struct NativeFrameV {
    pub pixfmt: AVPixelFormat,
    pub width: int,
    pub height: int,
    pub linesize: Seq<int>,
    pub data: Seq<Seq<u8>>,
    pub key: bool,
}

impl DeepView for NativeFrame {
    type V = NativeFrameV;

    open spec fn deep_view(&self) -> NativeFrameV {
        NativeFrameV {
            pixfmt: self.pixfmt,
            width: self.width as int,
            height: self.height as int,
            linesize: Seq::new(self.linesize@.len(), |i: int| self.linesize@[i] as int),
            data: self.data.deep_view(),
            key: self.key,
        }
    }
}

/// Pixel formats the marshaller knows how to split into planes.
pub open spec fn supported_pixfmt(pixfmt: AVPixelFormat) -> bool {
    pixfmt == AVPixelFormat::AV_PIX_FMT_YUV420P || pixfmt == AVPixelFormat::AV_PIX_FMT_NV12
}

/// Planes of a marshalled frame: three for planar 4:2:0, two for
/// semi-planar 4:2:0.
pub open spec fn marshal_plane_count(pixfmt: AVPixelFormat) -> int {
    if pixfmt == AVPixelFormat::AV_PIX_FMT_YUV420P {
        3
    } else if pixfmt == AVPixelFormat::AV_PIX_FMT_NV12 {
        2
    } else {
        0
    }
}

/// Bytes copied for plane `i`: the full-height stride for the luma plane,
/// half of that product for each chroma plane.
pub open spec fn marshal_plane_len(ev: NativeFrameV, i: int) -> int {
    if i == 0 {
        ev.linesize[0] * ev.height
    } else {
        ev.linesize[i] * ev.height / 2
    }
}

/// A native payload the marshalling protocol can act on: whenever the
/// pixel format is recognised, the stride and buffer arrays cover every
/// plane, strides are non-negative, and each native buffer holds at least
/// the bytes the plane rule copies.
pub open spec fn event_wf(ev: NativeFrameV) -> bool {
    supported_pixfmt(ev.pixfmt) ==> {
        &&& 0 <= ev.height
        &&& marshal_plane_count(ev.pixfmt) <= ev.linesize.len()
        &&& marshal_plane_count(ev.pixfmt) <= ev.data.len()
        &&& forall|i: int|
            0 <= i < marshal_plane_count(ev.pixfmt) ==> 0 <= #[trigger] ev.linesize[i]
                && marshal_plane_len(ev, i) <= ev.data[i].len()
    }
}

/// The owned record a native payload marshals to: each plane copied out of
/// the native buffer into an independently owned prefix, geometry and
/// key-frame flag verbatim; `None` exactly for unrecognised pixel formats.
pub open spec fn marshal_frame_spec(ev: NativeFrameV) -> Option<DecodeFrameV> {
    if supported_pixfmt(ev.pixfmt) {
        Some(
            DecodeFrameV {
                pixfmt: ev.pixfmt,
                width: ev.width,
                height: ev.height,
                data: Seq::new(
                    marshal_plane_count(ev.pixfmt) as nat,
                    |i: int| ev.data[i].take(marshal_plane_len(ev, i)),
                ),
                linesize: Seq::new(
                    marshal_plane_count(ev.pixfmt) as nat,
                    |i: int| ev.linesize[i],
                ),
                key: ev.key,
            },
        )
    } else {
        None
    }
}

/// A marshalled frame is structurally sound: a recognised pixel format,
/// exactly one stride and one owned buffer per plane, and each buffer of
/// exactly the size the plane rule states.
pub open spec fn frame_wf(f: DecodeFrameV) -> bool {
    &&& supported_pixfmt(f.pixfmt)
    &&& f.data.len() == marshal_plane_count(f.pixfmt)
    &&& f.linesize.len() == marshal_plane_count(f.pixfmt)
    &&& f.data[0].len() == f.linesize[0] * f.height
    &&& forall|i: int|
        1 <= i < f.data.len() ==> (#[trigger] f.data[i]).len() == f.linesize[i] * f.height / 2
}

/// Whatever payload a native callback delivers, the marshaller hands the
/// session only structurally sound frames.
pub proof fn lemma_marshal_frame_wf(ev: NativeFrameV)
    requires
        event_wf(ev),
    ensures
        marshal_frame_spec(ev) matches Some(f) ==> frame_wf(f),
{
}

/// Frames produced by a run of native callbacks, in callback order,
/// unrecognised payloads dropped.
pub open spec fn marshal_seq(evs: Seq<NativeFrameV>) -> Seq<DecodeFrameV>
    decreases evs.len(),
{
    if evs.len() == 0 {
        Seq::empty()
    } else {
        marshal_seq(evs.drop_last()) + match marshal_frame_spec(evs.last()) {
            Option::Some(f) => seq![f],
            Option::None => Seq::empty(),
        }
    }
}

/// How many payloads of a callback run are dropped (each one is logged at
/// error severity).
pub open spec fn dropped_count(evs: Seq<NativeFrameV>) -> int
    decreases evs.len(),
{
    if evs.len() == 0 {
        0
    } else {
        dropped_count(evs.drop_last()) + if marshal_frame_spec(evs.last()) is None {
            1int
        } else {
            0int
        }
    }
}

/// An owned copy of the first `len` bytes of a native buffer.
fn copy_prefix(src: &Vec<u8>, len: usize) -> (r: Vec<u8>)
    requires
        len <= src@.len(),
    ensures
        r@ == src@.take(len as int),
{
    let mut r: Vec<u8> = Vec::new();
    let mut k: usize = 0;
    while k < len
        invariant
            k <= len <= src@.len(),
            r@ =~= src@.take(k as int),
        decreases len - k,
    {
        r.push(src[k]);
        proof {
            assert(r@ =~= src@.take(k + 1));
        }
        k += 1;
    }
    proof {
        assert(r@ =~= src@.take(len as int));
    }
    r
}

/// Marshal one native callback payload into an owned frame record;
/// unrecognised pixel formats yield `None` and are reported by the caller.
pub fn marshal_frame(ev: &NativeFrame) -> (r: Option<DecodeFrame>)
    requires
        event_wf(ev.deep_view()),
    ensures
        r.deep_view() == marshal_frame_spec(ev.deep_view()),
{
    let planes: usize = if ev.pixfmt == AVPixelFormat::AV_PIX_FMT_YUV420P {
        3
    } else if ev.pixfmt == AVPixelFormat::AV_PIX_FMT_NV12 {
        2
    } else {
        return None;
    };
    let ghost evv = ev.deep_view();
    let mut data: Vec<Vec<u8>> = Vec::new();
    let mut linesize: Vec<i32> = Vec::new();
    let mut i: usize = 0;
    proof {
        assert(data.deep_view() =~= Seq::new(
            0,
            |j: int| evv.data[j].take(marshal_plane_len(evv, j)),
        ));
    }
    while i < planes
        invariant
            evv == ev.deep_view(),
            planes == marshal_plane_count(evv.pixfmt),
            supported_pixfmt(evv.pixfmt),
            event_wf(evv),
            i <= planes,
            data@.len() == i,
            linesize@.len() == i,
            data.deep_view() == Seq::new(
                i as nat,
                |j: int| evv.data[j].take(marshal_plane_len(evv, j)),
            ),
            forall|j: int| 0 <= j < i ==> linesize@[j] == ev.linesize@[j],
        decreases planes - i,
    {
        let stride = ev.linesize[i];
        let h = ev.height;
        proof {
            assert(evv.linesize[i as int] == stride as int);
            assert(0 <= evv.linesize[i as int]);
            assert(0 <= stride && 0 <= h);
            vstd::arithmetic::mul::lemma_mul_upper_bound(
                stride as int,
                i32::MAX as int,
                h as int,
                i32::MAX as int,
            );
        }
        let p: u64 = (stride as u64) * (h as u64);
        let p: u64 = if i == 0 {
            p
        } else {
            p / 2
        };
        let buf = &ev.data[i];
        let buf_len = buf.len();
        proof {
            assert(evv.data[i as int] =~= buf@);
            assert(p as int == marshal_plane_len(evv, i as int));
            assert(marshal_plane_len(evv, i as int) <= evv.data[i as int].len());
            assert(p <= buf_len);
        }
        let len = p as usize;
        let plane = copy_prefix(buf, len);
        proof {
            assert(plane@ == evv.data[i as int].take(marshal_plane_len(evv, i as int)));
        }
        let ghost data0 = data@;
        data.push(plane);
        linesize.push(ev.linesize[i]);
        proof {
            let f = |j: int| evv.data[j].take(marshal_plane_len(evv, j));
            assert forall|j: int| 0 <= j <= i as int implies data.deep_view()[j] == f(j) by {
                if j < i as int {
                    assert(data@[j] == data0[j]);
                    assert(data.deep_view()[j] == data0[j].deep_view());
                    assert(Seq::new(i as nat, f)[j] == f(j));
                } else {
                    assert(data@[j] == plane);
                    assert(data.deep_view()[j] == plane.deep_view());
                    assert(plane.deep_view() =~= plane@);
                }
            }
            assert(data.deep_view() =~= Seq::new((i + 1) as nat, f));
        }
        i += 1;
    }
    let frame = DecodeFrame {
        pixfmt: ev.pixfmt,
        width: ev.width,
        height: ev.height,
        data,
        linesize,
        key: ev.key,
    };
    proof {
        assert(frame.deep_view().data =~= marshal_frame_spec(ev.deep_view()).unwrap().data);
        assert(frame.deep_view().linesize =~= marshal_frame_spec(
            ev.deep_view(),
        ).unwrap().linesize);
    }
    Some(frame)
}

/// A live decode session: owns the output collection of exactly one
/// native decoder instance. Frames never span calls: every `decode` call
/// replaces the collection. `error_logs` counts the error-level log
/// records the session has emitted.
pub struct Decoder {
    ctx: DecodeContext,
    frames: Vec<DecodeFrame>,
    error_logs: u64,
    alive: bool,
}

impl Decoder {
    /// The session's current output collection.
    pub closed spec fn frames_spec(&self) -> Seq<DecodeFrameV> {
        self.frames.deep_view()
    }

    /// The parameters the session was created from.
    pub closed spec fn ctx_spec(&self) -> DecodeContextV {
        self.ctx.deep_view()
    }

    /// How many error-level log records the session has emitted.
    pub closed spec fn error_logs_spec(&self) -> int {
        self.error_logs as int
    }

    /// The parameters the session was created from.
    pub fn ctx(&self) -> (r: &DecodeContext)
        ensures
            r.deep_view() == self.ctx_spec(),
    {
        &self.ctx
    }

    /// How many error-level log records the session has emitted.
    pub fn error_logs(&self) -> (r: u64)
        ensures
            r == self.error_logs_spec(),
    {
        self.error_logs
    }

    /// The native instance has not been torn down yet.
    pub closed spec fn is_alive(&self) -> bool {
        self.alive
    }

    /// A fresh session around a successfully created native decoder
    /// instance, its output collection empty.
    pub fn new(ctx: DecodeContext) -> (r: Decoder)
        ensures
            r.ctx_spec() == ctx.deep_view(),
            r.frames_spec() == Seq::<DecodeFrameV>::empty(),
            r.error_logs_spec() == 0,
            r.is_alive(),
    {
        let frames: Vec<DecodeFrame> = Vec::new();
        proof {
            assert(frames.deep_view() =~= Seq::<DecodeFrameV>::empty());
        }
        Decoder { ctx, frames, error_logs: 0, alive: true }
    }

    /// Apply the outcome of one native decode call: the output collection
    /// is cleared first and then holds exactly the frames marshalled from
    /// this call's callbacks — never a frame of an earlier call. A
    /// negative status is returned as the error and logged once when the
    /// log-level gate permits; each dropped payload is logged
    /// unconditionally.
    pub fn decode(&mut self, events: &Vec<NativeFrame>, ret: i32, log_level: i32) -> (r: Result<
        usize,
        i32,
    >)
        requires
            old(self).is_alive(),
            forall|i: int|
                0 <= i < events.deep_view().len() ==> event_wf(#[trigger] events.deep_view()[i]),
            old(self).error_logs_spec() + events@.len() + 1 <= u64::MAX,
        ensures
            final(self).is_alive(),
            final(self).ctx_spec() == old(self).ctx_spec(),
            final(self).frames_spec() == marshal_seq(events.deep_view()),
            final(self).error_logs_spec() == old(self).error_logs_spec() + dropped_count(events.deep_view())
                + if ret < 0 && log_level >= AV_LOG_ERROR {
                1int
            } else {
                0int
            },
            ret < 0 ==> r == Err::<usize, i32>(ret),
            ret >= 0 ==> (r matches Ok(n) && n == marshal_seq(events.deep_view()).len()),
    {
        self.frames.clear();
        let ghost evs = events.deep_view();
        let mut i: usize = 0;
        proof {
            assert(self.frames.deep_view() =~= marshal_seq(evs.take(0)));
            assert(dropped_count(evs.take(0)) == 0);
        }
        let mut dropped: u64 = 0;
        while i < events.len()
            invariant
                evs == events.deep_view(),
                evs.len() == events@.len(),
                forall|k: int| 0 <= k < evs.len() ==> event_wf(#[trigger] evs[k]),
                i <= events@.len(),
                self.frames.deep_view() == marshal_seq(evs.take(i as int)),
                dropped == dropped_count(evs.take(i as int)),
                dropped <= i,
                self.ctx == old(self).ctx,
                self.alive == old(self).alive,
                self.error_logs == old(self).error_logs,
            decreases events@.len() - i,
        {
            proof {
                assert(evs.take(i + 1).drop_last() =~= evs.take(i as int));
                assert(evs.take(i + 1).last() == evs[i as int]);
            }
            match marshal_frame(&events[i]) {
                Some(frame) => {
                    self.frames.push(frame);
                    proof {
                        assert(self.frames.deep_view() =~= marshal_seq(evs.take(i + 1)));
                    }
                },
                None => {
                    dropped += 1;
                },
            }
            i += 1;
        }
        proof {
            assert(evs.take(events@.len() as int) =~= evs);
        }
        self.error_logs += dropped;
        if ret < 0 {
            if log_level >= AV_LOG_ERROR {
                self.error_logs += 1;
            }
            Err(ret)
        } else {
            Ok(self.frames.len())
        }
    }

    /// The output collection of the most recent `decode` call.
    pub fn frames(&self) -> (r: &Vec<DecodeFrame>)
        ensures
            r.deep_view() == self.frames_spec(),
    {
        &self.frames
    }

    /// Tear the session down; the native instance is destroyed exactly
    /// once, so a closed session accepts no further call.
    pub fn close(&mut self)
        requires
            old(self).is_alive(),
        ensures
            !final(self).is_alive(),
    {
        self.alive = false;
    }
}

/// Whether an optional decode manifest confirms a driver/format pair; an
/// absent manifest confirms everything.
pub open spec fn spec_decode_allows(
    manifest: Option<&Available>,
    driver: Driver,
    format: DataFormat,
) -> bool {
    match manifest {
        Option::None => true,
        Option::Some(a) => pair_listed(a.d@, driver, format),
    }
}

/// The static decode candidate table of one platform, intersected with
/// the live driver checks: on Windows the platform graphics decoder for
/// both formats; on Linux the GPU-vendor path when that vendor's GPU is
/// present and the manifest confirms it, and the open driver path always;
/// on the Mac platform the media toolbox per its own support query.
pub open spec fn decoder_candidates_spec(
    os: Os,
    nv_gpu: bool,
    vt_h264: bool,
    vt_h265: bool,
    allow_nv_h264: bool,
    allow_nv_h265: bool,
) -> Seq<CodecInfoV> {
    if os == Os::Windows {
        seq![
            civ("h264"@, DataFormat::H264, 91, AVHWDeviceType::AV_HWDEVICE_TYPE_D3D11VA),
            civ("hevc"@, DataFormat::H265, 91, AVHWDeviceType::AV_HWDEVICE_TYPE_D3D11VA),
        ]
    } else if os == Os::Linux {
        (if nv_gpu && allow_nv_h264 {
            seq![civ("h264"@, DataFormat::H264, 94, AVHWDeviceType::AV_HWDEVICE_TYPE_CUDA)]
        } else {
            Seq::empty()
        }) + (if nv_gpu && allow_nv_h265 {
            seq![civ("hevc"@, DataFormat::H265, 95, AVHWDeviceType::AV_HWDEVICE_TYPE_CUDA)]
        } else {
            Seq::empty()
        }) + seq![
            civ("h264"@, DataFormat::H264, 70, AVHWDeviceType::AV_HWDEVICE_TYPE_VAAPI),
            civ("hevc"@, DataFormat::H265, 70, AVHWDeviceType::AV_HWDEVICE_TYPE_VAAPI),
        ]
    } else if os == Os::MacOs {
        (if vt_h264 {
            seq![civ("h264"@, DataFormat::H264, 91, AVHWDeviceType::AV_HWDEVICE_TYPE_VIDEOTOOLBOX)]
        } else {
            Seq::empty()
        }) + (if vt_h265 {
            seq![civ("hevc"@, DataFormat::H265, 91, AVHWDeviceType::AV_HWDEVICE_TYPE_VIDEOTOOLBOX)]
        } else {
            Seq::empty()
        })
    } else {
        Seq::empty()
    }
}

/// Build the decode candidate list to probe: static per-platform
/// knowledge, intersected with the GPU-vendor presence query, the media
/// toolbox support query and the optional capability manifest.
pub fn decoder_candidates(
    os: Os,
    nv_gpu: bool,
    vt_h264: bool,
    vt_h265: bool,
    manifest: Option<&Available>,
) -> (r: Vec<CodecInfo>)
    ensures
        r.deep_view() == decoder_candidates_spec(
            os,
            nv_gpu,
            vt_h264,
            vt_h265,
            spec_decode_allows(manifest, Driver::NV, DataFormat::H264),
            spec_decode_allows(manifest, Driver::NV, DataFormat::H265),
        ),
{
    let ghost allow264 = spec_decode_allows(manifest, Driver::NV, DataFormat::H264);
    let ghost allow265 = spec_decode_allows(manifest, Driver::NV, DataFormat::H265);
    let mut v: Vec<CodecInfo> = Vec::new();
    proof {
        assert(v.deep_view() =~= Seq::<CodecInfoV>::empty());
    }
    if os == Os::Windows {
        push_info(&mut v, "h264", DataFormat::H264, 91, AVHWDeviceType::AV_HWDEVICE_TYPE_D3D11VA);
        push_info(&mut v, "hevc", DataFormat::H265, 91, AVHWDeviceType::AV_HWDEVICE_TYPE_D3D11VA);
        proof {
            assert(v.deep_view() =~= decoder_candidates_spec(
                os,
                nv_gpu,
                vt_h264,
                vt_h265,
                allow264,
                allow265,
            ));
        }
    } else if os == Os::Linux {
        if nv_gpu && crate::vram::manifest_allows(manifest, false, Driver::NV, DataFormat::H264) {
            push_info(&mut v, "h264", DataFormat::H264, 94, AVHWDeviceType::AV_HWDEVICE_TYPE_CUDA);
        }
        if nv_gpu && crate::vram::manifest_allows(manifest, false, Driver::NV, DataFormat::H265) {
            push_info(&mut v, "hevc", DataFormat::H265, 95, AVHWDeviceType::AV_HWDEVICE_TYPE_CUDA);
        }
        push_info(&mut v, "h264", DataFormat::H264, 70, AVHWDeviceType::AV_HWDEVICE_TYPE_VAAPI);
        push_info(&mut v, "hevc", DataFormat::H265, 70, AVHWDeviceType::AV_HWDEVICE_TYPE_VAAPI);
        proof {
            assert(v.deep_view() =~= decoder_candidates_spec(
                os,
                nv_gpu,
                vt_h264,
                vt_h265,
                allow264,
                allow265,
            ));
        }
    } else if os == Os::MacOs {
        if vt_h264 {
            push_info(
                &mut v,
                "h264",
                DataFormat::H264,
                91,
                AVHWDeviceType::AV_HWDEVICE_TYPE_VIDEOTOOLBOX,
            );
        }
        if vt_h265 {
            push_info(
                &mut v,
                "hevc",
                DataFormat::H265,
                91,
                AVHWDeviceType::AV_HWDEVICE_TYPE_VIDEOTOOLBOX,
            );
        }
        proof {
            assert(v.deep_view() =~= decoder_candidates_spec(
                os,
                nv_gpu,
                vt_h264,
                vt_h265,
                allow264,
                allow265,
            ));
        }
    } else {
        proof {
            assert(v.deep_view() =~= decoder_candidates_spec(
                os,
                nv_gpu,
                vt_h264,
                vt_h265,
                allow264,
                allow265,
            ));
        }
    }
    v
}

/// Some surviving entry runs on the GPU-vendor device.
pub open spec fn has_cuda(s: Seq<CodecInfoV>) -> bool {
    exists|i: int|
        0 <= i < s.len() && #[trigger] s[i].hwdevice == AVHWDeviceType::AV_HWDEVICE_TYPE_CUDA
}

/// The OS-specific quirk pass after probing: the open driver path is slow
/// on the GPU vendor's hardware but fast on the other vendor's, so when no
/// vendor entry survived and that other vendor's GPU is present, its
/// entries are promoted.
pub open spec fn promote_spec(s: Seq<CodecInfoV>, amdgpu: bool) -> Seq<CodecInfoV> {
    Seq::new(
        s.len(),
        |i: int|
            if amdgpu && !has_cuda(s) && s[i].hwdevice == AVHWDeviceType::AV_HWDEVICE_TYPE_VAAPI {
                (CodecInfoV { score: 91, ..s[i] })
            } else {
                s[i]
            },
    )
}

/// Apply the quirk pass to one discovery pass's survivors.
pub fn promote_vaapi_scores(infos: &Vec<CodecInfo>, amdgpu: bool) -> (r: Vec<CodecInfo>)
    ensures
        r.deep_view() == promote_spec(infos.deep_view(), amdgpu),
{
    let ghost cs = infos.deep_view();
    let mut any_cuda = false;
    let mut i: usize = 0;
    while i < infos.len()
        invariant
            cs == infos.deep_view(),
            cs.len() == infos@.len(),
            i <= infos@.len(),
            any_cuda == exists|k: int|
                0 <= k < i && #[trigger] cs[k].hwdevice == AVHWDeviceType::AV_HWDEVICE_TYPE_CUDA,
        decreases infos@.len() - i,
    {
        if infos[i].hwdevice == AVHWDeviceType::AV_HWDEVICE_TYPE_CUDA {
            proof {
                assert(cs[i as int].hwdevice == AVHWDeviceType::AV_HWDEVICE_TYPE_CUDA);
            }
            any_cuda = true;
        }
        i += 1;
    }
    proof {
        assert(any_cuda == has_cuda(cs));
    }
    let mut r: Vec<CodecInfo> = Vec::new();
    let ghost mut rv: Seq<CodecInfoV> = Seq::empty();
    proof {
        assert(r.deep_view() =~= rv);
    }
    let mut i: usize = 0;
    while i < infos.len()
        invariant
            cs == infos.deep_view(),
            cs.len() == infos@.len(),
            i <= infos@.len(),
            any_cuda == has_cuda(cs),
            r.deep_view() == rv,
            rv =~= promote_spec(cs, amdgpu).take(i as int),
        decreases infos@.len() - i,
    {
        let mut c = infos[i].duplicate();
        proof {
            assert(cs[i as int] == infos@[i as int].deep_view());
        }
        if amdgpu && !any_cuda && c.hwdevice == AVHWDeviceType::AV_HWDEVICE_TYPE_VAAPI {
            c.score = 91;
        }
        let ghost rv0 = rv;
        let ghost cv = c.deep_view();
        r.push(c);
        proof {
            rv = rv.push(cv);
            assert forall|j: int| 0 <= j < rv.len() implies r.deep_view()[j] == rv[j] by {
                if j < rv0.len() {
                    assert(rv[j] == rv0[j]);
                } else {
                    assert(rv[j] == cv);
                }
            }
            assert(r.deep_view() =~= rv);
            assert(rv =~= promote_spec(cs, amdgpu).take(i + 1));
        }
        i += 1;
    }
    proof {
        assert(promote_spec(cs, amdgpu).take(cs.len() as int) =~= promote_spec(cs, amdgpu));
    }
    r
}

/// Append the statically known software-fallback entries; they are never
/// probed.
pub fn append_soft_fallbacks(infos: Vec<CodecInfo>) -> (r: Vec<CodecInfo>)
    ensures
        r.deep_view() == infos.deep_view() + seq![
            civ("h264"@, DataFormat::H264, SOFT_SCORE as int, AVHWDeviceType::AV_HWDEVICE_TYPE_NONE),
            civ("hevc"@, DataFormat::H265, SOFT_SCORE as int, AVHWDeviceType::AV_HWDEVICE_TYPE_NONE),
        ],
{
    let mut r = infos;
    let soft = CodecInfo::soft();
    let ghost v0 = r.deep_view();
    let ghost x264 = civ(
        "h264"@,
        DataFormat::H264,
        SOFT_SCORE as int,
        AVHWDeviceType::AV_HWDEVICE_TYPE_NONE,
    );
    let ghost x265 = civ(
        "hevc"@,
        DataFormat::H265,
        SOFT_SCORE as int,
        AVHWDeviceType::AV_HWDEVICE_TYPE_NONE,
    );
    match soft.h264 {
        Some(c) => {
            proof {
                assert(c.deep_view() == x264);
            }
            let ghost rv0 = r.deep_view();
            r.push(c);
            proof {
                assert forall|j: int| 0 <= j < rv0.len() + 1 implies r.deep_view()[j] == rv0.push(
                    x264,
                )[j] by {
                    if j < rv0.len() {
                        assert(rv0.push(x264)[j] == rv0[j]);
                    } else {
                        assert(rv0.push(x264)[j] == x264);
                    }
                }
                assert(r.deep_view() =~= rv0.push(x264));
            }
        },
        None => {
            proof {
                assert(false);
            }
        },
    }
    match soft.h265 {
        Some(c) => {
            proof {
                assert(c.deep_view() == x265);
            }
            let ghost rv0 = r.deep_view();
            r.push(c);
            proof {
                assert forall|j: int| 0 <= j < rv0.len() + 1 implies r.deep_view()[j] == rv0.push(
                    x265,
                )[j] by {
                    if j < rv0.len() {
                        assert(rv0.push(x265)[j] == rv0[j]);
                    } else {
                        assert(rv0.push(x265)[j] == x265);
                    }
                }
                assert(r.deep_view() =~= rv0.push(x265));
            }
        },
        None => {
            proof {
                assert(false);
            }
        },
    }
    proof {
        assert(r.deep_view() =~= v0 + seq![x264, x265]);
    }
    r
}

/// During decode probing, backends sharing a non-reentrant driver context
/// are serialized; the rest probe fully in parallel.
pub fn probe_needs_serialization(hwdevice: AVHWDeviceType) -> (r: bool)
    ensures
        r == (hwdevice == AVHWDeviceType::AV_HWDEVICE_TYPE_CUDA || hwdevice
            == AVHWDeviceType::AV_HWDEVICE_TYPE_D3D11VA),
{
    hwdevice == AVHWDeviceType::AV_HWDEVICE_TYPE_CUDA || hwdevice
        == AVHWDeviceType::AV_HWDEVICE_TYPE_D3D11VA
}

/// The run-once registry behind decoder discovery: decode capability is
/// resolution-independent, so the expensive probing pass runs at most once
/// per process and its result is reused forever after.
pub struct DecoderDiscoveryCache {
    cached: Option<Vec<CodecInfo>>,
    probe_runs: u64,
}

impl DecoderDiscoveryCache {
    /// The memoized discovery result, if a pass has completed.
    pub closed spec fn cached_spec(&self) -> Option<Seq<CodecInfoV>> {
        match self.cached {
            Option::Some(v) => Some(v.deep_view()),
            Option::None => None,
        }
    }

    /// How many probing passes have run through this registry.
    pub closed spec fn probe_runs_spec(&self) -> int {
        self.probe_runs as int
    }

    /// An empty registry: nothing cached, no pass run.
    pub fn new() -> (r: DecoderDiscoveryCache)
        ensures
            r.cached_spec() is None,
            r.probe_runs_spec() == 0,
    {
        DecoderDiscoveryCache { cached: None, probe_runs: 0 }
    }

    /// Whether the expensive probing pass still has to run.
    pub fn needs_probe(&self) -> (r: bool)
        ensures
            r == (self.cached_spec() is None),
    {
        self.cached.is_none()
    }

    /// The memoized result, shared.
    pub fn lookup(&self) -> (r: Option<&Vec<CodecInfo>>)
        ensures
            (r is Some) == (self.cached_spec() is Some),
            r matches Some(v) ==> Some(v.deep_view()) == self.cached_spec(),
    {
        self.cached.as_ref()
    }

    /// Record the one probing pass's result; single-flight: the registry
    /// accepts a result only while it holds none.
    pub fn store(&mut self, infos: Vec<CodecInfo>)
        requires
            old(self).cached_spec() is None,
            old(self).probe_runs_spec() < u64::MAX,
        ensures
            final(self).cached_spec() == Some(infos.deep_view()),
            final(self).probe_runs_spec() == old(self).probe_runs_spec() + 1,
    {
        self.cached = Some(infos);
        self.probe_runs = self.probe_runs + 1;
    }

    /// How many probing passes have run.
    pub fn probe_runs(&self) -> (r: u64)
        ensures
            r == self.probe_runs_spec(),
    {
        self.probe_runs
    }
}

/// One decoder-discovery call against the run-once registry: a cached
/// result is returned as is; otherwise the freshly probed result is
/// cached and returned. The third component counts probing passes.
pub open spec fn run_once_discovery(
    st: Option<Seq<CodecInfoV>>,
    fresh: Seq<CodecInfoV>,
) -> (Option<Seq<CodecInfoV>>, Seq<CodecInfoV>, int) {
    match st {
        Option::Some(v) => (st, v, 0),
        Option::None => (Some(fresh), fresh, 1),
    }
}

/// Decoder discovery is idempotent: two discovery calls from a fresh
/// registry return structurally identical results, and the expensive
/// probing pass runs exactly once between them — whatever a second pass
/// would have reported.
pub proof fn lemma_decoder_discovery_idempotent(fresh1: Seq<CodecInfoV>, fresh2: Seq<CodecInfoV>)
    ensures
        ({
            let first = run_once_discovery(None, fresh1);
            let second = run_once_discovery(first.0, fresh2);
            second.1 == first.1 && first.2 + second.2 == 1
        }),
{
}

} // verus!
