//! Encode sessions and encoder discovery: session creation validates the
//! geometry and derives the buffer layout, every `encode` call replaces
//! the output collection, and the discovery cache memoizes one probing
//! pass keyed on full structural equality of the encode parameters.

use vstd::prelude::*;

use crate::common::{contains_sub, str_contains, DataFormat, Driver, Os, Quality, RateControl};
use crate::ffmpeg::{AVHWDeviceType, AVPixelFormat, AV_LOG_ERROR, AV_NUM_DATA_POINTERS};
use crate::ffram::{
    buffer_length, civ, ffmpeg_linesize_offset_length, plane_offset, plane_stride, push_info,
    sizeable_pixfmt, sized_plane_count, CodecInfo, CodecInfoV,
};
use crate::vram::{pair_listed, Available};

verus! {

/// Parameters an encode session is created from; also the discovery
/// cache key, compared by full structural equality.
#[derive(Debug, Clone)]
pub struct EncodeContext {
    pub name: String,
    pub mc_name: Option<String>,
    pub width: i32,
    pub height: i32,
    pub pixfmt: AVPixelFormat,
    pub align: i32,
    pub fps: i32,
    pub gop: i32,
    pub rc: RateControl,
    pub quality: Quality,
    pub kbs: i32,
    pub q: i32,
    pub thread_count: i32,
}

/// Mathematical value of an [`EncodeContext`].
pub ghost struct EncodeContextV {
    pub name: Seq<char>,
    pub mc_name: Option<Seq<char>>,
    pub width: int,
    pub height: int,
    pub pixfmt: AVPixelFormat,
    pub align: int,
    pub fps: int,
    pub gop: int,
    pub rc: RateControl,
    pub quality: Quality,
    pub kbs: int,
    pub q: int,
    pub thread_count: int,
}

impl DeepView for EncodeContext {
    type V = EncodeContextV;

    open spec fn deep_view(&self) -> EncodeContextV {
        EncodeContextV {
            name: self.name@,
            mc_name: self.mc_name.deep_view(),
            width: self.width as int,
            height: self.height as int,
            pixfmt: self.pixfmt,
            align: self.align as int,
            fps: self.fps as int,
            gop: self.gop as int,
            rc: self.rc,
            quality: self.quality,
            kbs: self.kbs as int,
            q: self.q as int,
            thread_count: self.thread_count as int,
        }
    }
}

/// Full structural equality of two encode parameter sets — the discovery
/// cache key comparison.
pub fn same_encode_context(a: &EncodeContext, b: &EncodeContext) -> (r: bool)
    ensures
        r == (a.deep_view() == b.deep_view()),
{
    let names_eq = a.name == b.name;
    let mc_eq = match (&a.mc_name, &b.mc_name) {
        (Option::None, Option::None) => true,
        (Option::Some(x), Option::Some(y)) => *x == *y,
        _ => false,
    };
    let r = names_eq && mc_eq && a.width == b.width && a.height == b.height && a.pixfmt == b.pixfmt
        && a.align == b.align && a.fps == b.fps && a.gop == b.gop && a.rc == b.rc && a.quality
        == b.quality && a.kbs == b.kbs && a.q == b.q && a.thread_count == b.thread_count;
    proof {
        if r {
            assert(a.deep_view() == b.deep_view());
        } else {
            assert(a.deep_view() != b.deep_view());
        }
    }
    r
}

/// An owned compressed unit produced by one native encode callback.
#[derive(Debug, Clone)]
pub struct EncodeFrame {
    pub data: Vec<u8>,
    pub pts: i64,
    pub key: i32,
}

/// Mathematical value of an [`EncodeFrame`].
pub ghost struct EncodeFrameV {
    pub data: Seq<u8>,
    pub pts: int,
    pub key: int,
}

impl DeepView for EncodeFrame {
    type V = EncodeFrameV;

    open spec fn deep_view(&self) -> EncodeFrameV {
        EncodeFrameV { data: self.data@, pts: self.pts as int, key: self.key as int }
    }
}

/// Parameters whose raw frame buffer the sizing calculation can
/// produce: sane non-negative geometry and a pixel layout whose strides
/// and total length stay within the 32-bit range.
pub open spec fn probe_buffer_sizeable(ctx: EncodeContextV) -> bool {
    &&& 0 <= ctx.width
    &&& 0 <= ctx.height
    &&& 0 <= ctx.align
    &&& sizeable_pixfmt(ctx.pixfmt)
    &&& plane_stride(ctx.pixfmt, ctx.width, ctx.align, 0) <= i32::MAX
    &&& plane_stride(ctx.pixfmt, ctx.width, ctx.align, 1) <= i32::MAX
    &&& buffer_length(ctx.pixfmt, ctx.width, ctx.height, ctx.align) <= i32::MAX
}

/// Parameters a native encoder instance can be created from: a sizeable
/// buffer layout and even dimensions.
pub open spec fn encoder_accepts(ctx: EncodeContextV) -> bool {
    &&& ctx.width % 2 == 0
    &&& ctx.height % 2 == 0
    &&& probe_buffer_sizeable(ctx)
}

/// A live encode session: owns the output collection of exactly one
/// native encoder instance; the per-plane layout of its input buffers is
/// derived at creation.
pub struct Encoder {
    ctx: EncodeContext,
    frames: Vec<EncodeFrame>,
    linesize: Vec<i32>,
    offset: Vec<i32>,
    length: i32,
    error_logs: u64,
    alive: bool,
}

impl Encoder {
    /// The parameters the session was created from.
    pub closed spec fn ctx_spec(&self) -> EncodeContextV {
        self.ctx.deep_view()
    }

    /// The session's current output collection.
    pub closed spec fn frames_spec(&self) -> Seq<EncodeFrameV> {
        self.frames.deep_view()
    }

    /// Per-plane strides of the session's input buffers.
    pub closed spec fn linesize_spec(&self) -> Seq<int> {
        Seq::new(self.linesize@.len(), |i: int| self.linesize@[i] as int)
    }

    /// Per-plane byte offsets of the session's input buffers.
    pub closed spec fn offset_spec(&self) -> Seq<int> {
        Seq::new(self.offset@.len(), |i: int| self.offset@[i] as int)
    }

    /// Total byte length of one input buffer.
    pub closed spec fn length_spec(&self) -> int {
        self.length as int
    }

    /// How many error-level log records the session has emitted.
    pub closed spec fn error_logs_spec(&self) -> int {
        self.error_logs as int
    }

    /// The native instance has not been torn down yet.
    pub closed spec fn is_alive(&self) -> bool {
        self.alive
    }

    /// The parameters the session was created from.
    pub fn ctx(&self) -> (r: &EncodeContext)
        ensures
            r.deep_view() == self.ctx_spec(),
    {
        &self.ctx
    }

    /// The output collection of the most recent `encode` call.
    pub fn frames(&self) -> (r: &Vec<EncodeFrame>)
        ensures
            r.deep_view() == self.frames_spec(),
    {
        &self.frames
    }

    /// Per-plane strides of the session's input buffers.
    pub fn linesize(&self) -> (r: &Vec<i32>)
        ensures
            r@.len() == self.linesize_spec().len(),
            forall|i: int| 0 <= i < r@.len() ==> r@[i] == self.linesize_spec()[i],
    {
        &self.linesize
    }

    /// Per-plane byte offsets of the session's input buffers.
    pub fn offset(&self) -> (r: &Vec<i32>)
        ensures
            r@.len() == self.offset_spec().len(),
            forall|i: int| 0 <= i < r@.len() ==> r@[i] == self.offset_spec()[i],
    {
        &self.offset
    }

    /// Total byte length of one input buffer.
    pub fn length(&self) -> (r: i32)
        ensures
            r == self.length_spec(),
    {
        self.length
    }

    /// How many error-level log records the session has emitted.
    pub fn error_logs(&self) -> (r: u64)
        ensures
            r == self.error_logs_spec(),
    {
        self.error_logs
    }

    /// Validate the parameters and derive the input buffer layout; a
    /// session is created exactly for parameters a native encoder
    /// accepts, mirroring a null native handle otherwise.
    pub fn new(ctx: EncodeContext) -> (r: Result<Encoder, ()>)
        ensures
            r is Ok <==> encoder_accepts(ctx.deep_view()),
            r matches Ok(e) ==> {
                &&& e.ctx_spec() == ctx.deep_view()
                &&& e.frames_spec() == Seq::<EncodeFrameV>::empty()
                &&& e.error_logs_spec() == 0
                &&& e.is_alive()
                &&& e.linesize_spec().len() == AV_NUM_DATA_POINTERS
                &&& e.offset_spec().len() == AV_NUM_DATA_POINTERS
                &&& forall|i: int|
                    0 <= i < sized_plane_count(ctx.deep_view().pixfmt)
                        ==> e.linesize_spec()[i] == plane_stride(
                        ctx.deep_view().pixfmt,
                        ctx.deep_view().width,
                        ctx.deep_view().align,
                        i,
                    )
                &&& forall|i: int|
                    0 <= i < sized_plane_count(ctx.deep_view().pixfmt)
                        ==> e.offset_spec()[i] == plane_offset(
                        ctx.deep_view().pixfmt,
                        ctx.deep_view().width,
                        ctx.deep_view().height,
                        ctx.deep_view().align,
                        i,
                    )
                &&& e.length_spec() == buffer_length(
                    ctx.deep_view().pixfmt,
                    ctx.deep_view().width,
                    ctx.deep_view().height,
                    ctx.deep_view().align,
                )
            },
    {
        if ctx.width < 0 || ctx.height < 0 || ctx.align < 0 {
            return Err(());
        }
        if ctx.width % 2 != 0 || ctx.height % 2 != 0 {
            return Err(());
        }
        match ffmpeg_linesize_offset_length(
            ctx.pixfmt,
            ctx.width as usize,
            ctx.height as usize,
            ctx.align as usize,
        ) {
            Ok((linesize, offset, length)) => {
                let frames: Vec<EncodeFrame> = Vec::new();
                proof {
                    assert(frames.deep_view() =~= Seq::<EncodeFrameV>::empty());
                }
                Ok(
                    Encoder {
                        ctx,
                        frames,
                        linesize,
                        offset,
                        length,
                        error_logs: 0,
                        alive: true,
                    },
                )
            },
            Err(()) => Err(()),
        }
    }

    /// Apply the outcome of one native encode call: the output collection
    /// is cleared first and then holds exactly the compressed units this
    /// call's callbacks yielded — never a unit of an earlier call. A
    /// non-zero status is returned as the error and logged once when the
    /// log-level gate permits.
    pub fn encode(&mut self, events: Vec<EncodeFrame>, ret: i32, log_level: i32) -> (r: Result<
        usize,
        i32,
    >)
        requires
            old(self).is_alive(),
            old(self).error_logs_spec() < u64::MAX,
        ensures
            final(self).is_alive(),
            final(self).ctx_spec() == old(self).ctx_spec(),
            final(self).linesize_spec() == old(self).linesize_spec(),
            final(self).offset_spec() == old(self).offset_spec(),
            final(self).length_spec() == old(self).length_spec(),
            final(self).frames_spec() == events.deep_view(),
            final(self).error_logs_spec() == old(self).error_logs_spec() + if ret != 0 && log_level
                >= AV_LOG_ERROR {
                1int
            } else {
                0int
            },
            ret != 0 ==> r == Err::<usize, i32>(ret),
            ret == 0 ==> (r matches Ok(n) && n == events.deep_view().len()),
    {
        self.frames.clear();
        let n = events.len();
        self.frames = events;
        if ret != 0 {
            if log_level >= AV_LOG_ERROR {
                self.error_logs = self.error_logs + 1;
            }
            Err(ret)
        } else {
            Ok(n)
        }
    }

    /// Forward a live bitrate change's native status: zero is success,
    /// anything else failure; the session itself is untouched.
    pub fn set_bitrate(&mut self, ret: i32) -> (r: Result<(), ()>)
        requires
            old(self).is_alive(),
        ensures
            *final(self) == *old(self),
            r is Ok <==> ret == 0,
    {
        if ret == 0 {
            Ok(())
        } else {
            Err(())
        }
    }

    /// Tear the session down; the native instance is destroyed exactly
    /// once, so a closed session accepts no further call.
    pub fn close(&mut self)
        requires
            old(self).is_alive(),
        ensures
            !final(self).is_alive(),
    {
        self.alive = false;
    }

    /// The bitstream format a codec name implies, by its first matching
    /// fragment.
    pub fn format_from_name(name: String) -> (r: Result<DataFormat, ()>)
        ensures
            r matches Ok(f) ==> format_from_name_spec(name@) == Some(f),
            r is Err <==> format_from_name_spec(name@) is None,
    {
        if str_contains(name.as_str(), "h264") {
            Ok(DataFormat::H264)
        } else if str_contains(name.as_str(), "hevc") {
            Ok(DataFormat::H265)
        } else if str_contains(name.as_str(), "vp8") {
            Ok(DataFormat::VP8)
        } else if str_contains(name.as_str(), "vp9") {
            Ok(DataFormat::VP9)
        } else if str_contains(name.as_str(), "av1") {
            Ok(DataFormat::AV1)
        } else {
            Err(())
        }
    }

    /// The blank frame-sized buffer an encoder probe feeds its trial
    /// session: zero-filled, sized by the format/geometry/alignment
    /// calculation, owed exactly when that calculation is defined for the
    /// parameters.
    pub fn dummy_yuv(ctx: &EncodeContext) -> (r: Result<Vec<u8>, ()>)
        ensures
            r is Ok <==> probe_buffer_sizeable(ctx.deep_view()),
            r matches Ok(v) ==> {
                &&& v@.len() == buffer_length(
                    ctx.deep_view().pixfmt,
                    ctx.deep_view().width,
                    ctx.deep_view().height,
                    ctx.deep_view().align,
                )
                &&& forall|i: int| 0 <= i < v@.len() ==> v@[i] == 0u8
            },
    {
        if ctx.width < 0 || ctx.height < 0 || ctx.align < 0 {
            return Err(());
        }
        match ffmpeg_linesize_offset_length(
            ctx.pixfmt,
            ctx.width as usize,
            ctx.height as usize,
            ctx.align as usize,
        ) {
            Ok((_, _, length)) => {
                proof {
                    crate::ffram::lemma_buffer_length_nonneg(
                        ctx.deep_view().pixfmt,
                        ctx.deep_view().width,
                        ctx.deep_view().height,
                        ctx.deep_view().align,
                    );
                }
                let len = length as usize;
                let yuv: Vec<u8> = vec![0u8; len];
                Ok(yuv)
            },
            Err(()) => Err(()),
        }
    }
}

/// The bitstream format each known name fragment implies, first match
/// winning.
pub open spec fn format_from_name_spec(name: Seq<char>) -> Option<DataFormat> {
    if contains_sub(name, "h264"@) {
        Some(DataFormat::H264)
    } else if contains_sub(name, "hevc"@) {
        Some(DataFormat::H265)
    } else if contains_sub(name, "vp8"@) {
        Some(DataFormat::VP8)
    } else if contains_sub(name, "vp9"@) {
        Some(DataFormat::VP9)
    } else if contains_sub(name, "av1"@) {
        Some(DataFormat::AV1)
    } else {
        None
    }
}

/// Whether an optional encode manifest confirms a driver/format pair; an
/// absent manifest confirms everything.
pub open spec fn spec_encode_allows(
    manifest: Option<&Available>,
    driver: Driver,
    format: DataFormat,
) -> bool {
    match manifest {
        Option::None => true,
        Option::Some(a) => pair_listed(a.e@, driver, format),
    }
}

/// The platform media SDK's encoder candidates: Windows only, gated by
/// its GPU presence and the manifest.
pub open spec fn qsv_candidates_spec(os: Os, intel: bool, m: Option<&Available>) -> Seq<
    CodecInfoV,
> {
    (if os == Os::Windows && intel && spec_encode_allows(m, Driver::MFX, DataFormat::H264) {
        seq![civ("h264_qsv"@, DataFormat::H264, 70, AVHWDeviceType::AV_HWDEVICE_TYPE_NONE)]
    } else {
        Seq::empty()
    }) + (if os == Os::Windows && intel && spec_encode_allows(m, Driver::MFX, DataFormat::H265) {
        seq![civ("hevc_qsv"@, DataFormat::H265, 60, AVHWDeviceType::AV_HWDEVICE_TYPE_NONE)]
    } else {
        Seq::empty()
    })
}

/// The two GPU vendors' encoder candidates on desktop platforms, gated by
/// GPU presence and the manifest; the second vendor's HEVC entry skips the
/// manifest gate because manifests do not track it.
pub open spec fn gpu_candidates_spec(os: Os, nv: bool, amf: bool, m: Option<&Available>) -> Seq<
    CodecInfoV,
> {
    if os == Os::Windows || os == Os::Linux {
        (if nv && spec_encode_allows(m, Driver::NV, DataFormat::H264) {
            seq![civ("h264_nvenc"@, DataFormat::H264, 92, AVHWDeviceType::AV_HWDEVICE_TYPE_NONE)]
        } else {
            Seq::empty()
        }) + (if nv && spec_encode_allows(m, Driver::NV, DataFormat::H265) {
            seq![civ("hevc_nvenc"@, DataFormat::H265, 94, AVHWDeviceType::AV_HWDEVICE_TYPE_NONE)]
        } else {
            Seq::empty()
        }) + (if amf && spec_encode_allows(m, Driver::AMF, DataFormat::H264) {
            seq![civ("h264_amf"@, DataFormat::H264, 92, AVHWDeviceType::AV_HWDEVICE_TYPE_NONE)]
        } else {
            Seq::empty()
        }) + (if amf {
            seq![civ("hevc_amf"@, DataFormat::H265, 94, AVHWDeviceType::AV_HWDEVICE_TYPE_NONE)]
        } else {
            Seq::empty()
        })
    } else {
        Seq::empty()
    }
}

/// The open driver path's encoder candidate: Linux only, AVC only.
pub open spec fn vaapi_candidates_spec(os: Os) -> Seq<CodecInfoV> {
    if os == Os::Linux {
        seq![civ("h264_vaapi"@, DataFormat::H264, 70, AVHWDeviceType::AV_HWDEVICE_TYPE_NONE)]
    } else {
        Seq::empty()
    }
}

/// The media toolbox's encoder candidate: HEVC only — its AVC encoder is
/// known unreliable — per the toolbox's own support query.
pub open spec fn vt_candidates_spec(os: Os, vt_h265: bool) -> Seq<CodecInfoV> {
    if os == Os::MacOs && vt_h265 {
        seq![
            civ("hevc_videotoolbox"@, DataFormat::H265, 91, AVHWDeviceType::AV_HWDEVICE_TYPE_NONE),
        ]
    } else {
        Seq::empty()
    }
}

/// The static encode candidate table of one platform, intersected with
/// the live GPU presence queries and the optional capability manifest.
pub open spec fn encoder_candidates_spec(
    os: Os,
    nv: bool,
    amf: bool,
    intel: bool,
    vt_h265: bool,
    m: Option<&Available>,
) -> Seq<CodecInfoV> {
    qsv_candidates_spec(os, intel, m) + gpu_candidates_spec(os, nv, amf, m)
        + vaapi_candidates_spec(os) + vt_candidates_spec(os, vt_h265)
}

/// Build the encode candidate list to probe: static per-platform
/// knowledge, intersected with the GPU presence queries, the media
/// toolbox support query and the optional capability manifest.
pub fn encoder_candidates(
    os: Os,
    nv: bool,
    amf: bool,
    intel: bool,
    vt_h265: bool,
    manifest: Option<&Available>,
) -> (r: Vec<CodecInfo>)
    ensures
        r.deep_view() == encoder_candidates_spec(os, nv, amf, intel, vt_h265, manifest),
{
    let none = AVHWDeviceType::AV_HWDEVICE_TYPE_NONE;
    let mut v: Vec<CodecInfo> = Vec::new();
    proof {
        assert(v.deep_view() =~= Seq::<CodecInfoV>::empty());
    }
    if os == Os::Windows && intel && crate::vram::manifest_allows(
        manifest,
        true,
        Driver::MFX,
        DataFormat::H264,
    ) {
        push_info(&mut v, "h264_qsv", DataFormat::H264, 70, none);
    }
    if os == Os::Windows && intel && crate::vram::manifest_allows(
        manifest,
        true,
        Driver::MFX,
        DataFormat::H265,
    ) {
        push_info(&mut v, "hevc_qsv", DataFormat::H265, 60, none);
    }
    proof {
        assert(v.deep_view() =~= qsv_candidates_spec(os, intel, manifest));
    }
    if os == Os::Windows || os == Os::Linux {
        if nv && crate::vram::manifest_allows(manifest, true, Driver::NV, DataFormat::H264) {
            push_info(&mut v, "h264_nvenc", DataFormat::H264, 92, none);
        }
        if nv && crate::vram::manifest_allows(manifest, true, Driver::NV, DataFormat::H265) {
            push_info(&mut v, "hevc_nvenc", DataFormat::H265, 94, none);
        }
        if amf && crate::vram::manifest_allows(manifest, true, Driver::AMF, DataFormat::H264) {
            push_info(&mut v, "h264_amf", DataFormat::H264, 92, none);
        }
        if amf {
            push_info(&mut v, "hevc_amf", DataFormat::H265, 94, none);
        }
    }
    proof {
        assert(v.deep_view() =~= qsv_candidates_spec(os, intel, manifest) + gpu_candidates_spec(
            os,
            nv,
            amf,
            manifest,
        ));
    }
    if os == Os::Linux {
        push_info(&mut v, "h264_vaapi", DataFormat::H264, 70, none);
    }
    if os == Os::MacOs && vt_h265 {
        push_info(&mut v, "hevc_videotoolbox", DataFormat::H265, 91, none);
    }
    proof {
        assert(v.deep_view() =~= encoder_candidates_spec(os, nv, amf, intel, vt_h265, manifest));
    }
    v
}

/// Whether a candidate is compatible with the requested pixel layout: the
/// platform media SDK's encoders cannot take the planar layout.
pub open spec fn pixfmt_compatible(c: CodecInfoV, pixfmt: AVPixelFormat) -> bool {
    !(pixfmt == AVPixelFormat::AV_PIX_FMT_YUV420P && contains_sub(c.name, "qsv"@))
}

/// The candidates structurally compatible with the requested pixel
/// layout, order preserved.
pub open spec fn filter_pixfmt_spec(s: Seq<CodecInfoV>, pixfmt: AVPixelFormat) -> Seq<CodecInfoV>
    decreases s.len(),
{
    if s.len() == 0 {
        Seq::empty()
    } else {
        filter_pixfmt_spec(s.drop_last(), pixfmt) + if pixfmt_compatible(s.last(), pixfmt) {
            seq![s.last()]
        } else {
            Seq::empty()
        }
    }
}

/// Drop the candidates structurally incompatible with the requested pixel
/// layout before probing.
pub fn filter_encoder_candidates(codecs: &Vec<CodecInfo>, pixfmt: AVPixelFormat) -> (r: Vec<
    CodecInfo,
>)
    ensures
        r.deep_view() == filter_pixfmt_spec(codecs.deep_view(), pixfmt),
{
    let ghost cs = codecs.deep_view();
    let mut r: Vec<CodecInfo> = Vec::new();
    let ghost mut rv: Seq<CodecInfoV> = Seq::empty();
    let mut i: usize = 0;
    proof {
        assert(r.deep_view() =~= rv);
        assert(cs.take(0) =~= Seq::<CodecInfoV>::empty());
    }
    while i < codecs.len()
        invariant
            cs == codecs.deep_view(),
            cs.len() == codecs@.len(),
            i <= codecs@.len(),
            r.deep_view() == rv,
            rv == filter_pixfmt_spec(cs.take(i as int), pixfmt),
        decreases codecs@.len() - i,
    {
        proof {
            assert(cs.take(i + 1).drop_last() =~= cs.take(i as int));
            assert(cs.take(i + 1).last() == cs[i as int]);
            assert(cs[i as int] == codecs@[i as int].deep_view());
        }
        let keep = !(pixfmt == AVPixelFormat::AV_PIX_FMT_YUV420P && str_contains(
            codecs[i].name.as_str(),
            "qsv",
        ));
        if keep {
            let dup = codecs[i].duplicate();
            let ghost rv0 = rv;
            r.push(dup);
            proof {
                rv = rv.push(cs[i as int]);
                assert forall|j: int| 0 <= j < rv.len() implies r.deep_view()[j] == rv[j] by {
                    if j < rv0.len() {
                        assert(rv[j] == rv0[j]);
                    } else {
                        assert(rv[j] == cs[i as int]);
                    }
                }
                assert(r.deep_view() =~= rv);
            }
        }
        i += 1;
    }
    proof {
        assert(cs.take(codecs@.len() as int) =~= cs);
    }
    r
}

/// During encode probing, backends whose names mark them as sharing a
/// non-reentrant driver context are serialized; the rest probe fully in
/// parallel.
pub fn encoder_probe_needs_serialization(name: &str) -> (r: bool)
    ensures
        r == (contains_sub(name@, "nvenc"@) || contains_sub(name@, "mf"@)),
{
    str_contains(name, "nvenc") || str_contains(name, "mf")
}

/// The memoizing registry behind encoder discovery: it holds the result
/// of at most one probing pass, keyed by full structural equality of the
/// encode parameters — a differing context re-runs probing and replaces
/// the cached value.
pub struct EncoderDiscoveryCache {
    ctx: Option<EncodeContext>,
    infos: Vec<CodecInfo>,
    probe_runs: u64,
}

impl EncoderDiscoveryCache {
    /// The parameters of the memoized pass, if one has completed.
    pub closed spec fn cached_ctx_spec(&self) -> Option<EncodeContextV> {
        match self.ctx {
            Option::Some(c) => Some(c.deep_view()),
            Option::None => None,
        }
    }

    /// The memoized discovery result.
    pub closed spec fn infos_spec(&self) -> Seq<CodecInfoV> {
        self.infos.deep_view()
    }

    /// How many probing passes have run through this registry.
    pub closed spec fn probe_runs_spec(&self) -> int {
        self.probe_runs as int
    }

    /// An empty registry: nothing cached, no pass run.
    pub fn new() -> (r: EncoderDiscoveryCache)
        ensures
            r.cached_ctx_spec() is None,
            r.probe_runs_spec() == 0,
    {
        EncoderDiscoveryCache { ctx: None, infos: Vec::new(), probe_runs: 0 }
    }

    /// The memoized result for these parameters: a hit exactly when they
    /// equal the last cached parameters.
    pub fn lookup(&self, ctx: &EncodeContext) -> (r: Option<&Vec<CodecInfo>>)
        ensures
            (r is Some) == (self.cached_ctx_spec() == Some(ctx.deep_view())),
            r matches Some(v) ==> v.deep_view() == self.infos_spec(),
    {
        match &self.ctx {
            Some(c) => {
                if same_encode_context(c, ctx) {
                    Some(&self.infos)
                } else {
                    None
                }
            },
            None => None,
        }
    }

    /// Record a probing pass's result, replacing whatever was cached: the
    /// registry holds at most one entry.
    pub fn store(&mut self, ctx: EncodeContext, infos: Vec<CodecInfo>)
        requires
            old(self).probe_runs_spec() < u64::MAX,
        ensures
            final(self).cached_ctx_spec() == Some(ctx.deep_view()),
            final(self).infos_spec() == infos.deep_view(),
            final(self).probe_runs_spec() == old(self).probe_runs_spec() + 1,
    {
        self.ctx = Some(ctx);
        self.infos = infos;
        self.probe_runs = self.probe_runs + 1;
    }

    /// How many probing passes have run.
    pub fn probe_runs(&self) -> (r: u64)
        ensures
            r == self.probe_runs_spec(),
    {
        self.probe_runs
    }
}

/// One encoder-discovery call against the memoizing registry: a hit on
/// the cached parameters returns the cached result; anything else runs a
/// probing pass and replaces the single cached entry. The third component
/// counts probing passes.
pub open spec fn encoder_discover(
    st: Option<(EncodeContextV, Seq<CodecInfoV>)>,
    key: EncodeContextV,
    fresh: Seq<CodecInfoV>,
) -> (Option<(EncodeContextV, Seq<CodecInfoV>)>, Seq<CodecInfoV>, int) {
    match st {
        Option::Some(p) => if p.0 == key {
            (st, p.1, 0)
        } else {
            (Some((key, fresh)), fresh, 1)
        },
        Option::None => (Some((key, fresh)), fresh, 1),
    }
}

/// The encoder discovery cache holds at most one entry: asking for
/// parameters A, then for differing parameters B, then for A again
/// re-probes for B and re-probes for the second A — A is no longer the
/// last-cached context.
pub proof fn lemma_encoder_cache_single_entry(
    a: EncodeContextV,
    b: EncodeContextV,
    va: Seq<CodecInfoV>,
    vb: Seq<CodecInfoV>,
    va2: Seq<CodecInfoV>,
)
    requires
        a != b,
    ensures
        ({
            let first = encoder_discover(None, a, va);
            let second = encoder_discover(first.0, b, vb);
            let third = encoder_discover(second.0, a, va2);
            first.2 == 1 && second.2 == 1 && third.2 == 1 && third.1 == va2
        }),
{
}

/// A repeated ask with the still-cached parameters runs no new probing
/// pass and returns the memoized result unchanged.
pub proof fn lemma_encoder_cache_hit(a: EncodeContextV, va: Seq<CodecInfoV>, va2: Seq<CodecInfoV>)
    ensures
        ({
            let first = encoder_discover(None, a, va);
            let second = encoder_discover(first.0, a, va2);
            second.2 == 0 && second.1 == va
        }),
{
}

} // verus!
