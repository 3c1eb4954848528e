//! Working-codec records and the priority/score resolver: `CodecInfo`
//! values are produced by a successful probe, reduced to a best-per-format
//! choice by [`CodecInfo::score`], and sized probe payloads come from the
//! format/geometry/alignment calculation.

use vstd::prelude::*;

use crate::common::DataFormat;
use crate::ffmpeg::{AVHWDeviceType, AVPixelFormat, AV_NUM_DATA_POINTERS};

verus! {

/// A backend/format combination confirmed working by a probe, with its
/// ranking score.
#[derive(Debug, Clone)]
pub struct CodecInfo {
    pub name: String,
    pub format: DataFormat,
    pub score: i32,
    pub hwdevice: AVHWDeviceType,
}

/// Mathematical value of a [`CodecInfo`].
pub ghost struct CodecInfoV {
    pub name: Seq<char>,
    pub format: DataFormat,
    pub score: int,
    pub hwdevice: AVHWDeviceType,
}

impl View for CodecInfo {
    type V = CodecInfoV;

    open spec fn view(&self) -> CodecInfoV {
        CodecInfoV {
            name: self.name@,
            format: self.format,
            score: self.score as int,
            hwdevice: self.hwdevice,
        }
    }
}

impl DeepView for CodecInfo {
    type V = CodecInfoV;

    open spec fn deep_view(&self) -> CodecInfoV {
        self.view()
    }
}

impl Default for CodecInfo {
    /// The placeholder record: empty name, AVC, score zero, no hardware
    /// device.
    fn default() -> (r: Self)
        ensures
            r@.name == Seq::<char>::empty(),
            r@.format == DataFormat::H264,
            r@.score == 0,
            r@.hwdevice == AVHWDeviceType::AV_HWDEVICE_TYPE_NONE,
    {
        CodecInfo {
            name: String::new(),
            format: DataFormat::H264,
            score: 0,
            hwdevice: AVHWDeviceType::AV_HWDEVICE_TYPE_NONE,
        }
    }
}

/// Score given to the software-fallback entries, below every
/// hardware-backed score in the static candidate tables.
pub const SOFT_SCORE: i32 = 50;

/// The best-per-format choice over a flat list of working codecs.
#[derive(Debug, Clone)]
pub struct CodecInfos {
    pub h264: Option<CodecInfo>,
    pub h265: Option<CodecInfo>,
}

/// The entry of `s` with format `format` and the highest score, the first
/// such entry winning ties; `None` when no entry has that format.
pub open spec fn best_of(s: Seq<CodecInfoV>, format: DataFormat) -> Option<CodecInfoV>
    decreases s.len(),
{
    if s.len() == 0 {
        None
    } else {
        let prev = best_of(s.drop_last(), format);
        let c = s.last();
        if c.format == format {
            match prev {
                Option::None => Some(c),
                Option::Some(b) => if b.score < c.score {
                    Some(c)
                } else {
                    Some(b)
                },
            }
        } else {
            prev
        }
    }
}

/// The best entry reported by [`best_of`] really is a maximal entry of its
/// format, present in the list, and `None` is reported only when the format
/// does not occur at all.
pub proof fn lemma_best_of_is_max(s: Seq<CodecInfoV>, format: DataFormat)
    ensures
        best_of(s, format) matches Some(c) ==> {
            &&& exists|i: int| 0 <= i < s.len() && s[i] == c
            &&& c.format == format
            &&& forall|i: int| 0 <= i < s.len() && s[i].format == format ==> s[i].score <= c.score
        },
        best_of(s, format) is None ==> forall|i: int| 0 <= i < s.len() ==> s[i].format != format,
    decreases s.len(),
{
    if s.len() > 0 {
        lemma_best_of_is_max(s.drop_last(), format);
        assert forall|i: int| 0 <= i < s.len() - 1 implies s[i] == s.drop_last()[i] by {}
    }
}

/// The winner reported by [`best_of`] is the first maximal entry of its
/// format: it stands at a position before which every entry of that
/// format scores strictly lower.
pub proof fn lemma_best_of_first_wins_ties(s: Seq<CodecInfoV>, format: DataFormat)
    ensures
        best_of(s, format) matches Some(c) ==> exists|i: int|
            0 <= i < s.len() && (#[trigger] s[i]) == c && forall|j: int|
                0 <= j < i && s[j].format == format ==> s[j].score < c.score,
    decreases s.len(),
{
    if s.len() > 0 && best_of(s, format) is Some {
        let c = best_of(s, format).unwrap();
        let prev = best_of(s.drop_last(), format);
        lemma_best_of_first_wins_ties(s.drop_last(), format);
        lemma_best_of_is_max(s.drop_last(), format);
        assert forall|i: int| 0 <= i < s.len() - 1 implies s[i] == s.drop_last()[i] by {}
        if s.last().format == format && (prev is None || prev.unwrap().score < s.last().score) {
            let w = s.len() - 1;
            assert forall|j: int| 0 <= j < w && s[j].format == format implies s[j].score
                < c.score by {
                assert(s.drop_last()[j] == s[j]);
            }
            assert(s[w] == c && forall|j: int|
                0 <= j < w && s[j].format == format ==> s[j].score < c.score);
        } else {
            let w = choose|i: int|
                0 <= i < s.drop_last().len() && (#[trigger] s.drop_last()[i]) == c && forall|
                    j: int,
                |
                    0 <= j < i && s.drop_last()[j].format == format ==> s.drop_last()[j].score
                        < c.score;
            assert forall|j: int| 0 <= j < w && s[j].format == format implies s[j].score
                < c.score by {
                assert(s.drop_last()[j] == s[j]);
            }
            assert(s[w] == c && forall|j: int|
                0 <= j < w && s[j].format == format ==> s[j].score < c.score);
        }
    }
}

impl CodecInfo {
    /// Reduce a list of working codecs to the best entry per tracked
    /// format: the highest score wins, the first entry encountered wins
    /// ties, and entries of untracked formats are ignored. An untracked
    /// entry is worth a complaint in the process log; this crate models
    /// log emissions only on sessions, so the caller that assembled such
    /// a list reports it (no clause here speaks of it).
    pub fn score(coders: Vec<CodecInfo>) -> (r: CodecInfos)
        ensures
            r.h264.deep_view() == best_of(coders.deep_view(), DataFormat::H264),
            r.h265.deep_view() == best_of(coders.deep_view(), DataFormat::H265),
    {
        let mut rem = coders;
        let mut h264: Option<CodecInfo> = None;
        let mut h265: Option<CodecInfo> = None;
        let ghost mut processed: Seq<CodecInfoV> = Seq::empty();
        proof {
            assert(coders.deep_view() =~= processed + rem.deep_view());
        }
        while rem.len() > 0
            invariant
                coders.deep_view() == processed + rem.deep_view(),
                h264.deep_view() == best_of(processed, DataFormat::H264),
                h265.deep_view() == best_of(processed, DataFormat::H265),
            decreases rem.len(),
        {
            let coder = rem.remove(0);
            proof {
                assert(processed.push(coder@).drop_last() =~= processed);
                assert(coders.deep_view() =~= processed.push(coder@) + rem.deep_view());
                processed = processed.push(coder@);
            }
            match coder.format {
                DataFormat::H264 => {
                    match &h264 {
                        Some(b) => {
                            if b.score < coder.score {
                                h264 = Some(coder);
                            }
                        },
                        None => {
                            h264 = Some(coder);
                        },
                    }
                },
                DataFormat::H265 => {
                    match &h265 {
                        Some(b) => {
                            if b.score < coder.score {
                                h265 = Some(coder);
                            }
                        },
                        None => {
                            h265 = Some(coder);
                        },
                    }
                },
                _ => {},
            }
        }
        proof {
            assert(coders.deep_view() =~= processed);
        }
        CodecInfos { h264, h265 }
    }

    /// An owned copy with the same value.
    pub fn duplicate(&self) -> (r: CodecInfo)
        ensures
            r.deep_view() == self.deep_view(),
    {
        CodecInfo {
            name: self.name.clone(),
            format: self.format,
            score: self.score,
            hwdevice: self.hwdevice,
        }
    }

    /// The statically known software-fallback codecs: always assumed
    /// present, never probed, bound to no hardware device.
    pub fn soft() -> (r: CodecInfos)
        ensures
            r.h264.deep_view() == Some(CodecInfoV {
                name: "h264"@,
                format: DataFormat::H264,
                score: SOFT_SCORE as int,
                hwdevice: AVHWDeviceType::AV_HWDEVICE_TYPE_NONE,
            }),
            r.h265.deep_view() == Some(CodecInfoV {
                name: "hevc"@,
                format: DataFormat::H265,
                score: SOFT_SCORE as int,
                hwdevice: AVHWDeviceType::AV_HWDEVICE_TYPE_NONE,
            }),
    {
        CodecInfos {
            h264: Some(
                CodecInfo {
                    name: "h264".to_owned(),
                    format: DataFormat::H264,
                    score: SOFT_SCORE,
                    hwdevice: AVHWDeviceType::AV_HWDEVICE_TYPE_NONE,
                },
            ),
            h265: Some(
                CodecInfo {
                    name: "hevc".to_owned(),
                    format: DataFormat::H265,
                    score: SOFT_SCORE,
                    hwdevice: AVHWDeviceType::AV_HWDEVICE_TYPE_NONE,
                },
            ),
        }
    }
}

/// `x` rounded up to the next multiple of `a`.
pub open spec fn align_up(x: int, a: int) -> int {
    ((x + a - 1) / a) * a
}

/// Rounding a non-negative value up to a multiple of `a` stays within
/// `a - 1` of it.
pub proof fn lemma_align_up_bounds(x: int, a: int)
    requires
        0 <= x,
        1 <= a,
    ensures
        0 <= align_up(x, a) <= x + a - 1,
{
    let q = (x + a - 1) / a;
    let m = (x + a - 1) % a;
    vstd::arithmetic::div_mod::lemma_fundamental_div_mod(x + a - 1, a);
    vstd::arithmetic::div_mod::lemma_mod_bound(x + a - 1, a);
    assert(x + a - 1 == a * q + m);
    assert(q * a == a * q) by (nonlinear_arith);
}

/// Alignment actually applied: a non-positive request means no alignment.
pub open spec fn effective_align(align: int) -> int {
    if align <= 0 {
        1
    } else {
        align
    }
}

/// Whether the sizing calculation is defined for this pixel format.
pub open spec fn sizeable_pixfmt(pixfmt: AVPixelFormat) -> bool {
    pixfmt == AVPixelFormat::AV_PIX_FMT_YUV420P || pixfmt == AVPixelFormat::AV_PIX_FMT_NV12
}

/// Number of planes of a sizeable pixel format.
pub open spec fn sized_plane_count(pixfmt: AVPixelFormat) -> int {
    if pixfmt == AVPixelFormat::AV_PIX_FMT_YUV420P {
        3
    } else {
        2
    }
}

/// Stride of plane `i`: the luma plane spans the aligned width; 4:2:0
/// chroma planes span the aligned half width, except that semi-planar
/// chroma interleaves both components and spans the aligned full width.
pub open spec fn plane_stride(pixfmt: AVPixelFormat, width: int, align: int, i: int) -> int {
    let a = effective_align(align);
    if i == 0 {
        align_up(width, a)
    } else {
        if pixfmt == AVPixelFormat::AV_PIX_FMT_YUV420P {
            align_up((width + 1) / 2, a)
        } else {
            align_up(width, a)
        }
    }
}

/// Row count of plane `i`: full height for luma, half (rounded up) for
/// 4:2:0 chroma.
pub open spec fn plane_rows(height: int, i: int) -> int {
    if i == 0 {
        height
    } else {
        (height + 1) / 2
    }
}

/// Byte size of plane `i`.
pub open spec fn plane_size(pixfmt: AVPixelFormat, width: int, height: int, align: int, i: int) -> int {
    plane_stride(pixfmt, width, align, i) * plane_rows(height, i)
}

/// Byte offset of plane `i` within the packed buffer.
pub open spec fn plane_offset(pixfmt: AVPixelFormat, width: int, height: int, align: int, i: int) -> int
    decreases i,
{
    if i <= 0 {
        0
    } else {
        plane_offset(pixfmt, width, height, align, i - 1) + plane_size(
            pixfmt,
            width,
            height,
            align,
            i - 1,
        )
    }
}

/// Total byte length of a packed frame buffer.
pub open spec fn buffer_length(pixfmt: AVPixelFormat, width: int, height: int, align: int) -> int {
    plane_offset(pixfmt, width, height, align, sized_plane_count(pixfmt))
}

/// A buffer sized for non-negative geometry has non-negative length.
pub proof fn lemma_buffer_length_nonneg(pixfmt: AVPixelFormat, width: int, height: int, align: int)
    requires
        0 <= width,
        0 <= height,
    ensures
        0 <= buffer_length(pixfmt, width, height, align),
{
    reveal_with_fuel(plane_offset, 5);
    let a = effective_align(align);
    lemma_align_up_bounds(width, a);
    lemma_align_up_bounds((width + 1) / 2, a);
    vstd::arithmetic::mul::lemma_mul_nonnegative(
        plane_stride(pixfmt, width, align, 0),
        plane_rows(height, 0),
    );
    vstd::arithmetic::mul::lemma_mul_nonnegative(
        plane_stride(pixfmt, width, align, 1),
        plane_rows(height, 1),
    );
    vstd::arithmetic::mul::lemma_mul_nonnegative(
        plane_stride(pixfmt, width, align, 2),
        plane_rows(height, 2),
    );
}

/// The format/geometry/alignment calculation that sizes raw frame buffers:
/// per-plane strides, per-plane offsets and the total length, defined for
/// the planar and semi-planar 4:2:0 layouts. The stride and offset vectors
/// keep the fixed plane-array length, unused entries zero. Fails on any
/// other pixel format, on geometry outside the 32-bit range, and on a
/// total length above it.
pub fn ffmpeg_linesize_offset_length(
    pixfmt: AVPixelFormat,
    width: usize,
    height: usize,
    align: usize,
) -> (r: Result<(Vec<i32>, Vec<i32>, i32), ()>)
    ensures
        r matches Ok((linesize, offset, length)) ==> {
            &&& sizeable_pixfmt(pixfmt)
            &&& linesize@.len() == AV_NUM_DATA_POINTERS
            &&& offset@.len() == AV_NUM_DATA_POINTERS
            &&& forall|i: int|
                0 <= i < sized_plane_count(pixfmt) ==> linesize@[i] == plane_stride(
                    pixfmt,
                    width as int,
                    align as int,
                    i,
                )
            &&& forall|i: int|
                0 <= i < sized_plane_count(pixfmt) ==> offset@[i] == plane_offset(
                    pixfmt,
                    width as int,
                    height as int,
                    align as int,
                    i,
                )
            &&& forall|i: int|
                sized_plane_count(pixfmt) <= i < AV_NUM_DATA_POINTERS ==> linesize@[i] == 0
                    && offset@[i] == 0
            &&& length == buffer_length(pixfmt, width as int, height as int, align as int)
        },
        r is Err <==> !sizeable_pixfmt(pixfmt) || width > i32::MAX || height > i32::MAX || align
            > i32::MAX || plane_stride(pixfmt, width as int, align as int, 0) > i32::MAX
            || plane_stride(pixfmt, width as int, align as int, 1) > i32::MAX || buffer_length(
            pixfmt,
            width as int,
            height as int,
            align as int,
        ) > i32::MAX,
{
    if !(pixfmt == AVPixelFormat::AV_PIX_FMT_YUV420P || pixfmt == AVPixelFormat::AV_PIX_FMT_NV12) {
        return Err(());
    }
    if width > i32::MAX as usize || height > i32::MAX as usize || align > i32::MAX as usize {
        return Err(());
    }
    let w = width as u64;
    let h = height as u64;
    let a: u64 = if align == 0 {
        1
    } else {
        align as u64
    };
    proof {
        lemma_align_up_bounds(w as int, a as int);
        lemma_align_up_bounds((w + 1) as int / 2, a as int);
    }
    let stride0 = ((w + a - 1) / a) * a;
    let stride1 = if pixfmt == AVPixelFormat::AV_PIX_FMT_YUV420P {
        (((w + 1) / 2 + a - 1) / a) * a
    } else {
        ((w + a - 1) / a) * a
    };
    assert(stride0 == plane_stride(pixfmt, width as int, align as int, 0));
    assert(stride1 == plane_stride(pixfmt, width as int, align as int, 1));
    if stride0 > i32::MAX as u64 || stride1 > i32::MAX as u64 {
        return Err(());
    }
    let rows0 = h;
    let rows1 = (h + 1) / 2;
    proof {
        vstd::arithmetic::mul::lemma_mul_upper_bound(
            stride0 as int,
            i32::MAX as int,
            rows0 as int,
            i32::MAX as int,
        );
        vstd::arithmetic::mul::lemma_mul_upper_bound(
            stride1 as int,
            i32::MAX as int,
            rows1 as int,
            i32::MAX as int,
        );
    }
    let planes: usize = if pixfmt == AVPixelFormat::AV_PIX_FMT_YUV420P {
        3
    } else {
        2
    };
    let size0 = stride0 * rows0;
    let size1 = stride1 * rows1;
    let total = if planes == 3 {
        size0 + size1 + size1
    } else {
        size0 + size1
    };
    proof {
        reveal_with_fuel(plane_offset, 5);
        assert(total == buffer_length(pixfmt, width as int, height as int, align as int));
    }
    if total > i32::MAX as u64 {
        return Err(());
    }
    let mut linesize: Vec<i32> = Vec::new();
    let mut offset: Vec<i32> = Vec::new();
    linesize.push(stride0 as i32);
    linesize.push(stride1 as i32);
    offset.push(0);
    offset.push(size0 as i32);
    if planes == 3 {
        linesize.push(stride1 as i32);
        offset.push((size0 + size1) as i32);
    }
    proof {
        reveal_with_fuel(plane_offset, 5);
    }
    while linesize.len() < AV_NUM_DATA_POINTERS
        invariant
            planes == sized_plane_count(pixfmt),
            2 <= planes <= 3,
            planes <= linesize@.len() <= AV_NUM_DATA_POINTERS,
            offset@.len() == linesize@.len(),
            forall|i: int|
                0 <= i < planes ==> linesize@[i] == plane_stride(
                    pixfmt,
                    width as int,
                    align as int,
                    i,
                ),
            forall|i: int|
                0 <= i < planes ==> offset@[i] == plane_offset(
                    pixfmt,
                    width as int,
                    height as int,
                    align as int,
                    i,
                ),
            forall|i: int| planes <= i < linesize@.len() ==> linesize@[i] == 0 && offset@[i] == 0,
        decreases AV_NUM_DATA_POINTERS - linesize@.len(),
    {
        linesize.push(0);
        offset.push(0);
    }
    Ok((linesize, offset, total as i32))
}

/// Shorthand for a candidate record's value.
pub open spec fn civ(
    name: Seq<char>,
    format: DataFormat,
    score: int,
    hwdevice: AVHWDeviceType,
) -> CodecInfoV {
    CodecInfoV { name, format, score, hwdevice }
}

/// Append one statically known candidate.
pub(crate) fn push_info(
    v: &mut Vec<CodecInfo>,
    name: &str,
    format: DataFormat,
    score: i32,
    hwdevice: AVHWDeviceType,
)
    ensures
        final(v).deep_view() == old(v).deep_view().push(
            civ(name@, format, score as int, hwdevice),
        ),
{
    let info = CodecInfo { name: name.to_owned(), format, score, hwdevice };
    let ghost v0 = v.deep_view();
    let ghost x = civ(name@, format, score as int, hwdevice);
    v.push(info);
    proof {
        assert forall|j: int| 0 <= j < v0.len() + 1 implies v.deep_view()[j] == v0.push(x)[j] by {
            if j < v0.len() {
                assert(v0.push(x)[j] == v0[j]);
            } else {
                assert(v0.push(x)[j] == x);
            }
        }
        assert(v.deep_view() =~= v0.push(x));
    }
}

/// The working candidates of a probing pass: candidate `i` survives
/// exactly when its probe task succeeded, order preserved.
pub open spec fn filter_ok(s: Seq<CodecInfoV>, ok: Seq<bool>) -> Seq<CodecInfoV>
    decreases s.len(),
{
    if s.len() == 0 {
        Seq::empty()
    } else {
        filter_ok(s.drop_last(), ok.drop_last()) + if ok.last() {
            seq![s.last()]
        } else {
            Seq::empty()
        }
    }
}

/// Collect one discovery pass's surviving candidates: `ok[i]` is whether
/// candidate `i`'s trial create-and-process cycle succeeded; failures are
/// silently dropped.
pub fn collect_probe_results(candidates: &Vec<CodecInfo>, ok: &Vec<bool>) -> (r: Vec<CodecInfo>)
    requires
        candidates@.len() == ok@.len(),
    ensures
        r.deep_view() == filter_ok(candidates.deep_view(), ok@),
{
    let ghost cs = candidates.deep_view();
    let mut r: Vec<CodecInfo> = Vec::new();
    let ghost mut rv: Seq<CodecInfoV> = Seq::empty();
    let mut i: usize = 0;
    proof {
        assert(r.deep_view() =~= rv);
        assert(cs.take(0) =~= Seq::<CodecInfoV>::empty());
        assert(ok@.take(0) =~= Seq::<bool>::empty());
    }
    while i < candidates.len()
        invariant
            cs == candidates.deep_view(),
            candidates@.len() == ok@.len(),
            cs.len() == candidates@.len(),
            i <= candidates@.len(),
            r.deep_view() == rv,
            rv == filter_ok(cs.take(i as int), ok@.take(i as int)),
        decreases candidates@.len() - i,
    {
        proof {
            assert(cs.take(i + 1).drop_last() =~= cs.take(i as int));
            assert(ok@.take(i + 1).drop_last() =~= ok@.take(i as int));
            assert(cs.take(i + 1).last() == cs[i as int]);
        }
        if ok[i] {
            let dup = candidates[i].duplicate();
            proof {
                assert(cs[i as int] == candidates@[i as int].deep_view());
            }
            let ghost rv0 = rv;
            r.push(dup);
            proof {
                rv = rv.push(cs[i as int]);
                assert forall|j: int| 0 <= j < rv.len() implies r.deep_view()[j] == rv[j] by {
                    if j < rv0.len() {
                        assert(rv[j] == rv0[j]);
                    } else {
                        assert(rv[j] == cs[i as int]);
                    }
                }
                assert(r.deep_view() =~= rv);
            }
        }
        i += 1;
    }
    proof {
        assert(cs.take(candidates@.len() as int) =~= cs);
        assert(ok@.take(ok@.len() as int) =~= ok@);
    }
    r
}

} // verus!
