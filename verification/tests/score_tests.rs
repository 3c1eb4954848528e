use hwcodec::common::DataFormat;
use hwcodec::ffmpeg::AVHWDeviceType;
use hwcodec::ffram::{CodecInfo, SOFT_SCORE};

fn info(name: &str, format: DataFormat, score: i32, hwdevice: AVHWDeviceType) -> CodecInfo {
    CodecInfo { name: name.to_owned(), format, score, hwdevice }
}

#[test]
fn score_picks_best_per_format() {
    let coders = vec![
        info("a", DataFormat::H264, 80, AVHWDeviceType::AV_HWDEVICE_TYPE_NONE),
        info("b", DataFormat::H264, 92, AVHWDeviceType::AV_HWDEVICE_TYPE_NONE),
        info("c", DataFormat::H265, 70, AVHWDeviceType::AV_HWDEVICE_TYPE_NONE),
    ];
    let best = CodecInfo::score(coders);
    let h264 = best.h264.unwrap();
    assert_eq!(h264.name, "b");
    assert_eq!(h264.score, 92);
    let h265 = best.h265.unwrap();
    assert_eq!(h265.name, "c");
    assert_eq!(h265.score, 70);
}

#[test]
fn score_empty_list_gives_nothing() {
    let best = CodecInfo::score(Vec::new());
    assert!(best.h264.is_none());
    assert!(best.h265.is_none());
}

#[test]
fn score_tie_keeps_first_entry() {
    let coders = vec![
        info("first", DataFormat::H264, 90, AVHWDeviceType::AV_HWDEVICE_TYPE_NONE),
        info("second", DataFormat::H264, 90, AVHWDeviceType::AV_HWDEVICE_TYPE_NONE),
    ];
    let best = CodecInfo::score(coders);
    assert_eq!(best.h264.unwrap().name, "first");
}

#[test]
fn score_ignores_untracked_formats() {
    let coders = vec![
        info("vp9", DataFormat::VP9, 99, AVHWDeviceType::AV_HWDEVICE_TYPE_NONE),
        info("av1", DataFormat::AV1, 99, AVHWDeviceType::AV_HWDEVICE_TYPE_NONE),
    ];
    let best = CodecInfo::score(coders);
    assert!(best.h264.is_none());
    assert!(best.h265.is_none());
}

#[test]
fn default_codec_info_is_placeholder() {
    let c = CodecInfo::default();
    assert_eq!(c.name, "");
    assert_eq!(c.format, DataFormat::H264);
    assert_eq!(c.score, 0);
    assert_eq!(c.hwdevice, AVHWDeviceType::AV_HWDEVICE_TYPE_NONE);
}

#[test]
fn soft_fallbacks_are_fixed() {
    let soft = CodecInfo::soft();
    let h264 = soft.h264.unwrap();
    assert_eq!(h264.name, "h264");
    assert_eq!(h264.format, DataFormat::H264);
    assert_eq!(h264.score, SOFT_SCORE);
    assert_eq!(h264.hwdevice, AVHWDeviceType::AV_HWDEVICE_TYPE_NONE);
    let h265 = soft.h265.unwrap();
    assert_eq!(h265.name, "hevc");
    assert_eq!(h265.format, DataFormat::H265);
    assert_eq!(h265.score, SOFT_SCORE);
}

#[test]
fn duplicate_copies_every_field() {
    let c = info("h264_nvenc", DataFormat::H264, 92, AVHWDeviceType::AV_HWDEVICE_TYPE_CUDA);
    let d = c.duplicate();
    assert_eq!(d.name, "h264_nvenc");
    assert_eq!(d.format, DataFormat::H264);
    assert_eq!(d.score, 92);
    assert_eq!(d.hwdevice, AVHWDeviceType::AV_HWDEVICE_TYPE_CUDA);
}

#[test]
fn collect_keeps_only_successful_probes() {
    let candidates = vec![
        info("a", DataFormat::H264, 1, AVHWDeviceType::AV_HWDEVICE_TYPE_NONE),
        info("b", DataFormat::H264, 2, AVHWDeviceType::AV_HWDEVICE_TYPE_NONE),
        info("c", DataFormat::H265, 3, AVHWDeviceType::AV_HWDEVICE_TYPE_NONE),
    ];
    let ok = vec![true, false, true];
    let survivors = hwcodec::ffram::collect_probe_results(&candidates, &ok);
    assert_eq!(survivors.len(), 2);
    assert_eq!(survivors[0].name, "a");
    assert_eq!(survivors[1].name, "c");
}

#[test]
fn collect_of_all_failures_is_empty() {
    let candidates = vec![info("a", DataFormat::H264, 1, AVHWDeviceType::AV_HWDEVICE_TYPE_NONE)];
    let survivors = hwcodec::ffram::collect_probe_results(&candidates, &vec![false]);
    assert!(survivors.is_empty());
}

#[test]
fn linesize_offset_length_planar() {
    let (linesize, offset, length) = hwcodec::ffram::ffmpeg_linesize_offset_length(
        hwcodec::ffmpeg::AVPixelFormat::AV_PIX_FMT_YUV420P,
        640,
        480,
        16,
    )
    .unwrap();
    assert_eq!(linesize.len(), 8);
    assert_eq!(offset.len(), 8);
    assert_eq!(&linesize[..3], &[640, 320, 320]);
    assert_eq!(&linesize[3..], &[0, 0, 0, 0, 0]);
    assert_eq!(&offset[..3], &[0, 307200, 384000]);
    assert_eq!(length, 460800);
}

#[test]
fn linesize_offset_length_semi_planar_unaligned() {
    let (linesize, offset, length) = hwcodec::ffram::ffmpeg_linesize_offset_length(
        hwcodec::ffmpeg::AVPixelFormat::AV_PIX_FMT_NV12,
        640,
        480,
        0,
    )
    .unwrap();
    assert_eq!(&linesize[..2], &[640, 640]);
    assert_eq!(&offset[..2], &[0, 307200]);
    assert_eq!(length, 460800);
}

#[test]
fn linesize_offset_length_odd_geometry() {
    let (linesize, _, length) = hwcodec::ffram::ffmpeg_linesize_offset_length(
        hwcodec::ffmpeg::AVPixelFormat::AV_PIX_FMT_YUV420P,
        321,
        241,
        1,
    )
    .unwrap();
    assert_eq!(&linesize[..3], &[321, 161, 161]);
    assert_eq!(length, 321 * 241 + 2 * 161 * 121);
}

#[test]
fn linesize_offset_length_rejects_packed_formats() {
    let r = hwcodec::ffram::ffmpeg_linesize_offset_length(
        hwcodec::ffmpeg::AVPixelFormat::AV_PIX_FMT_RGB24,
        640,
        480,
        16,
    );
    assert!(r.is_err());
}
