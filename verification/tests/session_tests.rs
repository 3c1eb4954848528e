use hwcodec::common::{DataFormat, Quality, RateControl};
use hwcodec::decode::{DecodeContext, Decoder, NativeFrame};
use hwcodec::encode::{EncodeContext, EncodeFrame, Encoder};
use hwcodec::ffmpeg::{AVHWDeviceType, AVPixelFormat, AV_LOG_ERROR};

fn decode_ctx() -> DecodeContext {
    DecodeContext {
        name: "h264".to_owned(),
        device_type: AVHWDeviceType::AV_HWDEVICE_TYPE_NONE,
        thread_count: 4,
    }
}

fn encode_ctx(width: i32, height: i32) -> EncodeContext {
    EncodeContext {
        name: "h264_nvenc".to_owned(),
        mc_name: None,
        width,
        height,
        pixfmt: AVPixelFormat::AV_PIX_FMT_YUV420P,
        align: 16,
        fps: 30,
        gop: 60,
        rc: RateControl::RC_DEFAULT,
        quality: Quality::Quality_Default,
        kbs: 2000,
        q: -1,
        thread_count: 1,
    }
}

fn planar_event() -> NativeFrame {
    // height 4, strides [4, 2, 2]: plane sizes 16, 4 and 4 bytes.
    NativeFrame {
        pixfmt: AVPixelFormat::AV_PIX_FMT_YUV420P,
        width: 4,
        height: 4,
        linesize: vec![4, 2, 2, 0, 0, 0, 0, 0],
        data: vec![
            (0u8..16).collect(),
            vec![100, 101, 102, 103, 99],
            vec![200, 201, 202, 203],
            Vec::new(),
            Vec::new(),
            Vec::new(),
            Vec::new(),
            Vec::new(),
        ],
        key: true,
    }
}

#[test]
fn marshal_planar_splits_three_planes() {
    let frame = hwcodec::decode::marshal_frame(&planar_event()).unwrap();
    assert_eq!(frame.pixfmt, AVPixelFormat::AV_PIX_FMT_YUV420P);
    assert_eq!(frame.width, 4);
    assert_eq!(frame.height, 4);
    assert!(frame.key);
    assert_eq!(frame.data.len(), 3);
    assert_eq!(frame.linesize, vec![4, 2, 2]);
    assert_eq!(frame.data[0], (0u8..16).collect::<Vec<u8>>());
    // The chroma prefix is copied; the trailing native byte is not.
    assert_eq!(frame.data[1], vec![100, 101, 102, 103]);
    assert_eq!(frame.data[2], vec![200, 201, 202, 203]);
}

#[test]
fn marshal_semi_planar_splits_two_planes() {
    let ev = NativeFrame {
        pixfmt: AVPixelFormat::AV_PIX_FMT_NV12,
        width: 4,
        height: 2,
        linesize: vec![4, 4, 0, 0, 0, 0, 0, 0],
        data: vec![
            vec![1, 2, 3, 4, 5, 6, 7, 8],
            vec![9, 10, 11, 12],
            Vec::new(),
            Vec::new(),
            Vec::new(),
            Vec::new(),
            Vec::new(),
            Vec::new(),
        ],
        key: false,
    };
    let frame = hwcodec::decode::marshal_frame(&ev).unwrap();
    assert_eq!(frame.data.len(), 2);
    assert_eq!(frame.linesize, vec![4, 4]);
    assert_eq!(frame.data[0], vec![1, 2, 3, 4, 5, 6, 7, 8]);
    assert_eq!(frame.data[1], vec![9, 10, 11, 12]);
    assert!(!frame.key);
}

#[test]
fn marshal_drops_unrecognised_pixel_format() {
    let ev = NativeFrame {
        pixfmt: AVPixelFormat::AV_PIX_FMT_RGB24,
        width: 4,
        height: 2,
        linesize: vec![12, 0, 0, 0, 0, 0, 0, 0],
        data: vec![vec![0; 24]],
        key: true,
    };
    assert!(hwcodec::decode::marshal_frame(&ev).is_none());
}

#[test]
fn decode_collects_frames_of_this_call() {
    let mut session = Decoder::new(decode_ctx());
    let events = vec![planar_event(), planar_event()];
    let n = session.decode(&events, 0, 0).unwrap();
    assert_eq!(n, 2);
    assert_eq!(session.frames().len(), 2);
    assert_eq!(session.error_logs(), 0);
}

#[test]
fn decode_output_isolation_between_calls() {
    let mut session = Decoder::new(decode_ctx());
    session.decode(&vec![planar_event()], 0, 0).unwrap();
    assert_eq!(session.frames().len(), 1);
    // The second call produces zero frames: nothing of the first call
    // may survive in the output collection.
    let n = session.decode(&Vec::new(), 0, 0).unwrap();
    assert_eq!(n, 0);
    assert!(session.frames().is_empty());
}

#[test]
fn decode_unsupported_format_is_non_fatal() {
    let mut session = Decoder::new(decode_ctx());
    let ev = NativeFrame {
        pixfmt: AVPixelFormat::AV_PIX_FMT_YUV444P,
        width: 4,
        height: 2,
        linesize: vec![4, 4, 4, 0, 0, 0, 0, 0],
        data: vec![vec![0; 8], vec![0; 8], vec![0; 8]],
        key: false,
    };
    let n = session.decode(&vec![ev], 0, 0).unwrap();
    assert_eq!(n, 0);
    assert!(session.frames().is_empty());
    // Exactly one error-level log record for the dropped frame.
    assert_eq!(session.error_logs(), 1);
}

#[test]
fn decode_error_is_logged_only_when_gate_permits() {
    let mut session = Decoder::new(decode_ctx());
    let r = session.decode(&Vec::new(), -22, 0);
    assert_eq!(r, Err(-22));
    assert_eq!(session.error_logs(), 0);
    let r = session.decode(&Vec::new(), -22, AV_LOG_ERROR);
    assert_eq!(r, Err(-22));
    assert_eq!(session.error_logs(), 1);
}

#[test]
fn decoder_close_tears_down_once() {
    let mut session = Decoder::new(decode_ctx());
    session.close();
}

#[test]
fn encoder_new_derives_buffer_layout() {
    let e = Encoder::new(encode_ctx(640, 480)).unwrap();
    assert_eq!(&e.linesize()[..3], &[640, 320, 320]);
    assert_eq!(&e.offset()[..3], &[0, 307200, 384000]);
    assert_eq!(e.length(), 460800);
    assert!(e.frames().is_empty());
    assert_eq!(e.ctx().width, 640);
}

#[test]
fn encoder_new_rejects_odd_dimensions() {
    assert!(Encoder::new(encode_ctx(641, 480)).is_err());
    assert!(Encoder::new(encode_ctx(640, 481)).is_err());
    assert!(Encoder::new(encode_ctx(-2, 480)).is_err());
}

#[test]
fn encoder_new_rejects_unsizeable_pixel_format() {
    let mut ctx = encode_ctx(640, 480);
    ctx.pixfmt = AVPixelFormat::AV_PIX_FMT_RGB24;
    assert!(Encoder::new(ctx).is_err());
}

#[test]
fn encode_replaces_output_collection() {
    let mut e = Encoder::new(encode_ctx(640, 480)).unwrap();
    let unit = EncodeFrame { data: vec![1, 2, 3], pts: 40, key: 1 };
    let n = e.encode(vec![unit], 0, 0).unwrap();
    assert_eq!(n, 1);
    assert_eq!(e.frames()[0].data, vec![1, 2, 3]);
    assert_eq!(e.frames()[0].pts, 40);
    assert_eq!(e.frames()[0].key, 1);
    let n = e.encode(Vec::new(), 0, 0).unwrap();
    assert_eq!(n, 0);
    assert!(e.frames().is_empty());
}

#[test]
fn encode_error_is_logged_only_when_gate_permits() {
    let mut e = Encoder::new(encode_ctx(640, 480)).unwrap();
    assert_eq!(e.encode(Vec::new(), 7, 0), Err(7));
    assert_eq!(e.error_logs(), 0);
    assert_eq!(e.encode(Vec::new(), 7, AV_LOG_ERROR), Err(7));
    assert_eq!(e.error_logs(), 1);
}

#[test]
fn set_bitrate_follows_native_status() {
    let mut e = Encoder::new(encode_ctx(640, 480)).unwrap();
    assert!(e.set_bitrate(0).is_ok());
    assert!(e.set_bitrate(-1).is_err());
}

#[test]
fn dummy_yuv_is_zero_filled_and_sized() {
    let yuv = Encoder::dummy_yuv(&encode_ctx(640, 480)).unwrap();
    assert_eq!(yuv.len(), 460800);
    assert!(yuv.iter().all(|b| *b == 0));
    // Odd geometry is still sizeable: the probe buffer is owed, with
    // each stride rounded up to the 16-byte alignment.
    let yuv = Encoder::dummy_yuv(&encode_ctx(642, 482)).unwrap();
    assert_eq!(yuv.len(), 656 * 482 + 2 * 336 * 241);
}

#[test]
fn dummy_yuv_fails_only_when_unsizeable() {
    let mut ctx = encode_ctx(640, 480);
    ctx.pixfmt = AVPixelFormat::AV_PIX_FMT_RGB24;
    assert!(Encoder::dummy_yuv(&ctx).is_err());
    let mut ctx = encode_ctx(640, 480);
    ctx.width = -640;
    assert!(Encoder::dummy_yuv(&ctx).is_err());
}

#[test]
fn format_from_name_matches_fragments() {
    assert_eq!(Encoder::format_from_name("h264_nvenc".to_owned()), Ok(DataFormat::H264));
    assert_eq!(Encoder::format_from_name("hevc_amf".to_owned()), Ok(DataFormat::H265));
    assert_eq!(Encoder::format_from_name("libvpx-vp8".to_owned()), Ok(DataFormat::VP8));
    assert_eq!(Encoder::format_from_name("vp9_qsv".to_owned()), Ok(DataFormat::VP9));
    assert_eq!(Encoder::format_from_name("librav1e-av1".to_owned()), Ok(DataFormat::AV1));
    assert_eq!(Encoder::format_from_name("mjpeg".to_owned()), Err(()));
    // The first matching fragment wins.
    assert_eq!(Encoder::format_from_name("hevc_h264".to_owned()), Ok(DataFormat::H264));
}
