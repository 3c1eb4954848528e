use hwcodec::common::{DataFormat, Driver, Os, Quality, RateControl};
use hwcodec::decode::{
    append_soft_fallbacks, decoder_candidates, probe_needs_serialization, promote_vaapi_scores,
    DecoderDiscoveryCache,
};
use hwcodec::encode::{
    encoder_candidates, encoder_probe_needs_serialization, filter_encoder_candidates,
    EncodeContext, EncoderDiscoveryCache,
};
use hwcodec::ffmpeg::{AVHWDeviceType, AVPixelFormat};
use hwcodec::ffram::{CodecInfo, SOFT_SCORE};
use hwcodec::vram::Available;

fn info(name: &str, format: DataFormat, score: i32, hwdevice: AVHWDeviceType) -> CodecInfo {
    CodecInfo { name: name.to_owned(), format, score, hwdevice }
}

fn encode_ctx(height: i32) -> EncodeContext {
    EncodeContext {
        name: "h264_nvenc".to_owned(),
        mc_name: None,
        width: 1920,
        height,
        pixfmt: AVPixelFormat::AV_PIX_FMT_NV12,
        align: 0,
        fps: 30,
        gop: 60,
        rc: RateControl::RC_CBR,
        quality: Quality::Quality_Default,
        kbs: 4000,
        q: -1,
        thread_count: 4,
    }
}

#[test]
fn decoder_discovery_probes_once() {
    let mut cache = DecoderDiscoveryCache::new();
    let mut probes = 0;
    let mut results: Vec<Vec<String>> = Vec::new();
    for _ in 0..2 {
        if cache.needs_probe() {
            probes += 1;
            let probed = vec![info(
                "h264",
                DataFormat::H264,
                91,
                AVHWDeviceType::AV_HWDEVICE_TYPE_D3D11VA,
            )];
            cache.store(probed);
        }
        let cached = cache.lookup().unwrap();
        results.push(cached.iter().map(|c| c.name.clone()).collect());
    }
    assert_eq!(probes, 1);
    assert_eq!(cache.probe_runs(), 1);
    assert_eq!(results[0], results[1]);
}

#[test]
fn encoder_discovery_cache_holds_one_entry() {
    let ctx_a = encode_ctx(1080);
    let ctx_b = encode_ctx(1082);
    let mut cache = EncoderDiscoveryCache::new();
    let mut probes = 0;
    for ctx in [&ctx_a, &ctx_b, &ctx_a] {
        if cache.lookup(ctx).is_none() {
            probes += 1;
            cache.store(ctx.clone(), vec![info(
                "h264_nvenc",
                DataFormat::H264,
                92,
                AVHWDeviceType::AV_HWDEVICE_TYPE_NONE,
            )]);
        }
    }
    // B evicted A, so the second ask for A probed again.
    assert_eq!(probes, 3);
    assert_eq!(cache.probe_runs(), 3);
}

#[test]
fn encoder_discovery_cache_hit_skips_probing() {
    let ctx = encode_ctx(1080);
    let mut cache = EncoderDiscoveryCache::new();
    cache.store(ctx.clone(), vec![info(
        "hevc_amf",
        DataFormat::H265,
        94,
        AVHWDeviceType::AV_HWDEVICE_TYPE_NONE,
    )]);
    let hit = cache.lookup(&ctx).unwrap();
    assert_eq!(hit.len(), 1);
    assert_eq!(hit[0].name, "hevc_amf");
    assert_eq!(cache.probe_runs(), 1);
}

#[test]
fn decoder_candidates_on_windows() {
    let v = decoder_candidates(Os::Windows, false, false, false, None);
    assert_eq!(v.len(), 2);
    assert_eq!(v[0].name, "h264");
    assert_eq!(v[0].format, DataFormat::H264);
    assert_eq!(v[0].hwdevice, AVHWDeviceType::AV_HWDEVICE_TYPE_D3D11VA);
    assert_eq!(v[0].score, 91);
    assert_eq!(v[1].name, "hevc");
    assert_eq!(v[1].score, 91);
}

#[test]
fn decoder_candidates_on_linux_with_gpu() {
    let v = decoder_candidates(Os::Linux, true, false, false, None);
    assert_eq!(v.len(), 4);
    assert_eq!(v[0].hwdevice, AVHWDeviceType::AV_HWDEVICE_TYPE_CUDA);
    assert_eq!(v[0].score, 94);
    assert_eq!(v[1].hwdevice, AVHWDeviceType::AV_HWDEVICE_TYPE_CUDA);
    assert_eq!(v[1].score, 95);
    assert_eq!(v[2].hwdevice, AVHWDeviceType::AV_HWDEVICE_TYPE_VAAPI);
    assert_eq!(v[2].score, 70);
    assert_eq!(v[3].hwdevice, AVHWDeviceType::AV_HWDEVICE_TYPE_VAAPI);
}

#[test]
fn decoder_candidates_respect_manifest() {
    let manifest = Available { e: Vec::new(), d: vec![(Driver::NV, DataFormat::H264)] };
    let v = decoder_candidates(Os::Linux, true, false, false, Some(&manifest));
    // Only the confirmed vendor entry survives beside the open driver path.
    assert_eq!(v.len(), 3);
    assert_eq!(v[0].name, "h264");
    assert_eq!(v[0].hwdevice, AVHWDeviceType::AV_HWDEVICE_TYPE_CUDA);
    assert_eq!(v[1].hwdevice, AVHWDeviceType::AV_HWDEVICE_TYPE_VAAPI);
}

#[test]
fn decoder_candidates_on_mac_follow_toolbox() {
    let v = decoder_candidates(Os::MacOs, false, true, false, None);
    assert_eq!(v.len(), 1);
    assert_eq!(v[0].name, "h264");
    assert_eq!(v[0].hwdevice, AVHWDeviceType::AV_HWDEVICE_TYPE_VIDEOTOOLBOX);
    let none = decoder_candidates(Os::MacOs, false, false, false, None);
    assert!(none.is_empty());
}

#[test]
fn vaapi_promoted_only_without_vendor_entry() {
    let with_cuda = vec![
        info("h264", DataFormat::H264, 70, AVHWDeviceType::AV_HWDEVICE_TYPE_VAAPI),
        info("h264", DataFormat::H264, 94, AVHWDeviceType::AV_HWDEVICE_TYPE_CUDA),
    ];
    let r = promote_vaapi_scores(&with_cuda, true);
    assert_eq!(r[0].score, 70);
    assert_eq!(r[1].score, 94);

    let without_cuda = vec![info(
        "h264",
        DataFormat::H264,
        70,
        AVHWDeviceType::AV_HWDEVICE_TYPE_VAAPI,
    )];
    let r = promote_vaapi_scores(&without_cuda, true);
    assert_eq!(r[0].score, 91);
    let r = promote_vaapi_scores(&without_cuda, false);
    assert_eq!(r[0].score, 70);
}

#[test]
fn soft_fallbacks_are_appended_last() {
    let survivors = vec![info(
        "h264",
        DataFormat::H264,
        91,
        AVHWDeviceType::AV_HWDEVICE_TYPE_D3D11VA,
    )];
    let r = append_soft_fallbacks(survivors);
    assert_eq!(r.len(), 3);
    assert_eq!(r[1].name, "h264");
    assert_eq!(r[1].score, SOFT_SCORE);
    assert_eq!(r[1].hwdevice, AVHWDeviceType::AV_HWDEVICE_TYPE_NONE);
    assert_eq!(r[2].name, "hevc");
    assert_eq!(r[2].score, SOFT_SCORE);
}

#[test]
fn decode_probe_serialization_policy() {
    assert!(probe_needs_serialization(AVHWDeviceType::AV_HWDEVICE_TYPE_CUDA));
    assert!(probe_needs_serialization(AVHWDeviceType::AV_HWDEVICE_TYPE_D3D11VA));
    assert!(!probe_needs_serialization(AVHWDeviceType::AV_HWDEVICE_TYPE_VAAPI));
    assert!(!probe_needs_serialization(AVHWDeviceType::AV_HWDEVICE_TYPE_VIDEOTOOLBOX));
}

#[test]
fn encoder_candidates_on_windows() {
    let v = encoder_candidates(Os::Windows, true, true, true, false, None);
    let names: Vec<&str> = v.iter().map(|c| c.name.as_str()).collect();
    assert_eq!(
        names,
        vec!["h264_qsv", "hevc_qsv", "h264_nvenc", "hevc_nvenc", "h264_amf", "hevc_amf"]
    );
    let scores: Vec<i32> = v.iter().map(|c| c.score).collect();
    assert_eq!(scores, vec![70, 60, 92, 94, 92, 94]);
}

#[test]
fn encoder_candidates_on_linux() {
    let v = encoder_candidates(Os::Linux, true, false, true, false, None);
    let names: Vec<&str> = v.iter().map(|c| c.name.as_str()).collect();
    // No platform media SDK off Windows; the open driver path is appended.
    assert_eq!(names, vec!["h264_nvenc", "hevc_nvenc", "h264_vaapi"]);
}

#[test]
fn encoder_candidates_on_mac() {
    let v = encoder_candidates(Os::MacOs, false, false, false, true, None);
    assert_eq!(v.len(), 1);
    assert_eq!(v[0].name, "hevc_videotoolbox");
    assert_eq!(v[0].score, 91);
}

#[test]
fn encoder_candidates_respect_manifest() {
    let manifest = Available {
        e: vec![(Driver::NV, DataFormat::H264), (Driver::AMF, DataFormat::H264)],
        d: Vec::new(),
    };
    let v = encoder_candidates(Os::Windows, true, true, true, false, Some(&manifest));
    let names: Vec<&str> = v.iter().map(|c| c.name.as_str()).collect();
    // The second vendor's HEVC entry skips the manifest gate.
    assert_eq!(names, vec!["h264_nvenc", "h264_amf", "hevc_amf"]);
}

#[test]
fn planar_input_excludes_media_sdk() {
    let v = encoder_candidates(Os::Windows, true, true, true, false, None);
    let kept = filter_encoder_candidates(&v, AVPixelFormat::AV_PIX_FMT_YUV420P);
    let names: Vec<&str> = kept.iter().map(|c| c.name.as_str()).collect();
    assert_eq!(names, vec!["h264_nvenc", "hevc_nvenc", "h264_amf", "hevc_amf"]);
    let kept = filter_encoder_candidates(&v, AVPixelFormat::AV_PIX_FMT_NV12);
    assert_eq!(kept.len(), 6);
}

#[test]
fn encode_probe_serialization_policy() {
    assert!(encoder_probe_needs_serialization("h264_nvenc"));
    assert!(encoder_probe_needs_serialization("hevc_amf"));
    assert!(!encoder_probe_needs_serialization("h264_qsv"));
    assert!(!encoder_probe_needs_serialization("h264_vaapi"));
}
