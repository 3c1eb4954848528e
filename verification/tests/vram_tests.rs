use hwcodec::common::{DataFormat, Driver, Os, API};
use hwcodec::vram::amf::{
    possible_support_decoders as amf_decoders, possible_support_encoders as amf_encoders,
};
use hwcodec::vram::mfx::{
    possible_support_decoders as mfx_decoders, possible_support_encoders as mfx_encoders,
};
use hwcodec::vram::nv::{
    possible_support_decoders as nv_decoders, possible_support_encoders as nv_encoders, MASK_H264,
    MASK_H265,
};
use hwcodec::vram::{
    adapters_for_candidate, decode_candidates, manifest_allows, probe_needs_serialization,
    Available, DecodeContext,
};

#[test]
fn manifest_contains_checks_direction() {
    let manifest = Available {
        e: vec![(Driver::NV, DataFormat::H264)],
        d: vec![(Driver::MFX, DataFormat::H265)],
    };
    assert!(manifest.contains(true, Driver::NV, DataFormat::H264));
    assert!(!manifest.contains(true, Driver::NV, DataFormat::H265));
    assert!(!manifest.contains(true, Driver::MFX, DataFormat::H265));
    assert!(manifest.contains(false, Driver::MFX, DataFormat::H265));
    assert!(!manifest.contains(false, Driver::NV, DataFormat::H264));
}

#[test]
fn absent_manifest_filters_nothing() {
    assert!(manifest_allows(None, true, Driver::NV, DataFormat::H264));
    assert!(manifest_allows(None, false, Driver::FFMPEG, DataFormat::H265));
    let empty = Available { e: Vec::new(), d: Vec::new() };
    assert!(!manifest_allows(Some(&empty), true, Driver::NV, DataFormat::H264));
}

#[test]
fn ffmpeg_vram_decoders_are_windows_only() {
    let v = hwcodec::vram::ffmpeg::possible_support_decoders(true);
    assert_eq!(v.len(), 2);
    assert_eq!(v[0].api, API::API_DX11);
    assert_eq!(v[0].data_format, DataFormat::H264);
    assert_eq!(v[1].data_format, DataFormat::H265);
    assert!(hwcodec::vram::ffmpeg::possible_support_decoders(false).is_empty());
}

#[test]
fn nv_support_follows_driver_mask() {
    assert!(nv_encoders(-1).is_empty());
    assert!(nv_decoders(-1).is_empty());
    let both = nv_encoders(MASK_H264 | MASK_H265);
    assert_eq!(both.len(), 2);
    assert_eq!(both[0].format, DataFormat::H264);
    assert_eq!(both[1].format, DataFormat::H265);
    let only265 = nv_decoders(MASK_H265);
    assert_eq!(only265.len(), 1);
    assert_eq!(only265[0].data_format, DataFormat::H265);
    assert!(nv_decoders(0).is_empty());
}

#[test]
fn amf_support_depends_on_runtime_and_platform() {
    assert!(amf_encoders(false, Os::Windows).is_empty());
    let win = amf_encoders(true, Os::Windows);
    assert_eq!(win.len(), 2);
    assert_eq!(win[0].api, API::API_DX11);
    let linux = amf_encoders(true, Os::Linux);
    assert_eq!(linux.len(), 4);
    assert_eq!(linux[0].api, API::API_OPENCL);
    assert_eq!(linux[2].api, API::API_VULKAN);
    // Decode stays AVC-only.
    let dec = amf_decoders(true, Os::Windows);
    assert_eq!(dec.len(), 1);
    assert_eq!(dec[0].data_format, DataFormat::H264);
    assert!(amf_decoders(true, Os::MacOs).is_empty());
}

#[test]
fn mfx_support_depends_on_runtime() {
    assert!(mfx_encoders(false).is_empty());
    assert_eq!(mfx_encoders(true).len(), 2);
    let dec = mfx_decoders(true);
    assert_eq!(dec.len(), 2);
    assert_eq!(dec[0].api, API::API_DX11);
}

#[test]
fn decode_candidate_list_orders_drivers() {
    let ffmpeg_list = hwcodec::vram::ffmpeg::possible_support_decoders(true);
    let amf_list = hwcodec::vram::amf::possible_support_decoders(true, Os::Windows);
    let mfx_list = hwcodec::vram::mfx::possible_support_decoders(true);
    let v = decode_candidates(&ffmpeg_list, &amf_list, &mfx_list, false);
    let drivers: Vec<Driver> = v.iter().map(|c| c.driver).collect();
    assert_eq!(
        drivers,
        vec![Driver::FFMPEG, Driver::FFMPEG, Driver::AMF, Driver::MFX, Driver::MFX]
    );
    assert!(v.iter().all(|c| c.luid == 0));
    assert!(v.iter().all(|c| !c.output_shared_handle));
}

#[test]
fn probe_success_expands_over_adapters() {
    let input = DecodeContext {
        driver: Driver::MFX,
        luid: 0,
        api: API::API_DX11,
        data_format: DataFormat::H264,
        output_shared_handle: true,
    };
    let expanded = adapters_for_candidate(&input, 0, &vec![7, 11]);
    assert_eq!(expanded.len(), 2);
    assert_eq!(expanded[0].luid, 7);
    assert_eq!(expanded[1].luid, 11);
    assert_eq!(expanded[0].driver, Driver::MFX);
    assert!(expanded[0].output_shared_handle);
    // A failed trial drops the candidate entirely.
    assert!(adapters_for_candidate(&input, -3, &vec![7, 11]).is_empty());
}

#[test]
fn vram_probe_serialization_policy() {
    assert!(probe_needs_serialization(Driver::NV));
    assert!(probe_needs_serialization(Driver::FFMPEG));
    assert!(!probe_needs_serialization(Driver::AMF));
    assert!(!probe_needs_serialization(Driver::MFX));
}
