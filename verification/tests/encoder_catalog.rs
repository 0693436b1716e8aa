use libobs_recorder::adapter::{Adapter, AdapterType};
use libobs_recorder::encoders::{available_encoders_from, Encoder};
use libobs_recorder::obs_data::{ObsEntry, ObsValue};
use libobs_recorder::rate_control::RateControl;

fn text(key: &str, value: &str) -> ObsEntry {
    ObsEntry { key: key.to_string(), value: ObsValue::Text(value.to_string()) }
}

fn number(key: &str, value: i64) -> ObsEntry {
    ObsEntry { key: key.to_string(), value: ObsValue::Number(value) }
}

fn flag(key: &str, value: bool) -> ObsEntry {
    ObsEntry { key: key.to_string(), value: ObsValue::Flag(value) }
}

#[test]
fn encoder_identifiers() {
    assert_eq!(Encoder::JIM_NVENC.id(), "jim_nvenc");
    assert_eq!(Encoder::FFMPEG_NVENC.id(), "ffmpeg_nvenc");
    assert_eq!(Encoder::JIM_AV1.id(), "jim_av1_nvenc");
    assert_eq!(Encoder::AMD_AMF_H264.id(), "h264_texture_amf");
    assert_eq!(Encoder::AMD_AMF_AV1.id(), "av1_texture_amf");
    assert_eq!(Encoder::OBS_QSV11_H264.id(), "obs_qsv11_v2");
    assert_eq!(Encoder::OBS_QSV11_AV1.id(), "obs_qsv11_av1");
    assert_eq!(Encoder::OBS_X264.id(), "obs_x264");
}

#[test]
fn encoder_lookup() {
    assert_eq!(Encoder::from_id("jim_nvenc"), Some(Encoder::JIM_NVENC));
    assert_eq!(Encoder::from_id("ffmpeg_nvenc"), Some(Encoder::FFMPEG_NVENC));
    assert_eq!(Encoder::from_id("h264_texture_amf"), Some(Encoder::AMD_AMF_H264));
    assert_eq!(Encoder::from_id("obs_qsv11"), Some(Encoder::OBS_QSV11_H264));
    assert_eq!(Encoder::from_id("obs_x264"), Some(Encoder::OBS_X264));
    assert_eq!(Encoder::from_id("something_else"), None);
    assert_eq!(Encoder::from_id(""), None);
}

#[test]
fn adapter_vendor_classification() {
    assert_eq!(Adapter::new(0, "Intel(R) UHD Graphics".to_string()).adapter_type(), AdapterType::Intel);
    assert_eq!(Adapter::new(0, "AMD Radeon RX 6800".to_string()).adapter_type(), AdapterType::Amd);
    assert_eq!(Adapter::new(0, "NVIDIA GeForce RTX 3080".to_string()).adapter_type(), AdapterType::Nvidia);
    assert_eq!(Adapter::new(0, "Radeon RX 6800".to_string()).adapter_type(), AdapterType::Unknown);
    // case folding: the classification is case-insensitive
    assert_eq!(Adapter::new(0, "nVi dia".to_string()).adapter_type(), AdapterType::Unknown);
    assert_eq!(Adapter::new(0, "GeForce by nVidia".to_string()).adapter_type(), AdapterType::Nvidia);
}

#[test]
fn adapter_accessors_and_identity() {
    let a = Adapter::new(3, "NVIDIA Card".to_string());
    assert_eq!(a.id(), 3);
    assert_eq!(a.name(), "NVIDIA Card");
    assert_eq!(a.adapter_type(), AdapterType::Nvidia);
    // adapters are the same device exactly when the ids agree
    let b = Adapter::new(3, "Another Name".to_string());
    assert!(a == b);
    let c = Adapter::new(4, "NVIDIA Card".to_string());
    assert!(a != c);
}

#[test]
fn encoder_vendor_affinity() {
    let nvidia = Adapter::new(0, "NVIDIA GeForce".to_string());
    assert!(Encoder::JIM_NVENC.matches_adapter(&nvidia));
    assert!(!Encoder::AMD_AMF_H264.matches_adapter(&nvidia));
    assert!(!Encoder::OBS_QSV11_H264.matches_adapter(&nvidia));
    assert!(Encoder::OBS_X264.matches_adapter(&nvidia));
}

#[test]
fn available_encoders_filter_by_vendor() {
    let ids: Vec<String> = vec![
        "obs_x264".to_string(),
        "h264_texture_amf".to_string(),
        "jim_nvenc".to_string(),
        "some_unknown_encoder".to_string(),
        "ffmpeg_nvenc".to_string(),
    ];
    let nvidia = Adapter::new(0, "NVIDIA GeForce".to_string());
    // an Nvidia adapter is never offered an AMD- or Intel-only encoder, the
    // software fallback is always offered, and the preference order holds
    assert_eq!(
        available_encoders_from(&ids, &nvidia),
        vec![Encoder::JIM_NVENC, Encoder::FFMPEG_NVENC, Encoder::OBS_X264]
    );
    let amd = Adapter::new(0, "AMD Radeon".to_string());
    assert_eq!(
        available_encoders_from(&ids, &amd),
        vec![Encoder::AMD_AMF_H264, Encoder::OBS_X264]
    );
    let unknown = Adapter::new(0, "Mystery Device".to_string());
    assert_eq!(available_encoders_from(&ids, &unknown), vec![Encoder::OBS_X264]);
}

#[test]
fn nvidia_h264_parameters_cbr() {
    let d = Encoder::JIM_NVENC.settings(RateControl::CBR(4000));
    assert_eq!(
        d.entries,
        vec![
            number("bf", 2),
            flag("psycho_aq", true),
            flag("lookahead", true),
            text("profile", "high"),
            text("preset", "hq"),
            text("rate_control", "CBR"),
            number("bitrate", 4000),
        ]
    );
}

#[test]
fn nvidia_h264_parameters_vbr_headroom() {
    let d = Encoder::FFMPEG_NVENC.settings(RateControl::VBR(10000));
    assert_eq!(
        d.entries[5..],
        vec![
            text("rate_control", "VBR"),
            number("bitrate", 10000),
            number("max_bitrate", 15000),
        ]
    );
}

#[test]
fn amd_parameters_clamp_quality() {
    let d = Encoder::AMD_AMF_H264.settings(RateControl::CQP(60));
    assert_eq!(
        d.entries[5..],
        vec![text("rate_control", "CQP"), number("cqp", 51)]
    );
    // CRF is not a mode the AMD encoder takes: no rate-control entries
    let e = Encoder::AMD_AMF_AV1.settings(RateControl::CRF(20));
    assert_eq!(e.entries.len(), 5);
}

#[test]
fn intel_parameters_icq() {
    let d = Encoder::OBS_QSV11_H264.settings(RateControl::ICQ(23));
    assert_eq!(
        d.entries,
        vec![
            text("profile", "high"),
            text("rate_control", "ICQ"),
            number("icq_quality", 23),
        ]
    );
}

#[test]
fn x264_parameters_crf() {
    let d = Encoder::OBS_X264.settings(RateControl::CQP(25));
    assert_eq!(
        d.entries,
        vec![
            flag("use_bufsize", true),
            text("profile", "high"),
            text("preset", "veryfast"),
            text("rate_control", "CRF"),
            number("crf", 25),
        ]
    );
    // ICQ is not a mode x264 takes: only the base entries
    let e = Encoder::OBS_X264.settings(RateControl::ICQ(25));
    assert_eq!(e.entries.len(), 3);
}
