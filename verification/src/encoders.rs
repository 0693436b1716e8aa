use vstd::prelude::*;

use crate::adapter::{Adapter, AdapterType};
use crate::obs_data::{flag_entry, number_entry, text_entry, ObsData, ObsEntryV};
use crate::rate_control::RateControl;
use crate::text::str_eq;

verus! {

/// The video encoders the catalog knows, in preference order: hardware
/// encoders of each vendor first, the software fallback last.
#[allow(non_camel_case_types)]
#[derive(Debug, Copy, Clone, PartialEq, Eq, Structural)]
pub enum Encoder {
    /// NVIDIA h264 encoder
    JIM_NVENC,
    /// fallback NVIDIA h264 encoder
    FFMPEG_NVENC,
    /// NVIDIA AV1 encoder
    JIM_AV1,
    /// AMD h264 encoder
    AMD_AMF_H264,
    /// AMD AV1 encoder
    AMD_AMF_AV1,
    /// Intel h264 encoder
    OBS_QSV11_H264,
    /// Intel AV1 encoder
    OBS_QSV11_AV1,
    /// Software h264 encoder; works on every adapter
    OBS_X264,
}

/// The backend's type identifier for each encoder variant.
pub open spec fn spec_encoder_id(e: Encoder) -> Seq<char> {
    match e {
        Encoder::JIM_NVENC => "jim_nvenc"@,
        Encoder::FFMPEG_NVENC => "ffmpeg_nvenc"@,
        Encoder::JIM_AV1 => "jim_av1_nvenc"@,
        Encoder::AMD_AMF_H264 => "h264_texture_amf"@,
        Encoder::AMD_AMF_AV1 => "av1_texture_amf"@,
        Encoder::OBS_QSV11_H264 => "obs_qsv11_v2"@,
        Encoder::OBS_QSV11_AV1 => "obs_qsv11_av1"@,
        Encoder::OBS_X264 => "obs_x264"@,
    }
}

/// The encoder variant, if any, that a backend-reported identifier maps to.
/// Identifiers outside this table are unknown and dropped by enumeration.
pub open spec fn spec_encoder_of_id(s: Seq<char>) -> Option<Encoder> {
    if s == "jim_nvenc"@ {
        Some(Encoder::JIM_NVENC)
    } else if s == "ffmpeg_nvenc"@ {
        Some(Encoder::FFMPEG_NVENC)
    } else if s == "h264_texture_amf"@ {
        Some(Encoder::AMD_AMF_H264)
    } else if s == "obs_qsv11"@ {
        Some(Encoder::OBS_QSV11_H264)
    } else if s == "obs_x264"@ {
        Some(Encoder::OBS_X264)
    } else {
        None
    }
}

/// Whether an encoder is viable on an adapter of the given vendor: hardware
/// encoders need their vendor, the software fallback matches every adapter.
pub open spec fn spec_matches_adapter(e: Encoder, at: AdapterType) -> bool {
    match e {
        Encoder::OBS_X264 => true,
        Encoder::JIM_NVENC | Encoder::FFMPEG_NVENC | Encoder::JIM_AV1 => at
            == AdapterType::Nvidia,
        Encoder::AMD_AMF_H264 | Encoder::AMD_AMF_AV1 => at == AdapterType::Amd,
        Encoder::OBS_QSV11_H264 | Encoder::OBS_QSV11_AV1 => at == AdapterType::Intel,
    }
}

/// The catalog in its fixed preference order.
pub open spec fn spec_catalog() -> Seq<Encoder> {
    seq![
        Encoder::JIM_NVENC,
        Encoder::FFMPEG_NVENC,
        Encoder::JIM_AV1,
        Encoder::AMD_AMF_H264,
        Encoder::AMD_AMF_AV1,
        Encoder::OBS_QSV11_H264,
        Encoder::OBS_QSV11_AV1,
        Encoder::OBS_X264,
    ]
}

/// The catalog in its fixed preference order, as a vector.
pub fn catalog() -> (r: Vec<Encoder>)
    ensures
        r@ == spec_catalog(),
{
    let mut v: Vec<Encoder> = Vec::new();
    v.push(Encoder::JIM_NVENC);
    v.push(Encoder::FFMPEG_NVENC);
    v.push(Encoder::JIM_AV1);
    v.push(Encoder::AMD_AMF_H264);
    v.push(Encoder::AMD_AMF_AV1);
    v.push(Encoder::OBS_QSV11_H264);
    v.push(Encoder::OBS_QSV11_AV1);
    v.push(Encoder::OBS_X264);
    proof {
        assert(v@ =~= spec_catalog());
    }
    v
}

impl Encoder {
    /// The backend's type identifier for this encoder.
    pub fn id(&self) -> (r: &str)
        ensures
            r@ == spec_encoder_id(*self),
    {
        match self {
            Encoder::JIM_NVENC => "jim_nvenc",
            Encoder::FFMPEG_NVENC => "ffmpeg_nvenc",
            Encoder::JIM_AV1 => "jim_av1_nvenc",
            Encoder::AMD_AMF_H264 => "h264_texture_amf",
            Encoder::AMD_AMF_AV1 => "av1_texture_amf",
            Encoder::OBS_QSV11_H264 => "obs_qsv11_v2",
            Encoder::OBS_QSV11_AV1 => "obs_qsv11_av1",
            Encoder::OBS_X264 => "obs_x264",
        }
    }

    /// Looks a backend-reported identifier up in the catalog.
    pub fn from_id(value: &str) -> (r: Option<Encoder>)
        ensures
            r == spec_encoder_of_id(value@),
    {
        if str_eq(value, "jim_nvenc") {
            Some(Encoder::JIM_NVENC)
        } else if str_eq(value, "ffmpeg_nvenc") {
            Some(Encoder::FFMPEG_NVENC)
        } else if str_eq(value, "h264_texture_amf") {
            Some(Encoder::AMD_AMF_H264)
        } else if str_eq(value, "obs_qsv11") {
            Some(Encoder::OBS_QSV11_H264)
        } else if str_eq(value, "obs_x264") {
            Some(Encoder::OBS_X264)
        } else {
            None
        }
    }

    /// Whether this encoder is viable on the given adapter.
    pub fn matches_adapter(&self, adapter: &Adapter) -> (r: bool)
        ensures
            r == spec_matches_adapter(*self, adapter@.adapter_type),
    {
        match self {
            Encoder::OBS_X264 => true,
            Encoder::JIM_NVENC | Encoder::FFMPEG_NVENC | Encoder::JIM_AV1 => adapter
                .adapter_type() == AdapterType::Nvidia,
            Encoder::AMD_AMF_H264 | Encoder::AMD_AMF_AV1 => adapter.adapter_type()
                == AdapterType::Amd,
            Encoder::OBS_QSV11_H264 | Encoder::OBS_QSV11_AV1 => adapter.adapter_type()
                == AdapterType::Intel,
        }
    }

    /// The backend parameter set for this encoder under the given rate
    /// control: a pure function of the two.
    pub fn settings(self, rate_control: RateControl) -> (r: ObsData)
        ensures
            r@ == spec_encoder_settings(self, rate_control),
    {
        match self {
            Encoder::JIM_NVENC | Encoder::FFMPEG_NVENC => nvidia_h264_settings(rate_control),
            Encoder::JIM_AV1 => nvidia_av1_settings(rate_control),
            Encoder::AMD_AMF_H264 | Encoder::AMD_AMF_AV1 => amd_amf_settings(rate_control),
            Encoder::OBS_QSV11_H264 => intel_quicksync_h264_settings(rate_control),
            Encoder::OBS_QSV11_AV1 => intel_quicksync_av1_settings(rate_control),
            Encoder::OBS_X264 => obs_x264_settings(rate_control),
        }
    }
}

/// The parameter set each encoder variant hands the backend.
pub open spec fn spec_encoder_settings(e: Encoder, rc: RateControl) -> Seq<ObsEntryV> {
    match e {
        Encoder::JIM_NVENC | Encoder::FFMPEG_NVENC => spec_nvidia_h264_settings(rc),
        Encoder::JIM_AV1 => spec_nvidia_av1_settings(rc),
        Encoder::AMD_AMF_H264 | Encoder::AMD_AMF_AV1 => spec_amd_amf_settings(rc),
        Encoder::OBS_QSV11_H264 => spec_intel_quicksync_h264_settings(rc),
        Encoder::OBS_QSV11_AV1 => spec_intel_quicksync_av1_settings(rc),
        Encoder::OBS_X264 => spec_obs_x264_settings(rc),
    }
}

/// A quality value clamped to the range the encoders accept.
pub open spec fn spec_clamp51(q: u32) -> u32 {
    if q > 51 {
        51u32
    } else {
        q
    }
}

fn clamp51(q: u32) -> (r: u32)
    ensures
        r == spec_clamp51(q),
{
    if q > 51 {
        51
    } else {
        q
    }
}

/// A bitrate raised by half, the headroom the encoders get as maximum.
pub open spec fn spec_half_more(v: u32) -> i64 {
    (v + v / 2) as i64
}

fn half_more(v: u32) -> (r: i64)
    ensures
        r == spec_half_more(v),
{
    (v as i64) + (v as i64) / 2
}

pub open spec fn spec_nvidia_h264_settings(rc: RateControl) -> Seq<ObsEntryV> {
    let base = seq![
        number_entry("bf"@, 2),
        flag_entry("psycho_aq"@, true),
        flag_entry("lookahead"@, true),
        text_entry("profile"@, "high"@),
        text_entry("preset"@, "hq"@),
    ];
    match rc {
        RateControl::CBR(cbr) => base + seq![
            text_entry("rate_control"@, "CBR"@),
            number_entry("bitrate"@, cbr as i64),
        ],
        RateControl::VBR(vbr) => base + seq![
            text_entry("rate_control"@, "VBR"@),
            number_entry("bitrate"@, vbr as i64),
            number_entry("max_bitrate"@, spec_half_more(vbr)),
        ],
        RateControl::CQP(cqp) => base + seq![
            text_entry("rate_control"@, "CQP"@),
            number_entry("cqp"@, cqp as i64),
            number_entry("bitrate"@, 40000),
            number_entry("max_bitrate"@, 60000),
        ],
        _ => base,
    }
}

fn nvidia_h264_settings(rc: RateControl) -> (r: ObsData)
    ensures
        r@ == spec_nvidia_h264_settings(rc),
{
    let mut data = ObsData::new();
    data.set_int("bf", 2);
    data.set_bool("psycho_aq", true);
    data.set_bool("lookahead", true);
    data.set_string("profile", "high");
    data.set_string("preset", "hq");
    match rc {
        RateControl::CBR(cbr) => {
            data.set_string("rate_control", "CBR");
            data.set_int("bitrate", cbr as i64);
        },
        RateControl::VBR(vbr) => {
            data.set_string("rate_control", "VBR");
            data.set_int("bitrate", vbr as i64);
            data.set_int("max_bitrate", half_more(vbr));
        },
        RateControl::CQP(cqp) => {
            data.set_string("rate_control", "CQP");
            data.set_int("cqp", cqp as i64);
            data.set_int("bitrate", 40000);
            data.set_int("max_bitrate", 60000);
        },
        _ => {},
    }
    proof {
        assert(data@ =~= spec_nvidia_h264_settings(rc));
    }
    data
}

pub open spec fn spec_nvidia_av1_settings(rc: RateControl) -> Seq<ObsEntryV> {
    let base = seq![
        text_entry("rate_control"@, "CQP"@),
        text_entry("profile"@, "main"@),
    ];
    match rc {
        RateControl::CBR(cbr) => base + seq![
            text_entry("rate_control"@, "CBR"@),
            number_entry("bitrate"@, cbr as i64),
        ],
        RateControl::VBR(vbr) => base + seq![
            text_entry("rate_control"@, "VBR"@),
            number_entry("bitrate"@, vbr as i64),
            number_entry("max_bitrate"@, spec_half_more(vbr)),
        ],
        RateControl::CQP(cqp) => base + seq![
            text_entry("rate_control"@, "CQP"@),
            number_entry("cqp"@, cqp as i64),
            number_entry("bitrate"@, 40000),
            number_entry("max_bitrate"@, 60000),
        ],
        _ => base,
    }
}

fn nvidia_av1_settings(rc: RateControl) -> (r: ObsData)
    ensures
        r@ == spec_nvidia_av1_settings(rc),
{
    let mut data = ObsData::new();
    data.set_string("rate_control", "CQP");
    data.set_string("profile", "main");
    match rc {
        RateControl::CBR(cbr) => {
            data.set_string("rate_control", "CBR");
            data.set_int("bitrate", cbr as i64);
        },
        RateControl::VBR(vbr) => {
            data.set_string("rate_control", "VBR");
            data.set_int("bitrate", vbr as i64);
            data.set_int("max_bitrate", half_more(vbr));
        },
        RateControl::CQP(cqp) => {
            data.set_string("rate_control", "CQP");
            data.set_int("cqp", cqp as i64);
            data.set_int("bitrate", 40000);
            data.set_int("max_bitrate", 60000);
        },
        _ => {},
    }
    proof {
        assert(data@ =~= spec_nvidia_av1_settings(rc));
    }
    data
}

pub open spec fn spec_amd_amf_settings(rc: RateControl) -> Seq<ObsEntryV> {
    let base = seq![
        number_entry("bf"@, 1),
        number_entry("keyint_sec"@, 2),
        text_entry(
            "ffmpeg_opts"@,
            "MaxNumRefFrames=4 BReferenceEnable=1 BPicturesPattern=1 MaxConsecutiveBPictures=1 HighMotionQualityBoostEnable=1"@,
        ),
        text_entry("preset"@, "quality"@),
        text_entry("profile"@, "high"@),
    ];
    match rc {
        RateControl::CBR(cbr) => base + seq![
            text_entry("rate_control"@, "CBR"@),
            number_entry("bitrate"@, cbr as i64),
        ],
        RateControl::VBR(vbr) => base + seq![
            text_entry("rate_control"@, "VBR"@),
            number_entry("bitrate"@, vbr as i64),
        ],
        RateControl::CQP(q) | RateControl::ICQ(q) => base + seq![
            text_entry("rate_control"@, "CQP"@),
            number_entry("cqp"@, spec_clamp51(q) as i64),
        ],
        RateControl::CRF(_) => base,
    }
}

fn amd_amf_settings(rc: RateControl) -> (r: ObsData)
    ensures
        r@ == spec_amd_amf_settings(rc),
{
    let mut data = ObsData::new();
    data.set_int("bf", 1);
    data.set_int("keyint_sec", 2);
    data.set_string(
        "ffmpeg_opts",
        "MaxNumRefFrames=4 BReferenceEnable=1 BPicturesPattern=1 MaxConsecutiveBPictures=1 HighMotionQualityBoostEnable=1",
    );
    data.set_string("preset", "quality");
    data.set_string("profile", "high");
    match rc {
        RateControl::CBR(cbr) => {
            data.set_string("rate_control", "CBR");
            data.set_int("bitrate", cbr as i64);
        },
        RateControl::VBR(vbr) => {
            data.set_string("rate_control", "VBR");
            data.set_int("bitrate", vbr as i64);
        },
        RateControl::CQP(q) | RateControl::ICQ(q) => {
            let q = clamp51(q);
            data.set_string("rate_control", "CQP");
            data.set_int("cqp", q as i64);
        },
        RateControl::CRF(_) => {},
    }
    proof {
        assert(data@ =~= spec_amd_amf_settings(rc));
    }
    data
}

pub open spec fn spec_intel_quicksync_h264_settings(rc: RateControl) -> Seq<ObsEntryV> {
    let base = seq![text_entry("profile"@, "high"@)];
    match rc {
        RateControl::CBR(cbr) => base + seq![
            text_entry("rate_control"@, "CBR"@),
            number_entry("bitrate"@, cbr as i64),
            number_entry("max_bitrate"@, spec_half_more(cbr)),
        ],
        RateControl::VBR(vbr) => base + seq![
            text_entry("rate_control"@, "VBR"@),
            number_entry("bitrate"@, vbr as i64),
            number_entry("max_bitrate"@, spec_half_more(vbr)),
        ],
        RateControl::CQP(q) | RateControl::CRF(q) => base + seq![
            text_entry("rate_control"@, "CQP"@),
            number_entry("qpi"@, spec_clamp51(q) as i64),
            number_entry("qpp"@, spec_clamp51(q) as i64),
            number_entry("qpb"@, spec_clamp51(q) as i64),
        ],
        RateControl::ICQ(q) => base + seq![
            text_entry("rate_control"@, "ICQ"@),
            number_entry("icq_quality"@, spec_clamp51(q) as i64),
        ],
    }
}

fn intel_quicksync_h264_settings(rc: RateControl) -> (r: ObsData)
    ensures
        r@ == spec_intel_quicksync_h264_settings(rc),
{
    let mut data = ObsData::new();
    data.set_string("profile", "high");
    match rc {
        RateControl::CBR(cbr) => {
            data.set_string("rate_control", "CBR");
            data.set_int("bitrate", cbr as i64);
            data.set_int("max_bitrate", half_more(cbr));
        },
        RateControl::VBR(vbr) => {
            data.set_string("rate_control", "VBR");
            data.set_int("bitrate", vbr as i64);
            data.set_int("max_bitrate", half_more(vbr));
        },
        RateControl::CQP(q) | RateControl::CRF(q) => {
            let q = clamp51(q);
            data.set_string("rate_control", "CQP");
            data.set_int("qpi", q as i64);
            data.set_int("qpp", q as i64);
            data.set_int("qpb", q as i64);
        },
        RateControl::ICQ(q) => {
            let q = clamp51(q);
            data.set_string("rate_control", "ICQ");
            data.set_int("icq_quality", q as i64);
        },
    }
    proof {
        assert(data@ =~= spec_intel_quicksync_h264_settings(rc));
    }
    data
}

pub open spec fn spec_intel_quicksync_av1_settings(rc: RateControl) -> Seq<ObsEntryV> {
    let base = seq![text_entry("profile"@, "high"@)];
    match rc {
        RateControl::CQP(q) | RateControl::CRF(q) => base + seq![
            text_entry("rate_control"@, "CQP"@),
            number_entry("qpi"@, spec_clamp51(q) as i64),
            number_entry("qpp"@, spec_clamp51(q) as i64),
            number_entry("qpb"@, spec_clamp51(q) as i64),
        ],
        _ => base,
    }
}

fn intel_quicksync_av1_settings(rc: RateControl) -> (r: ObsData)
    ensures
        r@ == spec_intel_quicksync_av1_settings(rc),
{
    let mut data = ObsData::new();
    data.set_string("profile", "high");
    match rc {
        RateControl::CQP(q) | RateControl::CRF(q) => {
            let q = clamp51(q);
            data.set_string("rate_control", "CQP");
            data.set_int("qpi", q as i64);
            data.set_int("qpp", q as i64);
            data.set_int("qpb", q as i64);
        },
        _ => {},
    }
    proof {
        assert(data@ =~= spec_intel_quicksync_av1_settings(rc));
    }
    data
}

pub open spec fn spec_obs_x264_settings(rc: RateControl) -> Seq<ObsEntryV> {
    let base = seq![
        flag_entry("use_bufsize"@, true),
        text_entry("profile"@, "high"@),
        text_entry("preset"@, "veryfast"@),
    ];
    match rc {
        RateControl::CBR(cbr) => base + seq![
            text_entry("rate_control"@, "CBR"@),
            number_entry("bitrate"@, cbr as i64),
        ],
        RateControl::VBR(vbr) => base + seq![
            text_entry("rate_control"@, "VBR"@),
            number_entry("bitrate"@, vbr as i64),
        ],
        RateControl::CRF(q) | RateControl::CQP(q) => base + seq![
            text_entry("rate_control"@, "CRF"@),
            number_entry("crf"@, spec_clamp51(q) as i64),
        ],
        RateControl::ICQ(_) => base,
    }
}

fn obs_x264_settings(rc: RateControl) -> (r: ObsData)
    ensures
        r@ == spec_obs_x264_settings(rc),
{
    let mut data = ObsData::new();
    data.set_bool("use_bufsize", true);
    data.set_string("profile", "high");
    data.set_string("preset", "veryfast");
    match rc {
        RateControl::CBR(cbr) => {
            data.set_string("rate_control", "CBR");
            data.set_int("bitrate", cbr as i64);
        },
        RateControl::VBR(vbr) => {
            data.set_string("rate_control", "VBR");
            data.set_int("bitrate", vbr as i64);
        },
        RateControl::CRF(q) | RateControl::CQP(q) => {
            let q = clamp51(q);
            data.set_string("rate_control", "CRF");
            data.set_int("crf", q as i64);
        },
        RateControl::ICQ(_) => {},
    }
    proof {
        assert(data@ =~= spec_obs_x264_settings(rc));
    }
    data
}

/// Whether the enumerated identifiers list an identifier that maps to `e`.
pub open spec fn spec_id_listed(ids: Seq<Seq<char>>, e: Encoder) -> bool {
    exists|i: int| 0 <= i < ids.len() && spec_encoder_of_id(ids[i]) == Some(e)
}

/// Whether enumeration under the given adapter offers encoder `e`.
pub open spec fn spec_offered(ids: Seq<Seq<char>>, at: AdapterType, e: Encoder) -> bool {
    spec_matches_adapter(e, at) && spec_id_listed(ids, e)
}

/// The encoders offered among the first `i` catalog entries, in catalog
/// order.
pub open spec fn spec_available_prefix(ids: Seq<Seq<char>>, at: AdapterType, i: int) -> Seq<
    Encoder,
>
    decreases i,
{
    if i <= 0 {
        Seq::<Encoder>::empty()
    } else {
        spec_available_prefix(ids, at, i - 1) + (if spec_offered(ids, at, spec_catalog()[i - 1]) {
            seq![spec_catalog()[i - 1]]
        } else {
            Seq::<Encoder>::empty()
        })
    }
}

/// The ordered set of encoders available on the given adapter: every catalog
/// entry that the backend's enumeration lists and whose vendor matches, in
/// the catalog's fixed preference order.
pub open spec fn spec_available_encoders(ids: Seq<Seq<char>>, at: AdapterType) -> Seq<Encoder> {
    spec_available_prefix(ids, at, spec_catalog().len() as int)
}

/// Whether the enumerated identifiers list an identifier that maps to `e`.
fn id_listed(ids: &Vec<String>, e: Encoder) -> (r: bool)
    ensures
        r == spec_id_listed(ids@.map_values(|s: String| s@), e),
{
    let ghost idsv = ids@.map_values(|s: String| s@);
    let mut i: usize = 0;
    while i < ids.len()
        invariant
            idsv == ids@.map_values(|s: String| s@),
            i <= ids.len(),
            forall|k: int| 0 <= k < i ==> spec_encoder_of_id(idsv[k]) != Some(e),
        decreases ids.len() - i,
    {
        let found = Encoder::from_id(ids[i].as_str());
        if let Some(enc) = found {
            if enc == e {
                proof {
                    assert(spec_encoder_of_id(idsv[i as int]) == Some(e));
                }
                return true;
            }
        }
        i += 1;
    }
    false
}

/// The encoders available on the given adapter, from the identifiers the
/// backend enumerated: unknown identifiers are dropped, vendors that do not
/// match are filtered out, and the result keeps the catalog's preference
/// order.
pub fn available_encoders_from(ids: &Vec<String>, adapter: &Adapter) -> (r: Vec<Encoder>)
    ensures
        r@ == spec_available_encoders(ids@.map_values(|s: String| s@), adapter@.adapter_type),
{
    let ghost idsv = ids@.map_values(|s: String| s@);
    let ghost at = adapter@.adapter_type;
    let cat = catalog();
    let mut out: Vec<Encoder> = Vec::new();
    let mut k: usize = 0;
    proof {
        assert(out@ =~= spec_available_prefix(idsv, at, 0));
    }
    while k < cat.len()
        invariant
            cat@ == spec_catalog(),
            idsv == ids@.map_values(|s: String| s@),
            at == adapter@.adapter_type,
            k <= cat.len(),
            out@ == spec_available_prefix(idsv, at, k as int),
        decreases cat.len() - k,
    {
        let e = cat[k];
        if e.matches_adapter(adapter) && id_listed(ids, e) {
            out.push(e);
        }
        proof {
            assert(out@ =~= spec_available_prefix(idsv, at, k + 1));
        }
        k += 1;
    }
    out
}

/// Encoder filtering: whatever the backend enumerates, an encoder is offered
/// only when its vendor matches the adapter, so an adapter of one vendor is
/// never offered another vendor's hardware encoder; and the software
/// fallback is offered whenever the backend lists it, on every vendor.
pub proof fn lemma_encoder_filtering(ids: Seq<Seq<char>>, at: AdapterType)
    ensures
        forall|e: Encoder|
            spec_available_encoders(ids, at).contains(e) ==> spec_matches_adapter(e, at),
        spec_id_listed(ids, Encoder::OBS_X264) ==> spec_available_encoders(ids, at).contains(
            Encoder::OBS_X264,
        ),
{
    assert forall|e: Encoder| spec_available_encoders(ids, at).contains(e) implies
        spec_matches_adapter(e, at) by {
        lemma_available_prefix_offered(ids, at, spec_catalog().len() as int, e);
    }
    if spec_id_listed(ids, Encoder::OBS_X264) {
        assert(spec_catalog()[7] == Encoder::OBS_X264);
        assert(spec_offered(ids, at, Encoder::OBS_X264));
        let prefix = spec_available_prefix(ids, at, 7);
        assert(spec_available_encoders(ids, at) == prefix + seq![Encoder::OBS_X264]);
        assert(spec_available_encoders(ids, at)[prefix.len() as int] == Encoder::OBS_X264);
    }
}

/// Every encoder in an available-encoders prefix is offered: its identifier
/// was enumerated and its vendor matches the adapter.
proof fn lemma_available_prefix_offered(ids: Seq<Seq<char>>, at: AdapterType, i: int, e: Encoder)
    requires
        spec_available_prefix(ids, at, i).contains(e),
    ensures
        spec_offered(ids, at, e),
    decreases i,
{
    if i > 0 {
        let prefix = spec_available_prefix(ids, at, i - 1);
        if prefix.contains(e) {
            lemma_available_prefix_offered(ids, at, i - 1, e);
        } else {
            let whole = spec_available_prefix(ids, at, i);
            let j = choose|j: int| 0 <= j < whole.len() && whole[j] == e;
            assert(j >= prefix.len());
        }
    }
}

} // verus!
